use backblaze_b2::auth::capabilities::name_of;
use backblaze_b2::auth::keys::{Key, KeyWithSecret, Secret};
use backblaze_b2::auth::{Allowed, B2AuthResponse, B2Authorization, B2Credentials, Capabilities};

#[test]
fn capabilities_count_what_is_set() {
    let mut cap = Capabilities::empty();
    assert!(cap.is_empty());
    assert_eq!(cap.len(), 0);
    cap.read_files = true;
    assert!(!cap.is_empty());
    assert_eq!(cap.len(), 1);
    cap.write_files = true;
    assert_eq!(cap.len(), 2);
    assert_eq!(Capabilities::all().len(), 11);
    assert!(!Capabilities::all().is_empty());
    assert!(Capabilities::empty() == Capabilities::empty());
    assert!(Capabilities::empty() != cap);
}

#[test]
fn capabilities_iterate_in_the_order_of_the_service() {
    let mut cap = Capabilities::empty();
    cap.read_files = true;
    let mut iter = cap.iter();
    let mut list: Vec<&'static str> = Vec::new();
    while let Some(name) = iter.next() {
        list.push(name);
    }
    assert_eq!(list, vec!["readFiles"]);
    // once at the end, always at the end
    for _ in 0..600 {
        assert_eq!(iter.next(), None);
    }
    assert_eq!(cap.names(), vec!["readFiles"]);

    let all = Capabilities::all();
    let expected = vec![
        "listKeys",
        "writeKeys",
        "deleteKeys",
        "listBuckets",
        "writeBuckets",
        "deleteBuckets",
        "listFiles",
        "readFiles",
        "shareFiles",
        "writeFiles",
        "deleteFiles",
    ];
    assert_eq!(all.names(), expected);
    let mut iter = all.iter();
    for name in &expected {
        assert_eq!(iter.next(), Some(*name));
    }
    assert_eq!(iter.next(), None);
    for k in 1..=11u8 {
        assert_eq!(name_of(k), expected[(k - 1) as usize]);
        assert!(all.get(k));
    }
    assert!(!all.get(0));
    assert!(!all.get(12));
    assert_eq!(Capabilities::empty().names(), Vec::<&str>::new());

    let mut some = Capabilities::empty();
    some.delete_files = true;
    some.list_keys = true;
    some.list_buckets = true;
    assert_eq!(some.names(), vec!["listKeys", "listBuckets", "deleteFiles"]);
}

#[test]
fn capabilities_are_set_by_name() {
    let mut cap = Capabilities::empty();
    assert!(cap.set_by_name("shareFiles"));
    assert!(cap.share_files);
    assert_eq!(cap.len(), 1);
    assert!(!cap.set_by_name("sharefiles"));
    assert!(!cap.set_by_name(""));
    assert!(!cap.set_by_name("somethingNew"));
    assert_eq!(cap.len(), 1);
    let mut all = Capabilities::empty();
    for name in Capabilities::all().names() {
        assert!(all.set_by_name(name));
    }
    assert!(all == Capabilities::all());
}

#[test]
fn credentials_make_a_basic_authorization_header() {
    let creds = B2Credentials::new("user", "pass");
    assert_eq!(creds.id, "user");
    assert_eq!(creds.key, "pass");
    assert_eq!(creds.auth_string(), "Basic dXNlcjpwYXNz");
    let creds = B2Credentials::new_shared("0014a".to_string(), "K001+/=".to_string());
    assert_eq!(creds.auth_string(), format!("Basic {}", base64::encode("0014a:K001+/=")));
    let creds = B2Credentials::new("", "");
    assert_eq!(creds.auth_string(), "Basic Og==");
}

fn key() -> Key {
    let with = KeyWithSecret {
        account_id: "acc".to_string(),
        key_name: "name".to_string(),
        key_id: "kid".to_string(),
        capabilities: Capabilities::all(),
        expiration_timestamp: Some(17),
        bucket_id: None,
        name_prefix: Some("p/".to_string()),
        secret: Secret::new("s3cret".to_string()),
    };
    Key::from(with)
}

#[test]
fn key_and_secret_part_and_join() {
    let joined = key().with_secret(Secret::new("s3cret".to_string()));
    assert_eq!(joined.secret.as_str(), "s3cret");
    assert_eq!(joined.key_id, "kid");
    let creds = joined.as_credentials();
    assert_eq!(creds.id, "kid");
    assert_eq!(creds.key, "s3cret");
    assert_eq!(creds.auth_string(), format!("Basic {}", base64::encode("kid:s3cret")));
    let (plain, secret) = joined.clone().split();
    assert_eq!(secret.as_str(), "s3cret");
    assert_eq!(plain.account_id, "acc");
    assert_eq!(plain.key_name, "name");
    assert_eq!(plain.expiration_timestamp, Some(17));
    assert_eq!(plain.bucket_id, None);
    assert_eq!(plain.name_prefix, Some("p/".to_string()));
    let (plain2, text) = joined.without_secret();
    assert_eq!(text, "s3cret");
    assert_eq!(plain2.key_id, plain.duplicate().key_id);
}

#[test]
fn authorization_names_the_address_of_a_call() {
    let auth = B2Authorization::from(
        "acc".to_string(),
        B2AuthResponse {
            account_id: "acc".to_string(),
            authorization_token: "tok".to_string(),
            allowed: Allowed::new(Capabilities::empty(), Some("b".to_string()), None, None),
            api_url: "https://api001.backblazeb2.com".to_string(),
            download_url: "https://f001.backblazeb2.com".to_string(),
            recommended_part_size: 100,
            absolute_minimum_part_size: 5,
        },
    );
    assert_eq!(
        auth.api_call_url("b2_list_buckets"),
        "https://api001.backblazeb2.com/b2api/v2/b2_list_buckets"
    );
    assert_eq!(auth.allowed.bucket_id, Some("b".to_string()));
    assert!(auth.allowed.eq(&auth.allowed.duplicate()));
}
