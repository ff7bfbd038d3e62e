use backblaze_b2::auth::keys::{CreateKey, DeleteKey, ListKeys};
use backblaze_b2::auth::{Allowed, B2AuthResponse, B2Authorization, Capabilities};
use backblaze_b2::buckets::{
    BucketType, CorsRule, CreateBucket, DeleteBucket, GetBucket, LifecycleRule, ListBuckets,
    UpdateBucket,
};
use backblaze_b2::files::upload::GetUploadUrl;
use backblaze_b2::files::{GetFileInfo, ListFileNames};

fn authorization() -> B2Authorization {
    B2Authorization::from(
        "acc".to_string(),
        B2AuthResponse {
            account_id: "acc".to_string(),
            authorization_token: "tok".to_string(),
            allowed: Allowed::new(Capabilities::all(), None, None, None),
            api_url: "https://api".to_string(),
            download_url: "https://dl".to_string(),
            recommended_part_size: 1,
            absolute_minimum_part_size: 1,
        },
    )
}

#[test]
fn key_calls_are_built_step_by_step() {
    let auth = authorization();
    let mut caps = Capabilities::empty();
    caps.delete_keys = true;
    let call = CreateKey::new(&auth, caps, "rust-test-key");
    assert_eq!(call.key_name, "rust-test-key");
    assert!(call.capabilities == caps);
    assert_eq!(call.duration, None);
    assert_eq!(call.bucket_id, None);
    assert_eq!(call.name_prefix, None);
    let call = call.duration(60).bucket_id("b1").name_prefix("logs/");
    assert_eq!(call.duration, Some(60));
    assert_eq!(call.bucket_id, Some("b1"));
    assert_eq!(call.name_prefix, Some("logs/"));
    assert_eq!(call.key_name, "rust-test-key");
    assert_eq!(call.auth.authorization_token, "tok");

    assert_eq!(DeleteKey::new(&auth, "k1").key_id, "k1");
    let list = ListKeys::new(&auth);
    assert_eq!(list.max_key_count, None);
    assert_eq!(list.start_key_id, None);
    let list = list.start_key_id("k7").max_key_count(100);
    assert_eq!(list.max_key_count, Some(100));
    assert_eq!(list.start_key_id, Some("k7"));
}

#[test]
fn bucket_calls_are_built_step_by_step() {
    let auth = authorization();
    let rules = vec![LifecycleRule::new(None, Some(1), "tmp/".to_string())];
    let cors = vec![CorsRule::new("n".to_string(), vec![], vec![], vec![], vec![], 5)];
    let infos = vec![("k".to_string(), "v".to_string())];

    let call = CreateBucket::new(&auth, "name", BucketType::Private);
    assert_eq!(call.bucket_name, "name");
    assert!(call.bucket_info.is_none() && call.cors_rules.is_none());
    assert!(call.lifecycle_rules.is_none());
    let call = call.bucket_info(&infos).cors_rules(&cors).lifecycle_rules(&rules);
    assert_eq!(call.bucket_info.unwrap().len(), 1);
    assert_eq!(call.cors_rules.unwrap()[0].max_age_seconds, 5);
    assert_eq!(call.lifecycle_rules.unwrap()[0].file_name_prefix, "tmp/");
    assert_eq!(call.bucket_type.as_str(), "allPrivate");

    assert_eq!(DeleteBucket::new(&auth, "b1").bucket_id, "b1");

    let types = vec![BucketType::Public, BucketType::Snapshot];
    let list = ListBuckets::new(&auth);
    assert!(list.bucket_types.is_none());
    let list = list.bucket_types(&types);
    assert_eq!(list.bucket_types.unwrap().len(), 2);

    let by_name = GetBucket::by_name(&auth, "n");
    assert_eq!((by_name.bucket_name, by_name.bucket_id), (Some("n"), None));
    let by_id = GetBucket::by_id(&auth, "i");
    assert_eq!((by_id.bucket_name, by_id.bucket_id), (None, Some("i")));

    let update = UpdateBucket::new(&auth, "b1");
    assert_eq!(update.bucket_id, "b1");
    assert!(update.bucket_type.is_none() && update.if_revision_is.is_none());
    assert!(update.bucket_info.is_none() && update.cors_rules.is_none());
    assert!(update.lifecycle_rules.is_none());
    let update = update
        .if_revision_is(3)
        .bucket_type(BucketType::Public)
        .bucket_info(&infos)
        .cors_rules(&cors)
        .lifecycle_rules(&rules);
    assert_eq!(update.if_revision_is, Some(3));
    assert_eq!(update.bucket_type.as_ref().unwrap().as_str(), "allPublic");
    assert_eq!(update.bucket_info.unwrap()[0].1, "v");
    assert_eq!(update.cors_rules.unwrap().len(), 1);
    assert_eq!(update.lifecycle_rules.unwrap().len(), 1);
}

#[test]
fn file_calls_are_built_step_by_step() {
    let auth = authorization();
    assert_eq!(GetFileInfo::new(&auth, "f1").file_id, "f1");
    assert_eq!(GetUploadUrl::new(&auth, "b1").bucket_id, "b1");
    let list = ListFileNames::new(&auth, "b1");
    assert_eq!(list.bucket_id, "b1");
    assert_eq!(list.max_file_count, None);
    assert_eq!(list.start_file_name, None);
    assert_eq!(list.prefix, None);
    assert_eq!(list.delimiter, None);
    let list = list.delimiter("/").prefix("photos/").start_file_name("photos/b").max_file_count(10);
    assert_eq!(list.max_file_count, Some(10));
    assert_eq!(list.start_file_name, Some("photos/b"));
    assert_eq!(list.prefix, Some("photos/"));
    assert_eq!(list.delimiter, Some("/"));
}
