use backblaze_b2::auth::{Allowed, B2AuthResponse, B2Authorization, Capabilities};
use backblaze_b2::source::auth_source::Authentication;
use backblaze_b2::source::AuthSource;
use backblaze_b2::B2Error;

fn authorization(token: &str) -> B2Authorization {
    B2Authorization::from(
        "account".to_string(),
        B2AuthResponse {
            account_id: "account".to_string(),
            authorization_token: token.to_string(),
            allowed: allowed_all(),
            api_url: "https://api.example".to_string(),
            download_url: "https://dl.example".to_string(),
            recommended_part_size: 100_000_000,
            absolute_minimum_part_size: 5_000_000,
        },
    )
}

fn allowed_all() -> Allowed {
    Allowed::new(Capabilities::all(), None, None, None)
}

#[test]
fn many_callers_start_one_request_and_get_one_outcome() {
    let mut source: AuthSource<u32> = AuthSource::new();
    assert!(!source.has_active_auth());
    let mut started = 0;
    for waiter in 0..50u32 {
        match source.authentication(waiter) {
            Authentication::Waiting { start } => {
                if start {
                    started += 1;
                    assert_eq!(waiter, 0);
                }
            }
            Authentication::Ready(_, _) => panic!("there is no authorization yet"),
        }
    }
    assert_eq!(started, 1);
    let outcome = Ok(authorization("t1"));
    let told = source.finish(&outcome);
    assert_eq!(told, (0..50u32).collect::<Vec<u32>>());
    assert!(source.has_active_auth());
    // from now on everyone is served at once
    match source.authentication(99) {
        Authentication::Ready(auth, waiter) => {
            assert_eq!(auth.authorization_token, "t1");
            assert_eq!(waiter, 99);
        }
        Authentication::Waiting { .. } => panic!("the authorization is at hand"),
    }
    let told = source.finish(&outcome);
    assert!(told.is_empty());
}

#[test]
fn failure_is_told_to_all_and_the_next_caller_tries_again() {
    let mut source: AuthSource<&'static str> = AuthSource::new();
    assert!(matches!(source.authentication("a"), Authentication::Waiting { start: true }));
    assert!(matches!(source.authentication("b"), Authentication::Waiting { start: false }));
    let outcome: Result<B2Authorization, B2Error> = Err(B2Error::api("down"));
    let told = source.finish(&outcome);
    assert_eq!(told, vec!["a", "b"]);
    assert!(!source.has_active_auth());
    assert!(source.try_get_active_authentication().is_none());
    assert!(matches!(source.authentication("c"), Authentication::Waiting { start: true }));
}

#[test]
fn stale_report_is_ignored_and_current_report_starts_one_request() {
    let mut source: AuthSource<u8> = AuthSource::new();
    let old = authorization("old");
    let new = authorization("new");
    source.provide_auth(new.duplicate());
    // a caller that still holds the old authorization reports it
    assert!(!source.reauthenticate(&old));
    assert!(source.has_active_auth());
    assert_eq!(
        source.try_get_active_authentication().unwrap().authorization_token,
        "new"
    );
    // a caller that holds the current one reports it
    assert!(source.reauthenticate(&new));
    assert!(!source.has_active_auth());
    // until the request ends nobody starts another
    assert!(!source.reauthenticate(&new));
    assert!(!source.reauthenticate(&old));
    assert!(matches!(source.authentication(1), Authentication::Waiting { start: false }));
    let told = source.finish(&Ok(authorization("newer")));
    assert_eq!(told, vec![1]);
    assert_eq!(
        source.try_get_active_authentication().unwrap().authorization_token,
        "newer"
    );
}

#[test]
fn report_without_an_authorization_starts_a_request() {
    let mut source: AuthSource<u8> = AuthSource::new();
    assert!(source.reauthenticate(&authorization("any")));
    assert!(!source.reauthenticate(&authorization("any")));
}

#[test]
fn provided_authorization_is_replaced_by_the_outcome_of_a_request() {
    let mut source: AuthSource<u8> = AuthSource::new();
    assert!(matches!(source.authentication(1), Authentication::Waiting { start: true }));
    source.provide_auth(authorization("provided"));
    match source.authentication(2) {
        Authentication::Ready(auth, 2) => assert_eq!(auth.authorization_token, "provided"),
        _ => panic!("the provided authorization was not handed out"),
    }
    // a report on the provided one while the request is under way changes nothing
    assert!(!source.reauthenticate(&authorization("provided")));
    assert!(source.has_active_auth());
    let told = source.finish(&Ok(authorization("fetched")));
    assert_eq!(told, vec![1]);
    assert_eq!(
        source.try_get_active_authentication().unwrap().authorization_token,
        "fetched"
    );
}

#[test]
fn aborted_leader_releases_everyone() {
    let mut source: AuthSource<u8> = AuthSource::new();
    assert!(matches!(source.authentication(1), Authentication::Waiting { start: true }));
    assert!(matches!(source.authentication(2), Authentication::Waiting { start: false }));
    assert!(matches!(source.authentication(3), Authentication::Waiting { start: false }));
    let (told, err) = source.abort();
    assert_eq!(told, vec![1, 2, 3]);
    match err {
        B2Error::IOError(io) => {
            assert_eq!(io.kind(), std::io::ErrorKind::Other);
            assert_eq!(
                io.to_string(),
                "Executor dropped AuthTask before it was completed."
            );
        }
        other => panic!("unexpected: {:?}", other),
    }
    assert!(!source.has_active_auth());
    // the next caller becomes the leader
    assert!(matches!(source.authentication(4), Authentication::Waiting { start: true }));
}

#[test]
fn authorizations_are_compared_by_value() {
    let a = authorization("t");
    let b = authorization("t");
    assert!(a.eq(&b));
    let mut c = authorization("t");
    c.recommended_part_size += 1;
    assert!(!a.eq(&c));
    let mut d = authorization("t");
    d.allowed.bucket_id = Some("b1".to_string());
    assert!(!a.eq(&d));
    let mut e = authorization("t");
    e.allowed.capabilities.write_files = false;
    assert!(!a.eq(&e));
    assert!(d.eq(&d.duplicate()));
}

#[test]
fn account_id_is_the_one_that_the_service_names() {
    let resp = B2AuthResponse {
        account_id: "named".to_string(),
        authorization_token: "t".to_string(),
        allowed: allowed_all(),
        api_url: "a".to_string(),
        download_url: "d".to_string(),
        recommended_part_size: 1,
        absolute_minimum_part_size: 1,
    };
    let auth = B2Authorization::from_response(&"asked".to_string(), resp);
    assert_eq!(auth.account_id, "named");
    assert_eq!(auth.auth_token(), "t");
}
