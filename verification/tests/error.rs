use backblaze_b2::error::{decoded, IoKind};
use backblaze_b2::{B2Error, B2ErrorMessage};

fn sent(status: u32, code: &str, message: &str) -> B2Error {
    B2Error::B2Error(
        status as u16,
        B2ErrorMessage {
            code: code.to_string(),
            message: message.to_string(),
            status,
        },
    )
}

/// An error that names an I/O error as its source.
#[derive(Debug)]
struct Behind(std::io::Error);

impl std::fmt::Display for Behind {
    fn fmt(&self, f: &mut std::fmt::Formatter<'_>) -> std::fmt::Result {
        f.write_str("behind")
    }
}

impl std::error::Error for Behind {
    fn source(&self) -> Option<&(dyn std::error::Error + 'static)> {
        Some(&self.0)
    }
}

/// An error of the decoder whose source is an I/O error of the given kind.
fn json_error_from(kind: std::io::ErrorKind) -> serde_json::Error {
    let inner = std::io::Error::new(kind, "x");
    serde_json::Error::io(std::io::Error::new(std::io::ErrorKind::Other, Behind(inner)))
}

fn json_error() -> serde_json::Error {
    serde_json::from_slice::<u32>(b"x").unwrap_err()
}

#[test]
fn status_questions() {
    assert!(sent(500, "", "").is_service_unavilable());
    assert!(sent(599, "", "").is_service_unavilable());
    assert!(!sent(499, "", "").is_service_unavilable());
    assert!(!sent(600, "", "").is_service_unavilable());
    assert!(sent(429, "", "").is_too_many_requests());
    assert!(!sent(428, "", "").is_too_many_requests());
    for status in [408, 429, 503] {
        assert!(sent(status, "", "").should_back_off());
    }
    assert!(!sent(500, "", "").should_back_off());
    assert!(sent(409, "", "").is_conflict());
    assert!(!sent(400, "", "").is_conflict());
    let other = B2Error::api("x");
    assert!(!other.is_service_unavilable());
    assert!(!other.is_too_many_requests());
    assert!(!other.should_back_off());
    assert!(!other.is_conflict());
}

#[test]
fn authorization_questions() {
    for message in [
        "B2 has not been enabled for this account",
        "User is in B2 suspend",
        "Cannot authorize domain site license account",
        "Invalid authorization",
        "Account is missing a mobile phone number. Please update account settings.",
    ] {
        assert!(sent(401, "", message).is_credentials_issue());
    }
    assert!(!sent(401, "", "Invalid authorization token").is_credentials_issue());
    assert!(sent(401, "bad_auth_token", "").is_wrong_credentials());
    assert!(!sent(401, "bad_auth_tokens", "").is_wrong_credentials());
    assert!(sent(401, "expired_auth_token", "").is_expired_authentication());
    assert!(!sent(400, "expired_auth_token", "").is_expired_authentication());
    assert!(!sent(401, "expired", "").is_expired_authentication());

    assert!(sent(401, "expired_auth_token", "").is_authorization_issue());
    assert!(sent(400, "", "Account 123 does not exist").is_authorization_issue());
    assert!(!sent(400, "", "Account 123 does not exist.").is_authorization_issue());
    assert!(!sent(400, "", "account 123 does not exist").is_authorization_issue());
    assert!(sent(400, "", "Bucket is not authorized: b1").is_authorization_issue());
    for message in [
        "Invalid authorization token",
        "Authorization token for wrong cluster",
        "Not authorized",
        "AccountId bad",
    ] {
        assert!(sent(400, "", message).is_authorization_issue());
    }
    assert!(!sent(400, "", "No Authorization header").is_authorization_issue());
    assert!(!B2Error::api("Not authorized").is_authorization_issue());
}

#[test]
fn new_authorization_is_needed_after_lost_connections_and_refused_tokens() {
    let plain = sent(400, "", "something");
    for kind in [
        IoKind::BrokenPipe,
        IoKind::ConnectionRefused,
        IoKind::ConnectionReset,
        IoKind::ConnectionAborted,
        IoKind::NotConnected,
        IoKind::TimedOut,
    ] {
        assert!(kind.is_disconnect());
        assert!(plain.needs_new_authentication(kind));
    }
    assert!(!IoKind::Other.is_disconnect());
    assert!(!IoKind::InvalidData.is_disconnect());
    assert!(!plain.needs_new_authentication(IoKind::Other));
    assert!(sent(503, "", "").needs_new_authentication(IoKind::Other));
    assert!(sent(400, "", "Not authorized").needs_new_authentication(IoKind::Other));

    assert!(!plain.should_obtain_new_authentication());
    assert!(sent(500, "", "").should_obtain_new_authentication());
    assert!(sent(401, "expired_auth_token", "").should_obtain_new_authentication());
    let reset = std::io::Error::new(std::io::ErrorKind::ConnectionReset, "reset");
    assert!(B2Error::IOError(reset).should_obtain_new_authentication());
    let denied = std::io::Error::new(std::io::ErrorKind::PermissionDenied, "no");
    assert!(!B2Error::IOError(denied).should_obtain_new_authentication());
    assert!(!B2Error::JsonError(json_error()).should_obtain_new_authentication());
    // the decoder names as its source what lies behind the I/O error that it met
    let timeout = json_error_from(std::io::ErrorKind::TimedOut);
    assert!(B2Error::JsonError(timeout).should_obtain_new_authentication());
    let timeout = std::io::Error::new(std::io::ErrorKind::TimedOut, "late");
    assert!(!B2Error::JsonError(serde_json::Error::io(timeout)).should_obtain_new_authentication());
}

#[test]
fn io_kinds() {
    assert_eq!(sent(400, "", "").get_io_kind(), IoKind::Other);
    assert_eq!(B2Error::api("x").get_io_kind(), IoKind::InvalidData);
    assert_eq!(B2Error::JsonError(json_error()).get_io_kind(), IoKind::InvalidData);
    let pipe = std::io::Error::new(std::io::ErrorKind::BrokenPipe, "pipe");
    assert_eq!(B2Error::IOError(pipe).get_io_kind(), IoKind::BrokenPipe);
    assert_eq!(
        B2Error::JsonError(json_error_from(std::io::ErrorKind::NotConnected)).get_io_kind(),
        IoKind::NotConnected
    );
    let plain = std::io::Error::new(std::io::ErrorKind::NotConnected, "x");
    assert_eq!(
        B2Error::JsonError(serde_json::Error::io(plain)).get_io_kind(),
        IoKind::InvalidData
    );
    let http = http::Request::builder().method("no method").body(()).unwrap_err();
    assert_eq!(B2Error::HttpError(http).get_io_kind(), IoKind::InvalidData);
    assert_eq!(B2Error::aborted().get_io_kind(), IoKind::Other);
}

#[test]
fn file_questions() {
    for message in [
        "File names must contain at least one character",
        "File names in UTF8 must be no more than 1000 bytes",
        "File names must not start with '/'",
        "File names must not end with '/'",
        "File names must not contain '\\'",
        "File names must not contain DELETE",
        "File names must not contain '//'",
        "File names segment must not be more than 250 bytes",
    ] {
        assert!(sent(400, "", message).is_invalid_file_name());
    }
    assert!(!sent(400, "", "File names").is_invalid_file_name());

    assert!(sent(404, "no_such_file", "").is_file_not_found());
    assert!(sent(400, "", "Invalid fileId: 4_z").is_file_not_found());
    assert!(sent(400, "", "Not a valid file id: 4_z").is_file_not_found());
    assert!(sent(404, "", "File not present: a.txt").is_file_not_found());
    assert!(sent(404, "", "Bucket b does not have file: a").is_file_not_found());
    assert!(!sent(404, "", "bucket b does not have file: a").is_file_not_found());
    assert!(!sent(404, "", "Bucket b has file: a").is_file_not_found());
    for message in ["file_state_deleted", "file_state_none", "file_state_unknown"] {
        assert!(sent(400, "", message).is_file_not_found());
    }
    assert!(!sent(400, "", "file_state").is_file_not_found());

    assert!(sent(400, "already_hidden", "").is_file_already_hidden());
    assert!(!sent(400, "hidden", "").is_file_already_hidden());
    assert!(sent(416, "range_not_satisfiable", "").is_range_out_of_bounds());
    assert!(!sent(416, "range", "").is_range_out_of_bounds());
    assert!(sent(400, "", "Sha1 did not match data received").is_invalid_sha1());
    assert!(!sent(400, "", "Sha1 did not match").is_invalid_sha1());
}

#[test]
fn bucket_questions() {
    assert!(sent(400, "too_many_buckets", "").is_maximum_bucket_limit());
    assert!(!sent(401, "too_many_buckets", "").is_maximum_bucket_limit());
    assert!(sent(400, "duplicate_bucket_name", "").is_duplicate_bucket_name());
    assert!(!sent(409, "duplicate_bucket_name", "").is_duplicate_bucket_name());
    for message in [
        "bucketName must be at least 6 characters long",
        "bucketName can be at most 50 characters long",
        "Invalid characters in bucketName: must be alphanumeric or '-'",
    ] {
        assert!(sent(400, "", message).is_invalid_bucket_name());
        assert!(!sent(401, "", message).is_invalid_bucket_name());
    }
    for message in [
        "Bucket does not exist: b",
        "Invalid bucket id: b",
        "Invalid bucketId: b",
        "bad bucketId",
        "invalid_bucket_id",
        "BucketId not valid for account",
        "Bucket b does not exist",
        "bucket b does not exist",
        "Bucket b is not a B2 bucket",
        "bucket b is not a B2 bucket",
    ] {
        assert!(sent(400, "", message).is_bucket_not_found());
    }
    assert!(!sent(400, "", "Bucket b exists").is_bucket_not_found());
    assert!(!sent(400, "", "The bucket b does not exist").is_bucket_not_found());
    assert!(!B2Error::api("bad bucketId").is_bucket_not_found());
}

#[test]
fn other_questions() {
    assert!(sent(403, "cap_exceeded", "").is_cap_exceeded());
    assert!(!sent(403, "cap", "").is_cap_exceeded());
    for message in [
        "Snapshot buckets are reserved for Backblaze use",
        "Allow snapshot header must be specified when deleting a file from a snapshot bucket",
        "Cannot change a bucket to a snapshot bucket",
    ] {
        assert!(sent(400, "", message).is_snapshot_interaction_failure());
    }
    assert!(!sent(400, "", "Snapshot").is_snapshot_interaction_failure());
    assert!(sent(400, "", "Prefix must not start with delimiter").is_prefix_issue());
    assert!(sent(400, "", "Prefix must be 1 or more characters long").is_prefix_issue());
    assert!(!sent(400, "", "Prefix").is_prefix_issue());
    assert!(sent(400, "", "Delimiter must be within acceptable list").is_invalid_delimiter());
    assert!(!sent(400, "", "Delimiter").is_invalid_delimiter());
}

#[test]
fn errors_are_written_out() {
    assert_eq!(
        sent(401, "bad_auth_token", "Invalid authorization token").describe(),
        "401 (bad_auth_token): Invalid authorization token"
    );
    assert_eq!(sent(0, "", "").describe(), "0 (): ");
    assert_eq!(sent(4294967295, "c", "m").describe(), "4294967295 (c): m");
    assert_eq!(B2Error::api("Invalid json").describe(), "Invalid json");
    let err = json_error();
    let text = err.to_string();
    assert_eq!(B2Error::JsonError(err).describe(), text);
    assert_eq!(
        B2Error::aborted().describe(),
        "Executor dropped AuthTask before it was completed."
    );
}

#[test]
fn decoder_results_become_errors_of_the_client() {
    let good: Result<u32, serde_json::Error> = serde_json::from_slice(b"17");
    assert_eq!(decoded(good).unwrap(), 17);
    let bad: Result<u32, serde_json::Error> = serde_json::from_slice(b"{}");
    assert!(matches!(decoded(bad), Err(B2Error::JsonError(_))));

    let message = B2ErrorMessage {
        code: "c".to_string(),
        message: "m".to_string(),
        status: 404,
    };
    match B2Error::from_response(404, Ok(message.duplicate())) {
        B2Error::B2Error(404, m) => {
            assert_eq!(m.code, "c");
            assert_eq!(m.message, "m");
            assert_eq!(m.status, 404);
        }
        other => panic!("unexpected: {:?}", other),
    }
    assert!(matches!(
        B2Error::from_response(500, Err(json_error())),
        B2Error::JsonError(_)
    ));
}
