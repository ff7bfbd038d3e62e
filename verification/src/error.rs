//! The error type shared by every part of the client, and the questions that can be
//! asked of an error.
//!
//! Errors of the service are kept as they were received. The questions go by the
//! status, the code and the message that the service sent; a message is compared by
//! its UTF-8 bytes.

use crate::text::{
    begins_with, ends_with, holds, same_text, text_begins_with, text_ends_with, text_holds,
};
use crate::text::{decimal, spec_decimal};
use vstd::prelude::*;
use vstd::string::StringExecFns;
use vstd::utf8::encode_utf8;

verus! {

#[verifier::external_type_specification]
#[verifier::external_body]
pub struct ExHyperError(hyper::Error);

#[verifier::external_type_specification]
#[verifier::external_body]
pub struct ExHttpError(http::Error);

#[verifier::external_type_specification]
#[verifier::external_body]
pub struct ExIoError(std::io::Error);

#[verifier::external_type_specification]
#[verifier::external_body]
pub struct ExJsonError(serde_json::Error);

/// The body of an error response of the B2 service.
#[derive(Debug, Clone)]
pub struct B2ErrorMessage {
    pub code: String,
    pub message: String,
    pub status: u32,
}

/// Anything that can go wrong while talking to the B2 service.
#[derive(Debug)]
#[non_exhaustive]
pub enum B2Error {
    /// The connection failed.
    HyperError(hyper::Error),
    /// A request could not be built.
    HttpError(http::Error),
    IOError(std::io::Error),
    /// A body was not what it had to be.
    JsonError(serde_json::Error),
    /// The service answered with a well-formed error; the first field is the status of
    /// the response.
    B2Error(u16, B2ErrorMessage),
    /// The service sent something that the API does not allow.
    ApiInconsistency(String),
}

/// The kinds of I/O failure that the client tells apart.
#[derive(Debug, Clone, Copy, PartialEq, Eq, Structural)]
pub enum IoKind {
    BrokenPipe,
    ConnectionRefused,
    ConnectionReset,
    ConnectionAborted,
    NotConnected,
    TimedOut,
    InvalidData,
    Other,
}

/// `whole` begins with `part`, both as UTF-8.
pub open spec fn text_begins(whole: Seq<char>, part: Seq<char>) -> bool {
    begins_with(encode_utf8(whole), encode_utf8(part))
}

/// `whole` ends with `part`, both as UTF-8.
pub open spec fn text_ends(whole: Seq<char>, part: Seq<char>) -> bool {
    ends_with(encode_utf8(whole), encode_utf8(part))
}

/// `part` stands somewhere in `whole`, both as UTF-8.
pub open spec fn text_contains(whole: Seq<char>, part: Seq<char>) -> bool {
    holds(encode_utf8(whole), encode_utf8(part))
}

/// `std::io::Error::kind`, told apart as far as the client cares.
#[verifier::external_body]
fn io_error_kind(err: &std::io::Error) -> IoKind {
    match err.kind() {
        std::io::ErrorKind::BrokenPipe => IoKind::BrokenPipe,
        std::io::ErrorKind::ConnectionRefused => IoKind::ConnectionRefused,
        std::io::ErrorKind::ConnectionReset => IoKind::ConnectionReset,
        std::io::ErrorKind::ConnectionAborted => IoKind::ConnectionAborted,
        std::io::ErrorKind::NotConnected => IoKind::NotConnected,
        std::io::ErrorKind::TimedOut => IoKind::TimedOut,
        std::io::ErrorKind::InvalidData => IoKind::InvalidData,
        _ => IoKind::Other,
    }
}

/// The I/O error that a `hyper::Error` was made from, if it was made from one:
/// its `source`, downcast.
#[verifier::external_body]
fn hyper_error_io_source(err: &hyper::Error) -> Option<&std::io::Error> {
    std::error::Error::source(err).and_then(|source| source.downcast_ref::<std::io::Error>())
}

/// The I/O error that a `serde_json::Error` was made from, if it was made from one:
/// its `source`, downcast.
#[verifier::external_body]
fn json_error_io_source(err: &serde_json::Error) -> Option<&std::io::Error> {
    std::error::Error::source(err).and_then(|source| source.downcast_ref::<std::io::Error>())
}

/// `std::io::Error::new` with the kind `Other` and the message `text`.
#[verifier::external_body]
fn io_error_other(text: &str) -> std::io::Error {
    std::io::Error::new(std::io::ErrorKind::Other, text)
}

impl IoKind {
    /// The connection is gone or never came about.
    pub open spec fn spec_is_disconnect(self) -> bool {
        self is BrokenPipe || self is ConnectionRefused || self is ConnectionReset
            || self is ConnectionAborted || self is NotConnected || self is TimedOut
    }

    pub fn is_disconnect(self) -> (r: bool)
        ensures
            r == self.spec_is_disconnect(),
    {
        match self {
            IoKind::BrokenPipe => true,
            IoKind::ConnectionRefused => true,
            IoKind::ConnectionReset => true,
            IoKind::ConnectionAborted => true,
            IoKind::NotConnected => true,
            IoKind::TimedOut => true,
            _ => false,
        }
    }
}

impl B2ErrorMessage {
    /// The message as it is shown to people: the status, the code in brackets, and
    /// the text.
    pub open spec fn spec_describe(&self) -> Seq<char> {
        spec_decimal(self.status as nat) + " ("@ + self.code@ + "): "@ + self.message@
    }

    /// The message as it is shown to people.
    pub fn describe(&self) -> (text: String)
        ensures
            text@ == self.spec_describe(),
    {
        decimal(self.status as u64).concat(" (").concat(self.code.as_str()).concat("): ").concat(
            self.message.as_str(),
        )
    }

    /// A copy.
    pub fn duplicate(&self) -> (copy: B2ErrorMessage)
        ensures
            copy == *self,
    {
        B2ErrorMessage {
            code: self.code.clone(),
            message: self.message.clone(),
            status: self.status,
        }
    }

    fn message_is(&self, text: &str) -> (r: bool)
        ensures
            r == (self.message@ == text@),
    {
        same_text(self.message.as_str(), text)
    }

    fn code_is(&self, text: &str) -> (r: bool)
        ensures
            r == (self.code@ == text@),
    {
        same_text(self.code.as_str(), text)
    }

    fn message_begins(&self, text: &str) -> (r: bool)
        ensures
            r == text_begins(self.message@, text@),
    {
        text_begins_with(self.message.as_str(), text)
    }

    fn message_ends(&self, text: &str) -> (r: bool)
        ensures
            r == text_ends(self.message@, text@),
    {
        text_ends_with(self.message.as_str(), text)
    }

    fn message_contains(&self, text: &str) -> (r: bool)
        ensures
            r == text_contains(self.message@, text@),
    {
        text_holds(self.message.as_str(), text)
    }
}

/// What became of a decoded body: the value, or the error of the decoder.
pub fn decoded<T>(res: Result<T, serde_json::Error>) -> (out: Result<T, B2Error>)
    ensures
        out == match res {
            Ok(value) => Ok::<T, B2Error>(value),
            Err(err) => Err(B2Error::JsonError(err)),
        },
{
    match res {
        Ok(value) => Ok(value),
        Err(err) => Err(B2Error::JsonError(err)),
    }
}

impl B2Error {
    /// An `ApiInconsistency` with the given text.
    pub fn api(s: &str) -> (e: B2Error)
        ensures
            e matches B2Error::ApiInconsistency(text) && text@ == s@,
    {
        B2Error::ApiInconsistency(s.to_owned())
    }

    /// The error that is told to those who waited for something that was given up
    /// before it came to an end.
    pub fn aborted() -> (e: B2Error)
        ensures
            e is IOError,
    {
        B2Error::IOError(io_error_other("Executor dropped AuthTask before it was completed."))
    }

    /// The error for a response whose status is not a success: the error that the
    /// service sent if its body could be decoded, else the error of the decoder.
    pub fn from_response(status: u16, body: Result<B2ErrorMessage, serde_json::Error>) -> (e:
        B2Error)
        ensures
            e == match body {
                Ok(message) => B2Error::B2Error(status, message),
                Err(err) => B2Error::JsonError(err),
            },
    {
        match body {
            Ok(message) => B2Error::B2Error(status, message),
            Err(err) => B2Error::JsonError(err),
        }
    }

    /// The error as it is shown to people. An error of the service shows its
    /// status, code and text; an `ApiInconsistency` shows its text; an error of
    /// another library shows what that library writes.
    pub fn describe(&self) -> (text: String)
        ensures
            self matches B2Error::B2Error(_, m) ==> text@ == m.spec_describe(),
            self matches B2Error::ApiInconsistency(msg) ==> text@ == msg@,
    {
        match self {
            B2Error::HyperError(err) => err.to_string(),
            B2Error::HttpError(err) => err.to_string(),
            B2Error::IOError(err) => err.to_string(),
            B2Error::JsonError(err) => err.to_string(),
            B2Error::B2Error(_, err) => err.describe(),
            B2Error::ApiInconsistency(msg) => msg.clone(),
        }
    }

    /// The message of the service, if this is an error that the service sent.
    pub open spec fn sent(&self) -> Option<B2ErrorMessage> {
        match self {
            B2Error::B2Error(_, message) => Some(*message),
            _ => None,
        }
    }

    /// The kind of an error that was not made from an I/O error.
    pub open spec fn plain_kind(&self) -> IoKind {
        match self {
            B2Error::HyperError(_) => IoKind::Other,
            B2Error::HttpError(_) => IoKind::InvalidData,
            B2Error::IOError(_) => IoKind::Other,
            B2Error::JsonError(_) => IoKind::InvalidData,
            B2Error::B2Error(_, _) => IoKind::Other,
            B2Error::ApiInconsistency(_) => IoKind::InvalidData,
        }
    }

    /// The error carries an error of another library, in which an I/O error may lie.
    pub open spec fn is_foreign(&self) -> bool {
        self is HyperError || self is IOError || self is JsonError
    }

    /// The kind of I/O failure behind this error. For an error that carries an I/O
    /// error it is the kind of that error; for any other it is `plain_kind`.
    pub fn get_io_kind(&self) -> (kind: IoKind)
        ensures
            !self.is_foreign() ==> kind == self.plain_kind(),
    {
        match self {
            B2Error::HyperError(err) => match hyper_error_io_source(err) {
                Some(io) => io_error_kind(io),
                None => IoKind::Other,
            },
            B2Error::HttpError(_) => IoKind::InvalidData,
            B2Error::IOError(ioe) => io_error_kind(ioe),
            B2Error::JsonError(err) => match json_error_io_source(err) {
                Some(io) => io_error_kind(io),
                None => IoKind::InvalidData,
            },
            B2Error::B2Error(_, _) => IoKind::Other,
            B2Error::ApiInconsistency(_) => IoKind::InvalidData,
        }
    }

    pub open spec fn spec_is_service_unavilable(&self) -> bool {
        self matches B2Error::B2Error(_, m) && 500 <= m.status <= 599
    }

    /// The service answered with a status in the range 5xx.
    pub fn is_service_unavilable(&self) -> (r: bool)
        ensures
            r == self.spec_is_service_unavilable(),
    {
        match self {
            B2Error::B2Error(_, m) => m.status >= 500 && m.status <= 599,
            _ => false,
        }
    }

    pub open spec fn spec_is_too_many_requests(&self) -> bool {
        self matches B2Error::B2Error(_, m) && m.status == 429
    }

    /// Too many requests are being made.
    pub fn is_too_many_requests(&self) -> (r: bool)
        ensures
            r == self.spec_is_too_many_requests(),
    {
        match self {
            B2Error::B2Error(_, m) => m.status == 429,
            _ => false,
        }
    }

    pub open spec fn spec_should_back_off(&self) -> bool {
        self matches B2Error::B2Error(_, m) && (m.status == 408 || m.status == 429 || m.status
            == 503)
    }

    /// Later requests should back off exponentially.
    pub fn should_back_off(&self) -> (r: bool)
        ensures
            r == self.spec_should_back_off(),
    {
        match self {
            B2Error::B2Error(_, m) => m.status == 408 || m.status == 429 || m.status == 503,
            _ => false,
        }
    }

    pub open spec fn spec_is_credentials_issue(&self) -> bool {
        self matches B2Error::B2Error(_, m) && (m.message@
            == "B2 has not been enabled for this account"@ || m.message@
            == "User is in B2 suspend"@ || m.message@
            == "Cannot authorize domain site license account"@ || m.message@
            == "Invalid authorization"@ || m.message@
            == "Account is missing a mobile phone number. Please update account settings."@)
    }

    /// The credentials were refused when an authorization was asked for.
    pub fn is_credentials_issue(&self) -> (r: bool)
        ensures
            r == self.spec_is_credentials_issue(),
    {
        match self {
            B2Error::B2Error(_, m) => m.message_is("B2 has not been enabled for this account")
                || m.message_is("User is in B2 suspend") || m.message_is(
                "Cannot authorize domain site license account",
            ) || m.message_is("Invalid authorization") || m.message_is(
                "Account is missing a mobile phone number. Please update account settings.",
            ),
            _ => false,
        }
    }

    pub open spec fn spec_is_wrong_credentials(&self) -> bool {
        self matches B2Error::B2Error(_, m) && m.code@ == "bad_auth_token"@
    }

    pub fn is_wrong_credentials(&self) -> (r: bool)
        ensures
            r == self.spec_is_wrong_credentials(),
    {
        match self {
            B2Error::B2Error(_, m) => m.code_is("bad_auth_token"),
            _ => false,
        }
    }

    pub open spec fn spec_is_expired_authentication(&self) -> bool {
        self matches B2Error::B2Error(_, m) && m.status == 401 && m.code@
            == "expired_auth_token"@
    }

    /// The authorization has expired.
    pub fn is_expired_authentication(&self) -> (r: bool)
        ensures
            r == self.spec_is_expired_authentication(),
    {
        match self {
            B2Error::B2Error(_, m) => m.status == 401 && m.code_is("expired_auth_token"),
            _ => false,
        }
    }

    pub open spec fn spec_is_authorization_issue(&self) -> bool {
        self.spec_is_expired_authentication() || (self matches B2Error::B2Error(_, m) && ((
        text_begins(m.message@, "Account "@) && text_ends(m.message@, " does not exist"@))
            || text_begins(m.message@, "Bucket is not authorized: "@) || m.message@
            == "Invalid authorization token"@ || m.message@
            == "Authorization token for wrong cluster"@ || m.message@ == "Not authorized"@
            || m.message@ == "AccountId bad"@))
    }

    /// Something is wrong with the authorization token: it has expired or it is not
    /// valid.
    pub fn is_authorization_issue(&self) -> (r: bool)
        ensures
            r == self.spec_is_authorization_issue(),
    {
        if self.is_expired_authentication() {
            return true;
        }
        match self {
            B2Error::B2Error(_, m) => {
                if m.message_begins("Account ") && m.message_ends(" does not exist") {
                    return true;
                }
                if m.message_begins("Bucket is not authorized: ") {
                    return true;
                }
                m.message_is("Invalid authorization token") || m.message_is(
                    "Authorization token for wrong cluster",
                ) || m.message_is("Not authorized") || m.message_is("AccountId bad")
            },
            _ => false,
        }
    }

    /// Whether a new authorization should be obtained after this error, given the
    /// kind of I/O failure behind it.
    pub open spec fn spec_needs_new_authentication(&self, kind: IoKind) -> bool {
        kind.spec_is_disconnect() || self.spec_is_authorization_issue()
            || self.spec_is_service_unavilable()
    }

    /// Whether a new authorization should be obtained after this error, given the
    /// kind of I/O failure behind it: after a lost connection, a refused token or a
    /// status in the range 5xx.
    pub fn needs_new_authentication(&self, kind: IoKind) -> (r: bool)
        ensures
            r == self.spec_needs_new_authentication(kind),
    {
        kind.is_disconnect() || self.is_authorization_issue() || self.is_service_unavilable()
    }

    /// Whether a new authorization should be obtained after this error.
    pub fn should_obtain_new_authentication(&self) -> (r: bool)
        ensures
            !self.is_foreign() ==> r == self.spec_needs_new_authentication(self.plain_kind()),
            self.is_foreign() ==> exists|kind: IoKind|
                r == #[trigger] self.spec_needs_new_authentication(kind),
    {
        let kind = self.get_io_kind();
        let r = self.needs_new_authentication(kind);
        assert(r == self.spec_needs_new_authentication(kind));
        r
    }

    pub open spec fn spec_is_invalid_file_name(&self) -> bool {
        self matches B2Error::B2Error(_, m) && (m.message@
            == "File names must contain at least one character"@ || m.message@
            == "File names in UTF8 must be no more than 1000 bytes"@ || m.message@
            == "File names must not start with '/'"@ || m.message@
            == "File names must not end with '/'"@ || m.message@
            == "File names must not contain '\\'"@ || m.message@
            == "File names must not contain DELETE"@ || m.message@
            == "File names must not contain '//'"@ || m.message@
            == "File names segment must not be more than 250 bytes"@)
    }

    /// The service does not allow the file name.
    pub fn is_invalid_file_name(&self) -> (r: bool)
        ensures
            r == self.spec_is_invalid_file_name(),
    {
        match self {
            B2Error::B2Error(_, m) => m.message_is(
                "File names must contain at least one character",
            ) || m.message_is("File names in UTF8 must be no more than 1000 bytes")
                || m.message_is("File names must not start with '/'") || m.message_is(
                "File names must not end with '/'",
            ) || m.message_is("File names must not contain '\\'") || m.message_is(
                "File names must not contain DELETE",
            ) || m.message_is("File names must not contain '//'") || m.message_is(
                "File names segment must not be more than 250 bytes",
            ),
            _ => false,
        }
    }

    pub open spec fn spec_is_file_not_found(&self) -> bool {
        self matches B2Error::B2Error(_, m) && (m.code@ == "no_such_file"@ || text_begins(
            m.message@,
            "Invalid fileId: "@,
        ) || text_begins(m.message@, "Not a valid file id: "@) || text_begins(
            m.message@,
            "File not present: "@,
        ) || (text_begins(m.message@, "Bucket "@) && text_contains(
            m.message@,
            "does not have file:"@,
        )) || m.message@ == "file_state_deleted"@ || m.message@ == "file_state_none"@
            || m.message@ == "file_state_unknown"@)
    }

    /// The file was not found.
    pub fn is_file_not_found(&self) -> (r: bool)
        ensures
            r == self.spec_is_file_not_found(),
    {
        match self {
            B2Error::B2Error(_, m) => {
                if m.code_is("no_such_file") {
                    return true;
                }
                if m.message_begins("Invalid fileId: ") {
                    return true;
                }
                if m.message_begins("Not a valid file id: ") {
                    return true;
                }
                if m.message_begins("File not present: ") {
                    return true;
                }
                if m.message_begins("Bucket ") && m.message_contains("does not have file:") {
                    return true;
                }
                m.message_is("file_state_deleted") || m.message_is("file_state_none")
                    || m.message_is("file_state_unknown")
            },
            _ => false,
        }
    }

    pub open spec fn spec_is_file_already_hidden(&self) -> bool {
        self matches B2Error::B2Error(_, m) && m.code@ == "already_hidden"@
    }

    /// A hidden file was to be hidden.
    pub fn is_file_already_hidden(&self) -> (r: bool)
        ensures
            r == self.spec_is_file_already_hidden(),
    {
        match self {
            B2Error::B2Error(_, m) => m.code_is("already_hidden"),
            _ => false,
        }
    }

    pub open spec fn spec_is_range_out_of_bounds(&self) -> bool {
        self matches B2Error::B2Error(_, m) && m.code@ == "range_not_satisfiable"@
    }

    /// The part of a file that was asked for lies outside the file.
    pub fn is_range_out_of_bounds(&self) -> (r: bool)
        ensures
            r == self.spec_is_range_out_of_bounds(),
    {
        match self {
            B2Error::B2Error(_, m) => m.code_is("range_not_satisfiable"),
            _ => false,
        }
    }

    pub open spec fn spec_is_invalid_sha1(&self) -> bool {
        self matches B2Error::B2Error(_, m) && m.message@ == "Sha1 did not match data received"@
    }

    /// The SHA-1 sent with a file is not that of the bytes received.
    pub fn is_invalid_sha1(&self) -> (r: bool)
        ensures
            r == self.spec_is_invalid_sha1(),
    {
        match self {
            B2Error::B2Error(_, m) => m.message_is("Sha1 did not match data received"),
            _ => false,
        }
    }

    pub open spec fn spec_is_maximum_bucket_limit(&self) -> bool {
        self matches B2Error::B2Error(_, m) && m.status == 400 && m.code@ == "too_many_buckets"@
    }

    /// The account has as many buckets as it may have.
    pub fn is_maximum_bucket_limit(&self) -> (r: bool)
        ensures
            r == self.spec_is_maximum_bucket_limit(),
    {
        match self {
            B2Error::B2Error(_, m) => m.status == 400 && m.code_is("too_many_buckets"),
            _ => false,
        }
    }

    pub open spec fn spec_is_duplicate_bucket_name(&self) -> bool {
        self matches B2Error::B2Error(_, m) && m.status == 400 && m.code@
            == "duplicate_bucket_name"@
    }

    /// A bucket of that name exists already.
    pub fn is_duplicate_bucket_name(&self) -> (r: bool)
        ensures
            r == self.spec_is_duplicate_bucket_name(),
    {
        match self {
            B2Error::B2Error(_, m) => m.status == 400 && m.code_is("duplicate_bucket_name"),
            _ => false,
        }
    }

    pub open spec fn spec_is_invalid_bucket_name(&self) -> bool {
        self matches B2Error::B2Error(_, m) && m.status == 400 && (m.message@
            == "bucketName must be at least 6 characters long"@ || m.message@
            == "bucketName can be at most 50 characters long"@ || m.message@
            == "Invalid characters in bucketName: must be alphanumeric or '-'"@)
    }

    /// The service does not allow the name of the bucket.
    pub fn is_invalid_bucket_name(&self) -> (r: bool)
        ensures
            r == self.spec_is_invalid_bucket_name(),
    {
        match self {
            B2Error::B2Error(_, m) => {
                if m.status == 400 {
                    m.message_is("bucketName must be at least 6 characters long")
                        || m.message_is("bucketName can be at most 50 characters long")
                        || m.message_is(
                        "Invalid characters in bucketName: must be alphanumeric or '-'",
                    )
                } else {
                    false
                }
            },
            _ => false,
        }
    }

    pub open spec fn spec_is_bucket_not_found(&self) -> bool {
        self matches B2Error::B2Error(_, m) && (text_begins(
            m.message@,
            "Bucket does not exist: "@,
        ) || text_begins(m.message@, "Invalid bucket id: "@) || text_begins(
            m.message@,
            "Invalid bucketId: "@,
        ) || m.message@ == "bad bucketId"@ || m.message@ == "invalid_bucket_id"@ || m.message@
            == "BucketId not valid for account"@ || ((text_begins(m.message@, "Bucket "@)
            || text_begins(m.message@, "bucket "@)) && (text_ends(
            m.message@,
            " does not exist"@,
        ) || text_ends(m.message@, " is not a B2 bucket"@))))
    }

    /// The bucket does not exist.
    pub fn is_bucket_not_found(&self) -> (r: bool)
        ensures
            r == self.spec_is_bucket_not_found(),
    {
        match self {
            B2Error::B2Error(_, m) => {
                if m.message_begins("Bucket does not exist: ") {
                    return true;
                }
                if m.message_begins("Invalid bucket id: ") {
                    return true;
                }
                if m.message_begins("Invalid bucketId: ") {
                    return true;
                }
                if m.message_is("bad bucketId") {
                    return true;
                }
                if m.message_is("invalid_bucket_id") {
                    return true;
                }
                if m.message_is("BucketId not valid for account") {
                    return true;
                }
                if m.message_begins("Bucket ") || m.message_begins("bucket ") {
                    m.message_ends(" does not exist") || m.message_ends(" is not a B2 bucket")
                } else {
                    false
                }
            },
            _ => false,
        }
    }

    pub open spec fn spec_is_conflict(&self) -> bool {
        self matches B2Error::B2Error(_, m) && m.status == 409
    }

    /// A request that was bound to a revision found another.
    pub fn is_conflict(&self) -> (r: bool)
        ensures
            r == self.spec_is_conflict(),
    {
        match self {
            B2Error::B2Error(_, m) => m.status == 409,
            _ => false,
        }
    }

    pub open spec fn spec_is_cap_exceeded(&self) -> bool {
        self matches B2Error::B2Error(_, m) && m.code@ == "cap_exceeded"@
    }

    /// The usage cap of the account is exceeded.
    pub fn is_cap_exceeded(&self) -> (r: bool)
        ensures
            r == self.spec_is_cap_exceeded(),
    {
        match self {
            B2Error::B2Error(_, m) => m.code_is("cap_exceeded"),
            _ => false,
        }
    }

    pub open spec fn spec_is_snapshot_interaction_failure(&self) -> bool {
        self matches B2Error::B2Error(_, m) && (m.message@
            == "Snapshot buckets are reserved for Backblaze use"@ || m.message@
            == "Allow snapshot header must be specified when deleting a file from a snapshot bucket"@
            || m.message@ == "Cannot change a bucket to a snapshot bucket"@)
    }

    /// A snapshot bucket was used in a way that is not allowed.
    pub fn is_snapshot_interaction_failure(&self) -> (r: bool)
        ensures
            r == self.spec_is_snapshot_interaction_failure(),
    {
        match self {
            B2Error::B2Error(_, m) => m.message_is(
                "Snapshot buckets are reserved for Backblaze use",
            ) || m.message_is(
                "Allow snapshot header must be specified when deleting a file from a snapshot bucket",
            ) || m.message_is("Cannot change a bucket to a snapshot bucket"),
            _ => false,
        }
    }

    pub open spec fn spec_is_prefix_issue(&self) -> bool {
        self matches B2Error::B2Error(_, m) && (m.message@
            == "Prefix must not start with delimiter"@ || m.message@
            == "Prefix must be 1 or more characters long"@)
    }

    /// The prefix of a listing is not valid.
    pub fn is_prefix_issue(&self) -> (r: bool)
        ensures
            r == self.spec_is_prefix_issue(),
    {
        match self {
            B2Error::B2Error(_, m) => m.message_is("Prefix must not start with delimiter")
                || m.message_is("Prefix must be 1 or more characters long"),
            _ => false,
        }
    }

    pub open spec fn spec_is_invalid_delimiter(&self) -> bool {
        self matches B2Error::B2Error(_, m) && m.message@
            == "Delimiter must be within acceptable list"@
    }

    /// The delimiter of a listing is not valid.
    pub fn is_invalid_delimiter(&self) -> (r: bool)
        ensures
            r == self.spec_is_invalid_delimiter(),
    {
        match self {
            B2Error::B2Error(_, m) => m.message_is("Delimiter must be within acceptable list"),
            _ => false,
        }
    }
}

} // verus!
