//! Credentials and the authorization that the service gives for them.

use vstd::prelude::*;
use vstd::string::StringExecFns;
use vstd::string::StringSliceAdditionalSpecFns;

pub mod capabilities;
pub mod keys;

pub use self::capabilities::Capabilities;
pub use self::capabilities::CapabilitiesIter;

verus! {

/// The base64 text of some bytes, in the standard alphabet and with padding.
pub uninterp spec fn spec_base64(bytes: Seq<u8>) -> Seq<char>;

/// `base64::encode`: the base64 text of `input`.
#[verifier::external_body]
fn b64encode(input: &[u8]) -> (text: String)
    ensures
        text@ == spec_base64(input@),
{
    base64::encode(input)
}

/// The value of the `Authorization` header that asks for an authorization with the
/// account id `id` and the application key `key`.
pub open spec fn spec_auth_string(id: Seq<char>, key: Seq<char>) -> Seq<char> {
    "Basic "@ + spec_base64(vstd::utf8::encode_utf8(id + ":"@ + key))
}

/// The credentials of an account: its id and an application key.
#[derive(Debug, Clone)]
pub struct B2Credentials {
    /// The id of the account.
    pub id: String,
    /// The application key.
    pub key: String,
    auth_string: String,
}

/// What an authorization is allowed to do.
#[derive(Debug, Clone)]
#[non_exhaustive]
pub struct Allowed {
    pub capabilities: Capabilities,
    /// If set, the only bucket that the authorization reaches.
    pub bucket_id: Option<String>,
    /// The name of that bucket.
    pub bucket_name: Option<String>,
    /// If set, the authorization reaches only the files whose names begin so.
    pub name_prefix: Option<String>,
}

/// What the service answers when it gives an authorization.
#[derive(Debug, Clone)]
pub struct B2AuthResponse {
    pub account_id: String,
    pub authorization_token: String,
    pub allowed: Allowed,
    pub api_url: String,
    pub download_url: String,
    pub recommended_part_size: usize,
    pub absolute_minimum_part_size: usize,
}

/// An authorization for the API of the service.
#[derive(Debug, Clone)]
#[non_exhaustive]
pub struct B2Authorization {
    pub account_id: String,
    pub authorization_token: String,
    pub api_url: String,
    pub download_url: String,
    pub recommended_part_size: usize,
    pub absolute_minimum_part_size: usize,
    pub allowed: Allowed,
}

/// Two strings that may be absent are the same.
pub open spec fn same_opt(a: Option<String>, b: Option<String>) -> bool {
    match (a, b) {
        (Some(x), Some(y)) => x@ == y@,
        (None, None) => true,
        _ => false,
    }
}

pub(crate) fn eq_opt(a: &Option<String>, b: &Option<String>) -> (r: bool)
    ensures
        r == same_opt(*a, *b),
{
    match a {
        Some(x) => match b {
            Some(y) => *x == *y,
            None => false,
        },
        None => match b {
            Some(_) => false,
            None => true,
        },
    }
}

pub(crate) fn clone_opt(a: &Option<String>) -> (r: Option<String>)
    ensures
        r == *a,
{
    match a {
        Some(x) => Some(x.clone()),
        None => None,
    }
}

impl B2Credentials {
    /// The value of the `Authorization` header for these credentials.
    pub closed spec fn spec_auth(&self) -> Seq<char> {
        self.auth_string@
    }

    /// The id of the account.
    pub closed spec fn spec_id(&self) -> Seq<char> {
        self.id@
    }

    /// The application key.
    pub closed spec fn spec_key(&self) -> Seq<char> {
        self.key@
    }

    /// The header value is the one that belongs to the id and the key.
    pub open spec fn wf(&self) -> bool {
        self.spec_auth() == spec_auth_string(self.spec_id(), self.spec_key())
    }

    /// Credentials made of an account id and an application key.
    pub fn new(account_id: &str, key: &str) -> (creds: B2Credentials)
        ensures
            creds.wf(),
            creds.spec_id() == account_id@,
            creds.spec_key() == key@,
    {
        B2Credentials::new_shared(account_id.to_owned(), key.to_owned())
    }

    /// Credentials made of an account id and an application key.
    pub fn new_shared(id: String, key: String) -> (creds: B2Credentials)
        ensures
            creds.wf(),
            creds.spec_id() == id@,
            creds.spec_key() == key@,
    {
        let buffer = id.clone().concat(":").concat(key.as_str());
        let encoded = b64encode(buffer.as_str().as_bytes());
        let auth_string = String::from_str("Basic ").concat(encoded.as_str());
        B2Credentials { id, key, auth_string }
    }

    /// The value of the `Authorization` header that asks for an authorization.
    pub fn auth_string(&self) -> (header: &str)
        ensures
            header@ == self.spec_auth(),
    {
        self.auth_string.as_str()
    }
}

impl Allowed {
    /// What an authorization is allowed to do, from its parts.
    pub fn new(
        capabilities: Capabilities,
        bucket_id: Option<String>,
        bucket_name: Option<String>,
        name_prefix: Option<String>,
    ) -> (allowed: Allowed)
        ensures
            allowed == (Allowed { capabilities, bucket_id, bucket_name, name_prefix }),
    {
        Allowed { capabilities, bucket_id, bucket_name, name_prefix }
    }

    /// Both allow the same.
    pub open spec fn same(&self, other: &Allowed) -> bool {
        &&& self.capabilities == other.capabilities
        &&& same_opt(self.bucket_id, other.bucket_id)
        &&& same_opt(self.bucket_name, other.bucket_name)
        &&& same_opt(self.name_prefix, other.name_prefix)
    }

    /// Whether both allow the same.
    pub fn eq(&self, other: &Allowed) -> (r: bool)
        ensures
            r == self.same(other),
    {
        self.capabilities == other.capabilities && eq_opt(&self.bucket_id, &other.bucket_id)
            && eq_opt(&self.bucket_name, &other.bucket_name) && eq_opt(
            &self.name_prefix,
            &other.name_prefix,
        )
    }

    /// A copy.
    pub fn duplicate(&self) -> (copy: Allowed)
        ensures
            copy == *self,
    {
        Allowed {
            capabilities: self.capabilities,
            bucket_id: clone_opt(&self.bucket_id),
            bucket_name: clone_opt(&self.bucket_name),
            name_prefix: clone_opt(&self.name_prefix),
        }
    }
}

impl B2Authorization {
    /// Both are the same authorization: every field has the same value.
    pub open spec fn same(&self, other: &B2Authorization) -> bool {
        &&& self.account_id@ == other.account_id@
        &&& self.authorization_token@ == other.authorization_token@
        &&& self.api_url@ == other.api_url@
        &&& self.download_url@ == other.download_url@
        &&& self.recommended_part_size == other.recommended_part_size
        &&& self.absolute_minimum_part_size == other.absolute_minimum_part_size
        &&& self.allowed.same(&other.allowed)
    }

    /// The authorization that the service gave in `resp` to the account `id`.
    pub fn from(id: String, resp: B2AuthResponse) -> (auth: B2Authorization)
        ensures
            auth == (B2Authorization {
                account_id: id,
                authorization_token: resp.authorization_token,
                api_url: resp.api_url,
                download_url: resp.download_url,
                recommended_part_size: resp.recommended_part_size,
                absolute_minimum_part_size: resp.absolute_minimum_part_size,
                allowed: resp.allowed,
            }),
    {
        B2Authorization {
            account_id: id,
            authorization_token: resp.authorization_token,
            api_url: resp.api_url,
            download_url: resp.download_url,
            recommended_part_size: resp.recommended_part_size,
            absolute_minimum_part_size: resp.absolute_minimum_part_size,
            allowed: resp.allowed,
        }
    }

    /// The authorization for an answer of the service to a request made with the
    /// account id `id`. It bears the id that the service names.
    pub fn from_response(id: &String, resp: B2AuthResponse) -> (auth: B2Authorization)
        ensures
            auth.account_id@ == resp.account_id@,
            auth.authorization_token == resp.authorization_token,
            auth.api_url == resp.api_url,
            auth.download_url == resp.download_url,
            auth.recommended_part_size == resp.recommended_part_size,
            auth.absolute_minimum_part_size == resp.absolute_minimum_part_size,
            auth.allowed == resp.allowed,
    {
        let account = if *id == resp.account_id {
            id.clone()
        } else {
            resp.account_id.clone()
        };
        B2Authorization::from(account, resp)
    }

    /// Whether both are the same authorization.
    pub fn eq(&self, other: &B2Authorization) -> (r: bool)
        ensures
            r == self.same(other),
    {
        self.account_id == other.account_id && self.authorization_token
            == other.authorization_token && self.api_url == other.api_url && self.download_url
            == other.download_url && self.recommended_part_size == other.recommended_part_size
            && self.absolute_minimum_part_size == other.absolute_minimum_part_size
            && self.allowed.eq(&other.allowed)
    }

    /// A copy.
    pub fn duplicate(&self) -> (copy: B2Authorization)
        ensures
            copy == *self,
    {
        B2Authorization {
            account_id: self.account_id.clone(),
            authorization_token: self.authorization_token.clone(),
            api_url: self.api_url.clone(),
            download_url: self.download_url.clone(),
            recommended_part_size: self.recommended_part_size,
            absolute_minimum_part_size: self.absolute_minimum_part_size,
            allowed: self.allowed.duplicate(),
        }
    }

    /// The address of the API call named `call`, such as `b2_list_buckets`.
    pub fn api_call_url(&self, call: &str) -> (address: String)
        ensures
            address@ == self.api_url@ + "/b2api/v2/"@ + call@,
    {
        self.api_url.clone().concat("/b2api/v2/").concat(call)
    }

    /// The value of the `Authorization` header of a request made with this
    /// authorization.
    pub fn auth_token(&self) -> (token: String)
        ensures
            token == self.authorization_token,
    {
        self.authorization_token.clone()
    }
}

} // verus!
