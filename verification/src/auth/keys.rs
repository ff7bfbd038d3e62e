//! Application keys: credentials that are allowed less than the master key of an
//! account.

use crate::auth::{clone_opt, B2Authorization, B2Credentials, Capabilities};
use vstd::prelude::*;

verus! {

/// The secret part of an application key.
#[derive(Clone)]
pub struct Secret(pub String);

/// An application key with its secret, as the service hands it out once, when the
/// key is made.
#[derive(Clone)]
pub struct KeyWithSecret {
    pub account_id: String,
    pub key_name: String,
    pub key_id: String,
    pub capabilities: Capabilities,
    pub expiration_timestamp: Option<u64>,
    pub bucket_id: Option<String>,
    pub name_prefix: Option<String>,
    pub secret: Secret,
}

/// An application key without its secret.
#[derive(Clone, Debug)]
pub struct Key {
    pub account_id: String,
    pub key_name: String,
    pub key_id: String,
    pub capabilities: Capabilities,
    pub expiration_timestamp: Option<u64>,
    pub bucket_id: Option<String>,
    pub name_prefix: Option<String>,
}

impl Secret {
    pub fn new(secret: String) -> (s: Secret)
        ensures
            s.0 == secret,
    {
        Secret(secret)
    }

    pub fn as_str(&self) -> (s: &str)
        ensures
            s@ == self.0@,
    {
        self.0.as_str()
    }
}

impl KeyWithSecret {
    /// The key without its secret.
    pub open spec fn spec_key(self) -> Key {
        Key {
            account_id: self.account_id,
            key_name: self.key_name,
            key_id: self.key_id,
            capabilities: self.capabilities,
            expiration_timestamp: self.expiration_timestamp,
            bucket_id: self.bucket_id,
            name_prefix: self.name_prefix,
        }
    }

    /// The credentials that authorize with this key.
    pub fn as_credentials(&self) -> (creds: B2Credentials)
        ensures
            creds.wf(),
            creds.spec_id() == self.key_id@,
            creds.spec_key() == self.secret.0@,
    {
        B2Credentials::new_shared(self.key_id.clone(), self.secret.0.clone())
    }

    /// The key and its secret, apart.
    pub fn split(self) -> (parts: (Key, Secret))
        ensures
            parts == (self.spec_key(), self.secret),
    {
        (
            Key {
                account_id: self.account_id,
                key_name: self.key_name,
                key_id: self.key_id,
                capabilities: self.capabilities,
                expiration_timestamp: self.expiration_timestamp,
                bucket_id: self.bucket_id,
                name_prefix: self.name_prefix,
            },
            self.secret,
        )
    }

    /// The key and the text of its secret, apart.
    pub fn without_secret(self) -> (parts: (Key, String))
        ensures
            parts == (self.spec_key(), self.secret.0),
    {
        let (key, secret) = self.split();
        (key, secret.0)
    }
}

impl Key {
    /// The key together with its secret.
    pub open spec fn spec_with_secret(self, secret: Secret) -> KeyWithSecret {
        KeyWithSecret {
            account_id: self.account_id,
            key_name: self.key_name,
            key_id: self.key_id,
            capabilities: self.capabilities,
            expiration_timestamp: self.expiration_timestamp,
            bucket_id: self.bucket_id,
            name_prefix: self.name_prefix,
            secret,
        }
    }

    /// The key together with its secret.
    pub fn with_secret(self, secret: Secret) -> (key: KeyWithSecret)
        ensures
            key == self.spec_with_secret(secret),
    {
        KeyWithSecret {
            account_id: self.account_id,
            key_name: self.key_name,
            key_id: self.key_id,
            capabilities: self.capabilities,
            expiration_timestamp: self.expiration_timestamp,
            bucket_id: self.bucket_id,
            name_prefix: self.name_prefix,
            secret,
        }
    }

    /// The key without its secret.
    pub fn from(key: KeyWithSecret) -> (plain: Key)
        ensures
            plain == key.spec_key(),
    {
        key.split().0
    }

    /// A copy.
    pub fn duplicate(&self) -> (copy: Key)
        ensures
            copy == *self,
    {
        Key {
            account_id: self.account_id.clone(),
            key_name: self.key_name.clone(),
            key_id: self.key_id.clone(),
            capabilities: self.capabilities,
            expiration_timestamp: self.expiration_timestamp,
            bucket_id: clone_opt(&self.bucket_id),
            name_prefix: clone_opt(&self.name_prefix),
        }
    }
}

/// The call that makes an application key.
#[derive(Debug, Clone)]
pub struct CreateKey<'a> {
    /// The authorization that the call is made with.
    pub auth: &'a B2Authorization,
    pub capabilities: Capabilities,
    pub key_name: &'a str,
    /// For how many seconds the key is to be valid.
    pub duration: Option<u32>,
    /// The only bucket that the key is to reach.
    pub bucket_id: Option<&'a str>,
    /// The prefix of the names of the files that the key is to reach.
    pub name_prefix: Option<&'a str>,
}

impl<'a> CreateKey<'a> {
    /// A call that makes a key that is valid without end and reaches every bucket.
    pub fn new(auth: &'a B2Authorization, capabilities: Capabilities, key_name: &'a str) -> (call: Self)
        ensures
            call == (CreateKey { auth, capabilities, key_name, duration: None, bucket_id: None, name_prefix: None }),
    {
        CreateKey { auth, capabilities, key_name, duration: None, bucket_id: None, name_prefix: None }
    }

    /// Makes the key valid for so many seconds.
    pub fn duration(self, duration: u32) -> (call: Self)
        ensures
            call == (CreateKey { duration: Some(duration), ..self }),
    {
        CreateKey { duration: Some(duration), ..self }
    }

    /// Limits the key to one bucket.
    pub fn bucket_id(self, bucket_id: &'a str) -> (call: Self)
        ensures
            call == (CreateKey { bucket_id: Some(bucket_id), ..self }),
    {
        CreateKey { bucket_id: Some(bucket_id), ..self }
    }

    /// Limits the key to the files whose names begin so.
    pub fn name_prefix(self, name_prefix: &'a str) -> (call: Self)
        ensures
            call == (CreateKey { name_prefix: Some(name_prefix), ..self }),
    {
        CreateKey { name_prefix: Some(name_prefix), ..self }
    }

}

/// The call that deletes an application key.
#[derive(Debug, Clone)]
pub struct DeleteKey<'a> {
    /// The authorization that the call is made with.
    pub auth: &'a B2Authorization,
    pub key_id: &'a str,
}

impl<'a> DeleteKey<'a> {
    /// A call that deletes the key with this id.
    pub fn new(auth: &'a B2Authorization, key_id: &'a str) -> (call: Self)
        ensures
            call == (DeleteKey { auth, key_id }),
    {
        DeleteKey { auth, key_id }
    }

}

/// The call that lists the application keys of an account.
#[derive(Debug, Clone)]
pub struct ListKeys<'a> {
    /// The authorization that the call is made with.
    pub auth: &'a B2Authorization,
    /// How many keys to list at most.
    pub max_key_count: Option<usize>,
    /// The id of the key to begin with.
    pub start_key_id: Option<&'a str>,
}

impl<'a> ListKeys<'a> {
    /// A call that lists the keys from the first on.
    pub fn new(auth: &'a B2Authorization) -> (call: Self)
        ensures
            call == (ListKeys { auth, max_key_count: None, start_key_id: None }),
    {
        ListKeys { auth, max_key_count: None, start_key_id: None }
    }

    /// Lists so many keys at most.
    pub fn max_key_count(self, max_key_count: usize) -> (call: Self)
        ensures
            call == (ListKeys { max_key_count: Some(max_key_count), ..self }),
    {
        ListKeys { max_key_count: Some(max_key_count), ..self }
    }

    /// Begins with the key of this id.
    pub fn start_key_id(self, start_key_id: &'a str) -> (call: Self)
        ensures
            call == (ListKeys { start_key_id: Some(start_key_id), ..self }),
    {
        ListKeys { start_key_id: Some(start_key_id), ..self }
    }

}

/// A key that is given its secret and parted from it again is the same key with the
/// same secret.
pub proof fn lemma_with_secret_then_split(key: Key, secret: Secret)
    ensures
        key.spec_with_secret(secret).spec_key() == key,
        key.spec_with_secret(secret).secret == secret,
{
}

} // verus!
