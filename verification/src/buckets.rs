//! Buckets and their rules.

use crate::auth::B2Authorization;
use crate::text::{same_text, same_texts, texts};
use vstd::prelude::*;

verus! {

/// Who may read the files of a bucket.
#[derive(Debug, Clone)]
#[non_exhaustive]
pub enum BucketType {
    Public,
    Private,
    Snapshot,
    /// A type that the service added later, under the name it sent.
    Other(String),
}

/// A rule that hides and deletes files as they grow old.
#[derive(Debug, Clone)]
#[non_exhaustive]
pub struct LifecycleRule {
    pub days_from_uploading_to_hiding: Option<u32>,
    pub days_from_hiding_to_deleting: Option<u32>,
    pub file_name_prefix: String,
}

/// A rule on the use of a bucket from other origins.
#[derive(Debug, Clone)]
#[non_exhaustive]
pub struct CorsRule {
    /// A name by which people tell the rule from others.
    pub cors_rule_name: String,
    /// The origins that the rule covers.
    pub allowed_origins: Vec<String>,
    /// The operations that the rule allows.
    pub allowed_operations: Vec<String>,
    /// The headers that a pre-flight request may name.
    pub allowed_headers: Vec<String>,
    /// The headers that may be shown to an application.
    pub expose_headers: Vec<String>,
    /// For how many seconds a browser may keep the answer to a pre-flight request.
    pub max_age_seconds: u32,
}

/// What the service tells of a bucket.
#[derive(Debug, Clone)]
#[non_exhaustive]
pub struct Bucket {
    pub account_id: String,
    pub bucket_id: String,
    pub bucket_name: String,
    pub bucket_type: BucketType,
    /// The infos of the bucket as pairs of a name and a value, in the order of the
    /// names.
    pub bucket_info: Vec<(String, String)>,
    pub lifecycle_rules: Vec<LifecycleRule>,
    pub cors_rules: Vec<CorsRule>,
    /// How often the bucket has been changed.
    pub revision: u32,
}

/// The info of a bucket that has none.
#[derive(Debug, Clone, Copy)]
pub struct NoBucketInfo;

/// The bucket type that the service calls `name`, if it is one of the three that
/// the API names.
pub open spec fn spec_bucket_type(name: Seq<char>) -> Option<BucketType> {
    if name == "allPublic"@ {
        Some(BucketType::Public)
    } else if name == "allPrivate"@ {
        Some(BucketType::Private)
    } else if name == "snapshot"@ {
        Some(BucketType::Snapshot)
    } else {
        None
    }
}

impl BucketType {
    /// The name by which the service calls the type.
    pub open spec fn spec_str(&self) -> Seq<char> {
        match self {
            BucketType::Public => "allPublic"@,
            BucketType::Private => "allPrivate"@,
            BucketType::Snapshot => "snapshot"@,
            BucketType::Other(s) => s@,
        }
    }

    /// The type that the service calls `s`, if it is one of the three that the API
    /// names.
    pub fn from_str(s: &str) -> (t: Option<BucketType>)
        ensures
            t == spec_bucket_type(s@),
    {
        if same_text(s, "allPublic") {
            Some(BucketType::Public)
        } else if same_text(s, "allPrivate") {
            Some(BucketType::Private)
        } else if same_text(s, "snapshot") {
            Some(BucketType::Snapshot)
        } else {
            None
        }
    }

    /// The type that the service calls `s`. A name that the API does not know is
    /// kept as it is.
    pub fn from(s: String) -> (t: BucketType)
        ensures
            t == match spec_bucket_type(s@) {
                Some(known) => known,
                None => BucketType::Other(s),
            },
    {
        match BucketType::from_str(s.as_str()) {
            Some(known) => known,
            None => BucketType::Other(s),
        }
    }

    /// The name by which the service calls the type.
    pub fn as_str(&self) -> (s: &str)
        ensures
            s@ == self.spec_str(),
    {
        match self {
            BucketType::Public => "allPublic",
            BucketType::Private => "allPrivate",
            BucketType::Snapshot => "snapshot",
            BucketType::Other(s) => s.as_str(),
        }
    }
}

impl LifecycleRule {
    /// Both rules say the same.
    pub open spec fn same(&self, other: &LifecycleRule) -> bool {
        &&& self.days_from_uploading_to_hiding == other.days_from_uploading_to_hiding
        &&& self.days_from_hiding_to_deleting == other.days_from_hiding_to_deleting
        &&& self.file_name_prefix@ == other.file_name_prefix@
    }

    /// A rule from its parts.
    pub fn new(
        days_from_uploading_to_hiding: Option<u32>,
        days_from_hiding_to_deleting: Option<u32>,
        file_name_prefix: String,
    ) -> (rule: LifecycleRule)
        ensures
            rule == (LifecycleRule {
                days_from_uploading_to_hiding,
                days_from_hiding_to_deleting,
                file_name_prefix,
            }),
    {
        LifecycleRule {
            days_from_uploading_to_hiding,
            days_from_hiding_to_deleting,
            file_name_prefix,
        }
    }

    /// Whether both rules say the same.
    pub fn eq(&self, other: &LifecycleRule) -> (r: bool)
        ensures
            r == self.same(other),
    {
        let hiding = match (self.days_from_uploading_to_hiding, other.days_from_uploading_to_hiding) {
            (Some(a), Some(b)) => a == b,
            (None, None) => true,
            _ => false,
        };
        let deleting = match (self.days_from_hiding_to_deleting, other.days_from_hiding_to_deleting) {
            (Some(a), Some(b)) => a == b,
            (None, None) => true,
            _ => false,
        };
        hiding && deleting && self.file_name_prefix == other.file_name_prefix
    }
}

impl CorsRule {
    /// Both rules say the same.
    pub open spec fn same(&self, other: &CorsRule) -> bool {
        &&& self.cors_rule_name@ == other.cors_rule_name@
        &&& texts(self.allowed_origins@) == texts(other.allowed_origins@)
        &&& texts(self.allowed_operations@) == texts(other.allowed_operations@)
        &&& texts(self.allowed_headers@) == texts(other.allowed_headers@)
        &&& texts(self.expose_headers@) == texts(other.expose_headers@)
        &&& self.max_age_seconds == other.max_age_seconds
    }

    /// A rule from its parts.
    pub fn new(
        cors_rule_name: String,
        allowed_origins: Vec<String>,
        allowed_operations: Vec<String>,
        allowed_headers: Vec<String>,
        expose_headers: Vec<String>,
        max_age_seconds: u32,
    ) -> (rule: CorsRule)
        ensures
            rule == (CorsRule {
                cors_rule_name,
                allowed_origins,
                allowed_operations,
                allowed_headers,
                expose_headers,
                max_age_seconds,
            }),
    {
        CorsRule {
            cors_rule_name,
            allowed_origins,
            allowed_operations,
            allowed_headers,
            expose_headers,
            max_age_seconds,
        }
    }

    /// Whether both rules say the same.
    pub fn eq(&self, other: &CorsRule) -> (r: bool)
        ensures
            r == self.same(other),
    {
        self.cors_rule_name == other.cors_rule_name && same_texts(
            &self.allowed_origins,
            &other.allowed_origins,
        ) && same_texts(&self.allowed_operations, &other.allowed_operations) && same_texts(
            &self.allowed_headers,
            &other.allowed_headers,
        ) && same_texts(&self.expose_headers, &other.expose_headers) && self.max_age_seconds
            == other.max_age_seconds
    }
}

impl BucketType {
    /// Both are the same type.
    pub open spec fn same(&self, other: &BucketType) -> bool {
        match (self, other) {
            (BucketType::Public, BucketType::Public) => true,
            (BucketType::Private, BucketType::Private) => true,
            (BucketType::Snapshot, BucketType::Snapshot) => true,
            (BucketType::Other(a), BucketType::Other(b)) => a@ == b@,
            _ => false,
        }
    }

    /// Whether both are the same type.
    pub fn eq(&self, other: &BucketType) -> (r: bool)
        ensures
            r == self.same(other),
    {
        match self {
            BucketType::Public => match other {
                BucketType::Public => true,
                _ => false,
            },
            BucketType::Private => match other {
                BucketType::Private => true,
                _ => false,
            },
            BucketType::Snapshot => match other {
                BucketType::Snapshot => true,
                _ => false,
            },
            BucketType::Other(a) => match other {
                BucketType::Other(b) => *a == *b,
                _ => false,
            },
        }
    }
}

/// Two lists of infos hold the same pairs in the same order.
pub open spec fn same_infos(a: Seq<(String, String)>, b: Seq<(String, String)>) -> bool {
    &&& a.len() == b.len()
    &&& forall|j: int| 0 <= j < a.len() ==> a[j].0@ == b[j].0@ && a[j].1@ == b[j].1@
}

/// Two lists of lifecycle rules hold the same rules in the same order.
pub open spec fn same_lifecycle_rules(a: Seq<LifecycleRule>, b: Seq<LifecycleRule>) -> bool {
    &&& a.len() == b.len()
    &&& forall|j: int| 0 <= j < a.len() ==> (#[trigger] a[j]).same(&b[j])
}

/// Two lists of CORS rules hold the same rules in the same order.
pub open spec fn same_cors_rules(a: Seq<CorsRule>, b: Seq<CorsRule>) -> bool {
    &&& a.len() == b.len()
    &&& forall|j: int| 0 <= j < a.len() ==> (#[trigger] a[j]).same(&b[j])
}

fn eq_infos(a: &Vec<(String, String)>, b: &Vec<(String, String)>) -> (r: bool)
    ensures
        r == same_infos(a@, b@),
{
    if a.len() != b.len() {
        return false;
    }
    let mut k: usize = 0;
    while k < a.len()
        invariant
            k <= a.len(),
            a.len() == b.len(),
            forall|j: int| 0 <= j < k ==> a@[j].0@ == b@[j].0@ && a@[j].1@ == b@[j].1@,
        decreases a.len() - k,
    {
        if a[k].0 != b[k].0 || a[k].1 != b[k].1 {
            return false;
        }
        k += 1;
    }
    true
}

fn eq_lifecycle_rules(a: &Vec<LifecycleRule>, b: &Vec<LifecycleRule>) -> (r: bool)
    ensures
        r == same_lifecycle_rules(a@, b@),
{
    if a.len() != b.len() {
        return false;
    }
    let mut k: usize = 0;
    while k < a.len()
        invariant
            k <= a.len(),
            a.len() == b.len(),
            forall|j: int| 0 <= j < k ==> (#[trigger] a@[j]).same(&b@[j]),
        decreases a.len() - k,
    {
        if !a[k].eq(&b[k]) {
            return false;
        }
        k += 1;
    }
    true
}

fn eq_cors_rules(a: &Vec<CorsRule>, b: &Vec<CorsRule>) -> (r: bool)
    ensures
        r == same_cors_rules(a@, b@),
{
    if a.len() != b.len() {
        return false;
    }
    let mut k: usize = 0;
    while k < a.len()
        invariant
            k <= a.len(),
            a.len() == b.len(),
            forall|j: int| 0 <= j < k ==> (#[trigger] a@[j]).same(&b@[j]),
        decreases a.len() - k,
    {
        if !a[k].eq(&b[k]) {
            return false;
        }
        k += 1;
    }
    true
}

impl Bucket {
    /// Both are the same bucket, whatever their revisions.
    pub open spec fn same(&self, other: &Bucket) -> bool {
        &&& self.account_id@ == other.account_id@
        &&& self.bucket_id@ == other.bucket_id@
        &&& self.bucket_name@ == other.bucket_name@
        &&& self.bucket_type.same(&other.bucket_type)
        &&& same_infos(self.bucket_info@, other.bucket_info@)
        &&& same_lifecycle_rules(self.lifecycle_rules@, other.lifecycle_rules@)
        &&& same_cors_rules(self.cors_rules@, other.cors_rules@)
    }

    /// A bucket from its parts.
    pub fn new(
        account_id: String,
        bucket_id: String,
        bucket_name: String,
        bucket_type: BucketType,
        bucket_info: Vec<(String, String)>,
        lifecycle_rules: Vec<LifecycleRule>,
        cors_rules: Vec<CorsRule>,
        revision: u32,
    ) -> (bucket: Bucket)
        ensures
            bucket == (Bucket {
                account_id,
                bucket_id,
                bucket_name,
                bucket_type,
                bucket_info,
                lifecycle_rules,
                cors_rules,
                revision,
            }),
    {
        Bucket {
            account_id,
            bucket_id,
            bucket_name,
            bucket_type,
            bucket_info,
            lifecycle_rules,
            cors_rules,
            revision,
        }
    }

    /// Whether both are the same bucket. The revision is not compared.
    pub fn eq(&self, other: &Bucket) -> (r: bool)
        ensures
            r == self.same(other),
    {
        self.account_id == other.account_id && self.bucket_id == other.bucket_id
            && self.bucket_name == other.bucket_name && self.bucket_type.eq(&other.bucket_type)
            && eq_infos(&self.bucket_info, &other.bucket_info) && eq_lifecycle_rules(
            &self.lifecycle_rules,
            &other.lifecycle_rules,
        ) && eq_cors_rules(&self.cors_rules, &other.cors_rules)
    }
}

/// The call that makes a bucket.
#[derive(Debug, Clone)]
pub struct CreateBucket<'a> {
    /// The authorization that the call is made with.
    pub auth: &'a B2Authorization,
    pub bucket_name: &'a str,
    pub bucket_type: BucketType,
    /// The infos of the bucket, as pairs of a name and a value.
    pub bucket_info: Option<&'a [(String, String)]>,
    pub cors_rules: Option<&'a [CorsRule]>,
    pub lifecycle_rules: Option<&'a [LifecycleRule]>,
}

impl<'a> CreateBucket<'a> {
    /// A call that makes a bucket without infos and rules.
    pub fn new(auth: &'a B2Authorization, bucket_name: &'a str, bucket_type: BucketType) -> (call: Self)
        ensures
            call == (CreateBucket { auth, bucket_name, bucket_type, bucket_info: None, cors_rules: None, lifecycle_rules: None }),
    {
        CreateBucket { auth, bucket_name, bucket_type, bucket_info: None, cors_rules: None, lifecycle_rules: None }
    }

    /// Gives the bucket these infos.
    pub fn bucket_info(self, bucket_info: &'a [(String, String)]) -> (call: Self)
        ensures
            call == (CreateBucket { bucket_info: Some(bucket_info), ..self }),
    {
        CreateBucket { bucket_info: Some(bucket_info), ..self }
    }

    /// Gives the bucket these CORS rules.
    pub fn cors_rules(self, cors_rules: &'a [CorsRule]) -> (call: Self)
        ensures
            call == (CreateBucket { cors_rules: Some(cors_rules), ..self }),
    {
        CreateBucket { cors_rules: Some(cors_rules), ..self }
    }

    /// Gives the bucket these lifecycle rules.
    pub fn lifecycle_rules(self, lifecycle_rules: &'a [LifecycleRule]) -> (call: Self)
        ensures
            call == (CreateBucket { lifecycle_rules: Some(lifecycle_rules), ..self }),
    {
        CreateBucket { lifecycle_rules: Some(lifecycle_rules), ..self }
    }

}

/// The call that deletes a bucket.
#[derive(Debug, Clone)]
pub struct DeleteBucket<'a> {
    /// The authorization that the call is made with.
    pub auth: &'a B2Authorization,
    pub bucket_id: &'a str,
}

impl<'a> DeleteBucket<'a> {
    /// A call that deletes the bucket with this id.
    pub fn new(auth: &'a B2Authorization, bucket_id: &'a str) -> (call: Self)
        ensures
            call == (DeleteBucket { auth, bucket_id }),
    {
        DeleteBucket { auth, bucket_id }
    }

}

/// The call that lists the buckets of an account.
#[derive(Debug, Clone)]
pub struct ListBuckets<'a> {
    /// The authorization that the call is made with.
    pub auth: &'a B2Authorization,
    /// The types of the buckets to list; all types where it is not set.
    pub bucket_types: Option<&'a [BucketType]>,
}

impl<'a> ListBuckets<'a> {
    /// A call that lists every bucket.
    pub fn new(auth: &'a B2Authorization) -> (call: Self)
        ensures
            call == (ListBuckets { auth, bucket_types: None }),
    {
        ListBuckets { auth, bucket_types: None }
    }

    /// Lists the buckets of these types only.
    pub fn bucket_types(self, bucket_types: &'a [BucketType]) -> (call: Self)
        ensures
            call == (ListBuckets { bucket_types: Some(bucket_types), ..self }),
    {
        ListBuckets { bucket_types: Some(bucket_types), ..self }
    }

}

/// The call that changes a bucket. What is not set stays as it is.
#[derive(Debug, Clone)]
pub struct UpdateBucket<'a> {
    /// The authorization that the call is made with.
    pub auth: &'a B2Authorization,
    pub bucket_id: &'a str,
    pub bucket_type: Option<BucketType>,
    pub bucket_info: Option<&'a [(String, String)]>,
    pub cors_rules: Option<&'a [CorsRule]>,
    pub lifecycle_rules: Option<&'a [LifecycleRule]>,
    /// The revision that the bucket must have for the change to be made.
    pub if_revision_is: Option<u32>,
}

impl<'a> UpdateBucket<'a> {
    /// A call that changes nothing yet.
    pub fn new(auth: &'a B2Authorization, bucket_id: &'a str) -> (call: Self)
        ensures
            call == (UpdateBucket { auth, bucket_id, bucket_type: None, bucket_info: None, cors_rules: None, lifecycle_rules: None, if_revision_is: None }),
    {
        UpdateBucket { auth, bucket_id, bucket_type: None, bucket_info: None, cors_rules: None, lifecycle_rules: None, if_revision_is: None }
    }

    /// Makes the change only if the bucket has this revision.
    pub fn if_revision_is(self, if_revision_is: u32) -> (call: Self)
        ensures
            call == (UpdateBucket { if_revision_is: Some(if_revision_is), ..self }),
    {
        UpdateBucket { if_revision_is: Some(if_revision_is), ..self }
    }

    /// Changes the type of the bucket.
    pub fn bucket_type(self, bucket_type: BucketType) -> (call: Self)
        ensures
            call == (UpdateBucket { bucket_type: Some(bucket_type), ..self }),
    {
        UpdateBucket { bucket_type: Some(bucket_type), ..self }
    }

    /// Changes the infos of the bucket.
    pub fn bucket_info(self, bucket_info: &'a [(String, String)]) -> (call: Self)
        ensures
            call == (UpdateBucket { bucket_info: Some(bucket_info), ..self }),
    {
        UpdateBucket { bucket_info: Some(bucket_info), ..self }
    }

    /// Changes the CORS rules of the bucket.
    pub fn cors_rules(self, cors_rules: &'a [CorsRule]) -> (call: Self)
        ensures
            call == (UpdateBucket { cors_rules: Some(cors_rules), ..self }),
    {
        UpdateBucket { cors_rules: Some(cors_rules), ..self }
    }

    /// Changes the lifecycle rules of the bucket.
    pub fn lifecycle_rules(self, lifecycle_rules: &'a [LifecycleRule]) -> (call: Self)
        ensures
            call == (UpdateBucket { lifecycle_rules: Some(lifecycle_rules), ..self }),
    {
        UpdateBucket { lifecycle_rules: Some(lifecycle_rules), ..self }
    }

}

/// The call that asks for one bucket, by its name or by its id.
#[derive(Debug, Clone)]
pub struct GetBucket<'a> {
    /// The authorization that the call is made with.
    pub auth: &'a B2Authorization,
    pub bucket_name: Option<&'a str>,
    pub bucket_id: Option<&'a str>,
}

impl<'a> GetBucket<'a> {
    /// A call that asks for the bucket of this name.
    pub fn by_name(auth: &'a B2Authorization, name: &'a str) -> (call: Self)
        ensures
            call == (GetBucket { auth, bucket_name: Some(name), bucket_id: None }),
    {
        GetBucket { auth, bucket_name: Some(name), bucket_id: None }
    }

    /// A call that asks for the bucket with this id.
    pub fn by_id(auth: &'a B2Authorization, id: &'a str) -> (call: Self)
        ensures
            call == (GetBucket { auth, bucket_name: None, bucket_id: Some(id) }),
    {
        GetBucket { auth, bucket_name: None, bucket_id: Some(id) }
    }
}

/// The one element of a list that holds at most one. A longer list is an error,
/// which tells the length of the list.
pub fn list_as_option<T>(list: Vec<T>) -> (res: Result<Option<T>, usize>)
    ensures
        match res {
            Ok(None) => list@.len() == 0,
            Ok(Some(only)) => list@.len() == 1 && only == list@[0],
            Err(len) => list@.len() >= 2 && len == list@.len(),
        },
{
    let mut list = list;
    let len = list.len();
    if len >= 2 {
        return Err(len);
    }
    Ok(list.pop())
}

/// The name of a type that the API names leads back to that type.
pub proof fn lemma_bucket_type_round_trip(t: BucketType)
    requires
        !(t is Other),
    ensures
        spec_bucket_type(t.spec_str()) == Some(t),
{
    reveal_strlit("allPublic");
    reveal_strlit("allPrivate");
    reveal_strlit("snapshot");
    assert("allPublic"@.len() == 9);
    assert("allPrivate"@.len() == 10);
    assert("snapshot"@.len() == 8);
}

/// A name that is read as a type and written again is the same name.
pub proof fn lemma_bucket_type_keeps_name(name: String)
    ensures
        (match spec_bucket_type(name@) {
            Some(known) => known,
            None => BucketType::Other(name),
        }).spec_str() == name@,
{
}

} // verus!
