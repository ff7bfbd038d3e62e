//! What goes with a file when it is uploaded.

use crate::auth::B2Authorization;
use crate::text::{decimal, spec_decimal};
use vstd::string::StringExecFns;
use vstd::prelude::*;

verus! {

/// The name under which the service keeps the time at which a file was last changed.
pub const LAST_MODIFIED_KEY: &'static str = "src_last_modified_millis";

/// The name under which the service keeps the content disposition of a file.
pub const CONTENT_DISPOSITION_KEY: &'static str = "b2-content-disposition";

/// What is needed to upload to a bucket.
#[derive(Debug, Clone)]
pub struct UploadAuthorization {
    pub bucket_id: String,
    pub upload_url: String,
    pub authorization_token: String,
}

/// The answer of the service when the upload of a large file was cancelled.
#[derive(Debug, Clone)]
pub struct CancelLargeFileResponse {
    pub file_id: String,
    pub file_name: String,
    pub bucket_id: String,
    pub account_id: String,
}

/// The answer of the service when a part of a large file was uploaded.
#[derive(Debug, Clone)]
pub struct UploadPartResponse {
    pub file_id: String,
    pub part_number: usize,
    pub content_length: u64,
    pub content_sha1: String,
    pub upload_timestamp: i64,
}

/// The two infos of a file to which the service gives a meaning: when the file was
/// last changed, and its content disposition.
#[derive(Debug, Clone)]
pub struct SimpleFileInfo {
    last_modified: Option<String>,
    content_disposition: Option<String>,
}

/// Goes through the infos of a [`SimpleFileInfo`].
pub struct SimpleFileInfoIter<'a> {
    last_modified: Option<&'a str>,
    content_disposition: Option<&'a str>,
}

/// The characters of a string that may be absent.
pub open spec fn opt_text(s: Option<String>) -> Option<Seq<char>> {
    match s {
        Some(s) => Some(s@),
        None => None,
    }
}

/// The characters of a string slice that may be absent.
pub open spec fn opt_str(s: Option<&str>) -> Option<Seq<char>> {
    match s {
        Some(s) => Some(s@),
        None => None,
    }
}

impl SimpleFileInfo {
    /// The time at which the file was last changed, as it is sent.
    pub closed spec fn spec_last_modified(&self) -> Option<Seq<char>> {
        opt_text(self.last_modified)
    }

    /// The content disposition.
    pub closed spec fn spec_content_disposition(&self) -> Option<Seq<char>> {
        opt_text(self.content_disposition)
    }

    /// No info.
    pub fn new() -> (info: SimpleFileInfo)
        ensures
            info.spec_last_modified() is None,
            info.spec_content_disposition() is None,
    {
        SimpleFileInfo { last_modified: None, content_disposition: None }
    }

    /// Sets the time at which the file was last changed, in milliseconds since the
    /// first of January 1970 UTC.
    pub fn last_modified(self, val: u64) -> (info: SimpleFileInfo)
        ensures
            info.spec_last_modified() == Some(spec_decimal(val as nat)),
            info.spec_content_disposition() == self.spec_content_disposition(),
    {
        SimpleFileInfo {
            last_modified: Some(decimal(val)),
            content_disposition: self.content_disposition,
        }
    }

    /// Sets the value of the `Content-Disposition` header that the service sends
    /// with the file.
    pub fn content_disposition(self, value: String) -> (info: SimpleFileInfo)
        ensures
            info.spec_last_modified() == self.spec_last_modified(),
            info.spec_content_disposition() == Some(value@),
    {
        SimpleFileInfo { last_modified: self.last_modified, content_disposition: Some(value) }
    }

    /// Goes through the infos that are set: first the time of the last change, then
    /// the content disposition.
    pub fn as_iter(&self) -> (iter: SimpleFileInfoIter<'_>)
        ensures
            iter.spec_last_modified() == self.spec_last_modified(),
            iter.spec_content_disposition() == self.spec_content_disposition(),
    {
        SimpleFileInfoIter {
            last_modified: match &self.last_modified {
                Some(s) => Some(s.as_str()),
                None => None,
            },
            content_disposition: match &self.content_disposition {
                Some(s) => Some(s.as_str()),
                None => None,
            },
        }
    }
}

impl<'a> SimpleFileInfoIter<'a> {
    /// The time of the last change, if it is still to come.
    pub closed spec fn spec_last_modified(&self) -> Option<Seq<char>> {
        opt_str(self.last_modified)
    }

    /// The content disposition, if it is still to come.
    pub closed spec fn spec_content_disposition(&self) -> Option<Seq<char>> {
        opt_str(self.content_disposition)
    }

    /// The next info with the name under which the service keeps it.
    pub fn next(&mut self) -> (item: Option<(&'static str, &'a str)>)
        ensures
            match item {
                Some((key, value)) => if old(self).spec_last_modified() is Some {
                    &&& key@ == LAST_MODIFIED_KEY@
                    &&& Some(value@) == old(self).spec_last_modified()
                    &&& final(self).spec_last_modified() is None
                    &&& final(self).spec_content_disposition() == old(
                        self,
                    ).spec_content_disposition()
                } else {
                    &&& key@ == CONTENT_DISPOSITION_KEY@
                    &&& Some(value@) == old(self).spec_content_disposition()
                    &&& final(self).spec_last_modified() is None
                    &&& final(self).spec_content_disposition() is None
                },
                None => {
                    &&& old(self).spec_last_modified() is None
                    &&& old(self).spec_content_disposition() is None
                    &&& final(self).spec_last_modified() is None
                    &&& final(self).spec_content_disposition() is None
                },
            },
    {
        match self.last_modified.take() {
            Some(lm) => Some((LAST_MODIFIED_KEY, lm)),
            None => match self.content_disposition.take() {
                Some(cd) => Some((CONTENT_DISPOSITION_KEY, cd)),
                None => None,
            },
        }
    }
}

/// The call that asks for an address to upload to.
#[derive(Debug, Clone)]
pub struct GetUploadUrl<'a> {
    /// The authorization that the call is made with.
    pub auth: &'a B2Authorization,
    pub bucket_id: &'a str,
}

impl<'a> GetUploadUrl<'a> {
    /// A call that asks for an address to upload to the bucket with this id.
    pub fn new(auth: &'a B2Authorization, bucket_id: &'a str) -> (call: Self)
        ensures
            call == (GetUploadUrl { auth, bucket_id }),
    {
        GetUploadUrl { auth, bucket_id }
    }

}

/// The infos that go with a file when it is uploaded, as pairs of a name and a value.
pub trait UploadFileInfo {
    /// The pairs, in the order in which they are sent.
    spec fn spec_pairs(&self) -> Seq<(Seq<char>, Seq<char>)>;

    /// The pairs, in the order in which they are sent.
    fn pairs(&self) -> (pairs: Vec<(String, String)>)
        ensures
            pair_texts(pairs@) == self.spec_pairs(),
    ;
}

/// The characters of each name and value of a list of pairs.
pub open spec fn pair_texts(pairs: Seq<(String, String)>) -> Seq<(Seq<char>, Seq<char>)> {
    Seq::new(pairs.len(), |i: int| (pairs[i].0@, pairs[i].1@))
}

impl UploadFileInfo for SimpleFileInfo {
    open spec fn spec_pairs(&self) -> Seq<(Seq<char>, Seq<char>)> {
        let first = match self.spec_last_modified() {
            Some(value) => seq![(LAST_MODIFIED_KEY@, value)],
            None => Seq::empty(),
        };
        match self.spec_content_disposition() {
            Some(value) => first.push((CONTENT_DISPOSITION_KEY@, value)),
            None => first,
        }
    }

    fn pairs(&self) -> (pairs: Vec<(String, String)>) {
        let mut pairs: Vec<(String, String)> = Vec::new();
        let mut iter = self.as_iter();
        match iter.next() {
            Some((key, value)) => {
                pairs.push((String::from_str(key), String::from_str(value)));
                match iter.next() {
                    Some((key2, value2)) => {
                        pairs.push((String::from_str(key2), String::from_str(value2)));
                    },
                    None => {},
                }
            },
            None => {},
        }
        assert(pair_texts(pairs@) =~= self.spec_pairs());
        pairs
    }
}

impl UploadFileInfo for Vec<(String, String)> {
    open spec fn spec_pairs(&self) -> Seq<(Seq<char>, Seq<char>)> {
        pair_texts(self@)
    }

    fn pairs(&self) -> (pairs: Vec<(String, String)>) {
        let mut pairs: Vec<(String, String)> = Vec::new();
        let mut iter = SliceIter::new(self.as_slice());
        loop
            invariant
                iter.spec_all() == self@,
                iter.spec_at() <= self@.len(),
                pairs@.len() == iter.spec_at(),
                forall|j: int|
                    0 <= j < pairs@.len() ==> pairs@[j].0@ == self@[j].0@ && pairs@[j].1@
                        == self@[j].1@,
            ensures
                pairs@.len() == self@.len(),
            decreases self@.len() - iter.spec_at(),
        {
            match iter.next() {
                Some((key, value)) => {
                    pairs.push((String::from_str(key), String::from_str(value)));
                },
                None => {
                    break ;
                },
            }
        }
        assert(pair_texts(pairs@) =~= pair_texts(self@));
        pairs
    }
}

/// Goes through a slice of pairs.
pub struct SliceIter<'a> {
    real: &'a [(String, String)],
    at: usize,
}

impl<'a> SliceIter<'a> {
    /// The pairs that the iterator goes through.
    pub closed spec fn spec_all(&self) -> Seq<(String, String)> {
        self.real@
    }

    /// How many pairs have gone by.
    pub closed spec fn spec_at(&self) -> int {
        self.at as int
    }

    /// An iterator at the first pair of the slice.
    pub fn new(pairs: &'a [(String, String)]) -> (iter: SliceIter<'a>)
        ensures
            iter.spec_all() == pairs@,
            iter.spec_at() == 0,
    {
        SliceIter { real: pairs, at: 0 }
    }

    /// The next pair.
    pub fn next(&mut self) -> (item: Option<(&'a str, &'a str)>)
        ensures
            final(self).spec_all() == old(self).spec_all(),
            match item {
                Some((key, value)) => {
                    &&& old(self).spec_at() < old(self).spec_all().len()
                    &&& final(self).spec_at() == old(self).spec_at() + 1
                    &&& key@ == old(self).spec_all()[old(self).spec_at()].0@
                    &&& value@ == old(self).spec_all()[old(self).spec_at()].1@
                },
                None => {
                    &&& old(self).spec_at() >= old(self).spec_all().len()
                    &&& final(self).spec_at() == old(self).spec_at()
                },
            },
    {
        if self.at < self.real.len() {
            let pair = &self.real[self.at];
            self.at += 1;
            Some((pair.0.as_str(), pair.1.as_str()))
        } else {
            None
        }
    }
}

/// The name of the header that carries the info called `key`.
pub fn info_header_name(key: &str) -> (name: String)
    ensures
        name@ == "X-Bz-Info-"@ + key@,
{
    String::from_str("X-Bz-Info-").concat(key)
}

/// The headers of a request that uploads a file, before those that carry infos.
pub open spec fn spec_upload_headers(
    auth_token: Seq<char>,
    file_name: Seq<char>,
    content_type: Seq<char>,
    content_length: nat,
    content_sha1: Seq<char>,
) -> Seq<(Seq<char>, Seq<char>)> {
    seq![
        ("Authorization"@, auth_token),
        ("X-Bz-File-Name"@, file_name),
        ("Content-Type"@, content_type),
        ("Content-Length"@, spec_decimal(content_length)),
        ("X-Bz-Content-Sha1"@, content_sha1),
    ]
}

/// The headers that carry the infos: each name with `X-Bz-Info-` before it.
pub open spec fn spec_info_headers(pairs: Seq<(Seq<char>, Seq<char>)>) -> Seq<
    (Seq<char>, Seq<char>),
> {
    Seq::new(pairs.len(), |i: int| ("X-Bz-Info-"@ + pairs[i].0, pairs[i].1))
}

/// The headers of a request that uploads a file, as pairs of a name and a value:
/// the authorization, the name, type, length and SHA-1 of the file, and one header
/// for each info.
pub fn upload_headers<Info: UploadFileInfo>(
    auth_token: &str,
    file_name: &str,
    content_type: &str,
    content_length: u64,
    content_sha1: &str,
    info: &Info,
) -> (headers: Vec<(String, String)>)
    ensures
        pair_texts(headers@) == spec_upload_headers(
            auth_token@,
            file_name@,
            content_type@,
            content_length as nat,
            content_sha1@,
        ) + spec_info_headers(info.spec_pairs()),
{
    let mut headers: Vec<(String, String)> = Vec::new();
    headers.push((String::from_str("Authorization"), String::from_str(auth_token)));
    headers.push((String::from_str("X-Bz-File-Name"), String::from_str(file_name)));
    headers.push((String::from_str("Content-Type"), String::from_str(content_type)));
    headers.push((String::from_str("Content-Length"), decimal(content_length)));
    headers.push((String::from_str("X-Bz-Content-Sha1"), String::from_str(content_sha1)));
    let ghost fixed = spec_upload_headers(
        auth_token@,
        file_name@,
        content_type@,
        content_length as nat,
        content_sha1@,
    );
    assert(pair_texts(headers@) =~= fixed);
    let pairs = info.pairs();
    let mut k: usize = 0;
    while k < pairs.len()
        invariant
            k <= pairs.len(),
            fixed.len() == 5,
            pair_texts(pairs@) == info.spec_pairs(),
            headers@.len() == 5 + k,
            pair_texts(headers@).take(5) == fixed,
            forall|j: int|
                0 <= j < k ==> (#[trigger] headers@[5 + j]).0@ == "X-Bz-Info-"@ + pairs@[j].0@
                    && headers@[5 + j].1@ == pairs@[j].1@,
        decreases pairs.len() - k,
    {
        let ghost before = headers@;
        headers.push((info_header_name(pairs[k].0.as_str()), pairs[k].1.clone()));
        proof {
            assert(pair_texts(headers@).take(5) =~= pair_texts(before).take(5));
            assert forall|j: int| 0 <= j < k + 1 implies (#[trigger] headers@[5 + j]).0@
                == "X-Bz-Info-"@ + pairs@[j].0@ && headers@[5 + j].1@ == pairs@[j].1@ by {
                if j < k {
                    assert(headers@[5 + j] == before[5 + j]);
                }
            }
        }
        k += 1;
    }
    proof {
        let want = fixed + spec_info_headers(info.spec_pairs());
        let got = pair_texts(headers@);
        assert(got.len() == want.len());
        assert forall|i: int| 0 <= i < got.len() implies got[i] == want[i] by {
            if i < 5 {
                assert(got.take(5)[i] == fixed[i]);
            } else {
                let j = i - 5;
                assert(headers@[5 + j].0@ == "X-Bz-Info-"@ + pairs@[j].0@);
                assert(pair_texts(pairs@)[j] == info.spec_pairs()[j]);
            }
        }
        assert(got =~= want);
    }
    headers
}

} // verus!
