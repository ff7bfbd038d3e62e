//! Downloading files: the addresses to ask, and the life of a download.

use crate::auth::B2Authorization;
use crate::b2_future::{extend_with, BodyEvent, ExchangeEvent};
use crate::chunk::chunk_bytes;
use crate::error::B2Error;
use crate::files::listing::FileInfo;
use crate::text::{
    begins_with, decimal, parse_u64, parse_usize, spec_decimal, spec_parse_u64, spec_parse_usize,
    text_begins_with,
};
use bytes::Bytes;
use vstd::prelude::*;
use vstd::string::StringExecFns;
use vstd::string::StringSliceAdditionalSpecFns;
use vstd::utf8::encode_utf8;

verus! {

/// The status of a response that holds a whole file.
pub const STATUS_OK: u16 = 200;

/// The status of a response that holds a part of a file.
pub const STATUS_PARTIAL_CONTENT: u16 = 206;

/// The room that is made for a download whose length is not known.
pub const DEFAULT_COLLECT_SIZE: usize = 1024;

/// Which bytes are written as a percent sign and two digits.
#[derive(Debug, Clone, Copy, PartialEq, Eq, Structural)]
pub enum EncodeSet {
    /// Controls, bytes above `~`, and space, `"`, `#`, `<`, `>`.
    Query,
    /// Those of `Query`, and `` ` ``, `?`, `{`, `}`.
    Default,
    /// Those of `Default`, and `%`, `/`.
    PathSegment,
}

impl EncodeSet {
    /// Whether the set holds the byte.
    pub open spec fn holds(self, b: u8) -> bool {
        ||| b < 0x20
        ||| b > 0x7e
        ||| b == 0x20
        ||| b == 0x22
        ||| b == 0x23
        ||| b == 0x3c
        ||| b == 0x3e
        ||| (!(self is Query) && (b == 0x60 || b == 0x3f || b == 0x7b || b == 0x7d))
        ||| (self is PathSegment && (b == 0x25 || b == 0x2f))
    }
}

/// The hexadecimal digit of a number below 16, in upper case.
pub open spec fn spec_hex(n: nat) -> char {
    if n == 0 {
        '0'
    } else if n == 1 {
        '1'
    } else if n == 2 {
        '2'
    } else if n == 3 {
        '3'
    } else if n == 4 {
        '4'
    } else if n == 5 {
        '5'
    } else if n == 6 {
        '6'
    } else if n == 7 {
        '7'
    } else if n == 8 {
        '8'
    } else if n == 9 {
        '9'
    } else if n == 10 {
        'A'
    } else if n == 11 {
        'B'
    } else if n == 12 {
        'C'
    } else if n == 13 {
        'D'
    } else if n == 14 {
        'E'
    } else {
        'F'
    }
}

/// Bytes in percent-encoding: a byte of the set is written as a percent sign and its
/// two hexadecimal digits, any other as the character that it is.
pub open spec fn spec_percent_encode(bytes: Seq<u8>, set: EncodeSet) -> Seq<char>
    decreases bytes.len(),
{
    if bytes.len() == 0 {
        Seq::empty()
    } else {
        let b = bytes.last();
        let tail = if set.holds(b) {
            seq!['%', spec_hex((b / 16) as nat), spec_hex((b % 16) as nat)]
        } else {
            seq![b as char]
        };
        spec_percent_encode(bytes.drop_last(), set) + tail
    }
}

/// `percent_encoding::percent_encode` with `PATH_SEGMENT_ENCODE_SET`, written out.
#[verifier::external_body]
fn encode_path_segment(bytes: &[u8]) -> (text: String)
    ensures
        text@ == spec_percent_encode(bytes@, EncodeSet::PathSegment),
{
    percent_encoding::percent_encode(bytes, percent_encoding::PATH_SEGMENT_ENCODE_SET).to_string()
}

/// `percent_encoding::percent_encode` with `DEFAULT_ENCODE_SET`, written out.
#[verifier::external_body]
fn encode_default(bytes: &[u8]) -> (text: String)
    ensures
        text@ == spec_percent_encode(bytes@, EncodeSet::Default),
{
    percent_encoding::percent_encode(bytes, percent_encoding::DEFAULT_ENCODE_SET).to_string()
}

/// `percent_encoding::percent_encode` with `QUERY_ENCODE_SET`, written out.
#[verifier::external_body]
fn encode_query_set(bytes: &[u8]) -> (text: String)
    ensures
        text@ == spec_percent_encode(bytes@, EncodeSet::Query),
{
    percent_encoding::percent_encode(bytes, percent_encoding::QUERY_ENCODE_SET).to_string()
}

/// The name of a bucket as a segment of a path.
pub fn encode_bucket(bucket: &str) -> (text: String)
    ensures
        text@ == spec_percent_encode(encode_utf8(bucket@), EncodeSet::PathSegment),
{
    encode_path_segment(bucket.as_bytes())
}

/// The name of a file as the rest of a path. Its slashes stay.
pub fn encode_file(filename: &str) -> (text: String)
    ensures
        text@ == spec_percent_encode(encode_utf8(filename@), EncodeSet::Default),
{
    encode_default(filename.as_bytes())
}

/// A value in the query of an address.
pub fn encode_query(query: &str) -> (text: String)
    ensures
        text@ == spec_percent_encode(encode_utf8(query@), EncodeSet::Query),
{
    encode_query_set(query.as_bytes())
}

/// May download the files of one bucket whose names begin with a prefix.
#[derive(Debug, Clone)]
pub struct DownloadAuthorization {
    pub bucket_id: String,
    pub file_name_prefix: String,
    pub authorization_token: String,
    pub download_url: String,
}

/// May download the files of public buckets.
#[derive(Debug, Clone)]
pub struct PublicDownloadAuthorization {
    pub download_url: String,
}

/// What the service answers when it gives a download authorization.
#[derive(Debug, Clone)]
pub struct DlAuthResponse {
    pub bucket_id: String,
    pub file_name_prefix: String,
    pub authorization_token: String,
}

/// Authorizes the download of a file by its name.
pub trait CanAuthorizeNameDownload {
    /// The value of the `Authorization` header, where one is needed.
    spec fn spec_header(&self) -> Option<Seq<char>>;

    /// The address to download from.
    spec fn spec_url(&self) -> Seq<char>;

    /// The value of the `Authorization` header, where one is needed.
    fn authorization_header(&self) -> (header: Option<String>)
        ensures
            match header {
                Some(h) => self.spec_header() == Some(h@),
                None => self.spec_header() is None,
            },
    ;

    /// The address to download from.
    fn download_url(&self) -> (url: &str)
        ensures
            url@ == self.spec_url(),
    ;
}

/// Authorizes the download of a file by its id.
pub trait CanAuthorizeIdDownload {
    /// The value of the `Authorization` header, where one is needed.
    spec fn spec_header(&self) -> Option<Seq<char>>;

    /// The address to download from.
    spec fn spec_url(&self) -> Seq<char>;

    /// The value of the `Authorization` header, where one is needed.
    fn authorization_header(&self) -> (header: Option<String>)
        ensures
            match header {
                Some(h) => self.spec_header() == Some(h@),
                None => self.spec_header() is None,
            },
    ;

    /// The address to download from.
    fn download_url(&self) -> (url: &str)
        ensures
            url@ == self.spec_url(),
    ;
}

impl CanAuthorizeNameDownload for DownloadAuthorization {
    open spec fn spec_header(&self) -> Option<Seq<char>> {
        Some(self.authorization_token@)
    }

    open spec fn spec_url(&self) -> Seq<char> {
        self.download_url@
    }

    fn authorization_header(&self) -> (header: Option<String>) {
        Some(self.authorization_token.clone())
    }

    fn download_url(&self) -> (url: &str) {
        self.download_url.as_str()
    }
}

impl CanAuthorizeNameDownload for B2Authorization {
    open spec fn spec_header(&self) -> Option<Seq<char>> {
        Some(self.authorization_token@)
    }

    open spec fn spec_url(&self) -> Seq<char> {
        self.download_url@
    }

    fn authorization_header(&self) -> (header: Option<String>) {
        Some(self.authorization_token.clone())
    }

    fn download_url(&self) -> (url: &str) {
        self.download_url.as_str()
    }
}

impl CanAuthorizeNameDownload for PublicDownloadAuthorization {
    open spec fn spec_header(&self) -> Option<Seq<char>> {
        None
    }

    open spec fn spec_url(&self) -> Seq<char> {
        self.download_url@
    }

    fn authorization_header(&self) -> (header: Option<String>) {
        None
    }

    fn download_url(&self) -> (url: &str) {
        self.download_url.as_str()
    }
}

impl CanAuthorizeIdDownload for B2Authorization {
    open spec fn spec_header(&self) -> Option<Seq<char>> {
        Some(self.authorization_token@)
    }

    open spec fn spec_url(&self) -> Seq<char> {
        self.download_url@
    }

    fn authorization_header(&self) -> (header: Option<String>) {
        Some(self.authorization_token.clone())
    }

    fn download_url(&self) -> (url: &str) {
        self.download_url.as_str()
    }
}

impl CanAuthorizeIdDownload for PublicDownloadAuthorization {
    open spec fn spec_header(&self) -> Option<Seq<char>> {
        None
    }

    open spec fn spec_url(&self) -> Seq<char> {
        self.download_url@
    }

    fn authorization_header(&self) -> (header: Option<String>) {
        None
    }

    fn download_url(&self) -> (url: &str) {
        self.download_url.as_str()
    }
}

impl PublicDownloadAuthorization {
    /// An authorization for the public buckets behind `download_url`.
    pub fn new(download_url: String) -> (auth: PublicDownloadAuthorization)
        ensures
            auth.download_url == download_url,
    {
        PublicDownloadAuthorization { download_url }
    }

    /// An authorization for the public buckets of the account of `auth`.
    pub fn from_auth(auth: &B2Authorization) -> (public: PublicDownloadAuthorization)
        ensures
            public.download_url == auth.download_url,
    {
        PublicDownloadAuthorization { download_url: auth.download_url.clone() }
    }

    /// An authorization for the public buckets of the account of `auth`.
    pub fn from_dl_auth(auth: &DownloadAuthorization) -> (public: PublicDownloadAuthorization)
        ensures
            public.download_url == auth.download_url,
    {
        PublicDownloadAuthorization { download_url: auth.download_url.clone() }
    }
}

impl DownloadAuthorization {
    /// Whether the authorization is for the bucket with this id.
    pub fn allows_bucket(&self, bucket_id: &str) -> (r: bool)
        ensures
            r == (self.bucket_id@ == bucket_id@),
    {
        crate::text::same_text(self.bucket_id.as_str(), bucket_id)
    }
}

impl DlAuthResponse {
    /// The authorization that the service gave, with the address to download from.
    pub fn merge(self, url: String) -> (auth: DownloadAuthorization)
        ensures
            auth == (DownloadAuthorization {
                bucket_id: self.bucket_id,
                file_name_prefix: self.file_name_prefix,
                authorization_token: self.authorization_token,
                download_url: url,
            }),
    {
        DownloadAuthorization {
            bucket_id: self.bucket_id,
            file_name_prefix: self.file_name_prefix,
            authorization_token: self.authorization_token,
            download_url: url,
        }
    }
}

/// The address of a file by its name, with the authorization in the query where
/// one is needed.
pub open spec fn spec_name_url(
    url: Seq<char>,
    header: Option<Seq<char>>,
    bucket_name: Seq<char>,
    file_name: Seq<char>,
) -> Seq<char> {
    let plain = url + "/file/"@ + spec_percent_encode(
        encode_utf8(bucket_name),
        EncodeSet::PathSegment,
    ) + "/"@ + spec_percent_encode(encode_utf8(file_name), EncodeSet::Default);
    match header {
        None => plain,
        Some(token) => plain + "?Authorization="@ + spec_percent_encode(
            encode_utf8(token),
            EncodeSet::Query,
        ),
    }
}

/// The address of a file by its id, with the authorization in the query where one
/// is needed.
pub open spec fn spec_id_url(url: Seq<char>, header: Option<Seq<char>>, file_id: Seq<char>) -> Seq<
    char,
> {
    let plain = url + "/b2api/v2/b2_download_file_by_id?fileId="@ + spec_percent_encode(
        encode_utf8(file_id),
        EncodeSet::Query,
    );
    match header {
        None => plain,
        Some(token) => plain + "&Authorization="@ + spec_percent_encode(
            encode_utf8(token),
            EncodeSet::Query,
        ),
    }
}

/// The address that downloads the file with a plain GET request. Where an
/// authorization is needed it is part of the address, so whoever has the address
/// has the authorization.
pub fn download_by_name_url<Auth: CanAuthorizeNameDownload>(
    auth: &Auth,
    bucket_name: &str,
    file_name: &str,
) -> (address: String)
    ensures
        address@ == spec_name_url(auth.spec_url(), auth.spec_header(), bucket_name@, file_name@),
{
    let url = String::from_str(auth.download_url());
    let bucket = encode_bucket(bucket_name);
    let file = encode_file(file_name);
    let plain = url.concat("/file/").concat(bucket.as_str()).concat("/").concat(file.as_str());
    match auth.authorization_header() {
        None => plain,
        Some(token) => {
            let query = encode_query(token.as_str());
            plain.concat("?Authorization=").concat(query.as_str())
        },
    }
}

/// The address that downloads the file with a plain GET request. Where an
/// authorization is needed it is part of the address, so whoever has the address
/// has the authorization.
pub fn download_by_id_url<Auth: CanAuthorizeIdDownload>(auth: &Auth, file_id: &str) -> (address:
    String)
    ensures
        address@ == spec_id_url(auth.spec_url(), auth.spec_header(), file_id@),
{
    let url = String::from_str(auth.download_url());
    let id = encode_query(file_id);
    let plain = url.concat("/b2api/v2/b2_download_file_by_id?fileId=").concat(id.as_str());
    match auth.authorization_header() {
        None => plain,
        Some(token) => {
            let query = encode_query(token.as_str());
            plain.concat("&Authorization=").concat(query.as_str())
        },
    }
}

/// The address to which the request for a file by its id goes.
pub fn download_by_id_request_url(download_url: &str, file_id: &str) -> (address: String)
    ensures
        address@ == download_url@ + "/b2api/v2/b2_download_file_by_id?fileId="@
            + spec_percent_encode(encode_utf8(file_id@), EncodeSet::Default),
{
    let id = encode_file(file_id);
    String::from_str(download_url).concat("/b2api/v2/b2_download_file_by_id?fileId=").concat(
        id.as_str(),
    )
}

/// The address to which the request for a file by its name goes.
pub fn download_by_name_request_url(download_url: &str, bucket_name: &str, file_name: &str) -> (address:
    String)
    ensures
        address@ == spec_name_url(download_url@, None, bucket_name@, file_name@),
{
    let bucket = encode_bucket(bucket_name);
    let file = encode_file(file_name);
    String::from_str(download_url).concat("/file/").concat(bucket.as_str()).concat("/").concat(
        file.as_str(),
    )
}

/// The value of the `Range` header for the bytes from `start` to `end`.
pub fn range_header(start: u64, end: u64) -> (value: String)
    ensures
        value@ == spec_decimal(start as nat) + "-"@ + spec_decimal(end as nat),
{
    let from = decimal(start);
    let to = decimal(end);
    from.concat("-").concat(to.as_str())
}

/// The body length that the head of a response announces, zero where it announces
/// none or one that is no number.
pub fn get_content_length(header: Option<&[u8]>) -> (len: usize)
    ensures
        len == match header {
            Some(value) => match spec_parse_usize(value@) {
                Some(n) => n,
                None => 0,
            },
            None => 0,
        },
{
    match header {
        Some(value) => match parse_usize(value) {
            Some(n) => n,
            None => 0,
        },
        None => 0,
    }
}

/// What the headers of a download tell of the file.
#[derive(Debug, Clone)]
pub struct DownloadHeaders {
    /// The value of `X-Bz-File-Id`.
    pub file_id: Option<String>,
    /// The value of `X-Bz-File-Name`.
    pub file_name: Option<String>,
    /// The value of `Content-Length`.
    pub content_length: Option<u64>,
    /// The value of `Content-Type`.
    pub content_type: Option<String>,
    /// The value of `X-Bz-Content-Sha1`.
    pub content_sha1: Option<String>,
    /// The value of `X-Bz-Upload-Timestamp`.
    pub upload_timestamp: Option<String>,
}

impl DownloadHeaders {
    /// Every header that tells of the file is there.
    pub open spec fn complete(&self) -> bool {
        &&& self.file_id is Some
        &&& self.file_name is Some
        &&& self.content_length is Some
        &&& self.content_type is Some
        &&& self.content_sha1 is Some
        &&& self.upload_timestamp is Some
    }
}

/// What the headers of a download tell of the file, with `info` for what the
/// headers `X-Bz-Info-*` hold. There is nothing to tell when one of the headers is
/// missing. A time of upload that is no number is an error.
pub fn handle_download_response<InfoType>(headers: DownloadHeaders, info: InfoType) -> (res:
    Result<Option<FileInfo<InfoType>>, B2Error>)
    ensures
        !headers.complete() ==> res is Ok && res->Ok_0 is None,
        headers.complete() ==> match spec_parse_u64(
            encode_utf8(headers.upload_timestamp->Some_0@),
        ) {
            Some(time) => res == Ok::<Option<FileInfo<InfoType>>, B2Error>(
                Some(
                    FileInfo {
                        file_id: headers.file_id->Some_0,
                        file_name: headers.file_name->Some_0,
                        content_length: headers.content_length->Some_0,
                        content_type: headers.content_type->Some_0,
                        content_sha1: headers.content_sha1->Some_0,
                        file_info: info,
                        upload_timestamp: time,
                    },
                ),
            ),
            None => res matches Err(B2Error::ApiInconsistency(text)) && text@
                == "upload timestamp not integer"@,
        },
{
    let file_id = match headers.file_id {
        Some(v) => v,
        None => return Ok(None),
    };
    let file_name = match headers.file_name {
        Some(v) => v,
        None => return Ok(None),
    };
    let content_length = match headers.content_length {
        Some(v) => v,
        None => return Ok(None),
    };
    let content_type = match headers.content_type {
        Some(v) => v,
        None => return Ok(None),
    };
    let content_sha1 = match headers.content_sha1 {
        Some(v) => v,
        None => return Ok(None),
    };
    let upload_timestamp = match headers.upload_timestamp {
        Some(v) => v,
        None => return Ok(None),
    };
    match parse_u64(upload_timestamp.as_str().as_bytes()) {
        Some(time) => Ok(
            Some(
                FileInfo {
                    file_id,
                    file_name,
                    content_length,
                    content_type,
                    content_sha1,
                    file_info: info,
                    upload_timestamp: time,
                },
            ),
        ),
        None => Err(B2Error::api("upload timestamp not integer")),
    }
}

/// Whether a header carries an info of the file: its name begins with `X-Bz-Info-`.
pub fn is_info_header(name: &str) -> (r: bool)
    ensures
        r == begins_with(encode_utf8(name@), encode_utf8("X-Bz-Info-"@)),
{
    text_begins_with(name, "X-Bz-Info-")
}

/// What a [`DownloadFuture`] says to its driver.
pub enum DownloadReply {
    /// Poll the exchange and report with `on_exchange`.
    AskExchange,
    /// Poll the body and report with `on_body`.
    AskBody,
    /// Nothing more can be done now.
    Pending,
    /// The download has begun: the body of the response is the file.
    Stream(DownloadStream),
    /// The body of a response that is no download, whole: it holds the error that
    /// the service sends.
    ApiError { status: u16, body: Vec<u8> },
    /// The exchange failed.
    Failed(B2Error),
}

/// The states of a [`DownloadFuture`].
pub enum DownloadState {
    /// The request is under way.
    Connecting,
    /// The response is no download, and these bytes of its body have arrived.
    CollectingError { status: u16, bytes: Seq<u8> },
    /// The request could not even be made.
    FailImmediately(B2Error),
    /// The outcome has been handed out.
    Done,
}

enum State {
    Connecting,
    CollectingError(u16, Vec<u8>),
    FailImmediately(B2Error),
    Done,
}

/// Waits for the head of a download.
pub struct DownloadFuture {
    state: State,
}

/// Counts down the bytes of a download.
pub struct DownloadStream {
    size: Option<usize>,
}

impl View for DownloadFuture {
    type V = DownloadState;

    closed spec fn view(&self) -> DownloadState {
        match self.state {
            State::Connecting => DownloadState::Connecting,
            State::CollectingError(status, bytes) => DownloadState::CollectingError {
                status,
                bytes: bytes@,
            },
            State::FailImmediately(err) => DownloadState::FailImmediately(err),
            State::Done => DownloadState::Done,
        }
    }
}

/// Whether a response with this status holds a file or a part of one.
pub open spec fn spec_is_download(status: u16) -> bool {
    status == STATUS_OK || status == STATUS_PARTIAL_CONTENT
}

impl DownloadStream {
    /// How many bytes are still to come, where the service has announced it.
    pub closed spec fn spec_size(&self) -> Option<usize> {
        self.size
    }

    /// A stream for a body whose length header has the value `content_length`.
    pub fn new(content_length: Option<&[u8]>) -> (stream: DownloadStream)
        ensures
            stream.spec_size() == match content_length {
                Some(value) => spec_parse_usize(value@),
                None => None,
            },
    {
        DownloadStream {
            size: match content_length {
                Some(value) => parse_usize(value),
                None => None,
            },
        }
    }

    /// How many bytes are still to come, where the service has announced it.
    pub fn content_length(&self) -> (size: Option<usize>)
        ensures
            size == self.spec_size(),
    {
        self.size
    }

    /// The room to make for collecting what is still to come.
    pub fn collect_size(&self) -> (size: usize)
        ensures
            size == match self.spec_size() {
                Some(n) => n,
                None => DEFAULT_COLLECT_SIZE,
            },
    {
        match self.size {
            Some(n) => n,
            None => DEFAULT_COLLECT_SIZE,
        }
    }

    /// Takes a chunk that the body gave: that many bytes less are to come. A body
    /// that gives more than was announced leaves none to come.
    pub fn on_chunk(&mut self, chunk: &Bytes)
        ensures
            final(self).spec_size() == match old(self).spec_size() {
                Some(size) => Some(
                    if size >= chunk_bytes(*chunk).len() {
                        (size - chunk_bytes(*chunk).len()) as usize
                    } else {
                        0usize
                    },
                ),
                None => None,
            },
    {
        if let Some(size) = self.size {
            let len = chunk.len();
            self.size = Some(
                if size >= len {
                    size - len
                } else {
                    0
                },
            );
        }
    }
}

impl DownloadFuture {
    /// A future for a request that is under way.
    pub fn new() -> (fut: DownloadFuture)
        ensures
            fut@ is Connecting,
    {
        DownloadFuture { state: State::Connecting }
    }

    /// A future that fails with `err` as soon as it is polled.
    pub fn err(err: B2Error) -> (fut: DownloadFuture)
        ensures
            fut@ == DownloadState::FailImmediately(err),
    {
        DownloadFuture { state: State::FailImmediately(err) }
    }

    /// Whether the outcome has been handed out. Such a future must not be polled.
    pub fn is_terminated(&self) -> (done: bool)
        ensures
            done == (self@ is Done),
    {
        match self.state {
            State::Done => true,
            _ => false,
        }
    }

    /// Says what is to be done next. A future that was made with `err` hands its
    /// error out and is done.
    pub fn poll(&mut self) -> (reply: DownloadReply)
        requires
            !(old(self)@ is Done),
        ensures
            match old(self)@ {
                DownloadState::Connecting => reply is AskExchange && final(self)@ == old(self)@,
                DownloadState::CollectingError { .. } => {
                    &&& reply is AskBody
                    &&& final(self)@ == old(self)@
                },
                DownloadState::FailImmediately(err) => {
                    &&& reply == DownloadReply::Failed(err)
                    &&& final(self)@ is Done
                },
                DownloadState::Done => false,
            },
    {
        let mut state = State::Done;
        std::mem::swap(&mut self.state, &mut state);
        match state {
            State::Connecting => {
                self.state = State::Connecting;
                DownloadReply::AskExchange
            },
            State::CollectingError(status, bytes) => {
                self.state = State::CollectingError(status, bytes);
                DownloadReply::AskBody
            },
            State::FailImmediately(err) => DownloadReply::Failed(err),
            State::Done => DownloadReply::Pending,
        }
    }

    /// Takes what polling the exchange gave, with the value of the length header
    /// of the response if it has one. A response with status 200 or 206 begins the
    /// download and ends the future; one with another status starts collecting the
    /// error; a failure ends the future.
    pub fn on_exchange(&mut self, event: ExchangeEvent, length_header: Option<&[u8]>) -> (reply:
        DownloadReply)
        requires
            old(self)@ is Connecting,
        ensures
            match event {
                ExchangeEvent::Pending => reply is Pending && final(self)@ is Connecting,
                ExchangeEvent::Response { status, content_length } => if spec_is_download(status) {
                    &&& reply matches DownloadReply::Stream(stream)
                    &&& stream.spec_size() == match length_header {
                        Some(value) => spec_parse_usize(value@),
                        None => None,
                    }
                    &&& final(self)@ is Done
                } else {
                    &&& reply is AskBody
                    &&& final(self)@ == (DownloadState::CollectingError {
                        status,
                        bytes: Seq::empty(),
                    })
                },
                ExchangeEvent::Failed(err) => {
                    &&& reply == DownloadReply::Failed(B2Error::HyperError(err))
                    &&& final(self)@ is Done
                },
            },
    {
        match event {
            ExchangeEvent::Pending => DownloadReply::Pending,
            ExchangeEvent::Response { status, content_length } => {
                if status == STATUS_OK || status == STATUS_PARTIAL_CONTENT {
                    self.state = State::Done;
                    DownloadReply::Stream(DownloadStream::new(length_header))
                } else {
                    self.state = State::CollectingError(status, Vec::with_capacity(content_length));
                    DownloadReply::AskBody
                }
            },
            ExchangeEvent::Failed(err) => {
                self.state = State::Done;
                DownloadReply::Failed(B2Error::HyperError(err))
            },
        }
    }

    /// Takes what polling the body of an error gave. A chunk is added to the bytes
    /// collected; the end of the body ends the future and hands the bytes out; a
    /// failure ends the future.
    pub fn on_body(&mut self, event: BodyEvent) -> (reply: DownloadReply)
        requires
            old(self)@ is CollectingError,
        ensures
            old(self)@ matches DownloadState::CollectingError { status, bytes } && match event {
                BodyEvent::Pending => reply is Pending && final(self)@ == old(self)@,
                BodyEvent::Chunk(chunk) => {
                    &&& reply is AskBody
                    &&& final(self)@ == (DownloadState::CollectingError {
                        status,
                        bytes: bytes + chunk_bytes(chunk),
                    })
                },
                BodyEvent::End => {
                    &&& reply matches DownloadReply::ApiError { status: s, body }
                    &&& s == status
                    &&& body@ == bytes
                    &&& final(self)@ is Done
                },
                BodyEvent::Failed(err) => {
                    &&& reply == DownloadReply::Failed(B2Error::HyperError(err))
                    &&& final(self)@ is Done
                },
            },
    {
        let mut state = State::Done;
        std::mem::swap(&mut self.state, &mut state);
        match state {
            State::CollectingError(status, mut bytes) => match event {
                BodyEvent::Pending => {
                    self.state = State::CollectingError(status, bytes);
                    DownloadReply::Pending
                },
                BodyEvent::Chunk(chunk) => {
                    extend_with(&mut bytes, &chunk);
                    self.state = State::CollectingError(status, bytes);
                    DownloadReply::AskBody
                },
                BodyEvent::End => DownloadReply::ApiError { status, body: bytes },
                BodyEvent::Failed(err) => DownloadReply::Failed(B2Error::HyperError(err)),
            },
            _ => DownloadReply::Pending,
        }
    }
}

} // verus!
