use vstd::prelude::*;
use vstd::utf8::encode_utf8;
use crate::config::AppConfig;

verus! {

/// Files larger than this many bytes are never sent.
pub const MAX_FILE_SIZE_BYTES: usize = 500 * 1024 * 1024;

/// The multipart field that carries the file.
pub const UPLOAD_FIELD: &'static str = "sharex";

/// The name sent when a path has no final segment.
pub const DEFAULT_FILE_NAME: &'static str = "file_to_upload.txt";

/// The route under the configured domain that takes uploads.
pub const UPLOAD_ROUTE: &'static str = "/api/upload/sharex";

/// The start of every multipart content type header.
pub const MULTIPART_CONTENT_TYPE: &'static str = "multipart/form-data; boundary=";

/// The final component of a path, when it has one that is valid text.
pub uninterp spec fn final_segment(path: Seq<char>) -> Option<Seq<char>>;

/// Relies on `std::path::Path::file_name` and `OsStr::to_str`: the final
/// component of the path, if there is one and it is valid UTF-8.
#[verifier::external_body]
fn path_file_name(path: &str) -> (r: Option<String>)
    ensures
        r.is_some() == final_segment(path@).is_some(),
        r.is_some() ==> r.unwrap()@ == final_segment(path@).unwrap(),
{
    std::path::Path::new(path).file_name().and_then(|n| n.to_str()).map(|n| n.to_string())
}

/// The content type guessed from a file name's extension, as text
/// (`application/octet-stream` when the extension is unknown).
pub uninterp spec fn mime_of(file_name: Seq<char>) -> Seq<char>;

/// The headers that open a file part, up to and including the blank line
/// after which the file's bytes follow.
pub open spec fn part_header(field: Seq<char>, file_name: Seq<char>, mime: Seq<char>) -> Seq<char> {
    "Content-Disposition: form-data; name=\""@ + field + "\"; filename=\""@ + file_name
        + "\"\r\nContent-Type: "@ + mime + "\r\n\r\n"@
}

/// Relies on `mime_guess::from_path(..).first_or_octet_stream` for the part's
/// content type, and on `ureq_multipart::MultipartBuilder` (`new`,
/// `add_stream`, `finish`) to frame one file part read from memory, which
/// cannot fail. The boundary is random; every outcome has the multipart
/// content type and holds the part's headers directly followed by the bytes.
#[verifier::external_body]
fn encode_file_part(field: &str, file_name: &str, content: &[u8]) -> (r: Option<(String, Vec<u8>)>)
    ensures
        r.is_some(),
        r.is_some() ==> {
            let (ct, body) = r.unwrap();
            &&& MULTIPART_CONTENT_TYPE@.len() <= ct@.len()
            &&& ct@.subrange(0, MULTIPART_CONTENT_TYPE@.len() as int) == MULTIPART_CONTENT_TYPE@
            &&& contains_run(body@, encode_utf8(part_header(field@, file_name@, mime_of(file_name@))) + content@)
        },
{
    let guess = mime_guess::from_path(file_name).first_or_octet_stream();
    let mut stream: &[u8] = content;
    ureq_multipart::MultipartBuilder::new()
        .add_stream(&mut stream, field, Some(file_name), Some(guess))
        .and_then(|b| b.finish())
        .ok()
}

/// `part` occurs in `whole` as a contiguous run.
pub open spec fn contains_run<T>(whole: Seq<T>, part: Seq<T>) -> bool {
    exists|i: int|
        0 <= i && i + part.len() <= whole.len() && #[trigger] whole.subrange(i, i + part.len())
            == part
}

/// The name under which a path is uploaded.
pub open spec fn file_name_spec(path: Seq<char>) -> Seq<char> {
    match final_segment(path) {
        Some(name) => name,
        None => DEFAULT_FILE_NAME@,
    }
}

/// The address that uploads are posted to.
pub open spec fn upload_url_spec(domain: Seq<char>) -> Seq<char> {
    domain + UPLOAD_ROUTE@
}

/// The final segment of `path`, or the default name when it has none.
pub fn file_name_of(path: &str) -> (r: String)
    ensures
        r@ == file_name_spec(path@),
{
    match path_file_name(path) {
        Some(name) => name,
        None => DEFAULT_FILE_NAME.to_string(),
    }
}

/// The upload address under `domain`.
pub fn upload_url(domain: &str) -> (r: String)
    ensures
        r@ == upload_url_spec(domain@),
{
    domain.to_string().concat(UPLOAD_ROUTE)
}


/// The outcome of one upload attempt.
#[derive(Debug, Clone, PartialEq, Eq)]
pub enum UploadResult {
    Success { url: String },
    TooLarge,
    ReadError,
    TransportError,
    NonOkStatus(u16),
    DecodeError,
}

/// Everything one POST needs: where it goes, the two authentication headers,
/// and the encoded multipart body with its content type.
#[derive(Debug, Clone, PartialEq, Eq)]
pub struct UploadRequest {
    pub url: String,
    pub userid: String,
    pub secret: String,
    pub content_type: String,
    pub body: Vec<u8>,
}

/// What came back from sending a request.
#[derive(Debug, Clone, PartialEq, Eq)]
pub enum HttpReply {
    /// No response: the connection, TLS or a timeout failed.
    TransportFailed,
    /// A response with this status; `url` is the `url` field of the JSON body
    /// when the body decoded as such, else `None`.
    Status { code: u16, url: Option<String> },
}

impl UploadResult {
    pub open spec fn is_success(&self) -> bool {
        self is Success
    }

    /// The link of a successful upload.
    pub open spec fn url_view(&self) -> Seq<char> {
        match self {
            UploadResult::Success { url } => url@,
            _ => Seq::empty(),
        }
    }
}

/// The bytes of a read, when it succeeded.
pub open spec fn read_view(content: Option<Vec<u8>>) -> Option<Seq<u8>> {
    match content {
        Some(c) => Some(c@),
        None => None,
    }
}

/// What `prepare_upload` promises on the bytes that were read (`None` when
/// reading failed).
pub open spec fn prepare_outcome(
    config: AppConfig,
    path: Seq<char>,
    content: Option<Seq<u8>>,
    r: Result<UploadRequest, UploadResult>,
) -> bool {
    match content {
        None => r matches Err(UploadResult::ReadError),
        Some(bytes) => if bytes.len() > MAX_FILE_SIZE_BYTES {
            r matches Err(UploadResult::TooLarge)
        } else {
            r.is_ok() && request_for(config, path, bytes, r.unwrap())
        },
    }
}

/// `req` is the POST of `bytes`, read from `path`, under `config`.
pub open spec fn request_for(config: AppConfig, path: Seq<char>, bytes: Seq<u8>, req: UploadRequest) -> bool {
    &&& req.url@ == upload_url_spec(config.domain@)
    &&& req.userid@ == config.userid@
    &&& req.secret@ == config.secret@
    &&& MULTIPART_CONTENT_TYPE@.len() <= req.content_type@.len()
    &&& req.content_type@.subrange(0, MULTIPART_CONTENT_TYPE@.len() as int)
        == MULTIPART_CONTENT_TYPE@
    &&& contains_run(req.body@, encode_utf8(
        part_header(UPLOAD_FIELD@, file_name_spec(path), mime_of(file_name_spec(path))),
    ) + bytes)
}

/// Turns the bytes read from `path` into the one request that uploads them,
/// or into the outcome that ends the attempt before anything is sent:
/// `ReadError` when the read failed, `TooLarge` above the size ceiling.
pub fn prepare_upload(config: &AppConfig, path: &str, content: Option<Vec<u8>>) -> (r: Result<
    UploadRequest,
    UploadResult,
>)
    ensures
        prepare_outcome(*config, path@, read_view(content), r),
{
    let bytes = match content {
        None => return Err(UploadResult::ReadError),
        Some(bytes) => bytes,
    };
    if bytes.len() > MAX_FILE_SIZE_BYTES {
        return Err(UploadResult::TooLarge);
    }
    let file_name = file_name_of(path);
    match encode_file_part(UPLOAD_FIELD, file_name.as_str(), bytes.as_slice()) {
        None => Err(UploadResult::ReadError),
        Some((content_type, body)) => Ok(
            UploadRequest {
                url: upload_url(config.domain.as_str()),
                userid: config.userid.clone(),
                secret: config.secret.clone(),
                content_type,
                body,
            },
        ),
    }
}

/// The outcome that a reply stands for.
pub open spec fn reply_outcome(reply: HttpReply, r: UploadResult) -> bool {
    match reply {
        HttpReply::TransportFailed => r is TransportError,
        HttpReply::Status { code, url } => if code != 200 {
            r == UploadResult::NonOkStatus(code)
        } else {
            match url {
                Some(u) => r is Success && r.url_view() == u@,
                None => r is DecodeError,
            }
        },
    }
}

/// Reads the outcome off a reply: a transport failure, a status other than
/// 200, an undecodable body, or the returned link.
pub fn upload_outcome(reply: HttpReply) -> (r: UploadResult)
    ensures
        reply_outcome(reply, r),
{
    match reply {
        HttpReply::TransportFailed => UploadResult::TransportError,
        HttpReply::Status { code, url } => {
            if code != 200 {
                UploadResult::NonOkStatus(code)
            } else {
                match url {
                    Some(url) => UploadResult::Success { url },
                    None => UploadResult::DecodeError,
                }
            }
        },
    }
}

/// A file above the size ceiling ends its attempt with `TooLarge` and yields
/// no request, so nothing is sent.
pub proof fn lemma_too_large_sends_nothing(
    config: AppConfig,
    path: Seq<char>,
    bytes: Seq<u8>,
    r: Result<UploadRequest, UploadResult>,
)
    requires
        bytes.len() > MAX_FILE_SIZE_BYTES,
        prepare_outcome(config, path, Some(bytes), r),
    ensures
        r matches Err(UploadResult::TooLarge),
{
}

/// Against an endpoint that answers 200 with a fixed link to every request,
/// a file of `n` bytes ends in `Success` with that link if and only if
/// `n` is at most the ceiling.
pub proof fn lemma_round_trip(
    config: AppConfig,
    path: Seq<char>,
    bytes: Seq<u8>,
    prepared: Result<UploadRequest, UploadResult>,
    link: String,
    result: UploadResult,
)
    requires
        prepare_outcome(config, path, Some(bytes), prepared),
        prepared.is_ok() ==> reply_outcome(
            HttpReply::Status { code: 200, url: Some(link) },
            result,
        ),
        prepared.is_err() ==> result == prepared->Err_0,
    ensures
        (result.is_success() && result.url_view() == link@) <==> bytes.len()
            <= MAX_FILE_SIZE_BYTES,
{
}

} // verus!
