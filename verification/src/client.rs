//! What the uploader asks of the object store and how it reads the answers.
//!
//! The requests themselves are sent by the caller. This module fixes what
//! goes into them (endpoint, content type) and what a response must hold to
//! count as a success.

use vstd::prelude::*;

verus! {

/// Region name that S3-compatible stores with one global endpoint expect.
pub const REGION: &'static str = "auto";

/// Seconds allowed for connecting to the store.
pub const CONNECT_TIMEOUT_SECS: u64 = 30;

/// Seconds allowed for reading a response from the store.
pub const READ_TIMEOUT_SECS: u64 = 30;

/// Cause of a failed operation.
#[derive(Debug, Clone, Copy, PartialEq, Eq, Structural)]
pub enum ErrorKind {
    /// Network or file I/O.
    Transport,
    /// The store rejected the credentials.
    Auth,
    /// A response lacked a field that the protocol requires.
    Protocol,
    /// The input is not supported.
    Validation,
}

/// A failed operation: its cause and a message for the user.
#[derive(Debug, Clone, PartialEq, Eq)]
pub struct UploadError {
    pub kind: ErrorKind,
    pub message: String,
}

/// Mathematical value of an [`UploadError`].
pub struct UploadErrorView {
    pub kind: ErrorKind,
    pub message: Seq<char>,
}

impl View for UploadError {
    type V = UploadErrorView;

    open spec fn view(&self) -> UploadErrorView {
        UploadErrorView { kind: self.kind, message: self.message@ }
    }
}

/// A part that the store has acknowledged, as named when the object is
/// assembled.
#[derive(Debug, Clone, PartialEq, Eq)]
pub struct CompletedPart {
    pub part_number: i32,
    pub e_tag: String,
}

/// Mathematical value of a [`CompletedPart`].
pub struct PartView {
    pub part_number: int,
    pub e_tag: Seq<char>,
}

impl View for CompletedPart {
    type V = PartView;

    open spec fn view(&self) -> PartView {
        PartView { part_number: self.part_number as int, e_tag: self.e_tag@ }
    }
}

/// Message of the error for a session that came back without an id.
pub open spec fn spec_missing_upload_id() -> Seq<char> {
    "Failed to get upload ID"@
}

/// Message of the error for a part that came back without an entity tag.
pub open spec fn spec_missing_e_tag() -> Seq<char> {
    "Failed to get ETag"@
}

/// A media type: its full text and its two names, as `mime` gives them.
#[derive(Debug, Clone, PartialEq, Eq)]
pub struct MediaType {
    /// The whole type, such as `text/plain`.
    pub text: String,
    /// The part before the slash.
    pub kind: String,
    /// The part after the slash, up to a `+` or `;`.
    pub subtype: String,
}

/// The media type that `mime_guess` assigns to a path by its extension,
/// `application/octet-stream` where it knows none.
pub uninterp spec fn guessed_content_type(key: Seq<char>) -> Seq<char>;

/// Index of the first `c` in `text`; the length of `text` where it has none.
pub open spec fn spec_position(text: Seq<char>, c: char) -> nat
    decreases text.len(),
{
    if text.len() == 0 || text[0] == c {
        0
    } else {
        1 + spec_position(text.drop_first(), c)
    }
}

/// Index of the last `+` of a subtype that is not its first character; 0
/// where it has none.
pub open spec fn spec_last_plus(subtype: Seq<char>) -> nat
    decreases subtype.len(),
{
    if subtype.len() <= 1 {
        0
    } else if subtype.last() == '+' {
        (subtype.len() - 1) as nat
    } else {
        spec_last_plus(subtype.drop_last())
    }
}

/// The top-level type of a media type: its text before the slash.
pub open spec fn media_kind(content_type: Seq<char>) -> Seq<char> {
    content_type.take(spec_position(content_type, '/') as int)
}

/// The subtype of a media type: its text after the slash, up to the
/// parameters that a `;` opens and without a suffix that a `+` opens.
pub open spec fn media_subtype(content_type: Seq<char>) -> Seq<char> {
    let start = spec_position(content_type, '/') + 1;
    if start > content_type.len() {
        Seq::empty()
    } else {
        let rest = content_type.skip(start as int);
        let full = rest.take(spec_position(rest, ';') as int);
        let plus = spec_last_plus(full);
        if plus > 0 {
            full.take(plus as int)
        } else {
            full
        }
    }
}

/// Calls `mime_guess::from_path(path).first_or_octet_stream()` and, on the
/// media type that comes back, `Mime::type_` and `Mime::subtype`.
/// `mime_guess` reads nothing but the path: it takes the extension as
/// `std::path::Path::extension` gives it on the build target and looks it
/// up, ignoring case, in a table compiled into the crate. The contract
/// claims of the text only that it is a function of the path. `mime` keeps
/// a media type as its text in lower case and cuts both names out of that
/// text where its parser found the slash, the last `+` and the `;`; the
/// contract says where.
#[verifier::external_body]
fn guess_media_type(path: &str) -> (media: MediaType)
    ensures
        media.text@ == guessed_content_type(path@),
        media.kind@ == media_kind(media.text@),
        media.subtype@ == media_subtype(media.text@),
{
    let mime = mime_guess::from_path(path).first_or_octet_stream();
    MediaType {
        text: mime.to_string(),
        kind: mime.type_().as_str().to_string(),
        subtype: mime.subtype().as_str().to_string(),
    }
}

/// The media type that goes with a path's extension, a generic binary type
/// where none is known.
pub fn media_type(path: &str) -> (media: MediaType)
    ensures
        media.text@ == guessed_content_type(path@),
        media.kind@ == media_kind(media.text@),
        media.subtype@ == media_subtype(media.text@),
{
    guess_media_type(path)
}

/// Content type for an object stored under `key`: the media type that goes
/// with the key's extension, a generic binary type where none is known.
pub fn content_type(key: &str) -> (content_type: String)
    ensures
        content_type@ == guessed_content_type(key@),
{
    media_type(key).text
}

/// The character of one decimal digit.
pub open spec fn spec_digit(d: nat) -> char {
    if d == 0 {
        '0'
    } else if d == 1 {
        '1'
    } else if d == 2 {
        '2'
    } else if d == 3 {
        '3'
    } else if d == 4 {
        '4'
    } else if d == 5 {
        '5'
    } else if d == 6 {
        '6'
    } else if d == 7 {
        '7'
    } else if d == 8 {
        '8'
    } else {
        '9'
    }
}

/// A number in decimal, without sign or leading zeros.
pub open spec fn spec_decimal(n: nat) -> Seq<char>
    decreases n,
{
    if n < 10 {
        seq![spec_digit(n)]
    } else {
        spec_decimal(n / 10).push(spec_digit(n % 10))
    }
}

fn digit_text(d: u16) -> (text: &'static str)
    requires
        d < 10,
    ensures
        text@ == seq![spec_digit(d as nat)],
{
    proof {
        reveal_strlit("0");
        reveal_strlit("1");
        reveal_strlit("2");
        reveal_strlit("3");
        reveal_strlit("4");
        reveal_strlit("5");
        reveal_strlit("6");
        reveal_strlit("7");
        reveal_strlit("8");
        reveal_strlit("9");
    }
    let text = match d {
        0 => "0",
        1 => "1",
        2 => "2",
        3 => "3",
        4 => "4",
        5 => "5",
        6 => "6",
        7 => "7",
        8 => "8",
        _ => "9",
    };
    assert(text@ =~= seq![spec_digit(d as nat)]);
    text
}

/// A port number in decimal.
pub fn decimal(n: u16) -> (text: String)
    ensures
        text@ == spec_decimal(n as nat),
    decreases n,
{
    if n < 10 {
        digit_text(n).to_owned()
    } else {
        let mut text = decimal(n / 10);
        text.append(digit_text(n % 10));
        assert(text@ =~= spec_decimal(n as nat));
        text
    }
}

/// The address of the system proxy: `http://{host}:{port}`.
pub open spec fn spec_proxy_uri(host: Seq<char>, port: nat) -> Seq<char> {
    "http://"@ + host + ":"@ + spec_decimal(port)
}

/// The proxy to route requests through, if the system has one: a proxy
/// counts only if it is enabled, has a host name and a port other than 0.
pub fn proxy_uri(enable: bool, host: &str, port: u16) -> (uri: Option<String>)
    ensures
        uri is Some <==> enable && host@.len() > 0 && port > 0,
        uri matches Some(u) ==> u@ == spec_proxy_uri(host@, port as nat),
{
    if !host.is_empty() && port > 0 && enable {
        let mut uri = "http://".to_owned();
        uri.append(host);
        uri.append(":");
        let digits = decimal(port);
        uri.append(digits.as_str());
        Some(uri)
    } else {
        None
    }
}

/// The store's endpoint for an account.
pub open spec fn spec_endpoint_url(account_id: Seq<char>) -> Seq<char> {
    "https://"@ + account_id + ".r2.cloudflarestorage.com"@
}

/// The store's endpoint for an account: `https://{account_id}.r2.cloudflarestorage.com`.
pub fn endpoint_url(account_id: &str) -> (url: String)
    ensures
        url@ == spec_endpoint_url(account_id@),
{
    let mut url = "https://".to_owned();
    url.append(account_id);
    url.append(".r2.cloudflarestorage.com");
    url
}

/// Reads the answer to a request that opens a multipart session: the
/// session's id, or a protocol error where the store sent none.
pub fn upload_id_from_response(upload_id: Option<String>) -> (result: Result<String, UploadError>)
    ensures
        upload_id is Some ==> result is Ok && result->Ok_0@ == upload_id->0@,
        upload_id is None ==> result is Err && result->Err_0@ == (UploadErrorView {
            kind: ErrorKind::Protocol,
            message: spec_missing_upload_id(),
        }),
{
    match upload_id {
        Some(id) => Ok(id),
        None => Err(
            UploadError { kind: ErrorKind::Protocol, message: "Failed to get upload ID".to_owned() },
        ),
    }
}

/// Reads the answer to a request that uploads one part: the part with its
/// entity tag, or a protocol error where the store sent no tag.
pub fn part_from_response(part_number: i32, e_tag: Option<String>) -> (result: Result<
    CompletedPart,
    UploadError,
>)
    ensures
        e_tag is Some ==> result is Ok && result->Ok_0@ == (PartView {
            part_number: part_number as int,
            e_tag: e_tag->0@,
        }),
        e_tag is None ==> result is Err && result->Err_0@ == (UploadErrorView {
            kind: ErrorKind::Protocol,
            message: spec_missing_e_tag(),
        }),
{
    match e_tag {
        Some(tag) => Ok(CompletedPart { part_number, e_tag: tag }),
        None => Err(
            UploadError { kind: ErrorKind::Protocol, message: "Failed to get ETag".to_owned() },
        ),
    }
}

} // verus!
