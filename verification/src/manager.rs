//! Listing and previewing local files before they are uploaded.
//!
//! The caller walks the directories and reads the files. This module says
//! what a listed file looks like, whether a file can be previewed and how,
//! and turns what was read into the preview.

use crate::client::{
    guessed_content_type, media_kind, media_subtype, media_type, spec_position, ErrorKind,
    MediaType, UploadError, UploadErrorView,
};
use crate::typ::{opt_text, FileDetail};
use base64::engine::general_purpose;
use base64::Engine;
use uuid::Uuid;
use vstd::prelude::*;

verus! {

/// Largest file that is previewed: 10 MiB.
pub const PREVIEW_LIMIT: u64 = 10485760;

/// Number of lines that a text preview shows at most.
pub const PREVIEW_LINES: usize = 100;

/// How a file is previewed.
#[derive(Debug, Clone, Copy, PartialEq, Eq, Structural)]
pub enum PreviewKind {
    /// As a `data:` address that holds the image.
    Image,
    /// As its first lines.
    Text,
}

/// The decision to preview a file: how, and as which media type.
#[derive(Debug, Clone, PartialEq, Eq)]
pub struct PreviewPlan {
    pub kind: PreviewKind,
    pub content_type: String,
}

/// Mathematical value of a [`PreviewPlan`].
pub struct PreviewPlanView {
    pub kind: PreviewKind,
    pub content_type: Seq<char>,
}

impl View for PreviewPlan {
    type V = PreviewPlanView;

    open spec fn view(&self) -> PreviewPlanView {
        PreviewPlanView { kind: self.kind, content_type: self.content_type@ }
    }
}

/// Message of the error for a file above [`PREVIEW_LIMIT`].
pub open spec fn spec_too_large() -> Seq<char> {
    "文件大小超过 10MB 限制"@
}

/// Start of the message of the error for a file of a type that has no
/// preview; the media type follows.
pub open spec fn spec_unsupported() -> Seq<char> {
    "不支持的文件类型："@
}

/// The image formats that are previewed.
pub open spec fn spec_image_format(subtype: Seq<char>) -> bool {
    ||| subtype == "png"@
    ||| subtype == "jpg"@
    ||| subtype == "jpeg"@
    ||| subtype == "webp"@
    ||| subtype == "gif"@
    ||| subtype == "bmp"@
    ||| subtype == "tiff"@
}

/// The media types that are previewed as text.
pub open spec fn spec_text_format(kind: Seq<char>, subtype: Seq<char>) -> bool {
    ||| kind == "text"@
    ||| subtype == "json"@
    ||| subtype == "csv"@
    ||| subtype == "markdown"@
}

/// The decision for a file of `size` bytes and the given media type: too
/// large a file is refused whatever its type; then an image in a known
/// format is shown as an image, text and a few text-like types as text,
/// and everything else is refused.
pub open spec fn spec_classify_preview(
    content_type: Seq<char>,
    kind: Seq<char>,
    subtype: Seq<char>,
    size: nat,
) -> Result<PreviewPlanView, UploadErrorView> {
    if size > PREVIEW_LIMIT {
        Err(UploadErrorView { kind: ErrorKind::Validation, message: spec_too_large() })
    } else if kind == "image"@ && spec_image_format(subtype) {
        Ok(PreviewPlanView { kind: PreviewKind::Image, content_type })
    } else if spec_text_format(kind, subtype) {
        Ok(PreviewPlanView { kind: PreviewKind::Text, content_type })
    } else {
        Err(
            UploadErrorView {
                kind: ErrorKind::Validation,
                message: spec_unsupported() + content_type,
            },
        )
    }
}

fn text_is(text: &String, name: &str) -> (same: bool)
    ensures
        same == (text@ == name@),
{
    *text == name.to_owned()
}

/// Decides whether and how a file of `size` bytes with the given media
/// type is previewed.
pub fn classify_preview(media: MediaType, size: u64) -> (plan: Result<PreviewPlan, UploadError>)
    ensures
        match spec_classify_preview(media.text@, media.kind@, media.subtype@, size as nat) {
            Ok(p) => plan is Ok && plan->Ok_0@ == p,
            Err(e) => plan is Err && plan->Err_0@ == e,
        },
{
    if size > PREVIEW_LIMIT {
        return Err(
            UploadError {
                kind: ErrorKind::Validation,
                message: "文件大小超过 10MB 限制".to_owned(),
            },
        );
    }
    let subtype = &media.subtype;
    let image = text_is(&media.kind, "image") && (text_is(subtype, "png") || text_is(
        subtype,
        "jpg",
    ) || text_is(subtype, "jpeg") || text_is(subtype, "webp") || text_is(subtype, "gif")
        || text_is(subtype, "bmp") || text_is(subtype, "tiff"));
    if image {
        return Ok(PreviewPlan { kind: PreviewKind::Image, content_type: media.text });
    }
    let text = text_is(&media.kind, "text") || text_is(subtype, "json") || text_is(
        subtype,
        "csv",
    ) || text_is(subtype, "markdown");
    if text {
        return Ok(PreviewPlan { kind: PreviewKind::Text, content_type: media.text });
    }
    let mut message = "不支持的文件类型：".to_owned();
    message.append(media.text.as_str());
    Err(UploadError { kind: ErrorKind::Validation, message })
}

/// Decides whether and how the file at `path`, `size` bytes long, is
/// previewed. The media type is guessed from the path's extension.
pub fn preview_file(path: &str, size: u64) -> (plan: Result<PreviewPlan, UploadError>)
    ensures
        match spec_classify_preview(
            guessed_content_type(path@),
            media_kind(guessed_content_type(path@)),
            media_subtype(guessed_content_type(path@)),
            size as nat,
        ) {
            Ok(p) => plan is Ok && plan->Ok_0@ == p,
            Err(e) => plan is Err && plan->Err_0@ == e,
        },
{
    classify_preview(media_type(path), size)
}

/// The text of `data` in base64 with the standard alphabet and padding.
pub uninterp spec fn base64_standard(data: Seq<u8>) -> Seq<char>;

/// Calls `Engine::encode` of `base64` on the engine
/// `general_purpose::STANDARD`. The encoding reads nothing but the bytes;
/// the contract claims only that the result is a function of them.
#[verifier::external_body]
fn base64_encode(data: &[u8]) -> (text: String)
    ensures
        text@ == base64_standard(data@),
{
    general_purpose::STANDARD.encode(data)
}

/// A `data:` address: the media type, the marker for base64, the payload.
pub open spec fn spec_data_url(content_type: Seq<char>, encoded: Seq<char>) -> Seq<char> {
    "data:"@ + content_type + ";base64,"@ + encoded
}

/// Builds the `data:` address for a payload that is already in base64.
pub fn data_url(content_type: &str, encoded: &str) -> (url: String)
    ensures
        url@ == spec_data_url(content_type@, encoded@),
{
    let mut url = "data:".to_owned();
    url.append(content_type);
    url.append(";base64,");
    url.append(encoded);
    url
}

/// The preview of an image: a `data:` address that holds its bytes.
pub fn image_preview(content_type: &str, data: &[u8]) -> (url: String)
    ensures
        url@ == spec_data_url(content_type@, base64_standard(data@)),
{
    let encoded = base64_encode(data);
    data_url(content_type, encoded.as_str())
}

/// A line without the carriage return that may end it.
pub open spec fn spec_without_cr(line: Seq<char>) -> Seq<char> {
    if line.len() > 0 && line.last() == '\r' {
        line.drop_last()
    } else {
        line
    }
}

/// The lines of a text. A line ends at a line feed, which is not part of
/// it, nor is a carriage return just before that line feed. What follows
/// the last line feed is a line too, unless it is empty.
pub open spec fn text_lines(content: Seq<char>) -> Seq<Seq<char>>
    decreases content.len(),
{
    let end = spec_position(content, '\n');
    if content.len() == 0 {
        Seq::empty()
    } else if end >= content.len() {
        seq![content]
    } else {
        seq![spec_without_cr(content.take(end as int))] + text_lines(
            content.skip(end as int + 1),
        )
    }
}

/// Value of a list of strings.
pub open spec fn lines_view(lines: Seq<String>) -> Seq<Seq<char>> {
    Seq::new(lines.len(), |i: int| lines[i]@)
}

/// Calls `str::lines` and copies each line. A line ends at a line feed, or
/// at a carriage return followed by one; the ending is not part of the
/// line, and the last line needs none. A carriage return that no line feed
/// follows stays in its line.
#[verifier::external_body]
fn lines_of(content: &str) -> (lines: Vec<String>)
    ensures
        lines_view(lines@) == text_lines(content@),
{
    content.lines().map(|line| line.to_string()).collect()
}

/// The lines joined by line feeds, none after the last.
pub open spec fn spec_join_lines(lines: Seq<Seq<char>>) -> Seq<char>
    decreases lines.len(),
{
    if lines.len() == 0 {
        Seq::empty()
    } else if lines.len() == 1 {
        lines[0]
    } else {
        spec_join_lines(lines.drop_last()) + "\n"@ + lines.last()
    }
}

/// The first `limit` lines, or all where there are fewer.
pub open spec fn spec_first_lines(lines: Seq<Seq<char>>, limit: nat) -> Seq<Seq<char>> {
    if lines.len() <= limit {
        lines
    } else {
        lines.take(limit as int)
    }
}

/// Joins the first `limit` of `lines` by line feeds.
pub fn join_first_lines(lines: &Vec<String>, limit: usize) -> (text: String)
    ensures
        text@ == spec_join_lines(spec_first_lines(lines_view(lines@), limit as nat)),
{
    let count: usize = if lines.len() <= limit {
        lines.len()
    } else {
        limit
    };
    let ghost shown = spec_first_lines(lines_view(lines@), limit as nat);
    let mut text = String::new();
    let mut i: usize = 0;
    assert(shown.take(0) =~= Seq::empty());
    while i < count
        invariant
            i <= count,
            count == shown.len(),
            count <= lines@.len(),
            forall|j: int| 0 <= j < count ==> shown[j] == (#[trigger] lines@[j])@,
            text@ == spec_join_lines(shown.take(i as int)),
        decreases count - i,
    {
        if i > 0 {
            text.append("\n");
        }
        text.append(lines[i].as_str());
        proof {
            let now = shown.take(i + 1);
            assert(now.drop_last() =~= shown.take(i as int));
            assert(now.last() == lines@[i as int]@);
            if i == 0 {
                assert(text@ =~= now[0]);
            }
        }
        i = i + 1;
    }
    assert(shown.take(count as int) =~= shown);
    text
}

/// The preview of a text: its first [`PREVIEW_LINES`] lines.
pub fn text_preview(content: &str) -> (text: String)
    ensures
        text@ == spec_join_lines(spec_first_lines(text_lines(content@), PREVIEW_LINES as nat)),
{
    let lines = lines_of(content);
    join_first_lines(&lines, PREVIEW_LINES)
}

/// A path as seen from `base_path`: without that prefix where it has it,
/// unchanged where it has not.
pub open spec fn spec_relative_path(path: Seq<char>, base_path: Seq<char>) -> Seq<char> {
    if base_path.is_prefix_of(path) {
        path.skip(base_path.len() as int)
    } else {
        path
    }
}

/// Whether `text` starts with `prefix`.
pub fn starts_with(text: &str, prefix: &str) -> (yes: bool)
    ensures
        yes == prefix@.is_prefix_of(text@),
{
    let n: usize = prefix.unicode_len();
    if text.unicode_len() < n {
        return false;
    }
    let mut i: usize = 0;
    while i < n
        invariant
            i <= n,
            n == prefix@.len(),
            n <= text@.len(),
            forall|j: int| 0 <= j < i ==> text@[j] == prefix@[j],
        decreases n - i,
    {
        if text.get_char(i) != prefix.get_char(i) {
            assert(text@.subrange(0, n as int)[i as int] != prefix@[i as int]);
            return false;
        }
        i = i + 1;
    }
    assert(prefix@ =~= text@.subrange(0, n as int));
    true
}

/// A path as seen from `base_path`.
pub fn relative_path(path: &str, base_path: &str) -> (relative: String)
    ensures
        relative@ == spec_relative_path(path@, base_path@),
{
    if starts_with(path, base_path) {
        let rest = path.substring_char(base_path.unicode_len(), path.unicode_len());
        assert(rest@ =~= path@.skip(base_path@.len() as int));
        rest.to_owned()
    } else {
        path.to_owned()
    }
}

/// Calls `Uuid::new_v4` and renders the id as text. The id is random; the
/// contract claims only its shape: 32 hexadecimal digits in five groups
/// with a hyphen between them, 36 characters in all.
#[verifier::external_body]
fn fresh_id() -> (id: String)
    ensures
        id@.len() == 36,
{
    Uuid::new_v4().to_string()
}

/// The listing entry of the regular file at `path`, found while walking
/// the tree whose root lies in `base_path`. Its id is new and random.
pub fn file_detail(path: String, base_path: &str) -> (detail: FileDetail)
    ensures
        detail.id@.len() == 36,
        detail.path@ == path@,
        detail.relative_path@ == spec_relative_path(path@, base_path@),
        !detail.is_dir,
{
    let relative = relative_path(path.as_str(), base_path);
    FileDetail { id: fresh_id(), path, relative_path: relative, is_dir: false }
}

/// The listing of the files `paths`, in their order, as seen from
/// `base_path`.
pub fn file_details(paths: &Vec<String>, base_path: &str) -> (details: Vec<FileDetail>)
    ensures
        details@.len() == paths@.len(),
        forall|i: int|
            0 <= i < details@.len() ==> {
                &&& (#[trigger] details@[i]).id@.len() == 36
                &&& details@[i].path@ == paths@[i]@
                &&& details@[i].relative_path@ == spec_relative_path(paths@[i]@, base_path@)
                &&& !details@[i].is_dir
            },
{
    let mut details: Vec<FileDetail> = Vec::new();
    let mut i: usize = 0;
    while i < paths.len()
        invariant
            i <= paths@.len(),
            details@.len() == i,
            forall|j: int|
                0 <= j < i ==> {
                    &&& (#[trigger] details@[j]).id@.len() == 36
                    &&& details@[j].path@ == paths@[j]@
                    &&& details@[j].relative_path@ == spec_relative_path(paths@[j]@, base_path@)
                    &&& !details@[j].is_dir
                },
        decreases paths@.len() - i,
    {
        details.push(file_detail(paths[i].clone(), base_path));
        i = i + 1;
    }
    details
}

/// The parent of a path as `std::path::Path::parent` reads it on the build
/// target.
pub uninterp spec fn path_parent(path: Seq<char>) -> Option<Seq<char>>;

/// Calls `std::path::Path::parent` and copies the parent as text: the path
/// without its last component, `None` where the path is a root or empty.
/// The parent is read from the text of the path alone, by the path rules
/// of the build target; the contract claims only that.
#[verifier::external_body]
fn parent_of(path: &str) -> (parent: Option<String>)
    ensures
        opt_text(parent) == path_parent(path@),
{
    std::path::Path::new(path).parent().map(|parent| parent.to_string_lossy().to_string())
}

/// The base of a listing, given the parent of its root: the parent, or
/// the empty path where the root has none.
pub open spec fn spec_base_path(parent: Option<Seq<char>>) -> Seq<char> {
    match parent {
        Some(p) => p,
        None => Seq::empty(),
    }
}

/// The base of a listing, given the parent of its root.
pub fn base_path_from(parent: Option<String>) -> (base: String)
    ensures
        base@ == spec_base_path(opt_text(parent)),
{
    match parent {
        Some(p) => p,
        None => String::new(),
    }
}

/// The listing of the tree rooted at `root`: one entry for each regular
/// file that the walk found, in the order of the walk, each seen from the
/// directory in which the root lies.
pub fn get_file_details(root: &str, found: &Vec<String>) -> (details: Vec<FileDetail>)
    ensures
        details@.len() == found@.len(),
        forall|i: int|
            0 <= i < details@.len() ==> {
                &&& (#[trigger] details@[i]).id@.len() == 36
                &&& details@[i].path@ == found@[i]@
                &&& details@[i].relative_path@ == spec_relative_path(
                    found@[i]@,
                    spec_base_path(path_parent(root@)),
                )
                &&& !details@[i].is_dir
            },
{
    let base = base_path_from(parent_of(root));
    file_details(found, base.as_str())
}

} // verus!
