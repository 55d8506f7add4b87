//! The records that cross the boundary between the uploader and its callers.

use vstd::prelude::*;

verus! {

/// Value of an optional string.
pub open spec fn opt_text(text: Option<String>) -> Option<Seq<char>> {
    match text {
        Some(t) => Some(t@),
        None => None,
    }
}

/// Where the bytes of an upload come from.
#[derive(Debug, Clone, PartialEq, Eq)]
pub enum UploadSource {
    /// A path on the local file system.
    FilePath(String),
    /// Text held in memory.
    FileContent(String),
}

/// Mathematical value of an [`UploadSource`].
pub enum UploadSourceView {
    FilePath(Seq<char>),
    FileContent(Seq<char>),
}

impl View for UploadSource {
    type V = UploadSourceView;

    open spec fn view(&self) -> UploadSourceView {
        match *self {
            UploadSource::FilePath(p) => UploadSourceView::FilePath(p@),
            UploadSource::FileContent(c) => UploadSourceView::FileContent(c@),
        }
    }
}

/// One submitted upload: a caller-assigned identity, a source and the key
/// under which the object is stored.
#[derive(Debug, Clone, PartialEq, Eq)]
pub struct File {
    pub id: String,
    pub source: UploadSource,
    pub remote_filename: String,
}

/// Mathematical value of a [`File`].
pub struct FileView {
    pub id: Seq<char>,
    pub source: UploadSourceView,
    pub remote_filename: Seq<char>,
}

impl View for File {
    type V = FileView;

    open spec fn view(&self) -> FileView {
        FileView { id: self.id@, source: self.source@, remote_filename: self.remote_filename@ }
    }
}

/// One regular file found while listing a directory tree.
#[derive(Debug, Clone, PartialEq, Eq)]
pub struct FileDetail {
    pub id: String,
    pub path: String,
    pub relative_path: String,
    pub is_dir: bool,
}

/// State of one upload as shown to listeners.
///
/// `Uploading` carries whole numbers only. Progress is the ratio
/// `bytes_uploaded / total_bytes` and speed is `bytes_uploaded` over the
/// elapsed time; a caller that wants fractions computes them from these
/// fields.
#[derive(Debug, Clone, PartialEq, Eq)]
pub enum UploadStatus {
    Success,
    Cancelled,
    Uploading {
        /// Bytes the store has acknowledged so far.
        bytes_uploaded: u64,
        total_bytes: u64,
        /// Time since the multipart session started, in nanoseconds.
        elapsed_nanos: u64,
    },
    Error { message: String, code: String },
}

/// Mathematical value of an [`UploadStatus`].
pub enum UploadStatusView {
    Success,
    Cancelled,
    Uploading { bytes_uploaded: nat, total_bytes: nat, elapsed_nanos: nat },
    Error { message: Seq<char>, code: Seq<char> },
}

impl View for UploadStatus {
    type V = UploadStatusView;

    open spec fn view(&self) -> UploadStatusView {
        match *self {
            UploadStatus::Success => UploadStatusView::Success,
            UploadStatus::Cancelled => UploadStatusView::Cancelled,
            UploadStatus::Uploading { bytes_uploaded, total_bytes, elapsed_nanos } =>
                UploadStatusView::Uploading {
                    bytes_uploaded: bytes_uploaded as nat,
                    total_bytes: total_bytes as nat,
                    elapsed_nanos: elapsed_nanos as nat,
                },
            UploadStatus::Error { message, code } => UploadStatusView::Error {
                message: message@,
                code: code@,
            },
        }
    }
}

impl UploadStatusView {
    /// Success, cancellation and error end an upload.
    pub open spec fn is_terminal(self) -> bool {
        !(self is Uploading)
    }

    /// The progress ratio of an `Uploading` status lies between 0 and 1.
    pub open spec fn progress_in_unit_interval(self) -> bool {
        self matches UploadStatusView::Uploading { bytes_uploaded, total_bytes, .. }
            ==> bytes_uploaded <= total_bytes
    }
}

/// An immutable snapshot published at each status change.
#[derive(Debug, Clone, PartialEq, Eq)]
pub struct UploadHistory {
    pub file_id: String,
    pub filename: String,
    pub url: String,
    pub status: UploadStatus,
    /// Seconds since the Unix epoch.
    pub timestamp: u64,
}

/// Mathematical value of an [`UploadHistory`].
pub struct UploadHistoryView {
    pub file_id: Seq<char>,
    pub filename: Seq<char>,
    pub url: Seq<char>,
    pub status: UploadStatusView,
    pub timestamp: nat,
}

impl View for UploadHistory {
    type V = UploadHistoryView;

    open spec fn view(&self) -> UploadHistoryView {
        UploadHistoryView {
            file_id: self.file_id@,
            filename: self.filename@,
            url: self.url@,
            status: self.status@,
            timestamp: self.timestamp as nat,
        }
    }
}

} // verus!
