use r2_uploader::client::{
    content_type, media_type, MediaType, decimal, endpoint_url, part_from_response, proxy_uri, upload_id_from_response, CompletedPart,
    ErrorKind, UploadError, CONNECT_TIMEOUT_SECS, READ_TIMEOUT_SECS, REGION,
};
use r2_uploader::progress::{emit_progress, remote_url, PROGRESS_EVENT};
use r2_uploader::typ::{UploadHistory, UploadStatus};

#[test]
fn client_settings() {
    assert_eq!(REGION, "auto");
    assert_eq!(CONNECT_TIMEOUT_SECS, 30);
    assert_eq!(READ_TIMEOUT_SECS, 30);
    assert_eq!(PROGRESS_EVENT, "upload-progress");
}

#[test]
fn endpoint_is_derived_from_the_account() {
    assert_eq!(endpoint_url("abc123"), "https://abc123.r2.cloudflarestorage.com");
    assert_eq!(endpoint_url(""), "https://.r2.cloudflarestorage.com");
}

#[test]
fn upload_id_is_required() {
    assert_eq!(upload_id_from_response(Some("id-9".to_string())), Ok("id-9".to_string()));
    assert_eq!(
        upload_id_from_response(None),
        Err(UploadError {
            kind: ErrorKind::Protocol,
            message: "Failed to get upload ID".to_string(),
        })
    );
}

#[test]
fn entity_tag_is_required() {
    assert_eq!(
        part_from_response(4, Some("\"abc\"".to_string())),
        Ok(CompletedPart { part_number: 4, e_tag: "\"abc\"".to_string() })
    );
    assert_eq!(
        part_from_response(4, None),
        Err(UploadError { kind: ErrorKind::Protocol, message: "Failed to get ETag".to_string() })
    );
}

#[test]
fn decimal_renders_port_numbers() {
    assert_eq!(decimal(0), "0");
    assert_eq!(decimal(7), "7");
    assert_eq!(decimal(10), "10");
    assert_eq!(decimal(8080), "8080");
    assert_eq!(decimal(12345), "12345");
    assert_eq!(decimal(u16::MAX), "65535");
    for n in [1u16, 9, 99, 100, 101, 999, 1000, 7890, 60000] {
        assert_eq!(decimal(n), n.to_string());
    }
}

#[test]
fn proxy_counts_only_when_enabled_and_complete() {
    assert_eq!(proxy_uri(true, "127.0.0.1", 7890), Some("http://127.0.0.1:7890".to_string()));
    assert_eq!(proxy_uri(true, "proxy.local", 1), Some("http://proxy.local:1".to_string()));
    assert_eq!(proxy_uri(false, "127.0.0.1", 7890), None);
    assert_eq!(proxy_uri(true, "", 7890), None);
    assert_eq!(proxy_uri(true, "127.0.0.1", 0), None);
}

#[test]
fn remote_url_joins_domain_and_key() {
    assert_eq!(remote_url("https://cdn.example.com", "a/b.png"), "https://cdn.example.com/a/b.png");
    assert_eq!(remote_url("", "b.png"), "/b.png");
    assert_eq!(remote_url("d", ""), "d/");
}

#[test]
fn emit_progress_builds_the_snapshot() {
    let status = UploadStatus::Uploading {
        bytes_uploaded: 10,
        total_bytes: 20,
        elapsed_nanos: 30,
    };
    let event = emit_progress(
        "https://d/k".to_string(),
        "id".to_string(),
        "k".to_string(),
        status.clone(),
        1_700_000_000,
    );
    assert_eq!(
        event,
        UploadHistory {
            file_id: "id".to_string(),
            filename: "k".to_string(),
            url: "https://d/k".to_string(),
            status,
            timestamp: 1_700_000_000,
        }
    );
}

#[test]
fn content_type_goes_by_the_extension() {
    assert_eq!(content_type("a/b/photo.webp"), "image/webp");
    assert_eq!(content_type("README.md"), "text/markdown");
    assert_eq!(content_type("archive.tar.gz"), "application/gzip");
    assert_eq!(content_type("plain"), "application/octet-stream");
    assert_eq!(content_type(""), "application/octet-stream");
}

fn media(text: &str, kind: &str, subtype: &str) -> MediaType {
    MediaType { text: text.to_string(), kind: kind.to_string(), subtype: subtype.to_string() }
}

#[test]
fn media_type_has_its_text_and_both_names() {
    assert_eq!(media_type("a.png"), media("image/png", "image", "png"));
    assert_eq!(media_type("a.TXT"), media("text/plain", "text", "plain"));
    assert_eq!(media_type("a.svg"), media("image/svg+xml", "image", "svg"));
    assert_eq!(media_type("a.xhtml"), media("application/xhtml+xml", "application", "xhtml"));
    assert_eq!(media_type("a.atom"), media("application/atom+xml", "application", "atom"));
    assert_eq!(
        media_type("a.docx"),
        media(
            "application/vnd.openxmlformats-officedocument.wordprocessingml.document",
            "application",
            "vnd.openxmlformats-officedocument.wordprocessingml.document",
        )
    );
    assert_eq!(media_type("a.psc1"), media("application/powershell", "application", "powershell"));
    assert_eq!(
        media_type("none"),
        media("application/octet-stream", "application", "octet-stream")
    );
}
