use r2_uploader::client::{ErrorKind, MediaType, UploadError};
use r2_uploader::manager::{
    base_path_from, classify_preview, data_url, file_detail, file_details, get_file_details,
    image_preview, join_first_lines, preview_file, relative_path, starts_with, text_preview,
    PreviewKind, PreviewPlan, PREVIEW_LIMIT, PREVIEW_LINES,
};

fn media(text: &str, kind: &str, subtype: &str) -> MediaType {
    MediaType { text: text.to_string(), kind: kind.to_string(), subtype: subtype.to_string() }
}

fn too_large() -> UploadError {
    UploadError { kind: ErrorKind::Validation, message: "文件大小超过 10MB 限制".to_string() }
}

fn unsupported(content_type: &str) -> UploadError {
    UploadError {
        kind: ErrorKind::Validation,
        message: format!("不支持的文件类型：{}", content_type),
    }
}

#[test]
fn preview_limits() {
    assert_eq!(PREVIEW_LIMIT, 10 * 1024 * 1024);
    assert_eq!(PREVIEW_LINES, 100);
}

#[test]
fn known_image_formats_are_previewed_as_images() {
    for subtype in ["png", "jpg", "jpeg", "webp", "gif", "bmp", "tiff"] {
        let text = format!("image/{}", subtype);
        assert_eq!(
            classify_preview(media(&text, "image", subtype), 10),
            Ok(PreviewPlan { kind: PreviewKind::Image, content_type: text })
        );
    }
}

#[test]
fn other_images_are_refused() {
    assert_eq!(
        classify_preview(media("image/svg+xml", "image", "svg"), 10),
        Err(unsupported("image/svg+xml"))
    );
    assert_eq!(
        classify_preview(media("video/png", "video", "png"), 10),
        Err(unsupported("video/png"))
    );
}

#[test]
fn text_and_text_like_types_are_previewed_as_text() {
    for (text, kind, subtype) in [
        ("text/plain", "text", "plain"),
        ("text/html", "text", "html"),
        ("application/json", "application", "json"),
        ("application/csv", "application", "csv"),
        ("application/markdown", "application", "markdown"),
    ] {
        assert_eq!(
            classify_preview(media(text, kind, subtype), 10),
            Ok(PreviewPlan { kind: PreviewKind::Text, content_type: text.to_string() })
        );
    }
}

#[test]
fn other_types_are_refused() {
    assert_eq!(
        classify_preview(media("application/octet-stream", "application", "octet-stream"), 0),
        Err(unsupported("application/octet-stream"))
    );
}

#[test]
fn size_limit_comes_first() {
    let image = media("image/png", "image", "png");
    assert_eq!(
        classify_preview(image.clone(), PREVIEW_LIMIT),
        Ok(PreviewPlan { kind: PreviewKind::Image, content_type: "image/png".to_string() })
    );
    assert_eq!(classify_preview(image, PREVIEW_LIMIT + 1), Err(too_large()));
    assert_eq!(
        classify_preview(media("application/zip", "application", "zip"), PREVIEW_LIMIT + 1),
        Err(too_large())
    );
}

#[test]
fn preview_file_goes_by_the_extension() {
    assert_eq!(
        preview_file("/home/u/cat.PNG", 100),
        Ok(PreviewPlan { kind: PreviewKind::Image, content_type: "image/png".to_string() })
    );
    assert_eq!(
        preview_file("photo.jpg", 100),
        Ok(PreviewPlan { kind: PreviewKind::Image, content_type: "image/jpeg".to_string() })
    );
    assert_eq!(
        preview_file("notes.txt", 100),
        Ok(PreviewPlan { kind: PreviewKind::Text, content_type: "text/plain".to_string() })
    );
    assert_eq!(
        preview_file("data.json", 100),
        Ok(PreviewPlan { kind: PreviewKind::Text, content_type: "application/json".to_string() })
    );
    assert_eq!(preview_file("archive.zip", 100), Err(unsupported("application/zip")));
    assert_eq!(preview_file("no-extension", 100), Err(unsupported("application/octet-stream")));
    assert_eq!(preview_file("notes.txt", PREVIEW_LIMIT + 1), Err(too_large()));
}

#[test]
fn image_preview_is_a_data_address() {
    assert_eq!(image_preview("image/png", b"hello"), "data:image/png;base64,aGVsbG8=");
    assert_eq!(image_preview("image/gif", b""), "data:image/gif;base64,");
    assert_eq!(image_preview("image/png", &[0xff, 0xfe, 0xfd]), "data:image/png;base64,//79");
    assert_eq!(data_url("a/b", "QQ=="), "data:a/b;base64,QQ==");
}

#[test]
fn text_preview_keeps_short_texts() {
    assert_eq!(text_preview(""), "");
    assert_eq!(text_preview("one"), "one");
    assert_eq!(text_preview("one\ntwo"), "one\ntwo");
    assert_eq!(text_preview("one\ntwo\n"), "one\ntwo");
    assert_eq!(text_preview("one\r\ntwo\r\n"), "one\ntwo");
    assert_eq!(text_preview("\n\nthree"), "\n\nthree");
}

#[test]
fn text_preview_shows_at_most_a_hundred_lines() {
    let lines: Vec<String> = (1..=250).map(|i| format!("line {}", i)).collect();
    let content = lines.join("\n");
    assert_eq!(text_preview(&content), lines[..100].join("\n"));
    let exactly = lines[..100].join("\n");
    assert_eq!(text_preview(&exactly), exactly);
    let one_more = lines[..101].join("\n");
    assert_eq!(text_preview(&one_more), exactly);
}

#[test]
fn join_first_lines_takes_the_limit() {
    let lines = vec!["a".to_string(), "b".to_string(), "c".to_string()];
    assert_eq!(join_first_lines(&lines, 0), "");
    assert_eq!(join_first_lines(&lines, 1), "a");
    assert_eq!(join_first_lines(&lines, 2), "a\nb");
    assert_eq!(join_first_lines(&lines, 3), "a\nb\nc");
    assert_eq!(join_first_lines(&lines, 9), "a\nb\nc");
    assert_eq!(join_first_lines(&Vec::new(), 9), "");
}

#[test]
fn relative_path_drops_the_base() {
    assert_eq!(relative_path("/home/u/dir/a.txt", "/home/u"), "/dir/a.txt");
    assert_eq!(relative_path("/home/u/dir/a.txt", ""), "/home/u/dir/a.txt");
    assert_eq!(relative_path("/home/u/dir/a.txt", "/other"), "/home/u/dir/a.txt");
    assert_eq!(relative_path("/home/u", "/home/u"), "");
    assert_eq!(relative_path("/home", "/home/u"), "/home");
    assert_eq!(relative_path("目录/文件.txt", "目录"), "/文件.txt");
}

#[test]
fn file_detail_describes_a_regular_file() {
    let detail = file_detail("/home/u/dir/a.txt".to_string(), "/home/u");
    assert_eq!(detail.path, "/home/u/dir/a.txt");
    assert_eq!(detail.relative_path, "/dir/a.txt");
    assert!(!detail.is_dir);
    assert_eq!(detail.id.len(), 36);
    let other = file_detail("/home/u/dir/a.txt".to_string(), "/home/u");
    assert_ne!(detail.id, other.id);
}

#[test]
fn listing_has_one_entry_for_each_file_in_order() {
    let paths = vec![
        "/data/tree/a.txt".to_string(),
        "/data/tree/sub/b.png".to_string(),
        "/elsewhere/c".to_string(),
    ];
    let details = file_details(&paths, "/data");
    assert_eq!(details.len(), 3);
    assert_eq!(details[0].path, "/data/tree/a.txt");
    assert_eq!(details[0].relative_path, "/tree/a.txt");
    assert_eq!(details[1].path, "/data/tree/sub/b.png");
    assert_eq!(details[1].relative_path, "/tree/sub/b.png");
    assert_eq!(details[2].relative_path, "/elsewhere/c");
    assert!(details.iter().all(|d| !d.is_dir && d.id.len() == 36));
    assert_ne!(details[0].id, details[1].id);
    assert!(file_details(&Vec::new(), "/data").is_empty());
}

#[test]
fn listing_of_a_tree_is_seen_from_the_parent_of_its_root() {
    let found = vec!["/data/tree/a.txt".to_string(), "/data/tree/sub/b.png".to_string()];
    let details = get_file_details("/data/tree", &found);
    assert_eq!(details.len(), 2);
    assert_eq!(details[0].path, "/data/tree/a.txt");
    assert_eq!(details[0].relative_path, "/tree/a.txt");
    assert_eq!(details[1].relative_path, "/tree/sub/b.png");
    assert!(details.iter().all(|d| !d.is_dir && d.id.len() == 36));

    // A single file is a tree of its own.
    let single = get_file_details("/data/tree/a.txt", &vec!["/data/tree/a.txt".to_string()]);
    assert_eq!(single[0].relative_path, "/a.txt");

    // A bare name has the empty path as its parent, the root has none.
    let bare = get_file_details("a.txt", &vec!["a.txt".to_string()]);
    assert_eq!(bare[0].relative_path, "a.txt");
    let root = get_file_details("/", &vec!["/etc/hosts".to_string()]);
    assert_eq!(root[0].relative_path, "/etc/hosts");
}

#[test]
fn base_path_is_the_parent_or_empty() {
    assert_eq!(base_path_from(Some("/data".to_string())), "/data");
    assert_eq!(base_path_from(Some(String::new())), "");
    assert_eq!(base_path_from(None), "");
}

#[test]
fn starts_with_compares_whole_characters() {
    assert!(starts_with("/home/u/a", "/home/u"));
    assert!(starts_with("abc", ""));
    assert!(starts_with("", ""));
    assert!(starts_with("abc", "abc"));
    assert!(!starts_with("ab", "abc"));
    assert!(!starts_with("abd", "abc"));
    assert!(!starts_with("", "a"));
    assert!(starts_with("目录/文件", "目录"));
    assert!(!starts_with("目录/文件", "目文"));
    // "é" and "è" share their first byte.
    assert!(!starts_with("è", "é"));
}

#[test]
fn text_preview_cuts_lines_as_the_contract_says() {
    assert_eq!(text_preview("foo\nbar\n\r\nbaz\r"), "foo\nbar\n\nbaz\r");
    assert_eq!(text_preview("a\r"), "a\r");
    assert_eq!(text_preview("a\r\r\n"), "a\r");
    assert_eq!(text_preview("\r\n"), "");
    assert_eq!(text_preview("\n"), "");
    assert_eq!(text_preview("\n\n"), "\n");
    assert_eq!(text_preview("a\rb\nc"), "a\rb\nc");
    assert_eq!(text_preview("x\n\n\ny\n"), "x\n\n\ny");
}
