use corner::files::{
    candidate_paths, encode_file_content, fallback_mime_type, get_mime_type, is_binary_file,
    is_epub_file, is_image_file, is_pdf_file, not_found_message, read_failure_message,
    unescape_path,
};

#[test]
fn images_go_by_their_extension() {
    for name in ["a.jpg", "a.jpeg", "a.png", "a.gif", "a.webp", "a.svg", "a.bmp"] {
        assert!(is_image_file(name), "{}", name);
    }
    assert!(is_image_file("photo.JPG"));
    assert!(is_image_file("archive.tar.PnG"));
    assert!(!is_image_file("a.txt"));
    assert!(!is_image_file("a.jpg.txt"));
    assert!(!is_image_file("a.pdf"));
    assert!(!is_image_file(""));
}

#[test]
fn a_name_without_a_dot_is_its_own_extension() {
    assert!(is_image_file("png"));
    assert!(is_image_file("JPEG"));
    assert!(!is_image_file("picture"));
    assert!(!is_image_file("png."));
}

#[test]
fn pdf_and_epub_go_by_the_end_of_the_name() {
    assert!(is_pdf_file("report.pdf"));
    assert!(is_pdf_file("REPORT.PDF"));
    assert!(is_pdf_file(".pdf"));
    assert!(!is_pdf_file("pdf"));
    assert!(!is_pdf_file("report.pdf.txt"));
    assert!(is_epub_file("novel.epub"));
    assert!(is_epub_file("Novel.EPub"));
    assert!(!is_epub_file("epub"));
    assert!(!is_epub_file("novel.epub2"));
}

#[test]
fn binary_files_are_images_pdf_and_epub() {
    assert!(is_binary_file("a.png"));
    assert!(is_binary_file("a.pdf"));
    assert!(is_binary_file("a.epub"));
    assert!(!is_binary_file("a.rs"));
    assert!(!is_binary_file("notes"));
}

#[test]
fn media_type_is_guessed_from_the_name() {
    assert_eq!(get_mime_type("a.png"), "image/png");
    assert_eq!(get_mime_type("a.PDF"), "application/pdf");
    assert_eq!(get_mime_type("a.jpeg"), "image/jpeg");
    assert_eq!(get_mime_type("index.html"), "text/html");
    assert_eq!(get_mime_type("a.svg"), "image/svg+xml");
}

#[test]
fn media_type_falls_back_on_the_extension() {
    // A name without a dot has no extension for the guess, but counts as its
    // own extension for the fallback.
    assert_eq!(get_mime_type("pdf"), "application/pdf");
    assert_eq!(get_mime_type("EPUB"), "application/epub+zip");
    assert_eq!(get_mime_type("no-such-kind.qqqq"), "application/octet-stream");
    assert_eq!(get_mime_type(""), "application/octet-stream");
}

#[test]
fn fallback_knows_nine_extensions() {
    assert_eq!(fallback_mime_type("pdf"), "application/pdf");
    assert_eq!(fallback_mime_type("epub"), "application/epub+zip");
    assert_eq!(fallback_mime_type("jpg"), "image/jpeg");
    assert_eq!(fallback_mime_type("jpeg"), "image/jpeg");
    assert_eq!(fallback_mime_type("png"), "image/png");
    assert_eq!(fallback_mime_type("gif"), "image/gif");
    assert_eq!(fallback_mime_type("webp"), "image/webp");
    assert_eq!(fallback_mime_type("svg"), "image/svg+xml");
    assert_eq!(fallback_mime_type("bmp"), "image/bmp");
    assert_eq!(fallback_mime_type("PNG"), "application/octet-stream");
    assert_eq!(fallback_mime_type("txt"), "application/octet-stream");
    assert_eq!(fallback_mime_type(""), "application/octet-stream");
}

#[test]
fn binary_content_becomes_a_data_url() {
    assert_eq!(
        encode_file_content("dot.png", vec![0x89, 0x50, 0x4e, 0x47]),
        Ok("data:image/png;base64,iVBORw==".to_string())
    );
    assert_eq!(
        encode_file_content("a.pdf", b"%PDF-1.7".to_vec()),
        Ok("data:application/pdf;base64,JVBERi0xLjc=".to_string())
    );
    assert_eq!(
        encode_file_content("empty.epub", Vec::new()),
        Ok("data:application/epub+zip;base64,".to_string())
    );
}

#[test]
fn text_content_is_passed_on_as_text() {
    assert_eq!(
        encode_file_content("notes.txt", "gr\u{fc}\u{df}e \u{266a}".as_bytes().to_vec()),
        Ok("gr\u{fc}\u{df}e \u{266a}".to_string())
    );
    assert_eq!(encode_file_content("empty", Vec::new()), Ok(String::new()));
}

#[test]
fn text_that_is_no_utf8_is_refused() {
    let result = encode_file_content("notes.txt", vec![b'a', 0xff, b'b']);
    assert_eq!(
        result,
        Err("Failed to decode file content: invalid utf-8 sequence of 1 bytes from index 1"
            .to_string())
    );
    // Overlong encodings and surrogates are no UTF-8 either.
    assert!(encode_file_content("a.txt", vec![0xc0, 0x80]).is_err());
    assert!(encode_file_content("a.txt", vec![0xed, 0xa0, 0x80]).is_err());
    assert!(encode_file_content("a.txt", vec![0xf4, 0x90, 0x80, 0x80]).is_err());
    assert!(encode_file_content("a.txt", vec![0xe2, 0x99]).is_err());
    assert_eq!(
        encode_file_content("a.txt", vec![0xf4, 0x8f, 0xbf, 0xbf]),
        Ok("\u{10ffff}".to_string())
    );
}

#[test]
fn escaped_blanks_in_a_path_become_blanks() {
    assert_eq!(unescape_path("/home/me/My\\ Files/a\\ b.txt"), "/home/me/My Files/a b.txt");
    assert_eq!(unescape_path("plain"), "plain");
    assert_eq!(unescape_path("a\\\\ b"), "a\\ b");
    assert_eq!(unescape_path("back\\slash"), "back\\slash");
}

#[test]
fn read_failure_names_reason_and_path() {
    assert_eq!(
        read_failure_message("permission denied", "/tmp/a.txt"),
        "Failed to read file: permission denied (path: /tmp/a.txt)"
    );
}

#[test]
fn not_found_lists_the_places_but_the_last() {
    assert_eq!(
        not_found_message(&vec!["/a/x".to_string(), "/x".to_string(), "x".to_string()]),
        "File not found. Tried the following paths:\n- /a/x\n- /x"
    );
    assert_eq!(
        not_found_message(&vec!["/a/x".to_string(), "x".to_string()]),
        "File not found. Tried the following paths:\n- /a/x"
    );
    assert_eq!(
        not_found_message(&vec!["x".to_string()]),
        "File not found. Tried the following paths:\n"
    );
    assert_eq!(not_found_message(&Vec::new()), "File not found. Tried the following paths:\n");
}

#[test]
fn not_found_names_the_places_below_the_directories() {
    let places = candidate_paths("/work/app", Some("/work"), "docs/a.txt");
    let message = not_found_message(&places);
    assert_eq!(
        message,
        format!("File not found. Tried the following paths:\n- {}\n- {}", places[0], places[1])
    );
}

#[test]
fn file_is_looked_for_in_three_places() {
    let join = |a: &str, b: &str| std::path::Path::new(a).join(b).to_string_lossy().into_owned();
    assert_eq!(
        candidate_paths("/work/app", Some("/work"), "docs/a.txt"),
        vec![join("/work/app", "docs/a.txt"), join("/work", "docs/a.txt"), "docs/a.txt".to_string()]
    );
    assert_eq!(
        candidate_paths("/", None, "a.txt"),
        vec![join("/", "a.txt"), "a.txt".to_string()]
    );
}
