use markhola::file_io::{
    decode_markdown, decode_utf16, directory_base_url, ensure_supported_markdown_extension,
    ensure_supported_markdown_path, file_io_base_url, is_supported_markdown_path,
    temporary_save_path,
};

const UNSUPPORTED: &str = "Only .md and .markdown files are supported in v0.6.0.";

#[test]
fn detects_supported_markdown_extensions_without_requiring_existing_file() {
    assert!(is_supported_markdown_path("技术.MD"));
    assert!(is_supported_markdown_path("notes.markdown"));
    assert!(!is_supported_markdown_path("notes.txt"));
}

#[test]
fn accepts_markdown_extensions() {
    assert!(ensure_supported_markdown_path("/tmp/markhola-accepts.md", true).is_ok());
    assert!(ensure_supported_markdown_path("/tmp/markhola-accepts.markdown", true).is_ok());
}

#[test]
fn rejects_non_markdown_extensions() {
    let error = ensure_supported_markdown_path("/tmp/markhola-rejects.txt", true).unwrap_err();
    assert!(error.contains("Only .md and .markdown files are supported"));
}

#[test]
fn a_missing_file_is_reported_before_its_extension() {
    assert_eq!(
        ensure_supported_markdown_path("/tmp/missing.txt", false),
        Err("File not found: /tmp/missing.txt".to_string())
    );
    assert_eq!(
        ensure_supported_markdown_extension("notes"),
        Err(UNSUPPORTED.to_string())
    );
    assert_eq!(ensure_supported_markdown_extension("a/b.MarkDown"), Ok(()));
    assert!(!is_supported_markdown_path(".md"));
    assert!(!is_supported_markdown_path("notes.md.bak"));
}

#[test]
fn base_urls_are_the_directory_of_the_document() {
    assert_eq!(
        directory_base_url("/tmp/notes/demo.md"),
        Ok("file:///tmp/notes/".to_string())
    );
    assert_eq!(
        directory_base_url("/"),
        Err("Document path does not have a parent directory.".to_string())
    );
    assert_eq!(
        directory_base_url("relative.md"),
        Err("Document directory cannot be converted to a file URL.".to_string())
    );
    assert_eq!(file_io_base_url("/"), "");
    assert_eq!(file_io_base_url("/tmp/a b/x.md"), "file:///tmp/a%20b/");
}

#[test]
fn decodes_utf8_with_and_without_a_byte_order_mark() {
    assert_eq!(decode_markdown(b"# Hello"), Ok("# Hello".to_string()));
    assert_eq!(
        decode_markdown(&[0xEF, 0xBB, 0xBF, b'#', b' ', b'x']),
        Ok("# x".to_string())
    );
    assert_eq!(decode_markdown("技术 ✓".as_bytes()), Ok("技术 ✓".to_string()));
    assert_eq!(decode_markdown(b""), Ok(String::new()));
}

#[test]
fn decodes_utf16_with_a_byte_order_mark() {
    let mut le = vec![0xFF, 0xFE];
    for unit in "Hé€😀".encode_utf16() {
        le.extend_from_slice(&unit.to_le_bytes());
    }
    assert_eq!(decode_markdown(&le), Ok("Hé€😀".to_string()));

    let mut be = vec![0xFE, 0xFF];
    for unit in "Hi".encode_utf16() {
        be.extend_from_slice(&unit.to_be_bytes());
    }
    assert_eq!(decode_markdown(&be), Ok("Hi".to_string()));
}

#[test]
fn utf16_errors_are_reported() {
    assert_eq!(
        decode_utf16(&[0x41, 0x00, 0x42], true),
        Err("Failed to decode UTF-16 file with an incomplete code unit.".to_string())
    );
    let lone_surrogate = decode_utf16(&[0x00, 0xD8], true).unwrap_err();
    assert!(lone_surrogate.starts_with("Failed to decode UTF-16 file: "));
    assert_eq!(decode_utf16(&[0x00, 0x41, 0x00, 0x42], false), Ok("AB".to_string()));
}

#[test]
fn legacy_encodings_are_detected() {
    // "中文文档，这是一个测试。" in GBK
    let gbk: Vec<u8> = vec![
        0xD6, 0xD0, 0xCE, 0xC4, 0xCE, 0xC4, 0xB5, 0xB5, 0xA3, 0xAC, 0xD5, 0xE2, 0xCA, 0xC7,
        0xD2, 0xBB, 0xB8, 0xF6, 0xB2, 0xE2, 0xCA, 0xD4, 0xA1, 0xA3,
    ];
    let text = decode_markdown(&gbk).unwrap();
    assert_eq!(text, "中文文档，这是一个测试。");

    let latin1 = decode_markdown(&[b'c', b'a', b'f', 0xE9]).unwrap();
    assert_eq!(latin1.chars().count(), 4);
    assert!(latin1.starts_with("caf"));
}

#[test]
fn saves_go_through_a_temporary_file_beside_the_document() {
    assert_eq!(
        temporary_save_path("/tmp/notes/demo.md", 1234),
        Ok("/tmp/notes/.demo.md.markhola-1234.tmp".to_string())
    );
    assert_eq!(
        temporary_save_path("/tmp/notes/demo.txt", 1),
        Err(UNSUPPORTED.to_string())
    );
    assert_eq!(
        temporary_save_path("demo.md", u128::MAX),
        Ok(format!(".demo.md.markhola-{}.tmp", u128::MAX))
    );
}
