use markhola::document::ActiveDocument;
use markhola::html_export::{self, export_document, finish_export, HtmlExportOutcome, HtmlExportPlan};
use markhola::pdf_export::{
    self, apply_pdf_metadata, export_footer_text, export_preparation_mode, export_signal_of,
    prepare_script, temporary_pdf_output_path, timeout_for_mode, wait_step, ChannelPoll,
    ExportIpcMessage, ExportPreparationMode, ExportSignal, ExportWait, PREPARE_EXPORT_FAST_JS,
    PREPARE_EXPORT_JS,
};
use markhola::render_assets::{
    app_logo_data_url, encode_base64, load_app_theme_css_for_inline_style,
    mathjax_runtime_for_inline_script, mermaid_runtime_for_inline_script, ExportResources,
};

fn resources() -> ExportResources {
    ExportResources {
        app_version: "0.8.0".to_string(),
        theme_css: ".markdown-body{color:red}".to_string(),
        mermaid_runtime: "window.mermaid={};".to_string(),
        mathjax_runtime: "window.MathJax2={};".to_string(),
    }
}

fn demo() -> ActiveDocument {
    ActiveDocument::open_with_id(
        1,
        "/tmp/notes/demo.md".to_string(),
        "/tmp/notes/demo.md".to_string(),
        "# Demo".to_string(),
        "file:///tmp/notes/".to_string(),
    )
}

#[test]
fn base64_matches_the_standard_vectors() {
    assert_eq!(encode_base64(b""), "");
    assert_eq!(encode_base64(b"f"), "Zg==");
    assert_eq!(encode_base64(b"fo"), "Zm8=");
    assert_eq!(encode_base64(b"foo"), "Zm9v");
    assert_eq!(encode_base64(b"foob"), "Zm9vYg==");
    assert_eq!(encode_base64(b"fooba"), "Zm9vYmE=");
    assert_eq!(encode_base64(b"foobar"), "Zm9vYmFy");
    assert_eq!(encode_base64(&[0xFF, 0xFE, 0xFD, 0x00]), "//79AA==");
    assert_eq!(app_logo_data_url(&[0x89, b'P', b'N', b'G']), "data:image/png;base64,iVBORw==");
}

#[test]
fn inlined_resources_cannot_close_their_element() {
    assert_eq!(
        load_app_theme_css_for_inline_style("a</style>b</STYLE>"),
        "a<\\/style>b</STYLE>"
    );
    assert_eq!(
        mermaid_runtime_for_inline_script("x='</script>'</script"),
        "x='<\\/script>'<\\/script"
    );
    assert_eq!(mathjax_runtime_for_inline_script("plain"), "plain");
}

#[test]
fn the_html_export_fills_every_placeholder() {
    let page = html_export::build_export_html(&demo(), &resources(), "<h1>Demo</h1>");
    assert!(page.starts_with("<!DOCTYPE html>"));
    assert!(page.contains("<base href=\"file:///tmp/notes/\" />"));
    assert!(page.contains("<title>demo.md</title>"));
    assert!(page.contains("<article class=\"markdown-body\"><h1>Demo</h1></article>"));
    assert!(page.contains("Exported by MarkHola v0.8.0"));
    assert!(page.contains("<style>.markdown-body{color:red}</style>"));
    assert!(page.contains("<script>window.mermaid={};</script>"));
    assert!(page.contains("<script>window.MathJax2={};</script>"));
    for placeholder in [
        "__TITLE__",
        "__BASE_URL__",
        "__APP_VERSION__",
        "__APP_THEME__",
        "__EXPORT_CSS__",
        "__MERMAID_RUNTIME__",
        "__MATHJAX_RUNTIME__",
        "__DOCUMENT_HTML__",
    ] {
        assert!(!page.contains(placeholder));
    }
}

#[test]
fn an_html_export_writes_the_page_where_the_dialog_says() {
    let document = demo();
    assert!(matches!(
        export_document(&document, &resources(), "<p>x</p>", None),
        HtmlExportPlan::Cancelled
    ));
    match export_document(&document, &resources(), "<p>x</p>", Some("/tmp/out.html".to_string())) {
        HtmlExportPlan::Write { path, html } => {
            assert_eq!(path, "/tmp/out.html");
            assert!(html.contains("<p>x</p>"));
        }
        HtmlExportPlan::Cancelled => panic!("expected a write"),
    }
    match finish_export("/tmp/out.html".to_string(), Ok(())) {
        Ok(HtmlExportOutcome::Exported(path)) => assert_eq!(path, "/tmp/out.html"),
        _ => panic!("expected an export"),
    }
    assert_eq!(
        finish_export("/tmp/out.html".to_string(), Err("denied".to_string())).err(),
        Some("Failed to write HTML file: denied".to_string())
    );
}

#[test]
fn the_pdf_page_fills_every_placeholder() {
    let page = pdf_export::build_export_html(&demo(), &resources(), "<p>body</p>");
    assert!(page.contains("<footer class=\"export-footer\">Exported by MarkHola v0.8.0</footer>"));
    assert!(page.contains("id=\"content\"><p>body</p></article>"));
    assert!(page.contains("<title>demo.md</title>"));
    assert!(!page.contains("__TITLE__"));
    assert!(!page.contains("__EXPORT_PRINT_CSS__"));
    assert!(!page.contains("__DOCUMENT_HTML__"));
    assert_eq!(export_footer_text("1.2.3"), "Exported by MarkHola v1.2.3");
}

#[test]
fn diagrams_formulas_and_images_need_a_full_preparation() {
    assert_eq!(export_preparation_mode("<p>plain</p>"), ExportPreparationMode::Fast);
    assert_eq!(export_preparation_mode("<div class=\"mermaid-block\">"), ExportPreparationMode::Full);
    assert_eq!(export_preparation_mode("<span class=\"math math-inline\">"), ExportPreparationMode::Full);
    assert_eq!(export_preparation_mode("<img src=a.png>"), ExportPreparationMode::Full);
    assert_eq!(export_preparation_mode("<div class=\"math-block\">"), ExportPreparationMode::Full);
    assert_eq!(export_preparation_mode("<span class=\"math\">"), ExportPreparationMode::Fast);
    assert_eq!(prepare_script(ExportPreparationMode::Fast), PREPARE_EXPORT_FAST_JS);
    assert_eq!(prepare_script(ExportPreparationMode::Full), PREPARE_EXPORT_JS);
}

#[test]
fn a_fast_preparation_has_a_budget() {
    assert_eq!(timeout_for_mode(ExportPreparationMode::Full, 999_000_000_000), Ok(60_000_000_000));
    assert_eq!(timeout_for_mode(ExportPreparationMode::Fast, 1_000_000_000), Ok(2_000_000_000));
    assert_eq!(timeout_for_mode(ExportPreparationMode::Fast, 0), Ok(3_000_000_000));
    assert_eq!(
        timeout_for_mode(ExportPreparationMode::Fast, 3_000_000_000),
        Err("Timed out while preparing the export page.".to_string())
    );
}

#[test]
fn messages_of_the_preparation_script_become_signals() {
    let prepared = ExportIpcMessage { kind: "prepared".to_string(), has_measurement: true, message: None };
    assert!(matches!(export_signal_of(Ok(prepared)), ExportSignal::Prepared));
    let unmeasured = ExportIpcMessage { kind: "prepared".to_string(), has_measurement: false, message: None };
    match export_signal_of(Ok(unmeasured)) {
        ExportSignal::Failed(m) => assert_eq!(m, "PDF preparation finished without measurement data."),
        _ => panic!("expected a failure"),
    }
    let error = ExportIpcMessage {
        kind: "prepare-error".to_string(),
        has_measurement: false,
        message: Some("boom".to_string()),
    };
    match export_signal_of(Ok(error)) {
        ExportSignal::Failed(m) => assert_eq!(m, "boom"),
        _ => panic!("expected a failure"),
    }
    let silent = ExportIpcMessage { kind: "prepare-error".to_string(), has_measurement: false, message: None };
    match export_signal_of(Ok(silent)) {
        ExportSignal::Failed(m) => assert_eq!(m, "Unknown export preparation error."),
        _ => panic!("expected a failure"),
    }
    let odd = ExportIpcMessage { kind: "hello".to_string(), has_measurement: true, message: None };
    match export_signal_of(Ok(odd)) {
        ExportSignal::Failed(m) => assert_eq!(m, "Unexpected export IPC message: hello"),
        _ => panic!("expected a failure"),
    }
    match export_signal_of(Err("expected value".to_string())) {
        ExportSignal::Failed(m) => assert_eq!(m, "Failed to decode export IPC payload: expected value"),
        _ => panic!("expected a failure"),
    }
}

#[test]
fn waiting_for_a_signal_ends_on_the_awaited_one_or_a_failure() {
    let page = ExportWait::PageLoad;
    let prep = ExportWait::Preparation;
    assert_eq!(wait_step(page, ChannelPoll::Received(ExportSignal::PageLoaded), 0, 10), Some(Ok(())));
    assert_eq!(wait_step(page, ChannelPoll::Received(ExportSignal::Prepared), 0, 10), None);
    assert_eq!(wait_step(prep, ChannelPoll::Received(ExportSignal::Prepared), 0, 10), Some(Ok(())));
    assert_eq!(
        wait_step(prep, ChannelPoll::Received(ExportSignal::Failed("x".to_string())), 0, 10),
        Some(Err("x".to_string()))
    );
    assert_eq!(wait_step(prep, ChannelPoll::Empty, 10, 10), None);
    assert_eq!(
        wait_step(prep, ChannelPoll::Empty, 11, 10),
        Some(Err("Timed out while preparing the export page.".to_string()))
    );
    assert_eq!(
        wait_step(page, ChannelPoll::Received(ExportSignal::Prepared), 11, 10),
        Some(Err("Timed out while preparing the export page.".to_string()))
    );
    assert_eq!(
        wait_step(page, ChannelPoll::Disconnected, 0, 10),
        Some(Err("Export WebView channel disconnected unexpectedly.".to_string()))
    );
}

#[test]
fn the_temporary_pdf_is_named_after_the_document_and_process() {
    assert_eq!(
        temporary_pdf_output_path(&demo(), "/tmp", 4242),
        "/tmp/markhola-export-4242-demo.pdf"
    );
    let root = ActiveDocument::open_with_id(2, "/".to_string(), "/".to_string(), String::new(), String::new());
    assert_eq!(
        temporary_pdf_output_path(&root, "/var/tmp", 1),
        "/var/tmp/markhola-export-1-document.pdf"
    );
}

#[test]
fn metadata_goes_into_the_information_dictionary() {
    let mut pdf = lopdf::Document::with_version("1.5");
    let pages_id = pdf.new_object_id();
    let mut pages = lopdf::Dictionary::new();
    pages.set("Type", lopdf::Object::Name(b"Pages".to_vec()));
    pages.set("Kids", lopdf::Object::Array(Vec::new()));
    pages.set("Count", lopdf::Object::Integer(0));
    pdf.objects.insert(pages_id, lopdf::Object::Dictionary(pages));
    let mut catalog = lopdf::Dictionary::new();
    catalog.set("Type", lopdf::Object::Name(b"Catalog".to_vec()));
    catalog.set("Pages", lopdf::Object::Reference(pages_id));
    let catalog_id = pdf.add_object(catalog);
    pdf.trailer.set("Root", catalog_id);
    let mut bytes = Vec::new();
    pdf.save_to(&mut bytes).unwrap();

    let out = apply_pdf_metadata(&demo(), "0.8.0", bytes).unwrap();
    let reread = lopdf::Document::load_mem(&out).unwrap();
    let info_id = reread.trailer.get(b"Info").unwrap().as_reference().unwrap();
    let info = reread.get_object(info_id).unwrap().as_dict().unwrap();
    assert_eq!(info.get(b"Title").unwrap().as_str().unwrap(), b"demo.md");
    assert_eq!(info.get(b"Creator").unwrap().as_str().unwrap(), b"MarkHola");
    assert_eq!(info.get(b"Producer").unwrap().as_str().unwrap(), b"MarkHola v0.8.0");
    assert_eq!(info.get(b"Subject").unwrap().as_str().unwrap(), b"Exported by MarkHola v0.8.0");
    assert_eq!(reread.trailer.get(b"Root").unwrap().as_reference().unwrap(), catalog_id);
}

#[test]
fn bytes_that_are_no_pdf_are_refused() {
    let error = apply_pdf_metadata(&demo(), "0.8.0", b"not a pdf".to_vec()).unwrap_err();
    assert!(error.starts_with("Failed to load generated PDF for metadata injection: "));
}

#[test]
fn base64_length_and_padding_follow_the_byte_count() {
    for n in 0..10usize {
        let bytes: Vec<u8> = (0..n).map(|i| (i * 37 + 200) as u8).collect();
        let text = encode_base64(&bytes);
        assert_eq!(text.len(), 4 * ((n + 2) / 3));
        let pad = match n % 3 {
            1 => 2,
            2 => 1,
            _ => 0,
        };
        let body = &text[..text.len() - pad];
        assert!(body.chars().all(|c| c.is_ascii_alphanumeric() || c == '+' || c == '/'));
        assert!(text[text.len() - pad..].chars().all(|c| c == '='));
    }
}
