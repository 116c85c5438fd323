use markhola::events::{
    should_dispatch_shell_recovery, should_recover_shell_on_page_load, ActionContext,
    OpenPathRequest, ShellRuntime,
};
use markhola::render_assets::ExportResources;
use markhola::shell::{app_shell_html, app_shell_template};

fn request(id: u64, path: &str) -> OpenPathRequest {
    OpenPathRequest {
        ctx: ActionContext { event_id: id, source: "test" },
        path: path.to_string(),
    }
}

#[test]
fn recovers_shell_when_page_load_finishes_on_blank_url() {
    assert!(should_recover_shell_on_page_load("about:blank"));
    assert!(should_recover_shell_on_page_load(""));
    assert!(!should_recover_shell_on_page_load("file:///tmp/demo.md"));
    assert!(!should_recover_shell_on_page_load("data:text/html,hello"));
}

#[test]
fn suppresses_the_expected_blank_finish_once_before_recovering_again() {
    let mut suppress_once = true;

    assert!(!should_dispatch_shell_recovery("about:blank", &mut suppress_once));
    assert!(should_dispatch_shell_recovery("about:blank", &mut suppress_once));
    assert!(!should_dispatch_shell_recovery("file:///tmp/demo.md", &mut suppress_once));
}

#[test]
fn blank_urls_with_surrounding_whitespace_count_as_blank() {
    assert!(should_recover_shell_on_page_load("  about:blank \n"));
    assert!(should_recover_shell_on_page_load("   "));
    assert!(!should_recover_shell_on_page_load("about:blank#x"));
}

#[test]
fn a_non_blank_page_leaves_the_suppression_in_place() {
    let mut suppress_once = true;
    assert!(!should_dispatch_shell_recovery("file:///tmp/demo.md", &mut suppress_once));
    assert!(suppress_once);
    assert!(!should_dispatch_shell_recovery("about:blank", &mut suppress_once));
    assert!(!suppress_once);
}

#[test]
fn open_requests_wait_for_the_shell_and_are_flushed_in_order() {
    let mut shell = ShellRuntime::new();
    assert!(!shell.ready);
    assert!(shell.handle_open_path(request(1, "/tmp/a.md")).is_none());
    assert!(shell.handle_open_path(request(2, "/tmp/b.md")).is_none());
    assert_eq!(shell.pending_open_requests.len(), 2);

    let (reload, flushed) = shell.handle_shell_ready(false);
    assert!(!reload);
    assert!(shell.ready);
    assert_eq!(flushed.len(), 2);
    assert_eq!(flushed[0].path, "/tmp/a.md");
    assert_eq!(flushed[1].ctx.event_id, 2);
    assert!(shell.pending_open_requests.is_empty());

    let now = shell.handle_open_path(request(3, "/tmp/c.md"));
    assert_eq!(now.map(|r| r.path), Some("/tmp/c.md".to_string()));
}

#[test]
fn a_rebuilt_shell_reloads_the_open_documents() {
    let mut shell = ShellRuntime::new();
    let (first, _) = shell.handle_shell_ready(true);
    assert!(!first);

    shell.begin_recovery();
    assert!(!shell.ready);
    assert!(shell.recovery_pending);
    let (reload, _) = shell.handle_shell_ready(true);
    assert!(reload);
    assert!(!shell.recovery_pending);

    let (again, _) = shell.handle_shell_ready(false);
    assert!(!again);

    shell.begin_recovery();
    shell.recovery_failed();
    assert!(!shell.recovery_pending);
}

#[test]
fn the_shell_page_inlines_the_resources_safely() {
    let resources = ExportResources {
        app_version: "0.8.0".to_string(),
        theme_css: "body{} </style><b>".to_string(),
        mermaid_runtime: "var m='</script>';".to_string(),
        mathjax_runtime: "var j=1;".to_string(),
    };
    let template = app_shell_template();
    assert!(template.contains("__APP_THEME__"));
    assert!(template.starts_with("<!DOCTYPE html>"));
    let page = app_shell_html(&resources);
    assert!(!page.contains("__APP_THEME__"));
    assert!(!page.contains("__MERMAID_RUNTIME__"));
    assert!(!page.contains("__MATHJAX_RUNTIME__"));
    assert!(page.contains("body{} <\\/style><b>"));
    assert!(page.contains("var m='<\\/script>';"));
    assert!(page.contains("var j=1;"));
}
