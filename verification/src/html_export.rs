//! The stand-alone HTML file that an export writes: the rendered document inside a page
//! that carries the theme, the print styles and the diagram and formula runtimes.
use vstd::prelude::*;

use crate::document::ActiveDocument;
use crate::render_assets::{
    inline_script, inline_style, load_app_theme_css_for_inline_style, mathjax_runtime_for_inline_script,
    mermaid_runtime_for_inline_script, ExportResources,
};
use crate::text::{concat, replace, replaced};

verus! {

/// Styles that let the exported page scroll as a document of its own.
pub const HTML_EXPORT_CSS: &'static str = r#"
html,
body {
  min-height: 100%;
  overflow: auto;
}

body {
  padding: 32px 24px 48px;
}
"#;

/// The page an HTML export writes, with placeholders for what varies.
pub const HTML_EXPORT_TEMPLATE: &'static str = r#"<!DOCTYPE html>
<html lang="en">
  <head>
    <meta charset="UTF-8" />
    <meta name="viewport" content="width=device-width, initial-scale=1.0" />
    <base href="__BASE_URL__" />
    <title>__TITLE__</title>
    <style>__APP_THEME__</style>
    <style>__EXPORT_CSS__</style>
  </head>
  <body>
    <article class="markdown-body">__DOCUMENT_HTML__</article>
    <footer style="margin:24px auto 48px;max-width:816px;padding:0 56px;text-align:right;font-size:10px;line-height:1.4;color:#f8f7f4;user-select:none;">
      Exported by MarkHola v__APP_VERSION__
    </footer>
    <script>
      window.MathJax = {
        startup: { typeset: false },
        svg: { fontCache: "none" }
      };
    </script>
    <script>__MERMAID_RUNTIME__</script>
    <script>__MATHJAX_RUNTIME__</script>
    <script>
      const escapeHtml = (value) =>
        value
          .replaceAll("&", "&amp;")
          .replaceAll("<", "&lt;")
          .replaceAll(">", "&gt;")
          .replaceAll('"', "&quot;")
          .replaceAll("'", "&#39;");

      const ensureMermaidInitialized = () => {
        if (!window.mermaid) return;
        window.mermaid.initialize({
          startOnLoad: false,
          securityLevel: "strict",
          theme: "default"
        });
      };

      const renderMermaidDiagrams = async () => {
        ensureMermaidInitialized();
        if (!window.mermaid) return;
        const blocks = document.querySelectorAll(".mermaid-block");
        for (const [index, block] of blocks.entries()) {
          const sourceNode = block.querySelector(".mermaid-block__source");
          const diagramNode = block.querySelector(".mermaid-block__diagram");
          const statusNode = block.querySelector(".mermaid-block__status");
          const source = sourceNode?.textContent || "";
          if (!diagramNode) continue;
          try {
            const { svg } = await window.mermaid.render(`markhola-html-export-${index}-${Date.now()}`, source);
            diagramNode.innerHTML = svg;
            statusNode?.remove();
          } catch (error) {
            const message =
              error && typeof error === "object" && "message" in error
                ? String(error.message)
                : String(error || "Unknown Mermaid error");
            diagramNode.innerHTML = `<pre class="mermaid-block__error">${escapeHtml(message)}\n\n${escapeHtml(source)}</pre>`;
          }
        }
      };

      const ensureMathJaxReady = () => {
        if (!window.MathJax || !window.MathJax.startup) return null;
        return window.MathJax.startup.promise;
      };

      const extractRenderedMathNode = (rendered) =>
        rendered.querySelector("mjx-container") || rendered.firstElementChild || rendered;

      const renderMathSource = async (node, source, display) => {
        const ready = ensureMathJaxReady();
        if (!ready) return;
        await ready;
        const rendered = await window.MathJax.tex2svgPromise(source, { display });
        const mathNode = extractRenderedMathNode(rendered);
        node.replaceChildren(mathNode.cloneNode(true));
      };

      const renderMathExpressions = async () => {
        if (!window.MathJax) return;
        const mathNodes = document.querySelectorAll(".math.math-inline, .math.math-display");
        for (const node of mathNodes) {
          const source = node.textContent || "";
          const display = node.classList.contains("math-display");
          try {
            await renderMathSource(node, source, display);
          } catch (error) {
            node.innerHTML = `<code>${escapeHtml(String(error || "Math render failed"))}</code>`;
          }
        }
        const blocks = document.querySelectorAll(".math-block");
        for (const block of blocks) {
          const sourceNode = block.querySelector(".math-block__source");
          const formulaNode = block.querySelector(".math-block__formula");
          const statusNode = block.querySelector(".math-block__status");
          const source = sourceNode?.textContent || "";
          if (!formulaNode) continue;
          try {
            await renderMathSource(formulaNode, source, true);
            statusNode?.remove();
          } catch (error) {
            formulaNode.innerHTML = `<pre class="math-block__error">${escapeHtml(String(error || "Math render failed"))}</pre>`;
          }
        }
      };

      void renderMermaidDiagrams().then(renderMathExpressions);
    </script>
  </body>
</html>
"#;

/// The exported page for a document titled `title` whose links resolve against `base_url`,
/// naming version `version`, with the theme `theme_css`, the two runtimes and the rendered
/// document `document_html`.
pub open spec fn html_export_page(
    title: Seq<char>,
    base_url: Seq<char>,
    version: Seq<char>,
    theme_css: Seq<char>,
    mermaid: Seq<char>,
    mathjax: Seq<char>,
    document_html: Seq<char>,
) -> Seq<char> {
    let t = replaced(HTML_EXPORT_TEMPLATE@, "__TITLE__"@, title);
    let t = replaced(t, "__BASE_URL__"@, base_url);
    let t = replaced(t, "__APP_VERSION__"@, version);
    let t = replaced(t, "__APP_THEME__"@, inline_style(theme_css));
    let t = replaced(t, "__EXPORT_CSS__"@, HTML_EXPORT_CSS@);
    let t = replaced(t, "__MERMAID_RUNTIME__"@, inline_script(mermaid));
    let t = replaced(t, "__MATHJAX_RUNTIME__"@, inline_script(mathjax));
    replaced(t, "__DOCUMENT_HTML__"@, document_html)
}

/// The HTML file exported for `document`, whose Markdown renders to `rendered_html`.
pub fn build_export_html(
    document: &ActiveDocument,
    resources: &ExportResources,
    rendered_html: &str,
) -> (r: String)
    ensures
        r@ == html_export_page(
            document@.file_name,
            document@.base_url,
            resources.app_version@,
            resources.theme_css@,
            resources.mermaid_runtime@,
            resources.mathjax_runtime@,
            rendered_html@,
        ),
{
    proof {
        reveal_strlit("__TITLE__");
        reveal_strlit("__BASE_URL__");
        reveal_strlit("__APP_VERSION__");
        reveal_strlit("__APP_THEME__");
        reveal_strlit("__EXPORT_CSS__");
        reveal_strlit("__MERMAID_RUNTIME__");
        reveal_strlit("__MATHJAX_RUNTIME__");
        reveal_strlit("__DOCUMENT_HTML__");
    }
    let theme = load_app_theme_css_for_inline_style(resources.theme_css.as_str());
    let mermaid = mermaid_runtime_for_inline_script(resources.mermaid_runtime.as_str());
    let mathjax = mathjax_runtime_for_inline_script(resources.mathjax_runtime.as_str());
    let t = replace(HTML_EXPORT_TEMPLATE, "__TITLE__", document.file_name());
    let t = replace(t.as_str(), "__BASE_URL__", document.base_url());
    let t = replace(t.as_str(), "__APP_VERSION__", resources.app_version.as_str());
    let t = replace(t.as_str(), "__APP_THEME__", theme.as_str());
    let t = replace(t.as_str(), "__EXPORT_CSS__", HTML_EXPORT_CSS);
    let t = replace(t.as_str(), "__MERMAID_RUNTIME__", mermaid.as_str());
    let t = replace(t.as_str(), "__MATHJAX_RUNTIME__", mathjax.as_str());
    replace(t.as_str(), "__DOCUMENT_HTML__", rendered_html)
}

/// What an HTML export came to.
pub enum HtmlExportOutcome {
    Cancelled,
    Exported(String),
}

/// What an HTML export does once the save dialog has answered: nothing, or write the page
/// `html` to `path`.
pub enum HtmlExportPlan {
    Cancelled,
    Write { path: String, html: String },
}

/// The HTML export of `document`, whose Markdown renders to `rendered_html`, to the file
/// `chosen` in the save dialog (`None` where the dialog was cancelled).
pub fn export_document(
    document: &ActiveDocument,
    resources: &ExportResources,
    rendered_html: &str,
    chosen: Option<String>,
) -> (r: HtmlExportPlan)
    ensures
        chosen is None ==> r is Cancelled,
        chosen matches Some(p) ==> (r matches HtmlExportPlan::Write { path, html } && path@ == p@
            && html@ == html_export_page(
            document@.file_name,
            document@.base_url,
            resources.app_version@,
            resources.theme_css@,
            resources.mermaid_runtime@,
            resources.mathjax_runtime@,
            rendered_html@,
        )),
{
    match chosen {
        None => HtmlExportPlan::Cancelled,
        Some(path) => {
            let html = build_export_html(document, resources, rendered_html);
            HtmlExportPlan::Write { path, html }
        },
    }
}

/// The outcome of an export to `path` once writing the file gave `written`.
pub fn finish_export(path: String, written: Result<(), String>) -> (r: Result<
    HtmlExportOutcome,
    String,
>)
    ensures
        written is Ok ==> (r matches Ok(HtmlExportOutcome::Exported(p)) && p@ == path@),
        written matches Err(e) ==> (r matches Err(m) && m@ == "Failed to write HTML file: "@ + e@),
{
    match written {
        Ok(()) => Ok(HtmlExportOutcome::Exported(path)),
        Err(e) => Err(concat("Failed to write HTML file: ", e.as_str())),
    }
}

} // verus!
