//! The page from which a PDF is printed, how long its preparation may take, what its
//! preparation script reports, and the metadata written into the finished PDF.
use vstd::prelude::*;
use vstd::utf8::encode_utf8;

use crate::document::ActiveDocument;
use crate::paths::{file_stem, path_join, std_join, stem_of};
use crate::render_assets::{
    inline_script, inline_style, load_app_theme_css_for_inline_style, mathjax_runtime_for_inline_script,
    mermaid_runtime_for_inline_script, ExportResources,
};
use crate::text::{concat, concat3, contains, contains_seq, decimal, has_prefix, replace, replaced, str_eq, u64_to_string};

verus! {

/// The name of the application in exported files.
pub const APP_NAME: &'static str = "MarkHola";

/// The scheme under which the page to print is served.
pub const EXPORT_SCHEME: &'static str = "markhola-export";

/// The address of the page to print.
pub const EXPORT_URL: &'static str = "markhola-export://export/index.html";

/// The footer of a printed page, with a placeholder for the version.
pub const EXPORT_FOOTER_TEXT: &'static str = "Exported by MarkHola v__APP_VERSION__";

/// How long a full preparation may take, in nanoseconds.
pub const EXPORT_TIMEOUT_NANOS: u64 = 60_000_000_000;

/// How long a fast preparation may take, counted from the start of the export, in
/// nanoseconds.
pub const FAST_EXPORT_BUDGET_NANOS: u64 = 3_000_000_000;

/// How long the page to print may take to load, in nanoseconds.
pub const PAGE_LOAD_TIMEOUT_NANOS: u64 = 15_000_000_000;

/// Styles of the printed page.
pub const EXPORT_PRINT_CSS: &'static str = r#"
html, body {
  margin: 0;
  padding: 0;
  background: #ffffff;
}

body {
  color: #111111;
}

.export-page {
  box-sizing: border-box;
  width: 100%;
  max-width: 816px;
  margin: 0 auto;
  padding: 48px 56px 40px;
  background: #ffffff;
}

.export-footer {
  box-sizing: border-box;
  width: 100%;
  max-width: 816px;
  margin: 0 auto;
  padding: 0 56px 72px;
  text-align: right;
  font-size: 10px;
  line-height: 1.4;
  color: #f8f7f4;
  user-select: none;
}

.app,
.tabs-bar,
.preview-header,
.bottom-bar,
.about-overlay,
.editor-pane,
.empty-state {
  display: none !important;
}
"#;

/// The page to print, with placeholders for what varies.
pub const EXPORT_HTML_TEMPLATE: &'static str = r#"<!DOCTYPE html>
<html lang="en">
  <head>
    <meta charset="UTF-8" />
    <meta name="viewport" content="width=device-width, initial-scale=1.0" />
    <base href="__BASE_URL__" />
    <title>__TITLE__</title>
    <style>__APP_THEME__</style>
    <style>__EXPORT_PRINT_CSS__</style>
  </head>
  <body>
    <article class="markdown-body export-page" id="content">__DOCUMENT_HTML__</article>
    <footer class="export-footer">__EXPORT_FOOTER__</footer>

    <script>
      window.MathJax = {
        startup: { typeset: false },
        svg: { fontCache: "none" }
      };
    </script>
    <script>__MERMAID_RUNTIME__</script>
    <script>__MATHJAX_RUNTIME__</script>
    <script>
      const content = document.getElementById("content");
      let mermaidInitialized = false;
      let mathJaxReadyPromise = null;
      window.markholaExportProgress = {
        stage: "boot",
        timings: [],
        imageCount: document.images.length
      };

      const markStage = (stage, extra = {}) => {
        window.markholaExportProgress = {
          ...window.markholaExportProgress,
          stage,
          updatedAt: Date.now(),
          ...extra
        };
      };

      const recordTiming = (label, startedAt) => {
        const durationMs = Date.now() - startedAt;
        const timings = Array.isArray(window.markholaExportProgress.timings)
          ? window.markholaExportProgress.timings
          : [];
        timings.push({ label, durationMs });
        window.markholaExportProgress.timings = timings;
      };

      const withTiming = async (label, fn) => {
        const startedAt = Date.now();
        try {
          return await fn();
        } finally {
          recordTiming(label, startedAt);
        }
      };

      const withTimeout = async (label, promise, timeoutMs) => {
        let timeoutId = null;
        try {
          return await Promise.race([
            promise,
            new Promise((resolve) => {
              timeoutId = setTimeout(() => {
                markStage(`${label}-timeout`, { timeoutMs });
                resolve({ timedOut: true });
              }, timeoutMs);
            })
          ]);
        } finally {
          if (timeoutId !== null) {
            clearTimeout(timeoutId);
          }
        }
      };

      const escapeHtml = (value) =>
        value
          .replaceAll("&", "&amp;")
          .replaceAll("<", "&lt;")
          .replaceAll(">", "&gt;")
          .replaceAll('"', "&quot;")
          .replaceAll("'", "&#39;");

      const ensureMermaidInitialized = () => {
        if (mermaidInitialized || !window.mermaid) return;

        window.mermaid.initialize({
          startOnLoad: false,
          securityLevel: "strict",
          theme: "default"
        });
        mermaidInitialized = true;
      };

      const renderMermaidDiagrams = async () => {
        ensureMermaidInitialized();
        if (!window.mermaid) return;

        const blocks = document.querySelectorAll(".mermaid-block");
        for (const [index, block] of blocks.entries()) {
          const statusNode = block.querySelector(".mermaid-block__status");
          const sourceNode = block.querySelector(".mermaid-block__source");
          const diagramNode = block.querySelector(".mermaid-block__diagram");
          const source = sourceNode?.textContent || "";

          if (!diagramNode) continue;

          diagramNode.innerHTML = "";
          if (statusNode) {
            statusNode.textContent = "Rendering diagram...";
            statusNode.classList.remove("hidden");
          }

          try {
            const { svg } = await window.mermaid.render(
              `markhola-export-mermaid-${index}-${Date.now()}`,
              source
            );
            diagramNode.innerHTML = svg;
            statusNode?.classList.add("hidden");
          } catch (error) {
            const message =
              error && typeof error === "object" && "message" in error
                ? String(error.message)
                : String(error || "Unknown Mermaid error");
            if (statusNode) {
              statusNode.textContent = "Mermaid render failed.";
              statusNode.classList.remove("hidden");
            }
            diagramNode.innerHTML =
              `<pre class="mermaid-block__error">${escapeHtml(message)}\n\n${escapeHtml(source)}</pre>`;
          }
        }
      };

      const ensureMathJaxReady = () => {
        if (!window.MathJax || !window.MathJax.startup) return null;
        if (!mathJaxReadyPromise) {
          mathJaxReadyPromise = window.MathJax.startup.promise;
        }
        return mathJaxReadyPromise;
      };

      const extractRenderedMathNode = (rendered) =>
        rendered.querySelector("mjx-container") || rendered.firstElementChild || rendered;

      const renderMathSource = async (node, source, display) => {
        const ready = ensureMathJaxReady();
        if (!ready) return false;

        await ready;
        const rendered = await window.MathJax.tex2svgPromise(source, { display });
        const mathNode = extractRenderedMathNode(rendered);
        node.replaceChildren(mathNode.cloneNode(true));
        return true;
      };

      const renderMathExpressions = async () => {
        if (!window.MathJax) return;

        const mathNodes = content.querySelectorAll(".math.math-inline, .math.math-display");
        for (const node of mathNodes) {
          const source = node.textContent || "";
          const display = node.classList.contains("math-display");

          try {
            await renderMathSource(node, source, display);
          } catch (error) {
            const message =
              error && typeof error === "object" && "message" in error
                ? String(error.message)
                : String(error || "Unknown math error");
            node.innerHTML = `<code>${escapeHtml(`Math render failed: ${message}\n\n${source}`)}</code>`;
          }
        }

        const blocks = content.querySelectorAll(".math-block");
        for (const block of blocks) {
          const statusNode = block.querySelector(".math-block__status");
          const sourceNode = block.querySelector(".math-block__source");
          const formulaNode = block.querySelector(".math-block__formula");
          const source = sourceNode?.textContent || "";

          if (!formulaNode) continue;

          formulaNode.innerHTML = "";
          if (statusNode) {
            statusNode.textContent = "Rendering formula...";
            statusNode.classList.remove("hidden");
          }

          try {
            await renderMathSource(formulaNode, source, true);
            statusNode?.classList.add("hidden");
          } catch (error) {
            const message =
              error && typeof error === "object" && "message" in error
                ? String(error.message)
                : String(error || "Unknown math error");
            if (statusNode) {
              statusNode.textContent = "Math render failed.";
              statusNode.classList.remove("hidden");
            }
            formulaNode.innerHTML =
              `<pre class="math-block__error">${escapeHtml(message)}\n\n${escapeHtml(source)}</pre>`;
          }
        }
      };

      const waitForImages = async (label) => {
        const pending = Array.from(document.images).filter((image) => !image.complete);
        markStage(label, { pendingImages: pending.length });
        const result = await withTimeout(
          label,
          Promise.all(
            pending.map(
              (image) =>
                new Promise((resolve) => {
                  const done = () => resolve();
                  image.addEventListener("load", done, { once: true });
                  image.addEventListener("error", done, { once: true });
                })
            )
          ),
          8000
        );

        if (result && result.timedOut) {
          markStage(`${label}-continued`, { pendingImages: pending.length });
        }
      };

      const waitForNextPaint = async () => {
        await new Promise((resolve) => setTimeout(resolve, 0));
      };

      window.markholaMeasureExportPage = () => {
        const root = document.documentElement;
        const body = document.body;
        return {
          width: Math.max(root.scrollWidth, root.clientWidth, body.scrollWidth, body.clientWidth),
          height: Math.max(root.scrollHeight, root.clientHeight, body.scrollHeight, body.clientHeight)
        };
      };

      window.markholaPreparePdf = async () => {
        markStage("prepare-start");
        await withTiming("wait-initial-images", () => waitForImages("wait-initial-images"));
        markStage("render-mermaid");
        await withTiming("render-mermaid", renderMermaidDiagrams);
        markStage("render-math");
        await withTiming("render-math", renderMathExpressions);
        await withTiming("wait-post-render-images", () => waitForImages("wait-post-render-images"));
        markStage("wait-next-paint");
        await withTiming("wait-next-paint", waitForNextPaint);
        const measurement = window.markholaMeasureExportPage();
        markStage("prepare-complete", measurement);
        return measurement;
      };

      window.markholaPreparePdfFast = async () => {
        markStage("fast-prepare-start");
        const measurement = window.markholaMeasureExportPage();
        markStage("fast-prepare-complete", measurement);
        return measurement;
      };

      document.addEventListener(
        "error",
        (event) => {
          const target = event.target;
          if (!(target instanceof HTMLImageElement)) return;

          const fallback = document.createElement("p");
          fallback.className = "image-error";
          fallback.textContent = `Image failed to load: ${target.getAttribute("src") || "unknown source"}`;
          target.replaceWith(fallback);
        },
        true
      );
    </script>
  </body>
</html>
"#;

/// The script that fully prepares the page: images, diagrams and formulas.
pub const PREPARE_EXPORT_JS: &'static str = r#"
window.markholaPreparePdf()
  .then((measurement) => window.ipc.postMessage(JSON.stringify({ kind: "prepared", measurement })))
  .catch((error) =>
    window.ipc.postMessage(
      JSON.stringify({
        kind: "prepare-error",
        message: String((error && error.message) || error || "Unknown export error")
      })
    )
  );
"#;

/// The script that only measures the page.
pub const PREPARE_EXPORT_FAST_JS: &'static str = r#"
window.markholaPreparePdfFast()
  .then((measurement) => window.ipc.postMessage(JSON.stringify({ kind: "prepared", measurement })))
  .catch((error) =>
    window.ipc.postMessage(
      JSON.stringify({
        kind: "prepare-error",
        message: String((error && error.message) || error || "Unknown export error")
      })
    )
  );
"#;

/// How much preparation the page to print needs before it is measured.
#[derive(Clone, Copy, Debug, PartialEq, Eq, Structural)]
pub enum ExportPreparationMode {
    /// Only measure the page.
    Fast,
    /// Wait for images, draw diagrams and typeset formulas first.
    Full,
}

/// What a PDF export came to.
pub enum PdfExportOutcome {
    Exported(String),
    Cancelled,
}

/// Whether rendered HTML holds diagrams, formulas or images, which need a full preparation.
pub open spec fn needs_full_preparation(html: Seq<char>) -> bool {
    ||| contains_seq(html, "mermaid-block"@)
    ||| contains_seq(html, "math-block"@)
    ||| contains_seq(html, "math math-inline"@)
    ||| contains_seq(html, "math math-display"@)
    ||| contains_seq(html, "<img"@)
}

/// The preparation that the page printed from the rendered HTML `html` gets.
pub open spec fn preparation_mode(html: Seq<char>) -> ExportPreparationMode {
    if needs_full_preparation(html) {
        ExportPreparationMode::Full
    } else {
        ExportPreparationMode::Fast
    }
}

/// A page with a diagram, a formula (block, inline or display) or an image is fully prepared
/// before it is printed; a page with none of them is only measured.
pub proof fn law_pages_with_diagrams_formulas_or_images_are_fully_prepared(html: Seq<char>)
    ensures
        contains_seq(html, "mermaid-block"@) ==> preparation_mode(html) == ExportPreparationMode::Full,
        contains_seq(html, "math-block"@) ==> preparation_mode(html) == ExportPreparationMode::Full,
        contains_seq(html, "math math-inline"@) ==> preparation_mode(html)
            == ExportPreparationMode::Full,
        contains_seq(html, "math math-display"@) ==> preparation_mode(html)
            == ExportPreparationMode::Full,
        contains_seq(html, "<img"@) ==> preparation_mode(html) == ExportPreparationMode::Full,
        !contains_seq(html, "mermaid-block"@) && !contains_seq(html, "math-block"@)
            && !contains_seq(html, "math math-inline"@) && !contains_seq(html, "math math-display"@)
            && !contains_seq(html, "<img"@) ==> preparation_mode(html) == ExportPreparationMode::Fast,
{
}

/// The preparation that the rendered HTML `html` needs.
pub fn export_preparation_mode(html: &str) -> (r: ExportPreparationMode)
    ensures
        r == preparation_mode(html@),
        r == (if needs_full_preparation(html@) {
            ExportPreparationMode::Full
        } else {
            ExportPreparationMode::Fast
        }),
{
    let requires_full_prepare = contains(html, "mermaid-block") || contains(html, "math-block")
        || contains(html, "math math-inline") || contains(html, "math math-display") || contains(
        html,
        "<img",
    );
    if requires_full_prepare {
        ExportPreparationMode::Full
    } else {
        ExportPreparationMode::Fast
    }
}

/// The footer of a printed page for version `version`.
pub open spec fn footer_text(version: Seq<char>) -> Seq<char> {
    replaced(EXPORT_FOOTER_TEXT@, "__APP_VERSION__"@, version)
}

/// The footer of a printed page for version `app_version`.
pub fn export_footer_text(app_version: &str) -> (r: String)
    ensures
        r@ == footer_text(app_version@),
{
    proof {
        reveal_strlit("__APP_VERSION__");
    }
    replace(EXPORT_FOOTER_TEXT, "__APP_VERSION__", app_version)
}

/// The page to print for a document titled `title` whose links resolve against `base_url`,
/// naming version `version`, with the theme `theme_css`, the two runtimes and the rendered
/// document `document_html`.
pub open spec fn pdf_export_page(
    title: Seq<char>,
    base_url: Seq<char>,
    version: Seq<char>,
    theme_css: Seq<char>,
    mermaid: Seq<char>,
    mathjax: Seq<char>,
    document_html: Seq<char>,
) -> Seq<char> {
    let t = replaced(EXPORT_HTML_TEMPLATE@, "__TITLE__"@, title);
    let t = replaced(t, "__BASE_URL__"@, base_url);
    let t = replaced(t, "__EXPORT_FOOTER__"@, footer_text(version));
    let t = replaced(t, "__APP_THEME__"@, inline_style(theme_css));
    let t = replaced(t, "__EXPORT_PRINT_CSS__"@, EXPORT_PRINT_CSS@);
    let t = replaced(t, "__MERMAID_RUNTIME__"@, inline_script(mermaid));
    let t = replaced(t, "__MATHJAX_RUNTIME__"@, inline_script(mathjax));
    replaced(t, "__DOCUMENT_HTML__"@, document_html)
}

/// The page from which `document`, whose Markdown renders to `rendered_html`, is printed.
pub fn build_export_html(
    document: &ActiveDocument,
    resources: &ExportResources,
    rendered_html: &str,
) -> (r: String)
    ensures
        r@ == pdf_export_page(
            document@.file_name,
            document@.base_url,
            resources.app_version@,
            resources.theme_css@,
            resources.mermaid_runtime@,
            resources.mathjax_runtime@,
            rendered_html@,
        ),
{
    proof {
        reveal_strlit("__TITLE__");
        reveal_strlit("__BASE_URL__");
        reveal_strlit("__EXPORT_FOOTER__");
        reveal_strlit("__APP_THEME__");
        reveal_strlit("__EXPORT_PRINT_CSS__");
        reveal_strlit("__MERMAID_RUNTIME__");
        reveal_strlit("__MATHJAX_RUNTIME__");
        reveal_strlit("__DOCUMENT_HTML__");
    }
    let footer = export_footer_text(resources.app_version.as_str());
    let theme = load_app_theme_css_for_inline_style(resources.theme_css.as_str());
    let mermaid = mermaid_runtime_for_inline_script(resources.mermaid_runtime.as_str());
    let mathjax = mathjax_runtime_for_inline_script(resources.mathjax_runtime.as_str());
    let t = replace(EXPORT_HTML_TEMPLATE, "__TITLE__", document.file_name());
    let t = replace(t.as_str(), "__BASE_URL__", document.base_url());
    let t = replace(t.as_str(), "__EXPORT_FOOTER__", footer.as_str());
    let t = replace(t.as_str(), "__APP_THEME__", theme.as_str());
    let t = replace(t.as_str(), "__EXPORT_PRINT_CSS__", EXPORT_PRINT_CSS);
    let t = replace(t.as_str(), "__MERMAID_RUNTIME__", mermaid.as_str());
    let t = replace(t.as_str(), "__MATHJAX_RUNTIME__", mathjax.as_str());
    replace(t.as_str(), "__DOCUMENT_HTML__", rendered_html)
}

/// How long the preparation may still take, in nanoseconds, when `elapsed` nanoseconds have
/// passed since the export began; a fast preparation whose budget is spent has timed out.
pub open spec fn preparation_timeout(mode: ExportPreparationMode, elapsed: int) -> Result<
    u64,
    Seq<char>,
> {
    match mode {
        ExportPreparationMode::Full => Ok(EXPORT_TIMEOUT_NANOS),
        ExportPreparationMode::Fast => if elapsed >= FAST_EXPORT_BUDGET_NANOS {
            Err("Timed out while preparing the export page."@)
        } else {
            Ok((FAST_EXPORT_BUDGET_NANOS - elapsed) as u64)
        },
    }
}

/// How long the preparation may still take, in nanoseconds, `elapsed_nanos` after the export
/// began.
pub fn timeout_for_mode(mode: ExportPreparationMode, elapsed_nanos: u128) -> (r: Result<
    u64,
    String,
>)
    ensures
        r matches Ok(t) ==> preparation_timeout(mode, elapsed_nanos as int) == Ok::<u64, Seq<char>>(t),
        r matches Err(e) ==> preparation_timeout(mode, elapsed_nanos as int) == Err::<u64, Seq<char>>(
            e@,
        ),
{
    match mode {
        ExportPreparationMode::Full => Ok(EXPORT_TIMEOUT_NANOS),
        ExportPreparationMode::Fast => {
            if elapsed_nanos >= FAST_EXPORT_BUDGET_NANOS as u128 {
                Err(String::from_str("Timed out while preparing the export page."))
            } else {
                let elapsed = elapsed_nanos as u64;
                Ok(FAST_EXPORT_BUDGET_NANOS - elapsed)
            }
        },
    }
}

/// The script that prepares the page for `mode`.
pub fn prepare_script(mode: ExportPreparationMode) -> (r: &'static str)
    ensures
        r@ == (match mode {
            ExportPreparationMode::Fast => PREPARE_EXPORT_FAST_JS@,
            ExportPreparationMode::Full => PREPARE_EXPORT_JS@,
        }),
{
    match mode {
        ExportPreparationMode::Fast => PREPARE_EXPORT_FAST_JS,
        ExportPreparationMode::Full => PREPARE_EXPORT_JS,
    }
}

/// A message of the preparation script, as decoded from its JSON: its kind, whether it
/// carries a measurement of the page, and its text.
pub struct ExportIpcMessage {
    pub kind: String,
    pub has_measurement: bool,
    pub message: Option<String>,
}

/// What the page to print signals.
pub enum ExportSignal {
    PageLoaded,
    /// The page is prepared; its measurement travels beside the signal.
    Prepared,
    Failed(String),
}

/// The signal of a message of the preparation script, `decoded` from its JSON or the text of
/// the decoding error.
pub fn export_signal_of(decoded: Result<ExportIpcMessage, String>) -> (r: ExportSignal)
    ensures
        match decoded {
            Err(e) => r matches ExportSignal::Failed(m) && m@ == "Failed to decode export IPC payload: "@
                + e@,
            Ok(msg) => if msg.kind@ == "prepared"@ {
                if msg.has_measurement {
                    r is Prepared
                } else {
                    r matches ExportSignal::Failed(m) && m@
                        == "PDF preparation finished without measurement data."@
                }
            } else if msg.kind@ == "prepare-error"@ {
                r matches ExportSignal::Failed(m) && m@ == (match msg.message {
                    Some(t) => t@,
                    None => "Unknown export preparation error."@,
                })
            } else {
                r matches ExportSignal::Failed(m) && m@ == "Unexpected export IPC message: "@
                    + msg.kind@
            },
        },
{
    match decoded {
        Err(e) => ExportSignal::Failed(concat("Failed to decode export IPC payload: ", e.as_str())),
        Ok(msg) => {
            if str_eq(msg.kind.as_str(), "prepared") {
                if msg.has_measurement {
                    ExportSignal::Prepared
                } else {
                    ExportSignal::Failed(
                        String::from_str("PDF preparation finished without measurement data."),
                    )
                }
            } else if str_eq(msg.kind.as_str(), "prepare-error") {
                match msg.message {
                    Some(t) => ExportSignal::Failed(t),
                    None => ExportSignal::Failed(
                        String::from_str("Unknown export preparation error."),
                    ),
                }
            } else {
                ExportSignal::Failed(concat("Unexpected export IPC message: ", msg.kind.as_str()))
            }
        },
    }
}

/// Which signal an export waits for.
#[derive(Clone, Copy, Debug, PartialEq, Eq, Structural)]
pub enum ExportWait {
    PageLoad,
    Preparation,
}

/// One look at the channel on which the page signals.
pub enum ChannelPoll {
    Received(ExportSignal),
    Empty,
    Disconnected,
}

/// The message with which a wait that ran out of time ends.
pub open spec fn timed_out_message() -> Seq<char> {
    "Timed out while preparing the export page."@
}

/// The message with which a wait ends when the page has gone.
pub open spec fn disconnected_message() -> Seq<char> {
    "Export WebView channel disconnected unexpectedly."@
}

/// How a wait ends on the signal it receives, if it ends: the awaited signal ends it well, a
/// failure ends it with the failure's text, and the other signal does not end it.
pub open spec fn ends_wait(wait: ExportWait, signal: ExportSignal) -> Option<Result<(), Seq<char>>> {
    match signal {
        ExportSignal::Failed(m) => Some(Err(m@)),
        ExportSignal::PageLoaded => if wait == ExportWait::PageLoad {
            Some(Ok(()))
        } else {
            None
        },
        ExportSignal::Prepared => if wait == ExportWait::Preparation {
            Some(Ok(()))
        } else {
            None
        },
    }
}

/// One step of a wait for a signal of the page: how it ends after the look `poll` at the
/// channel, `elapsed` nanoseconds after it began with `timeout` nanoseconds to go, if it ends.
pub open spec fn wait_outcome(
    wait: ExportWait,
    poll: ChannelPoll,
    elapsed: int,
    timeout: int,
) -> Option<Result<(), Seq<char>>> {
    let on_time = if elapsed > timeout {
        Some(Err(timed_out_message()))
    } else {
        None
    };
    match poll {
        ChannelPoll::Received(signal) => match ends_wait(wait, signal) {
            Some(o) => Some(o),
            None => on_time,
        },
        ChannelPoll::Empty => on_time,
        ChannelPoll::Disconnected => Some(Err(disconnected_message())),
    }
}

/// The view of a wait's outcome.
pub open spec fn outcome_view(r: Option<Result<(), String>>) -> Option<Result<(), Seq<char>>> {
    match r {
        Some(Ok(())) => Some(Ok(())),
        Some(Err(e)) => Some(Err(e@)),
        None => None,
    }
}

/// One step of a wait for a signal of the page; `None` means that the wait goes on.
pub fn wait_step(wait: ExportWait, poll: ChannelPoll, elapsed_nanos: u128, timeout_nanos: u64) -> (r:
    Option<Result<(), String>>)
    ensures
        outcome_view(r) == wait_outcome(wait, poll, elapsed_nanos as int, timeout_nanos as int),
{
    match poll {
        ChannelPoll::Received(signal) => {
            match signal {
                ExportSignal::Failed(m) => {
                    return Some(Err(m));
                },
                ExportSignal::PageLoaded => {
                    if wait == ExportWait::PageLoad {
                        return Some(Ok(()));
                    }
                },
                ExportSignal::Prepared => {
                    if wait == ExportWait::Preparation {
                        return Some(Ok(()));
                    }
                },
            }
        },
        ChannelPoll::Empty => {},
        ChannelPoll::Disconnected => {
            return Some(Err(String::from_str("Export WebView channel disconnected unexpectedly.")));
        },
    }
    if elapsed_nanos > timeout_nanos as u128 {
        Some(Err(String::from_str("Timed out while preparing the export page.")))
    } else {
        None
    }
}

/// The stem under which a document's temporary PDF is written.
pub open spec fn temporary_stem(path: Seq<char>) -> Seq<char> {
    match stem_of(path) {
        Some(s) if s.len() > 0 => s,
        _ => "document"@,
    }
}

/// Where the PDF of the document at `path` is printed to before its metadata is written, in
/// the temporary directory `temp_dir`, by the process `pid`.
pub open spec fn temporary_pdf_path(temp_dir: Seq<char>, pid: u32, path: Seq<char>) -> Seq<char> {
    std_join(
        temp_dir,
        "markhola-export-"@ + decimal(pid as nat) + "-"@ + temporary_stem(path) + ".pdf"@,
    )
}

/// Where the PDF of `document` is printed to before its metadata is written.
pub fn temporary_pdf_output_path(document: &ActiveDocument, temp_dir: &str, pid: u32) -> (r: String)
    ensures
        r@ == temporary_pdf_path(temp_dir@, pid, document@.file_path),
{
    let stem = match file_stem(document.file_path()) {
        Some(s) => if s.as_str().unicode_len() > 0 {
            s
        } else {
            String::from_str("document")
        },
        None => String::from_str("document"),
    };
    let number = u64_to_string(pid as u64);
    let head = concat3("markhola-export-", number.as_str(), "-");
    let name = concat3(head.as_str(), stem.as_str(), ".pdf");
    path_join(temp_dir, name.as_str())
}

// ---------------------------------------------------------------------------
// The information dictionary of the finished PDF

#[verifier::external_type_specification]
#[verifier::external_body]
pub struct ExPdfDocument(lopdf::Document);

#[verifier::external_type_specification]
#[verifier::external_body]
pub struct ExPdfDictionary(lopdf::Dictionary);

/// Whether `lopdf::Document::load_mem` reads the bytes `bytes` as a PDF document.
pub uninterp spec fn pdf_loads(bytes: Seq<u8>) -> bool;

/// The entries of a PDF dictionary that hold literal strings: each key and string by its bytes.
pub uninterp spec fn string_entries(d: lopdf::Dictionary) -> Map<Seq<u8>, Seq<u8>>;

/// What `lopdf::Document::save_to` writes of the document `doc`: the document as the bytes of
/// a PDF file.
pub uninterp spec fn pdf_saved_bytes(doc: lopdf::Document) -> Seq<u8>;

/// The dictionaries among the objects of `doc`: for each one, its object id and the entries of
/// it that hold literal strings.
pub uninterp spec fn pdf_dictionaries(doc: lopdf::Document) -> Map<(u32, u16), Map<Seq<u8>, Seq<u8>>>;

/// The entries of the trailer of `doc` that refer to an object: each key by its bytes, and the
/// id of the object it refers to.
pub uninterp spec fn pdf_trailer_references(doc: lopdf::Document) -> Map<Seq<u8>, (u32, u16)>;

/// The highest object id that `doc` has handed out (`lopdf::Document::max_id`): a new object
/// gets the next one.
pub uninterp spec fn pdf_max_id(doc: lopdf::Document) -> u32;

/// What `lopdf::Document::load_mem` reads from the bytes `bytes`, where they are a PDF: the
/// dictionaries among its objects, the references in its trailer and its highest object id,
/// as `pdf_dictionaries`, `pdf_trailer_references` and `pdf_max_id` give them.
pub uninterp spec fn pdf_read_contents(bytes: Seq<u8>) -> (
    Map<(u32, u16), Map<Seq<u8>, Seq<u8>>>,
    Map<Seq<u8>, (u32, u16)>,
    u32,
);

/// `lopdf::Document::load_mem`: reads a PDF document from the bytes `bytes`; where they are
/// no PDF, the text of lopdf's error. What it reads is named, not stated; the reader may parse
/// the objects on rayon's pool, and collects them into an ordered map, so what it reads does
/// not depend on that (lopdf's own test compares both ways). lopdf's reader holds `unwrap`
/// calls whose reach on malformed input its source does not settle: that no input reaches one
/// is not stated either.
#[verifier::external_body]
fn pdf_load_mem(bytes: &[u8]) -> (r: Result<lopdf::Document, String>)
    ensures
        r is Ok <==> pdf_loads(bytes@),
        r matches Ok(doc) ==> (pdf_dictionaries(doc), pdf_trailer_references(doc), pdf_max_id(doc))
            == pdf_read_contents(bytes@),
{
    match lopdf::Document::load_mem(bytes) {
        Ok(document) => Ok(document),
        Err(error) => Err(error.to_string()),
    }
}

/// The entries of an empty dictionary.
pub open spec fn no_entries() -> Map<Seq<u8>, Seq<u8>> {
    Map::empty()
}

/// `lopdf::Dictionary::new`: a dictionary without entries.
#[verifier::external_body]
fn new_pdf_dictionary() -> (r: lopdf::Dictionary)
    ensures
        string_entries(r) == no_entries(),
{
    lopdf::Dictionary::new()
}

/// `lopdf::Dictionary::set` with a value made by `lopdf::Object::string_literal`: afterwards
/// the key `key` holds the literal string `value`, each by its UTF-8 bytes.
#[verifier::external_body]
fn set_string_entry(d: &mut lopdf::Dictionary, key: &str, value: &str)
    ensures
        string_entries(*final(d)) == string_entries(*old(d)).insert(
            encode_utf8(key@),
            encode_utf8(value@),
        ),
{
    d.set(key.as_bytes().to_vec(), lopdf::Object::string_literal(value.as_bytes().to_vec()));
}

/// `lopdf::Document::try_add_object`: adds the dictionary `object` to the document under the
/// next object id, of generation 0, which it returns; the trailer stays as it was. Once the ids
/// are used up (the highest is `u32::MAX`) it changes nothing and gives back the text of
/// lopdf's error.
#[verifier::external_body]
fn pdf_add_object(doc: &mut lopdf::Document, object: lopdf::Dictionary) -> (r: Result<(u32, u16), String>)
    ensures
        r is Ok <==> pdf_max_id(*old(doc)) < u32::MAX,
        r matches Ok(id) ==> id == ((pdf_max_id(*old(doc)) + 1) as u32, 0u16) && pdf_max_id(
            *final(doc),
        ) == id.0 && pdf_dictionaries(*final(doc)) == pdf_dictionaries(*old(doc)).insert(
            id,
            string_entries(object),
        ) && pdf_trailer_references(*final(doc)) == pdf_trailer_references(*old(doc)),
        r is Err ==> *final(doc) == *old(doc),
{
    match doc.try_add_object(object) {
        Ok(id) => Ok(id),
        Err(error) => Err(error.to_string()),
    }
}

/// `lopdf::Dictionary::set` on the trailer of `doc`: afterwards the entry `key` of the trailer
/// refers to the object `id`; the objects and the highest id stay as they were.
#[verifier::external_body]
fn set_trailer_reference(doc: &mut lopdf::Document, key: &str, id: (u32, u16))
    ensures
        pdf_trailer_references(*final(doc)) == pdf_trailer_references(*old(doc)).insert(
            encode_utf8(key@),
            id,
        ),
        pdf_dictionaries(*final(doc)) == pdf_dictionaries(*old(doc)),
        pdf_max_id(*final(doc)) == pdf_max_id(*old(doc)),
{
    doc.trailer.set(key.as_bytes().to_vec(), id);
}

/// `lopdf::Document::save_to`, into a `Vec<u8>`: the bytes that it writes of the document as it
/// was before the call, or the text of lopdf's error. Writing into a vector appends to it and
/// does not fail; the writer fails otherwise only where it needs an object id for a
/// cross-reference stream and the ids are used up, so it succeeds while the highest id is below
/// `u32::MAX`. What it changes in the document while it writes is not stated.
#[verifier::external_body]
fn pdf_save(doc: &mut lopdf::Document) -> (r: Result<Vec<u8>, String>)
    ensures
        r matches Ok(bytes) ==> bytes@ == pdf_saved_bytes(*old(doc)),
        pdf_max_id(*old(doc)) < u32::MAX ==> r is Ok,
{
    let mut output: Vec<u8> = Vec::new();
    match doc.save_to(&mut output) {
        Ok(()) => Ok(output),
        Err(error) => Err(error.to_string()),
    }
}

/// The id that the next object added to the PDF read from `bytes` receives.
pub open spec fn new_object_id(bytes: Seq<u8>) -> (u32, u16) {
    ((pdf_read_contents(bytes).2 + 1) as u32, 0u16)
}

/// The literal strings of the information dictionary of a PDF exported from a document titled
/// `title` by version `version`, keys and values by their UTF-8 bytes.
pub open spec fn pdf_info(title: Seq<char>, version: Seq<char>) -> Map<Seq<u8>, Seq<u8>> {
    no_entries().insert(encode_utf8("Title"@), encode_utf8(title)).insert(
        encode_utf8("Creator"@),
        encode_utf8(APP_NAME@),
    ).insert(encode_utf8("Producer"@), encode_utf8(APP_NAME@ + " v"@ + version)).insert(
        encode_utf8("Subject"@),
        encode_utf8("Exported by "@ + APP_NAME@ + " v"@ + version),
    )
}

/// The information dictionary of a PDF exported from a document titled `title` by version
/// `app_version`.
pub fn pdf_info_dictionary(title: &str, app_version: &str) -> (r: lopdf::Dictionary)
    ensures
        string_entries(r) == pdf_info(title@, app_version@),
{
    let producer = concat3(APP_NAME, " v", app_version);
    let subject = concat("Exported by ", producer.as_str());
    let mut info = new_pdf_dictionary();
    set_string_entry(&mut info, "Title", title);
    set_string_entry(&mut info, "Creator", APP_NAME);
    set_string_entry(&mut info, "Producer", producer.as_str());
    set_string_entry(&mut info, "Subject", subject.as_str());
    assert(subject@ =~= "Exported by "@ + APP_NAME@ + " v"@ + app_version@);
    info
}

/// The beginning of the error when the printed PDF cannot be read.
pub open spec fn load_failure() -> Seq<char> {
    "Failed to load generated PDF for metadata injection: "@
}

/// The beginning of the error when the information dictionary cannot be added.
pub open spec fn add_failure() -> Seq<char> {
    "Failed to add PDF metadata: "@
}

/// The beginning of the error when the PDF cannot be written out again.
pub open spec fn save_failure() -> Seq<char> {
    "Failed to save generated PDF metadata: "@
}

/// Writes into the printed PDF `pdf_data` of `document` an information dictionary that names
/// its title, the application and the version `app_version`, and gives back the new bytes:
/// what lopdf writes of the document read from `pdf_data`, with that dictionary added under a
/// new object id and the `Info` entry of its trailer referring to it.
pub fn apply_pdf_metadata(document: &ActiveDocument, app_version: &str, pdf_data: Vec<u8>) -> (r:
    Result<Vec<u8>, String>)
    ensures
        !pdf_loads(pdf_data@) ==> (r matches Err(e) && has_prefix(e@, load_failure())),
        r matches Err(e) ==> (!pdf_loads(pdf_data@) && has_prefix(e@, load_failure())) || has_prefix(
            e@,
            add_failure(),
        ) || has_prefix(e@, save_failure()),
        pdf_loads(pdf_data@) && pdf_read_contents(pdf_data@).2 < u32::MAX - 1 ==> r is Ok,
        pdf_loads(pdf_data@) && pdf_read_contents(pdf_data@).2 == u32::MAX ==> (r matches Err(e)
            && has_prefix(e@, add_failure())),
        r matches Ok(bytes) ==> exists|doc: lopdf::Document|
            #![trigger pdf_saved_bytes(doc)]
            pdf_saved_bytes(doc) == bytes@ && pdf_dictionaries(doc) == pdf_read_contents(
                pdf_data@,
            ).0.insert(new_object_id(pdf_data@), pdf_info(document@.file_name, app_version@))
                && pdf_trailer_references(doc) == pdf_read_contents(pdf_data@).1.insert(
                encode_utf8("Info"@),
                new_object_id(pdf_data@),
            ),
{
    let mut pdf = match pdf_load_mem(pdf_data.as_slice()) {
        Ok(pdf) => pdf,
        Err(error) => {
            let e = concat("Failed to load generated PDF for metadata injection: ", error.as_str());
            assert(e@.take(load_failure().len() as int) =~= load_failure());
            return Err(e);
        },
    };
    let info = pdf_info_dictionary(document.file_name(), app_version);
    let info_id = match pdf_add_object(&mut pdf, info) {
        Ok(id) => id,
        Err(error) => {
            let e = concat("Failed to add PDF metadata: ", error.as_str());
            assert(e@.take(add_failure().len() as int) =~= add_failure());
            return Err(e);
        },
    };
    set_trailer_reference(&mut pdf, "Info", info_id);
    let ghost finished = pdf;
    match pdf_save(&mut pdf) {
        Ok(bytes) => {
            assert(pdf_saved_bytes(finished) == bytes@);
            assert(pdf_dictionaries(finished)[info_id] == pdf_info(document@.file_name, app_version@));
            Ok(bytes)
        },
        Err(error) => {
            let e = concat("Failed to save generated PDF metadata: ", error.as_str());
            assert(e@.take(save_failure().len() as int) =~= save_failure());
            Err(e)
        },
    }
}

} // verus!


