//! The page of the main window, in which the workspace is drawn.
use vstd::prelude::*;

use crate::render_assets::{
    inline_script, inline_style, load_app_theme_css_for_inline_style, mathjax_runtime_for_inline_script,
    mermaid_runtime_for_inline_script, ExportResources,
};
use crate::text::{concat, replace, replaced};

verus! {

/// The page of the main window is kept in four consecutive parts; this is the first, with
/// the head and the placeholder for the theme.
pub const SHELL_PAGE_PART_A: &'static str = r##"<!DOCTYPE html>
<html lang="en">
  <head>
    <meta charset="UTF-8" />
    <meta name="viewport" content="width=device-width, initial-scale=1.0" />
    <base id="document-base" href="" />
    <title>MarkHola</title>
    <style>__APP_THEME__</style>
  </head>
  <body>
        <div class="app">
          <div class="tabs-bar hidden" id="tabsBar"></div>
          <section class="preview-shell">
            <div class="workspace">
              <div class="empty-state pane" id="emptyState">
                <div class="empty-card">
                  <h2>No document opened</h2>
                  <p>Open, drag, or drop a Markdown file to preview or edit the current Markdown source.</p>
                </div>
              </div>
              <div class="preview pane hidden" id="previewPane">
                <div class="preview-header" id="previewHeader">
                  <div class="preview-title">
                    <strong id="documentTitle">Preview</strong>
                    <span id="documentSubtitle">Use File > Open, Command+O, or drag a Markdown file into the window.</span>
                  </div>
                  <span id="status" class="status" data-level="info">Ready.</span>
                </div>
                <article class="markdown-body" id="content"></article>
              </div>
              <div class="editor-pane pane hidden" id="editorPane">
                <div class="editor-shell" id="editorShell">
              <div id="editorLineNumbers" class="editor-line-numbers" aria-hidden="true">1</div>
              <textarea id="editor" class="editor" spellcheck="false" aria-label="Markdown editor"></textarea>
            </div>
          </div>
        </div>
      </section>

      <footer class="bottom-bar">
        <div class="bottom-item" id="filePath">Path: No file opened</div>
        <div class="bottom-item" id="wordCount"><strong>Words</strong> 0</div>
        <div class="bottom-item" id="lineCount"><strong>Lines</strong> 0</div>
        <div class="bottom-item" id="modeState"><strong>Mode</strong> Readonly</div>
        <div class="bottom-item" id="saveState"><strong>Status</strong> Ready.</div>
      </footer>
    </div>

    <div class="about-overlay hidden" id="aboutOverlay">
      <div class="about-dialog" role="dialog" aria-modal="true" aria-labelledby="aboutTitle">
        <div class="about-header">
          <h2 id="aboutTitle">About MarkHola</h2>
          <button class="about-close" id="aboutClose" type="button" aria-label="Close About">&times;</button>
        </div>
        <div class="about-brand">
          <svg class="about-logo" viewBox="0 0 1600 640" aria-hidden="true">
            <rect width="1600" height="640" rx="72" fill="#FCFBF8"/>
            <g transform="translate(72 78)">
              <rect x="0" y="0" width="484" height="484" rx="120" fill="url(#aboutBadge)"/>
              <rect x="46" y="46" width="392" height="392" rx="98" fill="#FFF9F0" fill-opacity="0.96"/>
              <path d="M120 338V140H160L242 272L324 140H364V338H321V218L255 320H229L163 218V338H120Z" fill="#FF8A00"/>
              <path d="M198 262H286V306H198V262Z" fill="#35D67C"/>
              <circle cx="242" cy="284" r="74" stroke="#35D67C" stroke-width="18" stroke-dasharray="14 18"/>
            </g>
            <g transform="translate(632 162)">
              <path d="M0 244V20H40L134 179L228 20H268V244H222V110L146 210H122L46 110V244H0Z" fill="#FF8A00"/>
              <path d="M309 244V83C309 45 338 22 380 22H487V64H388C367 64 356 72 356 87V106H473C514 106 543 131 543 169V181C543 219 514 244 473 244H309ZM356 202H465C485 202 497 193 497 178V172C497 157 485 148 465 148H356V202Z" fill="#FF8A00"/>
              <path d="M582 244V83C582 45 611 22 653 22H770V64H661C640 64 629 72 629 87V244H582Z" fill="#FF8A00"/>
              <path d="M807 244V0H854V244H807Z" fill="#FF8A00"/>
              <path d="M899 132L1010 22H1071L957 132L1082 244H1017L899 145V244H852V22H899V132Z" fill="#FF8A00"/>
              <path d="M585 496V276H632V365H754V276H801V496H754V407H632V496H585Z" fill="#35D67C"/>
              <path d="M835 408V365C835 314 872 276 925 276H1034C1087 276 1124 314 1124 365V408C1124 458 1087 496 1034 496H925C872 496 835 458 835 408ZM882 401C882 429 899 454 928 454H1031C1060 454 1077 429 1077 401V372C1077 343 1060 318 1031 318H928C899 318 882 343 882 372V401Z" fill="#35D67C"/>
              <path d="M1156 496V315C1156 292 1173 276 1197 276H1239V318H1206C1200 318 1196 322 1196 329V496H1156Z" fill="#35D67C"/>
              <path d="M1270 408V365C1270 314 1308 276 1361 276H1470C1523 276 1560 314 1560 365V408C1560 458 1523 496 1470 496H1361C1308 496 1270 458 1270 408ZM1317 401C1317 429 1334 454 1364 454H1467C1496 454 1513 429 1513 401V372C1513 343 1496 318 1467 318H1364C1334 318 1317 343 1317 372V401Z" fill="#35D67C"/>
            </g>
            <defs>
              <linearGradient id="aboutBadge" x1="0" y1="0" x2="484" y2="484" gradientUnits="userSpaceOnUse">
                <stop stop-color="#FFF2D9"/>
                <stop offset="1" stop-color="#EFFFF5"/>
              </linearGradient>
            </defs>
          </svg>
          <div class="about-product">
            <h3>MarkHola</h3>
            <p>Markdown reader and editor</p>
          </div>
        </div>
        <div class="about-meta">
          <div class="about-meta-row">
            <strong>Version</strong>
            <span class="about-value" id="aboutVersion">0.7.0</span>
            <span></span>
          </div>
          <div class="about-meta-row">
            <strong>Author</strong>
            <span class="about-value" id="aboutAuthor">Ronnie Deng</span>
            <span></span>
          </div>
          <div class="about-meta-row">
            <strong>Build</strong>
            <span class="about-value" id="aboutBuild">apple / arm64</span>
            <span></span>
          </div>
          <div class="about-meta-row">
            <strong>GitHub</strong>
            <a class="about-value" id="aboutGithub" href="https://github.com/phpple/markhola">https://github.com/phpple/markhola</a>
            <button class="about-copy" id="aboutCopy" type="button">Copy</button>
          </div>
        </div>
        <div class="about-footer">Built for local Markdown reading and writing on Apple Silicon.</div>
      </div>
    </div>

    <script>
      window.MathJax = {
        startup: { typeset: false },
        svg: { fontCache: "none" }
      };
    </script>
    <script>__MERMAID_RUNTIME__</script>
    <script>__MATHJAX_RUNTIME__</script>
    <script>
      const status = document.getElementById("status");
      const documentTitle = document.getElementById("documentTitle");
      const documentSubtitle = document.getElementById("documentSubtitle");
      const emptyState = document.getElementById("emptyState");
      const previewPane = document.getElementById("previewPane");
      const editorPane = document.getElementById("editorPane");
      const previewHeader = document.getElementById("previewHeader");
      const tabsBar = document.getElementById("tabsBar");
      const editorLineNumbers = document.getElementById("editorLineNumbers");
      const editor = document.getElementById("editor");
      const content = document.getElementById("content");
      const documentBase = document.getElementById("document-base");
      const filePath = document.getElementById("filePath");
      const wordCount = document.getElementById("wordCount");
      const lineCount = document.getElementById("lineCount");
      const modeState = document.getElementById("modeState");
      const saveState = document.getElementById("saveState");
      const aboutOverlay = document.getElementById("aboutOverlay");
      const aboutClose = document.getElementById("aboutClose");
      const aboutVersion = document.getElementById("aboutVersion");
      const aboutAuthor = document.getElementById("aboutAuthor");
      const aboutBuild = document.getElementById("aboutBuild");
      const aboutGithub = document.getElementById("aboutGithub");
      const aboutCopy = document.getElementById("aboutCopy");
      let mermaidInitialized = false;
      let mathJaxReadyPromise = null;
      let currentDocumentId = null;

      const hideAbout = () => {
        aboutOverlay.classList.add("hidden");
      };

      const EDITOR_INDENT = "    ";

      const insertIndent = () => {
        const start = editor.selectionStart;
        const end = editor.selectionEnd;
        editor.setRangeText(EDITOR_INDENT, start, end, "end");
        editor.dispatchEvent(new Event("input", { bubbles: true }));
      };

      const isWritableMode = () => !editorPane.classList.contains("hidden");

      const selectAllEditorText = () => {
        editor.focus();
        editor.selectionStart = 0;
        editor.selectionEnd = editor.value.length;
        editor.setSelectionRange(0, editor.value.length);
      };

      const updateEditorLineNumbers = () => {
        const totalLines = Math.max(1, editor.value.split("\n").length);
        editorLineNumbers.innerHTML = Array.from(
"##;

/// The second part of the page of the main window.
pub const SHELL_PAGE_PART_B: &'static str = r##"          { length: totalLines },
          (_, index) => `<span class="editor-line-number">${index + 1}</span>`
        ).join("");
      };

      const syncEditorScroll = () => {
        editorLineNumbers.scrollTop = editor.scrollTop;
      };

      const moveCaretToLineBoundary = (boundary) => {
        const cursor = editor.selectionStart;
        const value = editor.value;
        const lineStart = value.lastIndexOf("\n", Math.max(0, cursor - 1)) + 1;
        const nextBreak = value.indexOf("\n", cursor);
        const lineEnd = nextBreak === -1 ? value.length : nextBreak;
        const target = boundary === "start" ? lineStart : lineEnd;
        editor.focus();
        editor.setSelectionRange(target, target);
      };

      const lineRangeForSelection = () => {
        const value = editor.value;
        const start = editor.selectionStart;
        const end = editor.selectionEnd;
        const effectiveEnd = end > start && value[end - 1] === "\n" ? end - 1 : end;
        const blockStart = value.lastIndexOf("\n", Math.max(0, start - 1)) + 1;
        let blockEnd = effectiveEnd;

        while (blockEnd < value.length && value[blockEnd] !== "\n") {
          blockEnd += 1;
        }

        return { start, end, blockStart, blockEnd };
      };

      const indentSelectedLines = () => {
        const { start, end, blockStart, blockEnd } = lineRangeForSelection();
        const value = editor.value;
        const block = value.slice(blockStart, blockEnd);

        if (start === end && !block.includes("\n")) {
          insertIndent();
          return;
        }

        const lines = block.split("\n");
        const indented = lines.map((line) => `${EDITOR_INDENT}${line}`).join("\n");
        editor.setRangeText(indented, blockStart, blockEnd, "preserve");

        const nextStart = start + EDITOR_INDENT.length;
        const nextEnd = end + EDITOR_INDENT.length * lines.length;
        editor.setSelectionRange(nextStart, nextEnd);
        editor.dispatchEvent(new Event("input", { bubbles: true }));
      };

      const outdentSelectedLines = () => {
        const { start, end, blockStart, blockEnd } = lineRangeForSelection();
        const value = editor.value;
        const block = value.slice(blockStart, blockEnd);
        const lines = block.split("\n");
        const removedPerLine = lines.map((line) => {
          const match = line.match(/^ {1,4}/);
          return match ? match[0].length : 0;
        });

        if (removedPerLine.every((count) => count === 0)) {
          return;
        }

        const outdented = lines
          .map((line, index) => line.slice(removedPerLine[index]))
          .join("\n");

        editor.setRangeText(outdented, blockStart, blockEnd, "preserve");

        const firstLineRemoved = removedPerLine[0];
        const removedBeforeSelectionEnd = removedPerLine.reduce(
          (total, count) => total + count,
          0
        );
        const nextStart = Math.max(blockStart, start - firstLineRemoved);
        const nextEnd = Math.max(nextStart, end - removedBeforeSelectionEnd);
        editor.setSelectionRange(nextStart, nextEnd);
        editor.dispatchEvent(new Event("input", { bubbles: true }));
      };

      const runEditorCommand = (command) => {
        editor.focus();
        document.execCommand(command);
      };

      const attachHeaderForMode = (mode) => {
        if (mode === "writable") {
          if (editorPane.firstElementChild !== previewHeader) {
            editorPane.insertBefore(previewHeader, editorPane.firstChild);
          }
          return;
        }

        if (previewPane.firstElementChild !== previewHeader) {
          previewPane.insertBefore(previewHeader, previewPane.firstChild);
        }
      };

      const showPaneForMode = (mode) => {
        attachHeaderForMode(mode);
        const hasDocument = mode === "readonly" || mode === "writable";
        emptyState.classList.toggle("hidden", hasDocument);
        previewPane.classList.toggle("hidden", mode !== "readonly");
        editorPane.classList.toggle("hidden", mode !== "writable");
      };

      const renderTabs = (tabs) => {
        if (!tabs.length) {
          tabsBar.classList.add("hidden");
          tabsBar.innerHTML = "";
          return;
        }

        tabsBar.classList.remove("hidden");
        tabsBar.innerHTML = tabs
          .map((tab) => {
            const activeClass = tab.active ? " active" : "";
            const dirty = tab.dirty ? `<span class="document-tab__dirty" aria-hidden="true"></span>` : "";
            return `
              <div class="document-tab${activeClass}" data-document-id="${tab.document_id}" title="${escapeHtml(tab.title)}">
                <span class="document-tab__name">${escapeHtml(tab.file_name)}</span>
                ${dirty}
                <button class="document-tab__close" type="button" data-close-document="${tab.document_id}" aria-label="Close ${escapeHtml(tab.file_name)}">&times;</button>
              </div>
            `;
          })
          .join("");
      };

      const resetWorkspaceChrome = (statusMessage) => {
        document.title = "MarkHola";
        documentTitle.textContent = "Preview";
        documentSubtitle.textContent = "Use File > Open, Command+O, or drag a Markdown file into the window.";
        filePath.textContent = "Path: No file opened";
        wordCount.innerHTML = "<strong>Words</strong> 0";
        lineCount.innerHTML = "<strong>Lines</strong> 0";
        modeState.innerHTML = "<strong>Mode</strong> Readonly";
        saveState.innerHTML = "<strong>Status</strong> Ready.";
        documentBase.setAttribute("href", "");
        showPaneForMode(null);
        window.showStatus({ message: statusMessage || "Ready.", level: "info" });
      };

      const applyWorkspaceChrome = (payload) => {
        renderTabs(payload.tabs || []);
        const active = payload.active_document;

        if (!active) {
          resetWorkspaceChrome(payload.status_message);
          return;
        }

        document.title = `${active.file_name}${active.dirty ? " *" : ""} - MarkHola`;
        documentTitle.textContent = active.title;
        documentSubtitle.textContent = active.file_name;
        filePath.textContent = `Path: ${active.file_path}`;
        wordCount.innerHTML = `<strong>Words</strong> ${active.word_count}`;
        lineCount.innerHTML = `<strong>Lines</strong> ${active.line_count}`;
        modeState.innerHTML = `<strong>Mode</strong> ${active.mode_label}`;
        saveState.innerHTML = `<strong>Status</strong> ${active.save_status}`;
        documentBase.setAttribute("href", active.base_url);
        showPaneForMode(active.mode);
        window.showStatus({ message: payload.status_message, level: active.dirty ? "warning" : "info" });
      };

      const escapeHtml = (value) =>
        value
          .replaceAll("&", "&amp;")
          .replaceAll("<", "&lt;")
"##;

/// The third part of the page of the main window.
pub const SHELL_PAGE_PART_C: &'static str = r##"          .replaceAll(">", "&gt;")
          .replaceAll('"', "&quot;")
          .replaceAll("'", "&#39;");

      const ensureMermaidInitialized = () => {
        if (mermaidInitialized || !window.mermaid) return;

        window.mermaid.initialize({
          startOnLoad: false,
          securityLevel: "strict",
          theme: "default"
        });
        mermaidInitialized = true;
      };

      const renderMermaidDiagrams = async () => {
        ensureMermaidInitialized();
        if (!window.mermaid) return;

        const blocks = document.querySelectorAll(".mermaid-block");
        for (const [index, block] of blocks.entries()) {
          const statusNode = block.querySelector(".mermaid-block__status");
          const sourceNode = block.querySelector(".mermaid-block__source");
          const diagramNode = block.querySelector(".mermaid-block__diagram");
          const source = sourceNode?.textContent || "";

          if (!diagramNode) continue;

          diagramNode.innerHTML = "";
          if (statusNode) {
            statusNode.textContent = "Rendering diagram...";
            statusNode.classList.remove("hidden");
          }

          try {
            const { svg } = await window.mermaid.render(
              `mermaid-diagram-${index}-${Date.now()}`,
              source
            );
            diagramNode.innerHTML = svg;
            statusNode?.classList.add("hidden");
          } catch (error) {
            const message =
              error && typeof error === "object" && "message" in error
                ? String(error.message)
                : String(error || "Unknown Mermaid error");
            if (statusNode) {
              statusNode.textContent = "Mermaid render failed.";
              statusNode.classList.remove("hidden");
            }
            diagramNode.innerHTML =
              `<pre class="mermaid-block__error">${escapeHtml(message)}\n\n${escapeHtml(source)}</pre>`;
          }
        }
      };

      const ensureMathJaxReady = () => {
        if (!window.MathJax || !window.MathJax.startup) return null;
        if (!mathJaxReadyPromise) {
          mathJaxReadyPromise = window.MathJax.startup.promise;
        }
        return mathJaxReadyPromise;
      };

      const extractRenderedMathNode = (rendered) =>
        rendered.querySelector("mjx-container") || rendered.firstElementChild || rendered;

      const renderMathSource = async (node, source, display) => {
        const ready = ensureMathJaxReady();
        if (!ready) return false;

        await ready;
        const rendered = await window.MathJax.tex2svgPromise(source, { display });
        const mathNode = extractRenderedMathNode(rendered);
        node.replaceChildren(mathNode.cloneNode(true));
        return true;
      };

      const renderMathExpressions = async () => {
        if (!window.MathJax) return;

        const mathNodes = content.querySelectorAll(".math.math-inline, .math.math-display");
        for (const node of mathNodes) {
          const source = node.textContent || "";
          const display = node.classList.contains("math-display");

          try {
            await renderMathSource(node, source, display);
          } catch (error) {
            const message =
              error && typeof error === "object" && "message" in error
                ? String(error.message)
                : String(error || "Unknown math error");
            node.innerHTML = `<code>${escapeHtml(`Math render failed: ${message}\n\n${source}`)}</code>`;
          }
        }

        const blocks = content.querySelectorAll(".math-block");
        for (const block of blocks) {
          const statusNode = block.querySelector(".math-block__status");
          const sourceNode = block.querySelector(".math-block__source");
          const formulaNode = block.querySelector(".math-block__formula");
          const source = sourceNode?.textContent || "";

          if (!formulaNode) continue;

          formulaNode.innerHTML = "";
          if (statusNode) {
            statusNode.textContent = "Rendering formula...";
            statusNode.classList.remove("hidden");
          }

          try {
            await renderMathSource(formulaNode, source, true);
            statusNode?.classList.add("hidden");
          } catch (error) {
            const message =
              error && typeof error === "object" && "message" in error
                ? String(error.message)
                : String(error || "Unknown math error");
            if (statusNode) {
              statusNode.textContent = "Math render failed.";
              statusNode.classList.remove("hidden");
            }
            formulaNode.innerHTML =
              `<pre class="math-block__error">${escapeHtml(message)}\n\n${escapeHtml(source)}</pre>`;
          }
        }
      };

      const renderReadonlyEnhancements = async () => {
        await renderMermaidDiagrams();
        await renderMathExpressions();
      };

      aboutClose.addEventListener("click", hideAbout);
      aboutOverlay.addEventListener("click", (event) => {
        if (event.target === aboutOverlay) hideAbout();
      });

      aboutCopy.addEventListener("click", async () => {
        const url = aboutGithub.getAttribute("href") || "";
        if (!url) return;

        try {
          await navigator.clipboard.writeText(url);
          aboutCopy.textContent = "Copied";
          setTimeout(() => {
            aboutCopy.textContent = "Copy";
          }, 1200);
        } catch {
          aboutCopy.textContent = "Failed";
          setTimeout(() => {
            aboutCopy.textContent = "Copy";
          }, 1200);
        }
      });

      editor.addEventListener("input", () => {
        updateEditorLineNumbers();
        window.ipc.postMessage(JSON.stringify({ kind: "editor-changed", markdown: editor.value }));
      });

      editor.addEventListener("scroll", syncEditorScroll);

      document.addEventListener("keydown", (event) => {
        if (event.key === "Escape" && !aboutOverlay.classList.contains("hidden")) {
          hideAbout();
          return;
        }

        if (event.target === editor && event.key === "Tab" && !event.metaKey && !event.ctrlKey) {
          event.preventDefault();
          if (event.shiftKey) {
            outdentSelectedLines();
"##;

/// The last part of the page of the main window.
pub const SHELL_PAGE_PART_D: &'static str = r##"          } else {
            indentSelectedLines();
          }
          return;
        }

        if (event.target === editor && event.ctrlKey && !event.metaKey && !event.altKey) {
          if (event.key.toLowerCase() === "a") {
            event.preventDefault();
            moveCaretToLineBoundary("start");
            return;
          }

          if (event.key.toLowerCase() === "e") {
            event.preventDefault();
            moveCaretToLineBoundary("end");
            return;
          }
        }

        if (!event.metaKey || event.ctrlKey || event.altKey) {
          return;
        }

        if (event.key.toLowerCase() === "z" && isWritableMode()) {
          if (document.activeElement !== editor) {
            event.preventDefault();
            runEditorCommand("undo");
          }
        } else if (event.key.toLowerCase() === "r" && isWritableMode()) {
          event.preventDefault();
          runEditorCommand("redo");
        } else if (event.key.toLowerCase() === "s") {
          event.preventDefault();
          window.ipc.postMessage(JSON.stringify({ kind: "request-save" }));
        } else if (event.key.toLowerCase() === "p") {
          event.preventDefault();
          window.ipc.postMessage(JSON.stringify({ kind: "request-print" }));
        } else if (event.key.toLowerCase() === "w") {
          event.preventDefault();
          window.ipc.postMessage(JSON.stringify({ kind: "close-current-document" }));
        } else if (event.key.toLowerCase() === "a" && isWritableMode()) {
          event.preventDefault();
          selectAllEditorText();
        } else if (event.key === "/") {
          event.preventDefault();
          window.ipc.postMessage(JSON.stringify({ kind: "toggle-mode" }));
        }
      });

      document.addEventListener("click", (event) => {
        const statusAction = event.target.closest("[data-open-path]");
        if (statusAction) {
          event.preventDefault();
          const path = statusAction.getAttribute("data-open-path") || "";
          if (path) {
            window.ipc.postMessage(JSON.stringify({ kind: "open-external", href: path }));
          }
          return;
        }

        const closeButton = event.target.closest("[data-close-document]");
        if (closeButton) {
          event.preventDefault();
          event.stopPropagation();
          window.ipc.postMessage(
            JSON.stringify({
              kind: "close-document",
              documentId: Number(closeButton.getAttribute("data-close-document"))
            })
          );
          return;
        }

        const tab = event.target.closest("[data-document-id]");
        if (tab) {
          const documentId = Number(tab.getAttribute("data-document-id"));
          if (Number.isFinite(documentId)) {
            window.ipc.postMessage(JSON.stringify({ kind: "activate-document", documentId }));
          }
          return;
        }

        const link = event.target.closest("a[href]");
        if (!link) return;

        const href = link.getAttribute("href") || "";
        if (href.startsWith("http://") || href.startsWith("https://")) {
          event.preventDefault();
          window.ipc.postMessage(JSON.stringify({ kind: "open-external", href }));
        }
      });

      document.addEventListener(
        "error",
        (event) => {
          const target = event.target;
          if (!(target instanceof HTMLImageElement)) return;

          const fallback = document.createElement("p");
          fallback.className = "image-error";
          fallback.textContent = `Image failed to load: ${target.getAttribute("src") || "unknown source"}`;
          target.replaceWith(fallback);
        },
        true
      );

      window.showStatus = (payload) => {
        const actionPath = payload.action_path || "";
        const actionLabel = payload.action_label || "";
        if (actionPath && actionLabel) {
          status.innerHTML = `${escapeHtml(payload.message)} <a href=\"#\" class=\"status__action\" data-open-path=\"${escapeHtml(actionPath)}\">${escapeHtml(actionLabel)}</a>`;
        } else {
          status.textContent = payload.message;
        }
        status.dataset.level = payload.level || "info";
      };

      const applyWorkspacePayload = (payload, forceRefresh) => {
        applyWorkspaceChrome(payload);
        const active = payload.active_document;
        const nextDocumentId = active ? active.document_id : null;
        const documentChanged = nextDocumentId !== currentDocumentId;

        if (!active) {
          currentDocumentId = null;
          content.innerHTML = "";
          editor.value = "";
          updateEditorLineNumbers();
          syncEditorScroll();
          return;
        }

        if (forceRefresh || documentChanged || active.mode === "readonly") {
          content.innerHTML = active.html;
        }

        if (forceRefresh || documentChanged) {
          editor.value = active.markdown;
          updateEditorLineNumbers();
          syncEditorScroll();
        }

        currentDocumentId = nextDocumentId;

        if (forceRefresh || documentChanged || active.mode === "readonly") {
          void renderReadonlyEnhancements();
        }
      };

      window.renderWorkspace = (payload) => {
        applyWorkspacePayload(payload, true);
      };

      window.updateWorkspaceState = (payload) => {
        applyWorkspacePayload(payload, false);
      };

      updateEditorLineNumbers();

      window.showAbout = (payload) => {
        aboutVersion.textContent = payload.version;
        aboutAuthor.textContent = payload.author;
        aboutBuild.textContent = `${payload.buildPlatform} / ${payload.buildTarget}`;
        aboutGithub.textContent = payload.githubUrl;
        aboutGithub.setAttribute("href", payload.githubUrl);
        aboutCopy.textContent = "Copy";
        aboutOverlay.classList.remove("hidden");
      };

      window.ipc.postMessage(JSON.stringify({ kind: "shell-ready" }));
    </script>
  </body>
</html>
"##;

/// The page of the main window, with placeholders for the theme and the two runtimes.
pub open spec fn shell_template() -> Seq<char> {
    SHELL_PAGE_PART_A@ + SHELL_PAGE_PART_B@ + SHELL_PAGE_PART_C@ + SHELL_PAGE_PART_D@
}

/// The page of the main window, with placeholders for the theme and the two runtimes.
pub fn app_shell_template() -> (r: String)
    ensures
        r@ == shell_template(),
{
    let mut page = concat(SHELL_PAGE_PART_A, SHELL_PAGE_PART_B);
    page.append(SHELL_PAGE_PART_C);
    page.append(SHELL_PAGE_PART_D);
    page
}

/// The page of the main window with the theme `theme_css` and the runtimes inlined.
pub open spec fn shell_page(theme_css: Seq<char>, mermaid: Seq<char>, mathjax: Seq<char>) -> Seq<char> {
    let t = replaced(shell_template(), "__APP_THEME__"@, inline_style(theme_css));
    let t = replaced(t, "__MERMAID_RUNTIME__"@, inline_script(mermaid));
    replaced(t, "__MATHJAX_RUNTIME__"@, inline_script(mathjax))
}

/// The page of the main window, with the shipped resources inlined.
pub fn app_shell_html(resources: &ExportResources) -> (r: String)
    ensures
        r@ == shell_page(
            resources.theme_css@,
            resources.mermaid_runtime@,
            resources.mathjax_runtime@,
        ),
{
    proof {
        reveal_strlit("__APP_THEME__");
        reveal_strlit("__MERMAID_RUNTIME__");
        reveal_strlit("__MATHJAX_RUNTIME__");
    }
    let theme = load_app_theme_css_for_inline_style(resources.theme_css.as_str());
    let mermaid = mermaid_runtime_for_inline_script(resources.mermaid_runtime.as_str());
    let mathjax = mathjax_runtime_for_inline_script(resources.mathjax_runtime.as_str());
    let template = app_shell_template();
    let t = replace(template.as_str(), "__APP_THEME__", theme.as_str());
    let t = replace(t.as_str(), "__MERMAID_RUNTIME__", mermaid.as_str());
    replace(t.as_str(), "__MATHJAX_RUNTIME__", mathjax.as_str())
}

} // verus!
