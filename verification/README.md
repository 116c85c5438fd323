# MarkHola

MarkHola is a local Markdown reader and editor: a window with a web view that shows open
documents as tabs, a read-only preview and a writable editor, and exports to HTML and PDF.

This crate is its core, verified with Verus:

- `src/` is the library: how documents, the tab workspace and saving behave, how file bytes
  become text, which local assets a page may load, which requests the event loop receives
  from the page, the menus and the keyboard, and the pages that exports are built from,
  including the information dictionary written into an exported PDF. Its functions carry
  contracts that Verus proves, and public proof functions state the laws that hold across
  calls. Calls into outside crates (`url`, `percent-encoding`, `chardetng`, `encoding_rs`,
  `lopdf`, `serde_json`) and into `std::path` stand behind small trusted wrappers whose
  contracts say what those functions give; those wrappers are the part that is not proved.
- `app/` is the desktop application around the library: the event loop (`tao`), the web view
  (`wry`), dialogs (`rfd`), the file system and the debug log. It asks the library what to do
  and carries it out. It exports HTML; for PDF it opens the web view's print panel, since the
  web view offers no call that prints a page into PDF bytes.
- `tests/` exercise the library on concrete values.
