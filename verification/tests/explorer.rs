use subgrid::explorer::{Codebase, ExplorerAction, ExplorerEvent};
use subgrid::language::CodeLanguage;

#[test]
fn explorer_opens_on_first_snippet() {
    let s = Codebase();
    assert_eq!(s.selected_lang, CodeLanguage::Rust);
    assert_eq!(s.active_snippet_index, 0);
    assert_eq!(s.live_code, "use std::fs;\nfn main() { println!(\"🚀 Initializing...\"); }");
    assert_eq!(
        s.endpoint_spec(),
        "fn audit_system_nodes(target_path: &Path) -> Result<SystemManifest, AutopsyError>;"
    );
}

#[test]
fn explorer_language_buttons_keep_editor() {
    let mut s = Codebase();
    s.step(ExplorerEvent::LanguageChosen(CodeLanguage::Lua));
    assert_eq!(s.selected_lang, CodeLanguage::Lua);
    assert_eq!(s.active_snippet_index, 0);
    assert_eq!(s.live_code, Codebase().live_code);
}

#[test]
fn explorer_select_and_run() {
    let mut s = Codebase();
    s.step(ExplorerEvent::SnippetSelected(1));
    assert_eq!(s.live_code, "local hud = require(\"hadal.core\")\nhud.render_frame(layout, 0x7FFF00)");
    assert_eq!(s.endpoint_spec(), "hadal.render_frame(hud_object, buffer_ptr)");
    match s.step(ExplorerEvent::RunClicked) {
        ExplorerAction::Alert(t) => assert_eq!(t, format!("Running: {}", s.live_code)),
        other => panic!("unexpected {:?}", other),
    }
    s.step(ExplorerEvent::CodeEdited("print(1)".to_string()));
    match s.step(ExplorerEvent::RunClicked) {
        ExplorerAction::Alert(t) => assert_eq!(t, "Running: print(1)"),
        other => panic!("unexpected {:?}", other),
    }
    s.step(ExplorerEvent::SnippetSelected(5));
    assert_eq!(s.live_code, "print(1)");
    assert_eq!(s.endpoint_spec(), "");
}
