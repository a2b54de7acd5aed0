use subgrid::language::CodeLanguage;
use subgrid::uri::encode_uri_component;
use subgrid::fetch::FeedSource;
use subgrid::workbench::{App, SubgridPage, UiAction, UiEvent};

fn is_nothing(a: &UiAction) -> bool {
    matches!(a, UiAction::Nothing)
}

#[test]
fn app_opens_with_defaults() {
    let s = App();
    assert_eq!(s.active_page, SubgridPage::Dashboard);
    assert_eq!(s.selected_lang, CodeLanguage::Rust);
    assert_eq!(s.active_snippet_index, 0);
    assert_eq!(s.live_code, "fn main() {\n    println!(\"Hello, world!\");\n}");
    assert_eq!(s.output_text, "Ready to compile...");
    assert_eq!(s.selected_compiler, "rust-1.78");
    assert_eq!(s.font_size, 14);
    assert_eq!(s.tab_width, 4);
    assert_eq!(s.theme, "Midnight");
    assert!(s.line_numbers && s.word_wrap && !s.auto_format && !s.show_settings);
    assert_eq!(s.snippets.len(), 23);
    assert_eq!(s.target_username, "darkstardevx");
}

#[test]
fn navigation_changes_only_the_page() {
    let mut s = App();
    let a = s.step(UiEvent::Navigate(SubgridPage::Codebase));
    assert!(is_nothing(&a));
    assert_eq!(s.active_page, SubgridPage::Codebase);
    assert_eq!(s.live_code, App().live_code);
    s.step(UiEvent::Navigate(SubgridPage::Documentation));
    assert_eq!(s.active_page, SubgridPage::Documentation);
}

#[test]
fn search_inputs() {
    let mut s = App();
    s.step(UiEvent::SearchInput("kernel".to_string()));
    assert_eq!(s.search_query, "kernel");
    match s.step(UiEvent::AurSearchInput("yay".to_string())) {
        UiAction::SearchAur(q) => assert_eq!(q, "yay"),
        other => panic!("unexpected {:?}", other),
    }
    assert_eq!(s.aur_search_query, "yay");
}

#[test]
fn settings_fields() {
    let mut s = App();
    s.step(UiEvent::OpenSettings);
    assert!(s.show_settings);
    s.step(UiEvent::FontSizeInput("16".to_string()));
    assert_eq!(s.font_size, 16);
    s.step(UiEvent::FontSizeInput("abc".to_string()));
    assert_eq!(s.font_size, 14);
    s.step(UiEvent::FontSizeInput("".to_string()));
    assert_eq!(s.font_size, 14);
    s.step(UiEvent::TabWidthInput("8".to_string()));
    assert_eq!(s.tab_width, 8);
    s.step(UiEvent::TabWidthInput("-".to_string()));
    assert_eq!(s.tab_width, 4);
    s.step(UiEvent::ThemeSelected("Matrix".to_string()));
    assert_eq!(s.theme, "Matrix");
    s.step(UiEvent::LineNumbersToggled(false));
    s.step(UiEvent::WordWrapToggled(false));
    s.step(UiEvent::AutoFormatToggled(true));
    assert!(!s.line_numbers && !s.word_wrap && s.auto_format);
    s.step(UiEvent::ApplySettings);
    assert!(!s.show_settings);
}

#[test]
fn typing_the_shown_font_size_keeps_it() {
    let mut s = App();
    for n in [9, 14, 100, -3] {
        s.font_size = n;
        let shown = n.to_string();
        s.step(UiEvent::FontSizeInput(shown));
        assert_eq!(s.font_size, n);
    }
}

#[test]
fn selecting_a_snippet_fills_the_editor() {
    let mut s = App();
    s.step(UiEvent::SnippetSelected(3));
    assert_eq!(s.active_snippet_index, 3);
    assert_eq!(s.live_code, "print(\"Hello, world!\")");
    let before = s.live_code.clone();
    s.step(UiEvent::SnippetSelected(99));
    assert_eq!(s.active_snippet_index, 99);
    assert_eq!(s.live_code, before);
}

#[test]
fn reset_discards_edits() {
    let mut s = App();
    s.step(UiEvent::SnippetSelected(10));
    s.step(UiEvent::CodeEdited("package main // edited".to_string()));
    assert_eq!(s.live_code, "package main // edited");
    s.step(UiEvent::ResetCode);
    assert_eq!(s.live_code, s.snippets[10].source_code);
}

#[test]
fn choosing_a_compiler_activates_first_snippet() {
    let mut s = App();
    s.step(UiEvent::CompilerSelected("lua-5.4".to_string()));
    assert_eq!(s.selected_lang, CodeLanguage::Lua);
    assert_eq!(s.selected_compiler, "lua-5.4");
    assert_eq!(s.active_snippet_index, 1);
    assert_eq!(s.live_code, "print(\"Hello, world!\")");
    assert!(s.vault_entries().contains(&s.active_snippet_index));
    s.step(UiEvent::CompilerSelected("asm-x86".to_string()));
    assert_eq!(s.active_snippet_index, 18);
    s.step(UiEvent::CompilerSelected("unknown".to_string()));
    assert_eq!(s.selected_lang, CodeLanguage::Rust);
    assert_eq!(s.selected_compiler, "unknown");
    assert_eq!(s.active_snippet_index, 0);
}

#[test]
fn run_and_compiler_answer() {
    let mut s = App();
    match s.step(UiEvent::RunClicked) {
        UiAction::Compile { code, compiler } => {
            assert_eq!(code, s.live_code);
            assert_eq!(compiler, "rust-1.78");
        },
        other => panic!("unexpected {:?}", other),
    }
    assert_eq!(s.output_text, "Compiling with rust-1.78...");
    s.step(UiEvent::CompileFinished(Ok("Hello, world!".to_string())));
    assert_eq!(s.output_text, "Hello, world!");
    s.step(UiEvent::CompileFinished(Err("timeout".to_string())));
    assert_eq!(s.output_text, "Error: timeout");
}

#[test]
fn download_names_file_by_language() {
    let mut s = App();
    match s.step(UiEvent::DownloadClicked) {
        UiAction::Download { filename, href } => {
            assert_eq!(filename, "main.rs");
            assert_eq!(href, "data:text/plain;charset=utf-8,fn%20main()%20%7B%0A%20%20%20%20println!(%22Hello%2C%20world!%22)%3B%0A%7D");
            assert_eq!(href, format!("data:text/plain;charset=utf-8,{}", encode_uri_component(&s.live_code)));
        },
        other => panic!("unexpected {:?}", other),
    }
    s.step(UiEvent::CompilerSelected("kotlin-1.9".to_string()));
    match s.step(UiEvent::DownloadClicked) {
        UiAction::Download { filename, .. } => assert_eq!(filename, "main.kt"),
        other => panic!("unexpected {:?}", other),
    }
}

#[test]
fn editor_style_and_docs() {
    let mut s = App();
    assert_eq!(s.editor_style(), "font-size: 14px; tab-size: 4; white-space: pre-wrap;");
    s.step(UiEvent::WordWrapToggled(false));
    s.step(UiEvent::FontSizeInput("-3".to_string()));
    assert_eq!(s.editor_style(), "font-size: -3px; tab-size: 4; white-space: pre;");
    assert_eq!(s.endpoint_spec(), "println! macro.");
    s.step(UiEvent::SnippetSelected(500));
    assert_eq!(s.endpoint_spec(), "No docs mapped to active slot.");
}

#[test]
fn navigation_button_classes() {
    let s = App();
    assert_eq!(
        s.nav_button_class(SubgridPage::Dashboard),
        "px-4 py-2 rounded transition-all bg-[#b829c2] text-white shadow-[0_0_8px_#b829c2]"
    );
    assert_eq!(
        s.nav_button_class(SubgridPage::Projects),
        "px-4 py-2 rounded transition-all text-purple-300 hover:bg-[#1f2335] hover:text-[#ff007f]"
    );
    assert_eq!(
        s.nav_button_class(SubgridPage::Documentation),
        "px-4 py-2 rounded transition-all text-purple-300 hover:bg-[#1f2335] hover:text-[#00ffcc]"
    );
}

#[test]
fn vault_lists_selected_language() {
    let mut s = App();
    assert_eq!(s.vault_entries(), vec![0, 19]);
    s.step(UiEvent::CompilerSelected("lua-5.4".to_string()));
    assert_eq!(s.vault_entries(), vec![1, 20, 21]);
    s.step(UiEvent::CompilerSelected("bash-5.0".to_string()));
    assert_eq!(s.vault_entries(), vec![2, 22]);
    s.step(UiEvent::CompilerSelected("go-1.22".to_string()));
    assert_eq!(s.vault_entries(), vec![10]);
}

#[test]
fn events_keep_the_vault() {
    let mut s = App();
    let before = s.snippets.clone();
    s.step(UiEvent::CodeEdited("x".to_string()));
    s.step(UiEvent::CompilerSelected("sql-ansi".to_string()));
    s.step(UiEvent::RunClicked);
    s.step(UiEvent::ResetCode);
    assert_eq!(s.snippets, before);
}

#[test]
fn opening_fetches_target_user_and_search() {
    let mut s = App();
    let reqs = s.opening_fetches();
    assert_eq!(reqs.len(), 3);
    assert_eq!((reqs[0].source, reqs[0].arg.as_str()), (FeedSource::GithubRepos, "darkstardevx"));
    assert_eq!((reqs[1].source, reqs[1].arg.as_str()), (FeedSource::AurPackages, "darkstardevx"));
    assert_eq!((reqs[2].source, reqs[2].arg.as_str()), (FeedSource::AurSearch, ""));
    s.step(UiEvent::AurSearchInput("paru".to_string()));
    assert_eq!(s.opening_fetches()[2].arg, "paru");
}
