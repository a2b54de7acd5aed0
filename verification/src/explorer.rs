//! The codebase asset explorer: a snippet vault with a playground editor.
use vstd::prelude::*;
use crate::language::CodeLanguage;
use crate::snippet::{CodeSnippet, SnippetView, explorer_snippet_list, explorer_snippets, snippet_views};
use crate::text::concat_text;

verus! {

/// What the explorer remembers between events.
#[derive(Debug)]
pub struct ExplorerState {
    pub selected_lang: CodeLanguage,
    pub live_code: String,
    pub snippets: Vec<CodeSnippet>,
    pub active_snippet_index: usize,
}

#[verifier::ext_equal]
pub struct ExplorerView {
    pub selected_lang: CodeLanguage,
    pub live_code: Seq<char>,
    pub snippets: Seq<SnippetView>,
    pub active_snippet_index: usize,
}

impl View for ExplorerState {
    type V = ExplorerView;

    open spec fn view(&self) -> ExplorerView {
        ExplorerView {
            selected_lang: self.selected_lang,
            live_code: self.live_code@,
            snippets: snippet_views(self.snippets@),
            active_snippet_index: self.active_snippet_index,
        }
    }
}

/// What the user did in the explorer.
#[derive(Debug)]
pub enum ExplorerEvent {
    /// One of the language buttons was clicked.
    LanguageChosen(CodeLanguage),
    /// A snippet in the vault was clicked.
    SnippetSelected(usize),
    /// The editor's text changed.
    CodeEdited(String),
    /// "Run interactive code" was clicked.
    RunClicked,
}

/// Work the runtime is asked to do after an explorer event.
#[derive(Debug)]
pub enum ExplorerAction {
    Nothing,
    /// Show this text in an alert box.
    Alert(String),
}

pub enum ExplorerActionView {
    Nothing,
    Alert(Seq<char>),
}

impl View for ExplorerAction {
    type V = ExplorerActionView;

    open spec fn view(&self) -> ExplorerActionView {
        match self {
            ExplorerAction::Nothing => ExplorerActionView::Nothing,
            ExplorerAction::Alert(t) => ExplorerActionView::Alert(t@),
        }
    }
}

/// The editor shows the active snippet's source, when the index names a snippet.
pub open spec fn explorer_synced(s: ExplorerView) -> ExplorerView {
    if s.active_snippet_index < s.snippets.len() {
        ExplorerView { live_code: s.snippets[s.active_snippet_index as int].source_code, ..s }
    } else {
        s
    }
}

/// The explorer state after `event`.
pub open spec fn explorer_transition(s: ExplorerView, event: ExplorerEvent) -> ExplorerView {
    match event {
        ExplorerEvent::LanguageChosen(lang) => ExplorerView { selected_lang: lang, ..s },
        ExplorerEvent::SnippetSelected(i) => explorer_synced(ExplorerView { active_snippet_index: i, ..s }),
        ExplorerEvent::CodeEdited(t) => ExplorerView { live_code: t@, ..s },
        ExplorerEvent::RunClicked => s,
    }
}

/// What the runtime is asked to do after `event`.
pub open spec fn explorer_action(s: ExplorerView, event: ExplorerEvent) -> ExplorerActionView {
    match event {
        ExplorerEvent::RunClicked => ExplorerActionView::Alert("Running: "@ + s.live_code),
        _ => ExplorerActionView::Nothing,
    }
}

/// The explorer as it opens.
pub open spec fn explorer_initial_view() -> ExplorerView {
    ExplorerView {
        selected_lang: CodeLanguage::Rust,
        live_code: explorer_snippets()[0].source_code,
        snippets: explorer_snippets(),
        active_snippet_index: 0,
    }
}

/// The endpoint panel: the active snippet's docs, or nothing.
pub open spec fn explorer_docs_text(s: ExplorerView) -> Seq<char> {
    if s.active_snippet_index < s.snippets.len() {
        s.snippets[s.active_snippet_index as int].api_docs
    } else {
        Seq::empty()
    }
}

/// The explorer as it opens: Rust selected, the first snippet active and its
/// source in the editor.
#[allow(non_snake_case)]
pub fn Codebase() -> (state: ExplorerState)
    ensures
        state@ == explorer_initial_view(),
{
    let mut state = ExplorerState {
        selected_lang: CodeLanguage::Rust,
        live_code: String::new(),
        snippets: explorer_snippet_list(),
        active_snippet_index: 0,
    };
    // The opening run of the editor-sync effect.
    state.sync_live_code();
    state
}

impl ExplorerState {
    fn sync_live_code(&mut self)
        ensures
            final(self)@ == explorer_synced(old(self)@),
    {
        if self.active_snippet_index < self.snippets.len() {
            self.live_code = self.snippets[self.active_snippet_index].source_code.clone();
        }
    }

    /// Applies one explorer event and says what the runtime should do next.
    pub fn step(&mut self, event: ExplorerEvent) -> (action: ExplorerAction)
        ensures
            final(self)@ == explorer_transition(old(self)@, event),
            action@ == explorer_action(old(self)@, event),
    {
        match event {
            ExplorerEvent::LanguageChosen(lang) => {
                self.selected_lang = lang;
                ExplorerAction::Nothing
            },
            ExplorerEvent::SnippetSelected(i) => {
                self.active_snippet_index = i;
                self.sync_live_code();
                ExplorerAction::Nothing
            },
            ExplorerEvent::CodeEdited(t) => {
                self.live_code = t;
                ExplorerAction::Nothing
            },
            ExplorerEvent::RunClicked => ExplorerAction::Alert(concat_text("Running: ", self.live_code.as_str())),
        }
    }

    /// The docs shown for the active snippet; empty when the index names none.
    pub fn endpoint_spec(&self) -> (docs: String)
        ensures
            docs@ == explorer_docs_text(self@),
    {
        if self.active_snippet_index < self.snippets.len() {
            self.snippets[self.active_snippet_index].api_docs.clone()
        } else {
            String::new()
        }
    }
}

/// Choosing a language button changes nothing but the selected language: the
/// active snippet and the editor stay.
pub proof fn lemma_language_choice_keeps_editor(s: ExplorerView, lang: CodeLanguage)
    ensures
        explorer_transition(s, ExplorerEvent::LanguageChosen(lang)).live_code == s.live_code,
        explorer_transition(s, ExplorerEvent::LanguageChosen(lang)).active_snippet_index == s.active_snippet_index,
{
}

/// Selecting a snippet puts its source in the editor; the run alert then shows that source.
pub proof fn lemma_selected_snippet_runs(s: ExplorerView, i: usize)
    requires
        i < s.snippets.len(),
    ensures
        explorer_action(explorer_transition(s, ExplorerEvent::SnippetSelected(i)), ExplorerEvent::RunClicked)
            == ExplorerActionView::Alert("Running: "@ + s.snippets[i as int].source_code),
{
}

} // verus!
