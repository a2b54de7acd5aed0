//! The dashboard application: its state, the events the interface delivers,
//! and what each event changes and asks the runtime to do.
use vstd::prelude::*;
use crate::fetch::FeedSource;
use crate::language::{CodeLanguage, lemma_compiler_id_selects_language};
use crate::snippet::{CodeSnippet, SnippetView, snippet_views, starter_snippet_list, starter_snippets};
use crate::text::{concat_text, lemma_parse_i32_reads_signed_decimal, parse_i32, parse_signed, signed_decimal, write_signed_decimal};
use crate::language::lemma_extension_table;
use crate::uri::{encode_uri, encode_uri_component, lemma_decoding_gives_back_text, percent_decode};
use vstd::utf8::decode_utf8;

verus! {

/// The page the dashboard shows.
#[derive(Debug, Clone, Copy, PartialEq, Eq, Structural)]
pub enum SubgridPage {
    Dashboard,
    Projects,
    Codebase,
    Documentation,
}

/// Everything the dashboard remembers between events.
#[derive(Debug)]
pub struct AppState {
    pub active_page: SubgridPage,
    pub search_query: String,
    pub selected_lang: CodeLanguage,
    pub live_code: String,
    pub output_text: String,
    pub selected_compiler: String,
    pub aur_search_query: String,
    pub show_settings: bool,
    pub font_size: i32,
    pub tab_width: i32,
    pub theme: String,
    pub line_numbers: bool,
    pub word_wrap: bool,
    pub auto_format: bool,
    pub snippets: Vec<CodeSnippet>,
    pub active_snippet_index: usize,
    pub target_username: String,
}

/// The dashboard state with its texts as character sequences.
#[verifier::ext_equal]
pub struct AppView {
    pub active_page: SubgridPage,
    pub search_query: Seq<char>,
    pub selected_lang: CodeLanguage,
    pub live_code: Seq<char>,
    pub output_text: Seq<char>,
    pub selected_compiler: Seq<char>,
    pub aur_search_query: Seq<char>,
    pub show_settings: bool,
    pub font_size: i32,
    pub tab_width: i32,
    pub theme: Seq<char>,
    pub line_numbers: bool,
    pub word_wrap: bool,
    pub auto_format: bool,
    pub snippets: Seq<SnippetView>,
    pub active_snippet_index: usize,
    pub target_username: Seq<char>,
}

impl View for AppState {
    type V = AppView;

    open spec fn view(&self) -> AppView {
        AppView {
            active_page: self.active_page,
            search_query: self.search_query@,
            selected_lang: self.selected_lang,
            live_code: self.live_code@,
            output_text: self.output_text@,
            selected_compiler: self.selected_compiler@,
            aur_search_query: self.aur_search_query@,
            show_settings: self.show_settings,
            font_size: self.font_size,
            tab_width: self.tab_width,
            theme: self.theme@,
            line_numbers: self.line_numbers,
            word_wrap: self.word_wrap,
            auto_format: self.auto_format,
            snippets: snippet_views(self.snippets@),
            active_snippet_index: self.active_snippet_index,
            target_username: self.target_username@,
        }
    }
}

/// What the user did in the interface.
#[derive(Debug)]
pub enum UiEvent {
    /// A navigation button (or the logo) was clicked.
    Navigate(SubgridPage),
    /// The header search box changed.
    SearchInput(String),
    /// The AUR search box changed.
    AurSearchInput(String),
    /// The settings button was clicked.
    OpenSettings,
    /// "Apply settings" was clicked.
    ApplySettings,
    ThemeSelected(String),
    /// The font-size field changed to this text.
    FontSizeInput(String),
    /// The tab-width field changed to this text.
    TabWidthInput(String),
    LineNumbersToggled(bool),
    WordWrapToggled(bool),
    AutoFormatToggled(bool),
    /// A snippet in the vault was clicked.
    SnippetSelected(usize),
    /// The playground editor's text changed.
    CodeEdited(String),
    /// The reset button was clicked.
    ResetCode,
    /// A compiler option was chosen.
    CompilerSelected(String),
    /// The run button was clicked.
    RunClicked,
    /// The remote compiler answered with output or an error text.
    CompileFinished(Result<String, String>),
    /// The download button was clicked.
    DownloadClicked,
}

/// Work the runtime is asked to do after an event.
#[derive(Debug)]
pub enum UiAction {
    Nothing,
    /// Search the AUR for this text.
    SearchAur(String),
    /// Send this code to the remote compiler under this compiler name.
    Compile { code: String, compiler: String },
    /// Offer a file with this name whose link is `href`.
    Download { filename: String, href: String },
}

pub enum ActionView {
    Nothing,
    SearchAur(Seq<char>),
    Compile { code: Seq<char>, compiler: Seq<char> },
    Download { filename: Seq<char>, href: Seq<char> },
}

impl View for UiAction {
    type V = ActionView;

    open spec fn view(&self) -> ActionView {
        match self {
            UiAction::Nothing => ActionView::Nothing,
            UiAction::SearchAur(q) => ActionView::SearchAur(q@),
            UiAction::Compile { code, compiler } => ActionView::Compile { code: code@, compiler: compiler@ },
            UiAction::Download { filename, href } => ActionView::Download { filename: filename@, href: href@ },
        }
    }
}

/// The index of the first snippet written in `lang`.
pub open spec fn first_snippet_in(snips: Seq<SnippetView>, lang: CodeLanguage) -> Option<int>
    decreases snips.len(),
{
    if snips.len() == 0 {
        None
    } else if snips[0].lang == lang {
        Some(0)
    } else {
        match first_snippet_in(snips.drop_first(), lang) {
            Some(i) => Some(i + 1),
            None => None,
        }
    }
}

/// The editor shows the source of the active snippet, when the index names one.
pub open spec fn with_code_synced(s: AppView) -> AppView {
    if s.active_snippet_index < s.snippets.len() {
        AppView { live_code: s.snippets[s.active_snippet_index as int].source_code, ..s }
    } else {
        s
    }
}

/// Choosing a language activates its first snippet, if there is one.
pub open spec fn with_language_snippet(s: AppView, lang: CodeLanguage) -> AppView {
    match first_snippet_in(s.snippets, lang) {
        Some(i) => with_code_synced(AppView { active_snippet_index: i as usize, ..s }),
        None => s,
    }
}

/// A numeric settings field: the text read as an `i32`, else `default`.
pub open spec fn number_or(text: Seq<char>, default: i32) -> i32 {
    match parse_signed(text, i32::MIN as int, i32::MAX as int) {
        Ok(n) => n as i32,
        Err(_) => default,
    }
}

/// The state after `event`.
pub open spec fn transition(s: AppView, event: UiEvent) -> AppView {
    match event {
        UiEvent::Navigate(p) => AppView { active_page: p, ..s },
        UiEvent::SearchInput(q) => AppView { search_query: q@, ..s },
        UiEvent::AurSearchInput(q) => AppView { aur_search_query: q@, ..s },
        UiEvent::OpenSettings => AppView { show_settings: true, ..s },
        UiEvent::ApplySettings => AppView { show_settings: false, ..s },
        UiEvent::ThemeSelected(t) => AppView { theme: t@, ..s },
        UiEvent::FontSizeInput(t) => AppView { font_size: number_or(t@, 14), ..s },
        UiEvent::TabWidthInput(t) => AppView { tab_width: number_or(t@, 4), ..s },
        UiEvent::LineNumbersToggled(b) => AppView { line_numbers: b, ..s },
        UiEvent::WordWrapToggled(b) => AppView { word_wrap: b, ..s },
        UiEvent::AutoFormatToggled(b) => AppView { auto_format: b, ..s },
        UiEvent::SnippetSelected(i) => with_code_synced(AppView { active_snippet_index: i, ..s }),
        UiEvent::CodeEdited(t) => AppView { live_code: t@, ..s },
        UiEvent::ResetCode => with_code_synced(s),
        UiEvent::CompilerSelected(v) => {
            let lang = CodeLanguage::spec_from_compiler_id(v@);
            with_language_snippet(AppView { selected_lang: lang, selected_compiler: v@, ..s }, lang)
        },
        UiEvent::RunClicked => AppView {
            output_text: "Compiling with "@ + s.selected_compiler + "..."@,
            ..s
        },
        UiEvent::CompileFinished(r) => AppView {
            output_text: match r {
                Ok(out) => out@,
                Err(e) => "Error: "@ + e@,
            },
            ..s
        },
        UiEvent::DownloadClicked => s,
    }
}

/// The file name a download of code in `lang` gets.
pub open spec fn download_name(lang: CodeLanguage) -> Seq<char> {
    "main."@ + lang.spec_extension()
}

/// The `data:` link that carries `code` as plain text.
pub open spec fn download_href(code: Seq<char>) -> Seq<char> {
    "data:text/plain;charset=utf-8,"@ + encode_uri(code)
}

/// What the runtime is asked to do after `event`.
pub open spec fn action_for(s: AppView, event: UiEvent) -> ActionView {
    match event {
        UiEvent::AurSearchInput(q) => ActionView::SearchAur(q@),
        UiEvent::RunClicked => ActionView::Compile { code: s.live_code, compiler: s.selected_compiler },
        UiEvent::DownloadClicked => ActionView::Download {
            filename: download_name(s.selected_lang),
            href: download_href(s.live_code),
        },
        _ => ActionView::Nothing,
    }
}

/// The dashboard as it opens.
pub open spec fn initial_view() -> AppView {
    AppView {
        active_page: SubgridPage::Dashboard,
        search_query: Seq::empty(),
        selected_lang: CodeLanguage::Rust,
        live_code: starter_snippets()[0].source_code,
        output_text: "Ready to compile..."@,
        selected_compiler: "rust-1.78"@,
        aur_search_query: Seq::empty(),
        show_settings: false,
        font_size: 14,
        tab_width: 4,
        theme: "Midnight"@,
        line_numbers: true,
        word_wrap: true,
        auto_format: false,
        snippets: starter_snippets(),
        active_snippet_index: 0,
        target_username: "darkstardevx"@,
    }
}

proof fn lemma_first_snippet_in(snips: Seq<SnippetView>, lang: CodeLanguage)
    ensures
        match first_snippet_in(snips, lang) {
            Some(i) => 0 <= i < snips.len() && snips[i].lang == lang && forall|j: int|
                0 <= j < i ==> (#[trigger] snips[j]).lang != lang,
            None => forall|j: int| 0 <= j < snips.len() ==> (#[trigger] snips[j]).lang != lang,
        },
    decreases snips.len(),
{
    if snips.len() > 0 {
        lemma_first_snippet_in(snips.drop_first(), lang);
        assert forall|j: int| 1 <= j < snips.len() implies snips[j] == snips.drop_first()[j - 1] by {}
    }
}

/// The index of the first snippet in `lang`, if any.
fn first_snippet_index(snips: &Vec<CodeSnippet>, lang: CodeLanguage) -> (r: Option<usize>)
    ensures
        match r {
            Some(i) => first_snippet_in(snippet_views(snips@), lang) == Some(i as int),
            None => first_snippet_in(snippet_views(snips@), lang) is None,
        },
{
    let ghost views = snippet_views(snips@);
    proof {
        lemma_first_snippet_in(views, lang);
    }
    let mut i: usize = 0;
    while i < snips.len()
        invariant
            views == snippet_views(snips@),
            i <= snips.len(),
            forall|j: int| 0 <= j < i ==> (#[trigger] views[j]).lang != lang,
            match first_snippet_in(views, lang) {
                Some(k) => 0 <= k < views.len() && views[k].lang == lang && forall|j: int|
                    0 <= j < k ==> (#[trigger] views[j]).lang != lang,
                None => forall|j: int| 0 <= j < views.len() ==> (#[trigger] views[j]).lang != lang,
            },
        decreases snips.len() - i,
    {
        assert(views[i as int] == snips@[i as int]@);
        if snips[i].lang == lang {
            return Some(i);
        }
        i = i + 1;
    }
    None
}

impl AppState {
    /// Shows the active snippet's source in the editor, when the index names a snippet.
    fn sync_live_code(&mut self)
        ensures
            final(self)@ == with_code_synced(old(self)@),
    {
        if self.active_snippet_index < self.snippets.len() {
            self.live_code = self.snippets[self.active_snippet_index].source_code.clone();
        }
    }

    /// Applies one interface event and says what the runtime should do next.
    pub fn step(&mut self, event: UiEvent) -> (action: UiAction)
        ensures
            final(self)@ == transition(old(self)@, event),
            action@ == action_for(old(self)@, event),
    {
        match event {
            UiEvent::Navigate(p) => {
                self.active_page = p;
                UiAction::Nothing
            },
            UiEvent::SearchInput(q) => {
                self.search_query = q;
                UiAction::Nothing
            },
            UiEvent::AurSearchInput(q) => {
                let request = q.clone();
                self.aur_search_query = q;
                UiAction::SearchAur(request)
            },
            UiEvent::OpenSettings => {
                self.show_settings = true;
                UiAction::Nothing
            },
            UiEvent::ApplySettings => {
                self.show_settings = false;
                UiAction::Nothing
            },
            UiEvent::ThemeSelected(t) => {
                self.theme = t;
                UiAction::Nothing
            },
            UiEvent::FontSizeInput(t) => {
                self.font_size = match parse_i32(t.as_str()) {
                    Ok(n) => n,
                    Err(_) => 14,
                };
                UiAction::Nothing
            },
            UiEvent::TabWidthInput(t) => {
                self.tab_width = match parse_i32(t.as_str()) {
                    Ok(n) => n,
                    Err(_) => 4,
                };
                UiAction::Nothing
            },
            UiEvent::LineNumbersToggled(b) => {
                self.line_numbers = b;
                UiAction::Nothing
            },
            UiEvent::WordWrapToggled(b) => {
                self.word_wrap = b;
                UiAction::Nothing
            },
            UiEvent::AutoFormatToggled(b) => {
                self.auto_format = b;
                UiAction::Nothing
            },
            UiEvent::SnippetSelected(i) => {
                self.active_snippet_index = i;
                self.sync_live_code();
                UiAction::Nothing
            },
            UiEvent::CodeEdited(t) => {
                self.live_code = t;
                UiAction::Nothing
            },
            UiEvent::ResetCode => {
                self.sync_live_code();
                UiAction::Nothing
            },
            UiEvent::CompilerSelected(v) => {
                let lang = CodeLanguage::from_compiler_id(v.as_str());
                self.selected_lang = lang;
                self.selected_compiler = v;
                match first_snippet_index(&self.snippets, lang) {
                    Some(i) => {
                        self.active_snippet_index = i;
                        self.sync_live_code();
                    },
                    None => {},
                }
                UiAction::Nothing
            },
            UiEvent::RunClicked => {
                let mut text = concat_text("Compiling with ", self.selected_compiler.as_str());
                text.append("...");
                self.output_text = text;
                UiAction::Compile { code: self.live_code.clone(), compiler: self.selected_compiler.clone() }
            },
            UiEvent::CompileFinished(r) => {
                self.output_text = match r {
                    Ok(out) => out,
                    Err(e) => concat_text("Error: ", e.as_str()),
                };
                UiAction::Nothing
            },
            UiEvent::DownloadClicked => {
                let filename = concat_text("main.", self.selected_lang.extension());
                let encoded = encode_uri_component(self.live_code.as_str());
                let href = concat_text("data:text/plain;charset=utf-8,", encoded.as_str());
                UiAction::Download { filename, href }
            },
        }
    }
}

/// The editor's inline style: font size, tab size and wrapping.
pub open spec fn editor_style_text(s: AppView) -> Seq<char> {
    "font-size: "@ + signed_decimal(s.font_size as int) + "px; tab-size: "@ + signed_decimal(
        s.tab_width as int,
    ) + "; white-space: "@ + (if s.word_wrap {
        "pre-wrap"@
    } else {
        "pre"@
    }) + ";"@
}

/// The text of the endpoint panel: the active snippet's docs, or a notice.
pub open spec fn endpoint_spec_text(s: AppView) -> Seq<char> {
    if s.active_snippet_index < s.snippets.len() {
        s.snippets[s.active_snippet_index as int].api_docs
    } else {
        "No docs mapped to active slot."@
    }
}

/// The class list of the navigation button for `page`.
pub open spec fn nav_class_text(active: SubgridPage, page: SubgridPage) -> Seq<char> {
    "px-4 py-2 rounded transition-all "@ + if active == page {
        "bg-[#b829c2] text-white shadow-[0_0_8px_#b829c2]"@
    } else if page == SubgridPage::Documentation {
        "text-purple-300 hover:bg-[#1f2335] hover:text-[#00ffcc]"@
    } else {
        "text-purple-300 hover:bg-[#1f2335] hover:text-[#ff007f]"@
    }
}

/// `entries` lists, in increasing order, exactly the indices of snippets in `lang`.
pub open spec fn lists_language(entries: Seq<usize>, snips: Seq<SnippetView>, lang: CodeLanguage) -> bool {
    &&& forall|k: int| 0 <= k < entries.len() ==> (#[trigger] entries[k]) < snips.len() && snips[entries[k] as int].lang == lang
    &&& forall|k: int, m: int| 0 <= k < m < entries.len() ==> (#[trigger] entries[k]) < (#[trigger] entries[m])
    &&& forall|j: int| 0 <= j < snips.len() && (#[trigger] snips[j]).lang == lang ==> entries.contains(j as usize)
}

/// A list fetch the dashboard starts: which list, for which user name or search text.
#[derive(Debug)]
pub struct FeedRequest {
    pub source: FeedSource,
    pub arg: String,
}

impl AppState {
    /// The fetches the dashboard starts when it opens: the target user's
    /// repositories and AUR packages, and the AUR search for the current search text.
    pub fn opening_fetches(&self) -> (reqs: Vec<FeedRequest>)
        ensures
            reqs@.len() == 3,
            reqs@[0].source == FeedSource::GithubRepos && reqs@[0].arg@ == self.target_username@,
            reqs@[1].source == FeedSource::AurPackages && reqs@[1].arg@ == self.target_username@,
            reqs@[2].source == FeedSource::AurSearch && reqs@[2].arg@ == self.aur_search_query@,
    {
        let mut reqs: Vec<FeedRequest> = Vec::new();
        reqs.push(FeedRequest { source: FeedSource::GithubRepos, arg: self.target_username.clone() });
        reqs.push(FeedRequest { source: FeedSource::AurPackages, arg: self.target_username.clone() });
        reqs.push(FeedRequest { source: FeedSource::AurSearch, arg: self.aur_search_query.clone() });
        reqs
    }

    /// The inline style of the playground editor.
    pub fn editor_style(&self) -> (style: String)
        ensures
            style@ == editor_style_text(self@),
    {
        let mut style = "font-size: ".to_string();
        write_signed_decimal(&mut style, self.font_size as i64);
        style.append("px; tab-size: ");
        write_signed_decimal(&mut style, self.tab_width as i64);
        style.append("; white-space: ");
        if self.word_wrap {
            style.append("pre-wrap");
        } else {
            style.append("pre");
        }
        style.append(";");
        assert(style@ =~= editor_style_text(self@));
        style
    }

    /// The docs shown for the active snippet.
    pub fn endpoint_spec(&self) -> (docs: String)
        ensures
            docs@ == endpoint_spec_text(self@),
    {
        if self.active_snippet_index < self.snippets.len() {
            self.snippets[self.active_snippet_index].api_docs.clone()
        } else {
            "No docs mapped to active slot.".to_string()
        }
    }

    /// The classes of the navigation button for `page`.
    pub fn nav_button_class(&self, page: SubgridPage) -> (class: String)
        ensures
            class@ == nav_class_text(self.active_page, page),
    {
        let highlight = if self.active_page == page {
            "bg-[#b829c2] text-white shadow-[0_0_8px_#b829c2]"
        } else if page == SubgridPage::Documentation {
            "text-purple-300 hover:bg-[#1f2335] hover:text-[#00ffcc]"
        } else {
            "text-purple-300 hover:bg-[#1f2335] hover:text-[#ff007f]"
        };
        concat_text("px-4 py-2 rounded transition-all ", highlight)
    }

    /// The indices of the snippets the vault lists: those in the selected language, in order.
    pub fn vault_entries(&self) -> (entries: Vec<usize>)
        ensures
            lists_language(entries@, self@.snippets, self.selected_lang),
    {
        let ghost views = self@.snippets;
        let mut entries: Vec<usize> = Vec::new();
        let mut i: usize = 0;
        while i < self.snippets.len()
            invariant
                views == snippet_views(self.snippets@),
                i <= self.snippets.len(),
                forall|k: int| 0 <= k < entries.len() ==> (#[trigger] entries@[k]) < i && views[entries@[k] as int].lang == self.selected_lang,
                forall|k: int, m: int| 0 <= k < m < entries.len() ==> (#[trigger] entries@[k]) < (#[trigger] entries@[m]),
                forall|j: int| 0 <= j < i && (#[trigger] views[j]).lang == self.selected_lang ==> entries@.contains(j as usize),
            decreases self.snippets.len() - i,
        {
            assert(views[i as int] == self.snippets@[i as int]@);
            if self.snippets[i].lang == self.selected_lang {
                let ghost before = entries@;
                entries.push(i);
                assert forall|j: int| 0 <= j < i + 1 && (#[trigger] views[j]).lang == self.selected_lang implies entries@.contains(j as usize) by {
                    if j < i {
                        let k = choose|k: int| 0 <= k < before.len() && before[k] == j as usize;
                        assert(entries@[k] == j as usize);
                    } else {
                        assert(entries@[entries@.len() - 1] == j as usize);
                    }
                }
            }
            i = i + 1;
        }
        entries
    }
}

/// The dashboard as it opens: every setting at its default, the first Rust
/// snippet active and its source in the editor.
#[allow(non_snake_case)]
pub fn App() -> (state: AppState)
    ensures
        state@ == initial_view(),
{
    let mut state = AppState {
        active_page: SubgridPage::Dashboard,
        search_query: String::new(),
        selected_lang: CodeLanguage::Rust,
        live_code: String::new(),
        output_text: "Ready to compile...".to_string(),
        selected_compiler: "rust-1.78".to_string(),
        aur_search_query: String::new(),
        show_settings: false,
        font_size: 14,
        tab_width: 4,
        theme: "Midnight".to_string(),
        line_numbers: true,
        word_wrap: true,
        auto_format: false,
        snippets: starter_snippet_list(),
        active_snippet_index: 0,
        target_username: "darkstardevx".to_string(),
    };
    // The opening run of the interface's effects: the selected language picks
    // its first snippet, whose source then fills the editor.
    match first_snippet_index(&state.snippets, state.selected_lang) {
        Some(i) => {
            state.active_snippet_index = i;
            state.sync_live_code();
        },
        None => {},
    }
    state
}

/// No event changes the snippets in the vault.
pub proof fn lemma_events_keep_snippets(s: AppView, event: UiEvent)
    ensures
        transition(s, event).snippets == s.snippets,
{
}

/// While the active index names a snippet, it keeps naming one after any event
/// other than selecting a snippet that does not exist.
pub proof fn lemma_active_snippet_stays_valid(s: AppView, event: UiEvent)
    requires
        s.active_snippet_index < s.snippets.len(),
        !(event matches UiEvent::SnippetSelected(i) && i >= s.snippets.len()),
    ensures
        transition(s, event).active_snippet_index < transition(s, event).snippets.len(),
{
    if let UiEvent::CompilerSelected(v) = event {
        lemma_first_snippet_in(s.snippets, CodeLanguage::spec_from_compiler_id(v@));
    }
}

/// Selecting a snippet makes it active and puts its source in the editor.
pub proof fn lemma_selected_snippet_fills_editor(s: AppView, i: usize)
    requires
        i < s.snippets.len(),
    ensures
        transition(s, UiEvent::SnippetSelected(i)).active_snippet_index == i,
        transition(s, UiEvent::SnippetSelected(i)).live_code == s.snippets[i as int].source_code,
{
}

/// Reset undoes editing: an edit followed by a reset ends where a reset alone does,
/// with the active snippet's source in the editor.
pub proof fn lemma_reset_discards_edits(s: AppView, text: String)
    requires
        s.active_snippet_index < s.snippets.len(),
    ensures
        transition(transition(s, UiEvent::CodeEdited(text)), UiEvent::ResetCode) == transition(s, UiEvent::ResetCode),
        transition(s, UiEvent::ResetCode).live_code == s.snippets[s.active_snippet_index as int].source_code,
{
    assert(transition(transition(s, UiEvent::CodeEdited(text)), UiEvent::ResetCode) =~= transition(s, UiEvent::ResetCode));
}

/// Choosing a compiler selects its language and, when the vault holds code in
/// that language, activates the first such snippet and shows its source;
/// otherwise the active snippet and the editor stay as they were.
pub proof fn lemma_compiler_choice_activates_first_snippet(s: AppView, id: String)
    requires
        s.snippets.len() <= usize::MAX,
    ensures
        ({
            let t = transition(s, UiEvent::CompilerSelected(id));
            let lang = CodeLanguage::spec_from_compiler_id(id@);
            &&& t.selected_lang == lang
            &&& t.selected_compiler == id@
            &&& (exists|j: int| 0 <= j < s.snippets.len() && (#[trigger] s.snippets[j]).lang == lang) ==> {
                &&& t.active_snippet_index < s.snippets.len()
                &&& s.snippets[t.active_snippet_index as int].lang == lang
                &&& forall|j: int| 0 <= j < t.active_snippet_index ==> (#[trigger] s.snippets[j]).lang != lang
                &&& t.live_code == s.snippets[t.active_snippet_index as int].source_code
            }
            &&& !(exists|j: int| 0 <= j < s.snippets.len() && (#[trigger] s.snippets[j]).lang == lang) ==> {
                &&& t.active_snippet_index == s.active_snippet_index
                &&& t.live_code == s.live_code
            }
        }),
{
    lemma_first_snippet_in(s.snippets, CodeLanguage::spec_from_compiler_id(id@));
}

/// The compiler option listed for a language selects that language.
pub proof fn lemma_listed_option_selects_its_language(s: AppView, lang: CodeLanguage, id: String)
    requires
        id@ == lang.spec_compiler_id(),
    ensures
        transition(s, UiEvent::CompilerSelected(id)).selected_lang == lang,
{
    lemma_compiler_id_selects_language(lang);
}

/// After a compiler is chosen, the vault list shows the active snippet whenever
/// the chosen language has a snippet at all.
pub proof fn lemma_vault_lists_active_snippet(s: AppView, id: String, entries: Seq<usize>)
    requires
        s.snippets.len() <= usize::MAX,
        lists_language(entries, transition(s, UiEvent::CompilerSelected(id)).snippets,
            transition(s, UiEvent::CompilerSelected(id)).selected_lang),
        exists|j: int| 0 <= j < s.snippets.len()
            && (#[trigger] s.snippets[j]).lang == CodeLanguage::spec_from_compiler_id(id@),
    ensures
        entries.contains(transition(s, UiEvent::CompilerSelected(id)).active_snippet_index),
{
    lemma_compiler_choice_activates_first_snippet(s, id);
    let t = transition(s, UiEvent::CompilerSelected(id));
    assert(t.snippets[t.active_snippet_index as int].lang == t.selected_lang);
}

/// Typing the number a settings field shows keeps that number.
pub proof fn lemma_settings_number_roundtrip(n: i32, default: i32)
    ensures
        number_or(signed_decimal(n as int), default) == n,
{
    lemma_parse_i32_reads_signed_decimal(n);
}

/// A run followed by the compiler's answer shows that answer, or the error
/// after `Error: `.
pub proof fn lemma_run_shows_compiler_answer(s: AppView, answer: Result<String, String>)
    ensures
        transition(transition(s, UiEvent::RunClicked), UiEvent::CompileFinished(answer)).output_text
            == match answer {
                Ok(out) => out@,
                Err(e) => "Error: "@ + e@,
            },
{
}

/// The opening state is settled: its selected language already has its first
/// snippet active and shown, so re-running the opening effects changes nothing.
pub proof fn lemma_initial_view_settled()
    ensures
        with_language_snippet(initial_view(), initial_view().selected_lang) == initial_view(),
{
    assert(with_language_snippet(initial_view(), initial_view().selected_lang) =~= initial_view());
}

/// Running compiles exactly what the editor shows, under the chosen compiler;
/// in particular, after an edit the next run sends the edited text.
pub proof fn lemma_run_sends_editor_text(s: AppView, edited: String)
    ensures
        action_for(s, UiEvent::RunClicked) == (ActionView::Compile { code: s.live_code, compiler: s.selected_compiler }),
        action_for(transition(s, UiEvent::CodeEdited(edited)), UiEvent::RunClicked)
            == (ActionView::Compile { code: edited@, compiler: s.selected_compiler }),
{
}

/// Reading the numbers in the editor style back gives the font size and the
/// tab width of the state, and the wrapping mode follows the word-wrap setting.
pub proof fn lemma_editor_style_reads_back_settings(s: AppView)
    ensures
        exists|font: Seq<char>, tab: Seq<char>| {
            &&& editor_style_text(s) == "font-size: "@ + font + "px; tab-size: "@ + tab + "; white-space: "@
                + (if s.word_wrap { "pre-wrap"@ } else { "pre"@ }) + ";"@
            &&& parse_signed(font, i32::MIN as int, i32::MAX as int) == Ok::<int, crate::text::IntErrorKind>(s.font_size as int)
            &&& parse_signed(tab, i32::MIN as int, i32::MAX as int) == Ok::<int, crate::text::IntErrorKind>(s.tab_width as int)
        },
{
    lemma_parse_i32_reads_signed_decimal(s.font_size);
    lemma_parse_i32_reads_signed_decimal(s.tab_width);
    let font = signed_decimal(s.font_size as int);
    let tab = signed_decimal(s.tab_width as int);
    assert(editor_style_text(s) == "font-size: "@ + font + "px; tab-size: "@ + tab + "; white-space: "@
        + (if s.word_wrap { "pre-wrap"@ } else { "pre"@ }) + ";"@);
}

/// Typing a tab width into settings shows that width in the editor style.
pub proof fn lemma_tab_width_setting_reaches_style(s: AppView, n: i32, typed: String)
    requires
        typed@ == signed_decimal(n as int),
    ensures
        exists|font: Seq<char>, tab: Seq<char>| {
            &&& editor_style_text(transition(s, UiEvent::TabWidthInput(typed))) == "font-size: "@ + font
                + "px; tab-size: "@ + tab + "; white-space: "@ + (if s.word_wrap { "pre-wrap"@ } else { "pre"@ }) + ";"@
            &&& parse_signed(tab, i32::MIN as int, i32::MAX as int) == Ok::<int, crate::text::IntErrorKind>(n as int)
        },
{
    lemma_parse_i32_reads_signed_decimal(n);
    let t = transition(s, UiEvent::TabWidthInput(typed));
    assert(t.tab_width == n);
    lemma_editor_style_reads_back_settings(t);
}

/// A download after choosing the Java option is named `main.java`; after the
/// JavaScript option, `main.js`.
pub proof fn lemma_download_name_follows_chosen_language(s: AppView, id: String)
    ensures
        id@ == "java-21"@ ==> (action_for(transition(s, UiEvent::CompilerSelected(id)), UiEvent::DownloadClicked)
            matches ActionView::Download { filename, .. } && filename == "main.java"@),
        id@ == "js-es6"@ ==> (action_for(transition(s, UiEvent::CompilerSelected(id)), UiEvent::DownloadClicked)
            matches ActionView::Download { filename, .. } && filename == "main.js"@),
{
    crate::language::lemma_compiler_option_table();
    lemma_extension_table();
    reveal_strlit("main.");
    reveal_strlit("java");
    reveal_strlit("js");
    reveal_strlit("main.java");
    reveal_strlit("main.js");
    let t = transition(s, UiEvent::CompilerSelected(id));
    if id@ == "java-21"@ {
        assert(t.selected_lang == CodeLanguage::Java);
        assert(download_name(t.selected_lang) =~= "main.java"@);
    }
    if id@ == "js-es6"@ {
        assert(t.selected_lang == CodeLanguage::JavaScript);
        assert(download_name(t.selected_lang) =~= "main.js"@);
    }
}

/// The download link is a plain-text `data:` link whose payload decodes back to
/// exactly the editor's text.
pub proof fn lemma_download_carries_editor_text(s: AppView)
    ensures
        exists|payload: Seq<char>| {
            &&& action_for(s, UiEvent::DownloadClicked) == (ActionView::Download {
                filename: download_name(s.selected_lang),
                href: "data:text/plain;charset=utf-8,"@ + payload,
            })
            &&& decode_utf8(percent_decode(payload)) == s.live_code
        },
{
    lemma_decoding_gives_back_text(s.live_code);
    let payload = encode_uri(s.live_code);
    assert(action_for(s, UiEvent::DownloadClicked) == (ActionView::Download {
        filename: download_name(s.selected_lang),
        href: "data:text/plain;charset=utf-8,"@ + payload,
    }));
}

} // verus!
