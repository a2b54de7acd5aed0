//! The decisions of the dashboard's HTTP exchanges. The runtime performs each
//! action (a request, a body decode) and reports back with an event; these
//! machines decide what comes next and what the caller finally receives.
use vstd::prelude::*;
use vstd::utf8::encode_utf8;
use crate::text::{concat_text, decimal, utf8_len_below, write_decimal};

verus! {

/// Which list a feed fetch retrieves.
#[derive(Debug, Clone, Copy, PartialEq, Eq, Structural)]
pub enum FeedSource {
    /// A GitHub user's five most recently updated repositories.
    GithubRepos,
    /// The AUR packages of a maintainer, through the local proxy.
    AurPackages,
    /// An AUR package search, through the local proxy.
    AurSearch,
}

/// How far a feed fetch has come.
#[derive(Debug, Clone, Copy, PartialEq, Eq, Structural)]
pub enum FetchPhase {
    Ready,
    Requesting,
    Decoding,
    Finished,
}

/// What the runtime reports to a feed fetch.
#[derive(Debug)]
pub enum FetchEvent<T> {
    /// Start with this user name, maintainer or search text.
    Begin(String),
    /// The request could not be sent; the transport error's text.
    SendFailed(String),
    /// A response arrived: whether its status is a success, and the status code.
    Responded { ok: bool, status: u16 },
    /// The JSON body was decoded into items, or failed with this text.
    Decoded(Result<Vec<T>, String>),
}

/// What a feed fetch asks the runtime to do.
#[derive(Debug)]
pub enum FetchAction<T> {
    /// Send a GET request to this URL.
    Get(String),
    /// Decode the response body as JSON.
    DecodeJson,
    /// The fetch is over; hand this to the caller.
    Finish(Result<Vec<T>, String>),
    /// The event does not fit the current phase.
    Ignore,
}

pub enum FetchActionView<T> {
    Get(Seq<char>),
    DecodeJson,
    Finish(Result<Seq<T>, Seq<char>>),
    Ignore,
}

impl<T> View for FetchAction<T> {
    type V = FetchActionView<T>;

    open spec fn view(&self) -> FetchActionView<T> {
        match self {
            FetchAction::Get(u) => FetchActionView::Get(u@),
            FetchAction::DecodeJson => FetchActionView::DecodeJson,
            FetchAction::Finish(Ok(v)) => FetchActionView::Finish(Ok(v@)),
            FetchAction::Finish(Err(e)) => FetchActionView::Finish(Err(e@)),
            FetchAction::Ignore => FetchActionView::Ignore,
        }
    }
}

impl FeedSource {
    /// A fetch that needs no request: an empty user name or maintainer, or a
    /// search text shorter than three bytes.
    pub open spec fn skips(self, arg: Seq<char>) -> bool {
        match self {
            FeedSource::AurSearch => encode_utf8(arg).len() < 3,
            _ => arg.len() == 0,
        }
    }

    /// The URL fetched for `arg`.
    pub open spec fn spec_url(self, arg: Seq<char>) -> Seq<char> {
        match self {
            FeedSource::GithubRepos => "https://api.github.com/users/"@ + arg + "/repos?sort=updated&per_page=5"@,
            _ => "http://127.0.0.1:3000/api/aur/search?arg="@ + arg,
        }
    }

    /// What the caller receives when the request cannot be sent.
    pub open spec fn send_error(self, err: Seq<char>) -> Seq<char> {
        match self {
            FeedSource::GithubRepos => "Network request failed: "@ + err,
            FeedSource::AurPackages => "AUR API Request failed: "@ + err,
            FeedSource::AurSearch => "AUR Search failed: "@ + err,
        }
    }

    /// What the caller receives when the response status is not a success.
    pub open spec fn status_error(self, status: u16) -> Seq<char> {
        match self {
            FeedSource::GithubRepos => "GitHub API returned status: "@ + decimal(status as nat),
            FeedSource::AurPackages => "AUR RPC engine proxy returned status code: "@ + decimal(status as nat),
            FeedSource::AurSearch => "AUR Search error: "@ + decimal(status as nat),
        }
    }

    /// What the caller receives when the body does not decode.
    pub open spec fn decode_error(self, err: Seq<char>) -> Seq<char> {
        match self {
            FeedSource::GithubRepos => "Failed to parse repository payload: "@ + err,
            FeedSource::AurPackages => "Failed to parse AUR JSON payload: "@ + err,
            FeedSource::AurSearch => "Parse error: "@ + err,
        }
    }

    fn skips_exec(&self, arg: &str) -> (b: bool)
        ensures
            b == self.skips(arg@),
    {
        match self {
            FeedSource::AurSearch => utf8_len_below(arg, 3),
            _ => arg.is_empty(),
        }
    }

    /// The URL fetched for `arg`.
    pub fn url(&self, arg: &str) -> (u: String)
        ensures
            u@ == self.spec_url(arg@),
    {
        match self {
            FeedSource::GithubRepos => {
                let mut u = concat_text("https://api.github.com/users/", arg);
                u.append("/repos?sort=updated&per_page=5");
                u
            },
            _ => concat_text("http://127.0.0.1:3000/api/aur/search?arg=", arg),
        }
    }

    fn send_error_exec(&self, err: &str) -> (m: String)
        ensures
            m@ == self.send_error(err@),
    {
        match self {
            FeedSource::GithubRepos => concat_text("Network request failed: ", err),
            FeedSource::AurPackages => concat_text("AUR API Request failed: ", err),
            FeedSource::AurSearch => concat_text("AUR Search failed: ", err),
        }
    }

    fn status_error_exec(&self, status: u16) -> (m: String)
        ensures
            m@ == self.status_error(status),
    {
        let mut m = match self {
            FeedSource::GithubRepos => "GitHub API returned status: ".to_string(),
            FeedSource::AurPackages => "AUR RPC engine proxy returned status code: ".to_string(),
            FeedSource::AurSearch => "AUR Search error: ".to_string(),
        };
        write_decimal(&mut m, status as u64);
        m
    }

    fn decode_error_exec(&self, err: &str) -> (m: String)
        ensures
            m@ == self.decode_error(err@),
    {
        match self {
            FeedSource::GithubRepos => concat_text("Failed to parse repository payload: ", err),
            FeedSource::AurPackages => concat_text("Failed to parse AUR JSON payload: ", err),
            FeedSource::AurSearch => concat_text("Parse error: ", err),
        }
    }
}

/// The phase a feed fetch moves to on `event`.
pub open spec fn fetch_next_phase<T>(source: FeedSource, phase: FetchPhase, event: FetchEvent<T>) -> FetchPhase {
    match (phase, event) {
        (FetchPhase::Ready, FetchEvent::Begin(arg)) => if source.skips(arg@) {
            FetchPhase::Finished
        } else {
            FetchPhase::Requesting
        },
        (FetchPhase::Requesting, FetchEvent::SendFailed(_)) => FetchPhase::Finished,
        (FetchPhase::Requesting, FetchEvent::Responded { ok, status }) => if ok {
            FetchPhase::Decoding
        } else {
            FetchPhase::Finished
        },
        (FetchPhase::Decoding, FetchEvent::Decoded(_)) => FetchPhase::Finished,
        _ => phase,
    }
}

/// What a feed fetch asks for on `event`.
pub open spec fn fetch_action<T>(source: FeedSource, phase: FetchPhase, event: FetchEvent<T>) -> FetchActionView<T> {
    match (phase, event) {
        (FetchPhase::Ready, FetchEvent::Begin(arg)) => if source.skips(arg@) {
            FetchActionView::Finish(Ok(Seq::empty()))
        } else {
            FetchActionView::Get(source.spec_url(arg@))
        },
        (FetchPhase::Requesting, FetchEvent::SendFailed(e)) => FetchActionView::Finish(Err(source.send_error(e@))),
        (FetchPhase::Requesting, FetchEvent::Responded { ok, status }) => if ok {
            FetchActionView::DecodeJson
        } else {
            FetchActionView::Finish(Err(source.status_error(status)))
        },
        (FetchPhase::Decoding, FetchEvent::Decoded(Ok(items))) => FetchActionView::Finish(Ok(items@)),
        (FetchPhase::Decoding, FetchEvent::Decoded(Err(e))) => FetchActionView::Finish(Err(source.decode_error(e@))),
        _ => FetchActionView::Ignore,
    }
}

/// One feed fetch in progress.
#[derive(Debug)]
pub struct FeedFetch {
    pub source: FeedSource,
    pub phase: FetchPhase,
}

impl FeedFetch {
    /// A fetch of `source`, not yet begun.
    pub fn new(source: FeedSource) -> (f: Self)
        ensures
            f.source == source,
            f.phase == FetchPhase::Ready,
    {
        FeedFetch { source, phase: FetchPhase::Ready }
    }

    /// Takes the runtime's report and says what to do next.
    pub fn step<T>(&mut self, event: FetchEvent<T>) -> (action: FetchAction<T>)
        ensures
            final(self).source == old(self).source,
            final(self).phase == fetch_next_phase(old(self).source, old(self).phase, event),
            action@ == fetch_action(old(self).source, old(self).phase, event),
    {
        match (self.phase, event) {
            (FetchPhase::Ready, FetchEvent::Begin(arg)) => {
                if self.source.skips_exec(arg.as_str()) {
                    self.phase = FetchPhase::Finished;
                    FetchAction::Finish(Ok(Vec::new()))
                } else {
                    self.phase = FetchPhase::Requesting;
                    FetchAction::Get(self.source.url(arg.as_str()))
                }
            },
            (FetchPhase::Requesting, FetchEvent::SendFailed(e)) => {
                self.phase = FetchPhase::Finished;
                FetchAction::Finish(Err(self.source.send_error_exec(e.as_str())))
            },
            (FetchPhase::Requesting, FetchEvent::Responded { ok, status }) => {
                if ok {
                    self.phase = FetchPhase::Decoding;
                    FetchAction::DecodeJson
                } else {
                    self.phase = FetchPhase::Finished;
                    FetchAction::Finish(Err(self.source.status_error_exec(status)))
                }
            },
            (FetchPhase::Decoding, FetchEvent::Decoded(Ok(items))) => {
                self.phase = FetchPhase::Finished;
                FetchAction::Finish(Ok(items))
            },
            (FetchPhase::Decoding, FetchEvent::Decoded(Err(e))) => {
                self.phase = FetchPhase::Finished;
                FetchAction::Finish(Err(self.source.decode_error_exec(e.as_str())))
            },
            _ => FetchAction::Ignore,
        }
    }
}

/// How far a remote compile has come.
#[derive(Debug, Clone, Copy, PartialEq, Eq, Structural)]
pub enum CompilePhase {
    Ready,
    Sending,
    /// Reading the body of a successful response.
    ReadingOutput,
    /// Reading the body of a response with this failing status.
    ReadingRejection(u16),
    Finished,
}

/// What the runtime reports to a remote compile.
#[derive(Debug)]
pub enum CompileEvent {
    /// Start compiling `code` under the compiler name `lang`.
    Begin { code: String, lang: String },
    /// The JSON request body could not be built; the error's text.
    EncodeFailed(String),
    /// The request could not be sent; the transport error's text.
    SendFailed(String),
    /// A response arrived: whether its status is a success, and the status code.
    Responded { ok: bool, status: u16 },
    /// The response body as text, or the error that reading it gave.
    TextRead(Result<String, String>),
}

/// What a remote compile asks the runtime to do.
#[derive(Debug)]
pub enum CompileAction {
    /// POST `{"code": code, "lang": lang}` as JSON to `url`.
    PostJson { url: String, code: String, lang: String },
    /// Read the response body as text.
    ReadText,
    /// The compile is over; hand this to the caller.
    Finish(Result<String, String>),
    /// The event does not fit the current phase.
    Ignore,
}

pub enum CompileActionView {
    PostJson { url: Seq<char>, code: Seq<char>, lang: Seq<char> },
    ReadText,
    Finish(Result<Seq<char>, Seq<char>>),
    Ignore,
}

impl View for CompileAction {
    type V = CompileActionView;

    open spec fn view(&self) -> CompileActionView {
        match self {
            CompileAction::PostJson { url, code, lang } => CompileActionView::PostJson { url: url@, code: code@, lang: lang@ },
            CompileAction::ReadText => CompileActionView::ReadText,
            CompileAction::Finish(Ok(t)) => CompileActionView::Finish(Ok(t@)),
            CompileAction::Finish(Err(e)) => CompileActionView::Finish(Err(e@)),
            CompileAction::Ignore => CompileActionView::Ignore,
        }
    }
}

/// The endpoint of the compiler backend.
pub open spec fn compile_url() -> Seq<char> {
    "http://127.0.0.1:3000/api/compile"@
}

/// What the caller receives when the backend answers with a failing status.
pub open spec fn rejection_text(status: u16, body: Result<Seq<char>, Seq<char>>) -> Seq<char> {
    "Backend rejected request (Status "@ + decimal(status as nat) + "): "@ + match body {
        Ok(t) => t,
        Err(_) => "No error details available"@,
    }
}

/// The phase a remote compile moves to on `event`.
pub open spec fn compile_next_phase(phase: CompilePhase, event: CompileEvent) -> CompilePhase {
    match (phase, event) {
        (CompilePhase::Ready, CompileEvent::Begin { .. }) => CompilePhase::Sending,
        (CompilePhase::Sending, CompileEvent::EncodeFailed(_)) => CompilePhase::Finished,
        (CompilePhase::Sending, CompileEvent::SendFailed(_)) => CompilePhase::Finished,
        (CompilePhase::Sending, CompileEvent::Responded { ok, status }) => if ok {
            CompilePhase::ReadingOutput
        } else {
            CompilePhase::ReadingRejection(status)
        },
        (CompilePhase::ReadingOutput, CompileEvent::TextRead(_)) => CompilePhase::Finished,
        (CompilePhase::ReadingRejection(_), CompileEvent::TextRead(_)) => CompilePhase::Finished,
        _ => phase,
    }
}

/// What a remote compile asks for on `event`.
pub open spec fn compile_action(phase: CompilePhase, event: CompileEvent) -> CompileActionView {
    match (phase, event) {
        (CompilePhase::Ready, CompileEvent::Begin { code, lang }) => CompileActionView::PostJson {
            url: compile_url(),
            code: code@,
            lang: lang@,
        },
        (CompilePhase::Sending, CompileEvent::EncodeFailed(e)) => CompileActionView::Finish(Err("Serialization error: "@ + e@)),
        (CompilePhase::Sending, CompileEvent::SendFailed(e)) => CompileActionView::Finish(Err("Compiler network error: "@ + e@)),
        (CompilePhase::Sending, CompileEvent::Responded { .. }) => CompileActionView::ReadText,
        (CompilePhase::ReadingOutput, CompileEvent::TextRead(Ok(t))) => CompileActionView::Finish(Ok(t@)),
        (CompilePhase::ReadingOutput, CompileEvent::TextRead(Err(e))) => CompileActionView::Finish(
            Err("Failed to read compiler output: "@ + e@),
        ),
        (CompilePhase::ReadingRejection(status), CompileEvent::TextRead(r)) => CompileActionView::Finish(
            Err(rejection_text(status, match r {
                Ok(t) => Ok(t@),
                Err(e) => Err(e@),
            })),
        ),
        _ => CompileActionView::Ignore,
    }
}

/// One remote compile in progress.
#[derive(Debug)]
pub struct CompileRun {
    pub phase: CompilePhase,
}

impl CompileRun {
    /// A compile not yet begun.
    pub fn new() -> (r: Self)
        ensures
            r.phase == CompilePhase::Ready,
    {
        CompileRun { phase: CompilePhase::Ready }
    }

    /// Takes the runtime's report and says what to do next.
    pub fn step(&mut self, event: CompileEvent) -> (action: CompileAction)
        ensures
            final(self).phase == compile_next_phase(old(self).phase, event),
            action@ == compile_action(old(self).phase, event),
    {
        match (self.phase, event) {
            (CompilePhase::Ready, CompileEvent::Begin { code, lang }) => {
                self.phase = CompilePhase::Sending;
                CompileAction::PostJson { url: "http://127.0.0.1:3000/api/compile".to_string(), code, lang }
            },
            (CompilePhase::Sending, CompileEvent::EncodeFailed(e)) => {
                self.phase = CompilePhase::Finished;
                CompileAction::Finish(Err(concat_text("Serialization error: ", e.as_str())))
            },
            (CompilePhase::Sending, CompileEvent::SendFailed(e)) => {
                self.phase = CompilePhase::Finished;
                CompileAction::Finish(Err(concat_text("Compiler network error: ", e.as_str())))
            },
            (CompilePhase::Sending, CompileEvent::Responded { ok, status }) => {
                self.phase = if ok {
                    CompilePhase::ReadingOutput
                } else {
                    CompilePhase::ReadingRejection(status)
                };
                CompileAction::ReadText
            },
            (CompilePhase::ReadingOutput, CompileEvent::TextRead(Ok(t))) => {
                self.phase = CompilePhase::Finished;
                CompileAction::Finish(Ok(t))
            },
            (CompilePhase::ReadingOutput, CompileEvent::TextRead(Err(e))) => {
                self.phase = CompilePhase::Finished;
                CompileAction::Finish(Err(concat_text("Failed to read compiler output: ", e.as_str())))
            },
            (CompilePhase::ReadingRejection(status), CompileEvent::TextRead(r)) => {
                self.phase = CompilePhase::Finished;
                let mut m = "Backend rejected request (Status ".to_string();
                write_decimal(&mut m, status as u64);
                m.append("): ");
                match r {
                    Ok(t) => m.append(t.as_str()),
                    Err(_) => m.append("No error details available"),
                }
                CompileAction::Finish(Err(m))
            },
            _ => CompileAction::Ignore,
        }
    }
}

/// A finished fetch stays finished and asks for nothing more, whatever is reported.
pub proof fn lemma_finished_fetch_is_final<T>(source: FeedSource, event: FetchEvent<T>)
    ensures
        fetch_next_phase(source, FetchPhase::Finished, event) == FetchPhase::Finished,
        fetch_action(source, FetchPhase::Finished, event) == FetchActionView::<T>::Ignore,
{
}

/// A fetch that is sent, answered with a success status and decoded hands the
/// decoded items to the caller unchanged.
pub proof fn lemma_successful_fetch_delivers_items<T>(source: FeedSource, arg: String, status: u16, items: Vec<T>)
    requires
        !source.skips(arg@),
    ensures
        fetch_action(source, FetchPhase::Ready, FetchEvent::<T>::Begin(arg)) == FetchActionView::<T>::Get(source.spec_url(arg@)),
        fetch_next_phase(source, FetchPhase::Ready, FetchEvent::<T>::Begin(arg)) == FetchPhase::Requesting,
        fetch_next_phase(source, FetchPhase::Requesting, FetchEvent::<T>::Responded { ok: true, status }) == FetchPhase::Decoding,
        fetch_action(source, FetchPhase::Decoding, FetchEvent::Decoded(Ok(items))) == FetchActionView::<T>::Finish(Ok(items@)),
{
}

/// A failing status ends the fetch with an error naming that status; no items are delivered.
pub proof fn lemma_failing_status_reports_status<T>(source: FeedSource, status: u16)
    ensures
        fetch_next_phase(source, FetchPhase::Requesting, FetchEvent::<T>::Responded { ok: false, status }) == FetchPhase::Finished,
        fetch_action(source, FetchPhase::Requesting, FetchEvent::<T>::Responded { ok: false, status })
            == FetchActionView::<T>::Finish(Err(source.status_error(status))),
{
}

/// A finished compile stays finished and asks for nothing more.
pub proof fn lemma_finished_compile_is_final(event: CompileEvent)
    ensures
        compile_next_phase(CompilePhase::Finished, event) == CompilePhase::Finished,
        compile_action(CompilePhase::Finished, event) == CompileActionView::Ignore,
{
}

/// A compile that is sent and answered with a success status hands the body
/// text to the caller unchanged; with a failing status, the caller gets an
/// error naming the status and carrying the body.
pub proof fn lemma_compile_answer(code: String, lang: String, ok: bool, status: u16, body: String)
    ensures
        compile_next_phase(CompilePhase::Ready, CompileEvent::Begin { code, lang }) == CompilePhase::Sending,
        ({
            let reading = compile_next_phase(CompilePhase::Sending, CompileEvent::Responded { ok, status });
            compile_action(reading, CompileEvent::TextRead(Ok(body))) == if ok {
                CompileActionView::Finish(Ok(body@))
            } else {
                CompileActionView::Finish(Err(rejection_text(status, Ok(body@))))
            }
        }),
{
}

} // verus!
