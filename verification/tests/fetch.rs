use subgrid::fetch::{
    CompileAction, CompileEvent, CompilePhase, CompileRun, FeedFetch, FeedSource, FetchAction,
    FetchEvent, FetchPhase,
};

fn get_url(a: FetchAction<u32>) -> String {
    match a {
        FetchAction::Get(u) => u,
        other => panic!("expected a request, got {:?}", other),
    }
}

fn finished(a: FetchAction<u32>) -> Result<Vec<u32>, String> {
    match a {
        FetchAction::Finish(r) => r,
        other => panic!("expected the end, got {:?}", other),
    }
}

#[test]
fn github_fetch_success() {
    let mut f = FeedFetch::new(FeedSource::GithubRepos);
    let url = get_url(f.step(FetchEvent::Begin("darkstardevx".to_string())));
    assert_eq!(url, "https://api.github.com/users/darkstardevx/repos?sort=updated&per_page=5");
    assert_eq!(f.phase, FetchPhase::Requesting);
    assert!(matches!(f.step(FetchEvent::<u32>::Responded { ok: true, status: 200 }), FetchAction::DecodeJson));
    assert_eq!(finished(f.step(FetchEvent::Decoded(Ok(vec![3, 1, 2])))), Ok(vec![3, 1, 2]));
    assert_eq!(f.phase, FetchPhase::Finished);
    assert!(matches!(f.step(FetchEvent::<u32>::SendFailed("late".to_string())), FetchAction::Ignore));
    assert_eq!(f.phase, FetchPhase::Finished);
}

#[test]
fn empty_user_needs_no_request() {
    let mut f = FeedFetch::new(FeedSource::GithubRepos);
    assert_eq!(finished(f.step(FetchEvent::Begin(String::new()))), Ok(vec![]));
    let mut g = FeedFetch::new(FeedSource::AurPackages);
    assert_eq!(finished(g.step(FetchEvent::Begin(String::new()))), Ok(vec![]));
}

#[test]
fn fetch_error_texts() {
    let mut f = FeedFetch::new(FeedSource::GithubRepos);
    f.step(FetchEvent::<u32>::Begin("octo".to_string()));
    assert_eq!(finished(f.step(FetchEvent::SendFailed("offline".to_string()))), Err("Network request failed: offline".to_string()));

    let mut g = FeedFetch::new(FeedSource::GithubRepos);
    g.step(FetchEvent::<u32>::Begin("octo".to_string()));
    assert_eq!(finished(g.step(FetchEvent::Responded { ok: false, status: 404 })), Err("GitHub API returned status: 404".to_string()));

    let mut h = FeedFetch::new(FeedSource::GithubRepos);
    h.step(FetchEvent::<u32>::Begin("octo".to_string()));
    h.step(FetchEvent::<u32>::Responded { ok: true, status: 200 });
    assert_eq!(finished(h.step(FetchEvent::Decoded(Err("EOF".to_string())))), Err("Failed to parse repository payload: EOF".to_string()));

    let mut a = FeedFetch::new(FeedSource::AurPackages);
    assert_eq!(get_url(a.step(FetchEvent::Begin("darkstardevx".to_string()))), "http://127.0.0.1:3000/api/aur/search?arg=darkstardevx");
    assert_eq!(finished(a.step(FetchEvent::Responded { ok: false, status: 502 })), Err("AUR RPC engine proxy returned status code: 502".to_string()));

    let mut b = FeedFetch::new(FeedSource::AurPackages);
    b.step(FetchEvent::<u32>::Begin("m".to_string()));
    assert_eq!(finished(b.step(FetchEvent::SendFailed("refused".to_string()))), Err("AUR API Request failed: refused".to_string()));

    let mut c = FeedFetch::new(FeedSource::AurPackages);
    c.step(FetchEvent::<u32>::Begin("m".to_string()));
    c.step(FetchEvent::<u32>::Responded { ok: true, status: 200 });
    assert_eq!(finished(c.step(FetchEvent::Decoded(Err("bad".to_string())))), Err("Failed to parse AUR JSON payload: bad".to_string()));
}

#[test]
fn aur_search_threshold_and_texts() {
    let mut f = FeedFetch::new(FeedSource::AurSearch);
    assert_eq!(finished(f.step(FetchEvent::Begin("ab".to_string()))), Ok(vec![]));
    let mut g = FeedFetch::new(FeedSource::AurSearch);
    assert_eq!(finished(g.step(FetchEvent::Begin("é".to_string()))), Ok(vec![]));
    let mut h = FeedFetch::new(FeedSource::AurSearch);
    assert_eq!(get_url(h.step(FetchEvent::Begin("éa".to_string()))), "http://127.0.0.1:3000/api/aur/search?arg=éa");
    let mut k = FeedFetch::new(FeedSource::AurSearch);
    assert_eq!(get_url(k.step(FetchEvent::Begin("yay".to_string()))), "http://127.0.0.1:3000/api/aur/search?arg=yay");
    assert_eq!(finished(k.step(FetchEvent::Responded { ok: false, status: 500 })), Err("AUR Search error: 500".to_string()));
    let mut m = FeedFetch::new(FeedSource::AurSearch);
    m.step(FetchEvent::<u32>::Begin("yay".to_string()));
    assert_eq!(finished(m.step(FetchEvent::SendFailed("dns".to_string()))), Err("AUR Search failed: dns".to_string()));
    let mut n = FeedFetch::new(FeedSource::AurSearch);
    n.step(FetchEvent::<u32>::Begin("yay".to_string()));
    n.step(FetchEvent::<u32>::Responded { ok: true, status: 200 });
    assert_eq!(finished(n.step(FetchEvent::Decoded(Err("x".to_string())))), Err("Parse error: x".to_string()));
}

#[test]
fn out_of_order_reports_are_ignored() {
    let mut f = FeedFetch::new(FeedSource::GithubRepos);
    assert!(matches!(f.step(FetchEvent::<u32>::Responded { ok: true, status: 200 }), FetchAction::Ignore));
    assert_eq!(f.phase, FetchPhase::Ready);
    assert!(matches!(f.step(FetchEvent::<u32>::Decoded(Ok(vec![]))), FetchAction::Ignore));
}

fn compile_finish(a: CompileAction) -> Result<String, String> {
    match a {
        CompileAction::Finish(r) => r,
        other => panic!("expected the end, got {:?}", other),
    }
}

fn begun() -> CompileRun {
    let mut r = CompileRun::new();
    match r.step(CompileEvent::Begin { code: "fn main() {}".to_string(), lang: "rust-1.78".to_string() }) {
        CompileAction::PostJson { url, code, lang } => {
            assert_eq!(url, "http://127.0.0.1:3000/api/compile");
            assert_eq!(code, "fn main() {}");
            assert_eq!(lang, "rust-1.78");
        },
        other => panic!("unexpected {:?}", other),
    }
    r
}

#[test]
fn compile_success_passes_output() {
    let mut r = begun();
    assert!(matches!(r.step(CompileEvent::Responded { ok: true, status: 200 }), CompileAction::ReadText));
    assert_eq!(r.phase, CompilePhase::ReadingOutput);
    assert_eq!(compile_finish(r.step(CompileEvent::TextRead(Ok("built".to_string())))), Ok("built".to_string()));
    assert!(matches!(r.step(CompileEvent::TextRead(Ok("again".to_string()))), CompileAction::Ignore));
}

#[test]
fn compile_rejections() {
    let mut r = begun();
    assert!(matches!(r.step(CompileEvent::Responded { ok: false, status: 422 }), CompileAction::ReadText));
    assert_eq!(r.phase, CompilePhase::ReadingRejection(422));
    assert_eq!(compile_finish(r.step(CompileEvent::TextRead(Ok("bad lang".to_string())))), Err("Backend rejected request (Status 422): bad lang".to_string()));

    let mut s = begun();
    s.step(CompileEvent::Responded { ok: false, status: 500 });
    assert_eq!(compile_finish(s.step(CompileEvent::TextRead(Err("io".to_string())))), Err("Backend rejected request (Status 500): No error details available".to_string()));

    let mut t = begun();
    assert_eq!(compile_finish(t.step(CompileEvent::SendFailed("refused".to_string()))), Err("Compiler network error: refused".to_string()));

    let mut u = begun();
    assert_eq!(compile_finish(u.step(CompileEvent::EncodeFailed("nan".to_string()))), Err("Serialization error: nan".to_string()));

    let mut v = begun();
    v.step(CompileEvent::Responded { ok: true, status: 200 });
    assert_eq!(compile_finish(v.step(CompileEvent::TextRead(Err("cut".to_string())))), Err("Failed to read compiler output: cut".to_string()));
}
