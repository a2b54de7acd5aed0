use subgrid::models::{aur_package_link, description_or, number_from_string_or_int, GithubRepo, StringOrInt};
use subgrid::news::{fetch_arch_news, fetch_aur_news, NewsItem};
use subgrid::server::{aur_upstream_url, compile_note, compile_reply, proxy_error, ProxyFailure};
use subgrid::text::{decimal_string, IntErrorKind};

fn repo(updated: &str, description: Option<&str>) -> GithubRepo {
    GithubRepo {
        name: "subgrid".to_string(),
        html_url: "https://github.com/darkstardevx/subgrid".to_string(),
        description: description.map(|d| d.to_string()),
        updated_at: updated.to_string(),
    }
}

#[test]
fn repository_labels() {
    assert_eq!(repo("2024-11-19T09:01:00Z", None).updated_label(), "Updated: 2024-11-19");
    assert_eq!(repo("yesterday", None).updated_label(), "Updated: Unknown");
    assert_eq!(repo("", None).updated_label(), "Updated: Unknown");
    assert_eq!(repo("x", Some("Grid core")).description_text("No tracking layout description provided."), "Grid core");
    assert_eq!(repo("x", None).description_text("No tracking layout description provided."), "No tracking layout description provided.");
    assert_eq!(description_or(&None, ""), "");
}

#[test]
fn aur_links() {
    assert_eq!(aur_package_link("hypr-audio-hud"), "https://aur.archlinux.org/packages/hypr-audio-hud");
}

#[test]
fn vote_counts() {
    assert_eq!(number_from_string_or_int(StringOrInt::Int(42)), Ok(42));
    assert_eq!(number_from_string_or_int(StringOrInt::Str("17".to_string())), Ok(17));
    assert_eq!(number_from_string_or_int(StringOrInt::Str("x".to_string())), Err(IntErrorKind::InvalidDigit));
    assert_eq!(number_from_string_or_int(StringOrInt::Str("".to_string())), Err(IntErrorKind::Empty));
    assert_eq!(number_from_string_or_int(StringOrInt::Str("4294967296".to_string())), Err(IntErrorKind::PosOverflow));
}

#[test]
fn vote_count_text_or_number_agree() {
    for n in [0u32, 5, 1234, u32::MAX] {
        let text = decimal_string(n as u64);
        assert_eq!(number_from_string_or_int(StringOrInt::Str(text)), number_from_string_or_int(StringOrInt::Int(n)));
    }
}

#[test]
fn news_feeds() {
    let arch = fetch_arch_news();
    assert_eq!(arch, vec![
        NewsItem::new("Kernel 6.13 Update", "Arch Linux", "1h ago", "#"),
        NewsItem::new("Plasma 6.2 Deployment", "Arch Linux", "4h ago", "#"),
    ]);
    let aur = fetch_aur_news();
    assert_eq!(aur.len(), 1);
    assert_eq!(aur[0].title, "AUR RPC Protocol Update");
    assert_eq!(aur[0].source, "AUR");
    assert_eq!(arch[0].headline(), "[1h ago] Kernel 6.13 Update");
    assert_eq!(aur[0].headline(), "[2d ago] AUR RPC Protocol Update");
}

#[test]
fn server_replies() {
    assert_eq!(compile_reply("fn main(){}", "rust-1.78"), "Compiler backend received 11 bytes of rust-1.78 code.");
    assert_eq!(compile_reply("é", "lua-5.4"), "Compiler backend received 2 bytes of lua-5.4 code.");
    assert_eq!(compile_note("abc", "go-1.22"), "Received request to compile go-1.22 code (length: 3)");
    assert_eq!(aur_upstream_url(Some("yay")), "https://aur.archlinux.org/rpc/v5/search/yay");
    assert_eq!(aur_upstream_url(None), "https://aur.archlinux.org/rpc/v5/search/");
    assert_eq!(proxy_error(ProxyFailure::Unreachable), "AUR unavailable");
    assert_eq!(proxy_error(ProxyFailure::Unparsable), "Parse failure");
}
