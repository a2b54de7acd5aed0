//! The news feeds shown on the dashboard.
use vstd::prelude::*;
use crate::text::concat_text;

verus! {

/// One headline of a news feed.
#[derive(Clone, Debug, PartialEq)]
pub struct NewsItem {
    pub title: String,
    pub source: String,
    pub timestamp: String,
    pub link: String,
}

pub struct NewsView {
    pub title: Seq<char>,
    pub source: Seq<char>,
    pub timestamp: Seq<char>,
    pub link: Seq<char>,
}

impl View for NewsItem {
    type V = NewsView;

    open spec fn view(&self) -> NewsView {
        NewsView { title: self.title@, source: self.source@, timestamp: self.timestamp@, link: self.link@ }
    }
}

pub open spec fn news_view(title: Seq<char>, source: Seq<char>, timestamp: Seq<char>, link: Seq<char>) -> NewsView {
    NewsView { title, source, timestamp, link }
}

pub open spec fn news_views(items: Seq<NewsItem>) -> Seq<NewsView> {
    items.map_values(|n: NewsItem| n@)
}

/// The Arch Linux feed.
pub open spec fn arch_news() -> Seq<NewsView> {
    seq![
        news_view("Kernel 6.13 Update"@, "Arch Linux"@, "1h ago"@, "#"@),
        news_view("Plasma 6.2 Deployment"@, "Arch Linux"@, "4h ago"@, "#"@),
    ]
}

/// The AUR feed.
pub open spec fn aur_news() -> Seq<NewsView> {
    seq![news_view("AUR RPC Protocol Update"@, "AUR"@, "2d ago"@, "#"@)]
}

/// How a feed widget shows an item: `[timestamp] title`.
pub open spec fn headline_text(n: NewsView) -> Seq<char> {
    "["@ + n.timestamp + "] "@ + n.title
}

impl NewsItem {
    /// An item holding copies of the given texts.
    pub fn new(title: &str, source: &str, timestamp: &str, link: &str) -> (n: Self)
        ensures
            n@ == news_view(title@, source@, timestamp@, link@),
    {
        NewsItem {
            title: title.to_string(),
            source: source.to_string(),
            timestamp: timestamp.to_string(),
            link: link.to_string(),
        }
    }

    /// The line a feed widget shows for this item.
    pub fn headline(&self) -> (line: String)
        ensures
            line@ == headline_text(self@),
    {
        let mut line = concat_text("[", self.timestamp.as_str());
        line.append("] ");
        line.append(self.title.as_str());
        assert(line@ =~= headline_text(self@));
        line
    }
}

/// The Arch Linux news feed.
pub fn fetch_arch_news() -> (items: Vec<NewsItem>)
    ensures
        news_views(items@) == arch_news(),
{
    let mut items: Vec<NewsItem> = Vec::new();
    items.push(NewsItem::new("Kernel 6.13 Update", "Arch Linux", "1h ago", "#"));
    items.push(NewsItem::new("Plasma 6.2 Deployment", "Arch Linux", "4h ago", "#"));
    assert(news_views(items@) =~= arch_news());
    items
}

/// The AUR news feed.
pub fn fetch_aur_news() -> (items: Vec<NewsItem>)
    ensures
        news_views(items@) == aur_news(),
{
    let mut items: Vec<NewsItem> = Vec::new();
    items.push(NewsItem::new("AUR RPC Protocol Update", "AUR", "2d ago", "#"));
    assert(news_views(items@) =~= aur_news());
    items
}

} // verus!
