//! Repository and package records as the dashboard shows them, and the
//! reading of AUR vote counts.
use vstd::prelude::*;
use crate::text::{IntErrorKind, concat_text, decimal, lemma_parse_u32_reads_decimal, leading_bytes, parse_u32, parse_unsigned, prefix_bytes};

verus! {

/// A GitHub repository as the GitHub API lists it.
#[derive(Clone, Debug, PartialEq)]
pub struct GithubRepo {
    pub name: String,
    pub html_url: String,
    pub description: Option<String>,
    pub updated_at: String,
}

/// `text`, or `fallback` when there is none.
pub open spec fn text_or(text: Option<Seq<char>>, fallback: Seq<char>) -> Seq<char> {
    match text {
        Some(t) => t,
        None => fallback,
    }
}

pub open spec fn option_view(text: Option<String>) -> Option<Seq<char>> {
    match text {
        Some(t) => Some(t@),
        None => None,
    }
}

/// The description text shown for an entry, or `fallback` when it has none.
pub fn description_or(description: &Option<String>, fallback: &str) -> (text: String)
    ensures
        text@ == text_or(option_view(*description), fallback@),
{
    match description {
        Some(d) => d.clone(),
        None => fallback.to_string(),
    }
}

/// The update label of a repository: `Updated: ` and the first ten bytes of the
/// timestamp (its date), or `Unknown` when it has no such prefix.
pub open spec fn updated_label_text(updated_at: Seq<char>) -> Seq<char> {
    "Updated: "@ + match leading_bytes(updated_at, 10) {
        Some(date) => date,
        None => "Unknown"@,
    }
}

impl GithubRepo {
    /// The label telling when the repository was last updated.
    pub fn updated_label(&self) -> (label: String)
        ensures
            label@ == updated_label_text(self.updated_at@),
    {
        match prefix_bytes(self.updated_at.as_str(), 10) {
            Some(date) => concat_text("Updated: ", date.as_str()),
            None => concat_text("Updated: ", "Unknown"),
        }
    }

    /// The description, or `fallback` when the repository has none.
    pub fn description_text(&self, fallback: &str) -> (text: String)
        ensures
            text@ == text_or(option_view(self.description), fallback@),
    {
        description_or(&self.description, fallback)
    }
}

/// The AUR page of the package `name`.
pub open spec fn aur_link_text(name: Seq<char>) -> Seq<char> {
    "https://aur.archlinux.org/packages/"@ + name
}

/// The link to the AUR page of the package `name`.
pub fn aur_package_link(name: &str) -> (link: String)
    ensures
        link@ == aur_link_text(name@),
{
    concat_text("https://aur.archlinux.org/packages/", name)
}

/// A vote count as the AUR sends it: a number, or a number written as text.
#[derive(Debug)]
pub enum StringOrInt {
    Int(u32),
    Str(String),
}

/// The vote count that a value stands for, or why its text is not a count.
pub open spec fn spec_number_from(v: StringOrInt) -> Result<int, IntErrorKind> {
    match v {
        StringOrInt::Int(i) => Ok(i as int),
        StringOrInt::Str(s) => parse_unsigned(s@, u32::MAX as int),
    }
}

/// Reads a vote count sent either as a number or as decimal text; text is read
/// as `str::parse::<u32>` reads it.
pub fn number_from_string_or_int(v: StringOrInt) -> (r: Result<u32, IntErrorKind>)
    ensures
        match r {
            Ok(n) => spec_number_from(v) == Ok::<int, IntErrorKind>(n as int),
            Err(e) => spec_number_from(v) == Err::<int, IntErrorKind>(e),
        },
{
    match v {
        StringOrInt::Int(i) => Ok(i),
        StringOrInt::Str(s) => parse_u32(s.as_str()),
    }
}

/// A count reads the same whether it is sent as a number or as its decimal text.
pub proof fn lemma_count_text_or_number_agree(n: u32, text: String)
    requires
        text@ == decimal(n as nat),
    ensures
        spec_number_from(StringOrInt::Str(text)) == spec_number_from(StringOrInt::Int(n)),
{
    lemma_parse_u32_reads_decimal(n);
}

} // verus!
