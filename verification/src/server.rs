//! The backend's replies: the compile endpoint and the AUR search proxy.
use vstd::prelude::*;
use crate::text::{concat_text, decimal, write_decimal};

verus! {

/// The compile endpoint's `output` for `code` (its length in UTF-8 bytes) in `lang`.
pub open spec fn compile_reply_text(code_bytes: usize, lang: Seq<char>) -> Seq<char> {
    "Compiler backend received "@ + decimal(code_bytes as nat) + " bytes of "@ + lang + " code."@
}

/// The console note for a compile request.
pub open spec fn compile_note_text(code_bytes: usize, lang: Seq<char>) -> Seq<char> {
    "Received request to compile "@ + lang + " code (length: "@ + decimal(code_bytes as nat) + ")"@
}

/// What the compile endpoint answers for a request.
pub fn compile_reply(code: &str, lang: &str) -> (reply: String)
    ensures
        reply@ == compile_reply_text(code.len(), lang@),
{
    let mut reply = "Compiler backend received ".to_string();
    write_decimal(&mut reply, code.len() as u64);
    reply.append(" bytes of ");
    reply.append(lang);
    reply.append(" code.");
    assert(reply@ =~= compile_reply_text(code.len(), lang@));
    reply
}

/// The console note the backend prints for a compile request.
pub fn compile_note(code: &str, lang: &str) -> (note: String)
    ensures
        note@ == compile_note_text(code.len(), lang@),
{
    let mut note = concat_text("Received request to compile ", lang);
    note.append(" code (length: ");
    write_decimal(&mut note, code.len() as u64);
    note.append(")");
    assert(note@ =~= compile_note_text(code.len(), lang@));
    note
}

/// The AUR RPC search URL for the proxy's `arg` query parameter (empty when absent).
pub open spec fn aur_upstream_text(arg: Option<Seq<char>>) -> Seq<char> {
    "https://aur.archlinux.org/rpc/v5/search/"@ + match arg {
        Some(a) => a,
        None => Seq::empty(),
    }
}

/// The upstream URL the AUR proxy queries.
pub fn aur_upstream_url(arg: Option<&str>) -> (url: String)
    ensures
        url@ == aur_upstream_text(match arg {
            Some(a) => Some(a@),
            None => None,
        }),
{
    match arg {
        Some(a) => concat_text("https://aur.archlinux.org/rpc/v5/search/", a),
        None => {
            let url = "https://aur.archlinux.org/rpc/v5/search/".to_string();
            assert(url@ =~= aur_upstream_text(None));
            url
        },
    }
}

/// Why the AUR proxy could not pass the upstream answer on.
#[derive(Debug, Clone, Copy, PartialEq, Eq, Structural)]
pub enum ProxyFailure {
    /// The upstream request failed.
    Unreachable,
    /// The upstream answer was not JSON.
    Unparsable,
}

pub open spec fn proxy_error_text(f: ProxyFailure) -> Seq<char> {
    match f {
        ProxyFailure::Unreachable => "AUR unavailable"@,
        ProxyFailure::Unparsable => "Parse failure"@,
    }
}

/// The `error` the proxy answers with for a failure.
pub fn proxy_error(f: ProxyFailure) -> (m: &'static str)
    ensures
        m@ == proxy_error_text(f),
{
    match f {
        ProxyFailure::Unreachable => "AUR unavailable",
        ProxyFailure::Unparsable => "Parse failure",
    }
}

} // verus!
