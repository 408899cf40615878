use vstd::prelude::*;

verus! {

/// The essence string (`type/subtype`, no parameters) of the first media type
/// that `mime_guess` maps the extension of `path` to, or `None` when the
/// extension is missing or unknown.
pub uninterp spec fn mime_essence_of(path: Seq<char>) -> Option<Seq<char>>;

/// The view of an optional string.
pub open spec fn opt_view(o: Option<String>) -> Option<Seq<char>> {
    match o {
        Some(s) => Some(s@),
        None => None,
    }
}

/// Relies on `mime_guess::from_path(..).first()` and `Mime::essence_str`: the
/// guess is a lookup of the path's extension in a fixed table, so it depends on
/// the path alone.
#[verifier::external_body]
pub(crate) fn guess_essence(path: &str) -> (r: Option<String>)
    ensures
        opt_view(r) == mime_essence_of(path@),
{
    match mime_guess::from_path(path).first() {
        Some(m) => Some(m.essence_str().to_string()),
        None => None,
    }
}

} // verus!
