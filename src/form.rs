use vstd::prelude::*;

verus! {

/// Name–value pairs in `application/x-www-form-urlencoded` form.
pub uninterp spec fn form_encoded(pairs: Seq<(Seq<char>, Seq<char>)>) -> Seq<char>;

/// Pairs of string slices seen as pairs of character sequences.
pub open spec fn pairs_view(pairs: Seq<(&str, &str)>) -> Seq<(Seq<char>, Seq<char>)> {
    pairs.map_values(|p: (&str, &str)| (p.0@, p.1@))
}

/// Relies on `serde_urlencoded::to_string` on a slice of pairs: each name
/// and value percent-encoded, joined by `=` and `&` (a sequence of string
/// pairs always serialises).
#[verifier::external_body]
pub(crate) fn encode(pairs: &[(&str, &str)]) -> (r: String)
    ensures
        r@ == form_encoded(pairs_view(pairs@)),
{
    serde_urlencoded::to_string(pairs).unwrap_or_default()
}

} // verus!
