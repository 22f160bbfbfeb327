//! Checks on the URL list that a session is started with.
use vstd::prelude::*;

verus! {

/// Whether `s` parses as an absolute URL.
pub uninterp spec fn is_absolute_url(s: Seq<char>) -> bool;

/// Every entry of `urls` parses as an absolute URL.
pub open spec fn all_absolute_urls(urls: Seq<Seq<char>>) -> bool {
    forall|i: int| 0 <= i < urls.len() ==> #[trigger] is_absolute_url(urls[i])
}

/// Relies on `url::Url::parse`: it accepts or rejects a string by its
/// characters alone, the same way on every call.
#[verifier::external_body]
fn parses_as_url(s: &str) -> (r: bool)
    ensures
        r == is_absolute_url(s@),
{
    url::Url::parse(s).is_ok()
}

/// The views of the strings in `v`.
pub open spec fn string_views(v: Seq<String>) -> Seq<Seq<char>> {
    v.map_values(|s: String| s@)
}

/// Whether every entry of `urls` parses as an absolute URL.
pub fn urls_well_formed(urls: &Vec<String>) -> (r: bool)
    ensures
        r == all_absolute_urls(string_views(urls@)),
{
    let mut i: usize = 0;
    while i < urls.len()
        invariant
            i <= urls@.len(),
            all_absolute_urls(string_views(urls@.subrange(0, i as int))),
        decreases urls@.len() - i,
    {
        let ok = parses_as_url(urls[i].as_str());
        if !ok {
            assert(!is_absolute_url(string_views(urls@)[i as int]));
            return false;
        }
        assert(string_views(urls@.subrange(0, i as int + 1)) =~= string_views(
            urls@.subrange(0, i as int),
        ).push(urls@[i as int]@));
        i = i + 1;
    }
    assert(urls@.subrange(0, i as int) =~= urls@);
    true
}

} // verus!
