use vstd::prelude::*;
use vstd::string::*;

verus! {

/// `text` in lower case, as `str::to_lowercase` of the standard library gives
/// it.
pub uninterp spec fn lowercased(text: Seq<char>) -> Seq<char>;

/// Calls `str::to_lowercase`. The contract claims only that the text returned
/// is determined by the characters of `text`.
#[verifier::external_body]
fn lowercase_of(text: &str) -> (lower: String)
    ensures
        lower@ == lowercased(text@),
{
    text.to_lowercase()
}

/// `needle` stands in `hay` at `i`.
pub open spec fn occurs_at(needle: Seq<u8>, hay: Seq<u8>, i: int) -> bool {
    0 <= i && i + needle.len() <= hay.len() && hay.subrange(i, i + needle.len()) == needle
}

/// `needle` stands somewhere in `hay`, as a run of bytes next to each other.
pub open spec fn occurs_in(needle: Seq<u8>, hay: Seq<u8>) -> bool {
    exists|i: int| #[trigger] occurs_at(needle, hay, i)
}

/// Whether `needle` stands in `hay` at `i`.
pub fn found_at(needle: &[u8], hay: &[u8], i: usize) -> (found: bool)
    ensures
        found == occurs_at(needle@, hay@, i as int),
{
    let size = hay.len();
    if i > size || needle.len() > size - i {
        return false;
    }
    let mut k: usize = 0;
    while k < needle.len()
        invariant
            k <= needle.len(),
            i + needle@.len() <= hay@.len(),
            hay@.len() == size,
            forall|j: int| 0 <= j < k ==> hay@[i + j] == needle@[j],
        decreases needle.len() - k,
    {
        if hay[i + k] != needle[k] {
            proof {
                assert(hay@.subrange(i as int, i + needle@.len())[k as int] == hay@[i + k]);
            }
            return false;
        }
        k += 1;
    }
    proof {
        assert(hay@.subrange(i as int, i + needle@.len()) =~= needle@);
    }
    true
}

/// Whether `needle` stands somewhere in `hay`.
pub fn contains_bytes(needle: &[u8], hay: &[u8]) -> (found: bool)
    ensures
        found == occurs_in(needle@, hay@),
{
    if needle.len() > hay.len() {
        return false;
    }
    let last: usize = hay.len() - needle.len();
    let mut i: usize = 0;
    while i < last
        invariant
            i <= last,
            last + needle@.len() == hay@.len(),
            forall|j: int| 0 <= j < i ==> !occurs_at(needle@, hay@, j),
        decreases last - i,
    {
        if found_at(needle, hay, i) {
            return true;
        }
        i += 1;
    }
    found_at(needle, hay, last)
}

/// A name passes the search text if, both taken in lower case, the search
/// text stands in the name. An empty search text lets every name pass.
pub open spec fn passes(name: Seq<char>, search: Seq<char>) -> bool {
    search.len() == 0 || occurs_in(
        vstd::utf8::encode_utf8(lowercased(search)),
        vstd::utf8::encode_utf8(lowercased(name)),
    )
}

/// Whether the row of the entry called `name` is shown under the search text
/// `search`.
pub fn matches_search(name: &str, search: &str) -> (shown: bool)
    ensures
        shown == passes(name@, search@),
{
    if search.is_empty() {
        return true;
    }
    let low_name = lowercase_of(name);
    let low_search = lowercase_of(search);
    contains_bytes(low_search.as_str().as_bytes(), low_name.as_str().as_bytes())
}

} // verus!
