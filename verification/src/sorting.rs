use crate::files::{FileEntry, FileType};
use vstd::prelude::*;

verus! {

/// Strict lexicographic order on byte strings: a proper prefix comes first,
/// otherwise the first byte that differs decides.
pub open spec fn lex_lt(a: Seq<u8>, b: Seq<u8>) -> bool
    decreases a.len(),
{
    if b.len() == 0 {
        false
    } else if a.len() == 0 {
        true
    } else if a[0] != b[0] {
        a[0] < b[0]
    } else {
        lex_lt(a.skip(1), b.skip(1))
    }
}

/// The order of a listing: everything that is not a regular file comes before
/// the regular files, and within each of the two groups the bytes of the name
/// decide.
pub open spec fn listed_before(a: FileEntry, b: FileEntry) -> bool {
    let a_file = a.file_type == FileType::File;
    let b_file = b.file_type == FileType::File;
    if a_file != b_file {
        b_file
    } else {
        lex_lt(a.name_bytes(), b.name_bytes())
    }
}

/// No entry stands behind one that the order puts strictly after it.
pub open spec fn ordered(s: Seq<FileEntry>) -> bool {
    forall|i: int, j: int| 0 <= i < j < s.len() ==> !listed_before(#[trigger] s[j], #[trigger] s[i])
}

/// How many entries at the head of `sorted` come strictly before `e`.
pub open spec fn slot(sorted: Seq<FileEntry>, e: FileEntry) -> int
    decreases sorted.len(),
{
    if sorted.len() > 0 && listed_before(sorted[0], e) {
        1 + slot(sorted.skip(1), e)
    } else {
        0
    }
}

/// The listing `s` in order. Entries that the order does not tell apart keep
/// the order they had in `s`.
pub open spec fn sort_listing(s: Seq<FileEntry>) -> Seq<FileEntry>
    decreases s.len(),
{
    if s.len() == 0 {
        Seq::empty()
    } else {
        let rest = sort_listing(s.skip(1));
        rest.insert(slot(rest, s[0]), s[0])
    }
}

/// Of two byte strings at most one comes strictly before the other.
pub proof fn lemma_lex_asymmetric(a: Seq<u8>, b: Seq<u8>)
    requires
        lex_lt(a, b),
    ensures
        !lex_lt(b, a),
    decreases a.len(),
{
    if a.len() > 0 && b.len() > 0 && a[0] == b[0] {
        lemma_lex_asymmetric(a.skip(1), b.skip(1));
    }
}

/// Where `a` does not come after `b` and `b` does not come after `c`, `a`
/// does not come after `c`.
pub proof fn lemma_lex_transitive(a: Seq<u8>, b: Seq<u8>, c: Seq<u8>)
    requires
        !lex_lt(b, a),
        !lex_lt(c, b),
    ensures
        !lex_lt(c, a),
    decreases a.len(),
{
    if a.len() > 0 && b.len() > 0 && c.len() > 0 && a[0] == b[0] && b[0] == c[0] {
        lemma_lex_transitive(a.skip(1), b.skip(1), c.skip(1));
    }
}

/// Two byte strings that the order does not tell apart are equal.
pub proof fn lemma_lex_connected(a: Seq<u8>, b: Seq<u8>)
    requires
        !lex_lt(a, b),
        !lex_lt(b, a),
    ensures
        a == b,
    decreases a.len(),
{
    if a.len() > 0 && b.len() > 0 {
        lemma_lex_connected(a.skip(1), b.skip(1));
        assert(a =~= seq![a[0]] + a.skip(1));
        assert(b =~= seq![b[0]] + b.skip(1));
    } else {
        assert(a =~= b);
    }
}

/// Where `a` is not listed after `b` and `b` is not listed after `c`, `a` is
/// not listed after `c`.
pub proof fn lemma_listed_transitive(a: FileEntry, b: FileEntry, c: FileEntry)
    requires
        !listed_before(b, a),
        !listed_before(c, b),
    ensures
        !listed_before(c, a),
{
    let a_file = a.file_type == FileType::File;
    let b_file = b.file_type == FileType::File;
    let c_file = c.file_type == FileType::File;
    if a_file == b_file && b_file == c_file {
        lemma_lex_transitive(a.name_bytes(), b.name_bytes(), c.name_bytes());
    }
}

/// Of two entries at most one is listed strictly before the other.
pub proof fn lemma_listed_asymmetric(a: FileEntry, b: FileEntry)
    requires
        listed_before(a, b),
    ensures
        !listed_before(b, a),
{
    if (a.file_type == FileType::File) == (b.file_type == FileType::File) {
        lemma_lex_asymmetric(a.name_bytes(), b.name_bytes());
    }
}

/// Where `slot` points: everything before it comes strictly before `e`, and
/// the entry at it, if there is one, does not.
pub proof fn lemma_slot(sorted: Seq<FileEntry>, e: FileEntry)
    ensures
        0 <= slot(sorted, e) <= sorted.len(),
        forall|i: int| 0 <= i < slot(sorted, e) ==> listed_before(#[trigger] sorted[i], e),
        slot(sorted, e) < sorted.len() ==> !listed_before(sorted[slot(sorted, e)], e),
    decreases sorted.len(),
{
    if sorted.len() > 0 && listed_before(sorted[0], e) {
        let rest = sorted.skip(1);
        lemma_slot(rest, e);
        assert forall|i: int| 0 <= i < slot(sorted, e) implies listed_before(
            #[trigger] sorted[i],
            e,
        ) by {
            if i > 0 {
                assert(sorted[i] == rest[i - 1]);
            }
        }
        if slot(sorted, e) < sorted.len() {
            assert(sorted[slot(sorted, e)] == rest[slot(rest, e)]);
        }
    }
}

/// Putting an entry into its slot keeps an ordered listing ordered.
pub proof fn lemma_insert_keeps_order(sorted: Seq<FileEntry>, e: FileEntry)
    requires
        ordered(sorted),
    ensures
        ordered(sorted.insert(slot(sorted, e), e)),
{
    lemma_slot(sorted, e);
    let k = slot(sorted, e);
    let out = sorted.insert(k, e);
    assert forall|i: int, j: int| 0 <= i < j < out.len() implies !listed_before(
        #[trigger] out[j],
        #[trigger] out[i],
    ) by {
        if j < k {
            assert(out[i] == sorted[i] && out[j] == sorted[j]);
        } else if j == k {
            assert(out[i] == sorted[i]);
            lemma_listed_asymmetric(sorted[i], e);
        } else if i == k {
            assert(out[j] == sorted[j - 1]);
            if j - 1 > k {
                assert(!listed_before(sorted[j - 1], sorted[k]));
                lemma_listed_transitive(e, sorted[k], sorted[j - 1]);
            }
        } else if i < k {
            assert(out[i] == sorted[i] && out[j] == sorted[j - 1]);
        } else {
            assert(out[i] == sorted[i - 1] && out[j] == sorted[j - 1]);
        }
    }
}

/// Sorting a listing loses no entry and adds none, and leaves it ordered.
pub proof fn lemma_sort_listing(s: Seq<FileEntry>)
    ensures
        sort_listing(s).len() == s.len(),
        sort_listing(s).to_multiset() == s.to_multiset(),
        ordered(sort_listing(s)),
    decreases s.len(),
{
    broadcast use vstd::seq_lib::group_to_multiset_ensures;

    if s.len() == 0 {
        assert(sort_listing(s) =~= s);
    } else {
        let rest = sort_listing(s.skip(1));
        lemma_sort_listing(s.skip(1));
        lemma_slot(rest, s[0]);
        lemma_insert_keeps_order(rest, s[0]);
        let k = slot(rest, s[0]);
        let out = rest.insert(k, s[0]);
        assert(out.remove(k) =~= rest);
        assert(out[k] == s[0]);
        assert(out.to_multiset().remove(s[0]) == rest.to_multiset());
        assert(out.to_multiset().count(s[0]) > 0) by {
            assert(out.contains(s[0]));
        }
        assert(out.to_multiset() =~= rest.to_multiset().insert(s[0]));
        assert(s.remove(0) =~= s.skip(1));
        assert(s.to_multiset().remove(s[0]) == s.skip(1).to_multiset());
        assert(s.to_multiset().count(s[0]) > 0) by {
            assert(s.contains(s[0]));
        }
        assert(s.to_multiset() =~= s.skip(1).to_multiset().insert(s[0]));
    }
}

/// Sorting changes nothing in a listing that is in order already, so sorting
/// twice gives what sorting once gives.
pub proof fn lemma_sort_keeps_ordered(s: Seq<FileEntry>)
    requires
        ordered(s),
    ensures
        sort_listing(s) == s,
    decreases s.len(),
{
    if s.len() == 0 {
        assert(sort_listing(s) =~= s);
    } else {
        let rest = s.skip(1);
        assert forall|i: int, j: int| 0 <= i < j < rest.len() implies !listed_before(
            #[trigger] rest[j],
            #[trigger] rest[i],
        ) by {
            assert(rest[i] == s[i + 1] && rest[j] == s[j + 1]);
        }
        lemma_sort_keeps_ordered(rest);
        if rest.len() > 0 {
            assert(rest[0] == s[1]);
            assert(!listed_before(s[1], s[0]));
        }
        assert(slot(rest, s[0]) == 0);
        assert(rest.insert(0, s[0]) =~= s);
    }
}

/// In an ordered listing whatever is not a regular file stands before every
/// regular file, and of two entries of the same group with different names the
/// earlier one has the strictly smaller name.
pub proof fn lemma_ordered_groups(s: Seq<FileEntry>, i: int, j: int)
    requires
        ordered(s),
        0 <= i < j < s.len(),
    ensures
        s[i].file_type == FileType::File ==> s[j].file_type == FileType::File,
        s[j].file_type == FileType::Directory ==> s[i].file_type != FileType::File,
        (s[i].file_type == FileType::File) == (s[j].file_type == FileType::File)
            && s[i].name_bytes() != s[j].name_bytes() ==> lex_lt(
            s[i].name_bytes(),
            s[j].name_bytes(),
        ),
{
    assert(!listed_before(s[j], s[i]));
    if (s[i].file_type == FileType::File) == (s[j].file_type == FileType::File)
        && s[i].name_bytes() != s[j].name_bytes() && !lex_lt(s[i].name_bytes(), s[j].name_bytes()) {
        lemma_lex_connected(s[i].name_bytes(), s[j].name_bytes());
    }
}

/// Whether `a` comes strictly before `b` as byte strings.
pub fn bytes_before(a: &[u8], b: &[u8]) -> (r: bool)
    ensures
        r == lex_lt(a@, b@),
{
    let mut i: usize = 0;
    proof {
        assert(a@.skip(0) =~= a@);
        assert(b@.skip(0) =~= b@);
    }
    while i < a.len() && i < b.len()
        invariant
            i <= a.len(),
            i <= b.len(),
            lex_lt(a@, b@) == lex_lt(a@.skip(i as int), b@.skip(i as int)),
        decreases a.len() - i,
    {
        if a[i] != b[i] {
            return a[i] < b[i];
        }
        proof {
            assert(a@.skip(i as int).skip(1) =~= a@.skip(i + 1));
            assert(b@.skip(i as int).skip(1) =~= b@.skip(i + 1));
        }
        i += 1;
    }
    i < b.len()
}

/// Whether `a` comes strictly before `b` in a listing.
pub fn entry_before(a: &FileEntry, b: &FileEntry) -> (r: bool)
    ensures
        r == listed_before(*a, *b),
{
    let a_file = a.file_type.is_file();
    let b_file = b.file_type.is_file();
    if a_file != b_file {
        b_file
    } else {
        bytes_before(a.file_name.as_str().as_bytes(), b.file_name.as_str().as_bytes())
    }
}

/// Puts a listing in order.
pub fn sort_entries(items: Vec<FileEntry>) -> (out: Vec<FileEntry>)
    ensures
        out@ == sort_listing(items@),
        out@.len() == items@.len(),
        out@.to_multiset() == items@.to_multiset(),
        ordered(out@),
{
    let ghost all = items@;
    let mut items = items;
    let mut out: Vec<FileEntry> = Vec::new();
    while items.len() > 0
        invariant
            items@ == all.take(items.len() as int),
            items.len() <= all.len(),
            out@ == sort_listing(all.skip(items.len() as int)),
        decreases items.len(),
    {
        let ghost n = items.len() as int;
        let e = items.pop().unwrap();
        let mut k: usize = 0;
        proof {
            lemma_sort_listing(all.skip(n));
            assert(out@.skip(0) =~= out@);
        }
        while k < out.len() && entry_before(&out[k], &e)
            invariant
                k <= out.len(),
                slot(out@, e) == k + slot(out@.skip(k as int), e),
            decreases out.len() - k,
        {
            proof {
                assert(out@.skip(k as int).skip(1) =~= out@.skip(k + 1));
            }
            k += 1;
        }
        proof {
            assert(all.skip(n - 1).skip(1) =~= all.skip(n));
            assert(all.skip(n - 1)[0] == e);
            assert(all.take(n).subrange(0, n - 1) =~= all.take(n - 1));
        }
        out.insert(k, e);
    }
    proof {
        assert(all.skip(0) =~= all);
        lemma_sort_listing(all);
    }
    out
}

} // verus!
