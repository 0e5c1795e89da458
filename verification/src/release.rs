//! One published version of a compatibility tool, and the total order used
//! to decide which release is "latest": newest publish time first, with a
//! lexicographic tag comparison as the tie-break for equal timestamps.

use vstd::prelude::*;

verus! {

/// One published version of a compatibility tool, as reported by the
/// release-hosting service. Immutable once fetched; never persisted.
#[derive(Clone, Debug)]
pub struct Release {
    /// Tag/version identifier; doubles as the installed directory name.
    pub tag_name: String,
    /// Download URL of the release's archive asset.
    pub asset_url: String,
    /// Publish timestamp, as seconds since the epoch.
    pub published_at: u64,
}

/// Strict lexicographic order on character sequences, by code point.
pub open spec fn lex_lt(a: Seq<char>, b: Seq<char>) -> bool
    decreases a.len(),
{
    if b.len() == 0 {
        false
    } else if a.len() == 0 {
        true
    } else if (a[0] as u32) < (b[0] as u32) {
        true
    } else if a[0] == b[0] {
        lex_lt(a.drop_first(), b.drop_first())
    } else {
        false
    }
}

/// A character is determined by its code point.
proof fn lemma_char_by_code_point(c1: char, c2: char)
    requires
        c1 as u32 == c2 as u32,
    ensures
        c1 == c2,
{
}

/// The order is total: two sequences that neither precede each other are
/// equal.
pub proof fn lemma_lex_lt_trichotomy(a: Seq<char>, b: Seq<char>)
    ensures
        lex_lt(a, b) || lex_lt(b, a) || a == b,
    decreases a.len(),
{
    if a.len() > 0 && b.len() > 0 && !lex_lt(a, b) && !lex_lt(b, a) {
        assert(a[0] as u32 == b[0] as u32);
        lemma_char_by_code_point(a[0], b[0]);
        lemma_lex_lt_trichotomy(a.drop_first(), b.drop_first());
        if a.drop_first() == b.drop_first() {
            assert(a.drop_first().len() == b.drop_first().len());
            assert(a.len() == b.len());
            assert forall|i: int| 0 <= i < a.len() implies a[i] == b[i] by {
                if i > 0 {
                    assert(a.drop_first()[i - 1] == a[i]);
                    assert(b.drop_first()[i - 1] == b[i]);
                }
            }
            assert(a =~= b);
        }
    }
}

/// The order is transitive.
pub proof fn lemma_lex_lt_transitive(a: Seq<char>, b: Seq<char>, c: Seq<char>)
    requires
        lex_lt(a, b),
        lex_lt(b, c),
    ensures
        lex_lt(a, c),
    decreases a.len(),
{
    if a.len() > 0 && b.len() > 0 && c.len() > 0 {
        if a[0] == b[0] && b[0] == c[0] {
            lemma_lex_lt_transitive(a.drop_first(), b.drop_first(), c.drop_first());
        }
    }
}

/// The order is irreflexive.
pub proof fn lemma_lex_lt_irreflexive(a: Seq<char>)
    ensures
        !lex_lt(a, a),
    decreases a.len(),
{
    if a.len() > 0 {
        lemma_lex_lt_irreflexive(a.drop_first());
    }
}

/// Lexicographic comparison of two strings, by character code point.
pub fn str_lex_lt(a: &str, b: &str) -> (r: bool)
    ensures
        r == lex_lt(a@, b@),
{
    let alen = a.unicode_len();
    let blen = b.unicode_len();
    let mut i: usize = 0;
    proof {
        assert(a@.skip(0) =~= a@);
        assert(b@.skip(0) =~= b@);
    }
    loop
        invariant
            i <= alen,
            i <= blen,
            alen == a@.len(),
            blen == b@.len(),
            lex_lt(a@, b@) == lex_lt(a@.skip(i as int), b@.skip(i as int)),
        decreases alen - i,
    {
        proof {
            let sa = a@.skip(i as int);
            let sb = b@.skip(i as int);
            if i < alen && i < blen {
                assert(sa[0] == a@[i as int]);
                assert(sb[0] == b@[i as int]);
                assert(sa.drop_first() =~= a@.skip(i + 1));
                assert(sb.drop_first() =~= b@.skip(i + 1));
            }
        }
        if i == blen {
            return false;
        }
        if i == alen {
            return true;
        }
        let ca = a.get_char(i);
        let cb = b.get_char(i);
        if (ca as u32) < (cb as u32) {
            return true;
        }
        if (ca as u32) > (cb as u32) {
            return false;
        }
        i = i + 1;
    }
}

/// The total order on releases that "latest" is judged by: newer publish
/// time is greater; for equal publish times the lexicographically greater
/// tag is greater.
pub open spec fn release_lt(a: Release, b: Release) -> bool {
    a.published_at < b.published_at || (a.published_at == b.published_at && lex_lt(
        a.tag_name@,
        b.tag_name@,
    ))
}

/// Exec comparison matching [`release_lt`].
pub fn release_is_older(a: &Release, b: &Release) -> (r: bool)
    ensures
        r == release_lt(*a, *b),
{
    if a.published_at < b.published_at {
        true
    } else if a.published_at == b.published_at {
        str_lex_lt(a.tag_name.as_str(), b.tag_name.as_str())
    } else {
        false
    }
}

/// Totality of [`release_lt`], lifted from the tag order: releases that
/// neither precede each other have equal timestamps and equal tags.
pub proof fn lemma_release_order_total(a: Release, b: Release)
    ensures
        release_lt(a, b) || release_lt(b, a) || (a.published_at == b.published_at && a.tag_name@
            == b.tag_name@),
{
    lemma_lex_lt_trichotomy(a.tag_name@, b.tag_name@);
}

/// Transitivity of [`release_lt`].
pub proof fn lemma_release_order_transitive(a: Release, b: Release, c: Release)
    requires
        release_lt(a, b),
        release_lt(b, c),
    ensures
        release_lt(a, c),
{
    if a.published_at == b.published_at && b.published_at == c.published_at {
        lemma_lex_lt_transitive(a.tag_name@, b.tag_name@, c.tag_name@);
    }
}

/// Irreflexivity of [`release_lt`].
pub proof fn lemma_release_order_irreflexive(a: Release)
    ensures
        !release_lt(a, a),
{
    lemma_lex_lt_irreflexive(a.tag_name@);
}

/// Picks the latest applicable release: the index of the first maximum of
/// the candidate list under [`release_lt`]. Returns `None` exactly when the
/// list is empty.
pub fn pick_latest(rs: &Vec<Release>) -> (r: Option<usize>)
    ensures
        (r matches Some(i)) <==> rs@.len() > 0,
        r matches Some(i) ==> i < rs@.len() && (forall|j: int|
            0 <= j < rs@.len() ==> !release_lt(rs@[i as int], rs@[j])) && (forall|j: int|
            0 <= j < i ==> release_lt(rs@[j], rs@[i as int])),
{
    if rs.len() == 0 {
        return None;
    }
    let mut best: usize = 0;
    let mut j: usize = 1;
    proof {
        lemma_release_order_irreflexive(rs@[0]);
    }
    while j < rs.len()
        invariant
            best < j <= rs@.len(),
            forall|k: int| 0 <= k < j ==> !release_lt(rs@[best as int], rs@[k]),
            forall|k: int| 0 <= k < best ==> release_lt(rs@[k], rs@[best as int]),
        decreases rs@.len() - j,
    {
        if release_is_older(&rs[best], &rs[j]) {
            proof {
                let ob = best as int;
                let jj = j as int;
                assert forall|k: int| 0 <= k < jj implies release_lt(rs@[k], rs@[jj]) by {
                    lemma_release_order_total(rs@[ob], rs@[k]);
                    if release_lt(rs@[k], rs@[ob]) {
                        lemma_release_order_transitive(rs@[k], rs@[ob], rs@[jj]);
                    } else {
                        assert(rs@[k].published_at == rs@[ob].published_at && rs@[k].tag_name@
                            == rs@[ob].tag_name@);
                        assert(release_lt(rs@[k], rs@[jj]));
                    }
                }
                assert forall|k: int| 0 <= k <= jj implies !release_lt(rs@[jj], rs@[k]) by {
                    lemma_release_order_irreflexive(rs@[jj]);
                    if k < jj && release_lt(rs@[jj], rs@[k]) {
                        lemma_release_order_transitive(rs@[jj], rs@[k], rs@[jj]);
                    }
                }
            }
            best = j;
        } else {
            proof {
                lemma_release_order_irreflexive(rs@[best as int]);
            }
        }
        j = j + 1;
    }
    Some(best)
}

/// The single candidate list a paginated listing denotes: the pages
/// joined in arrival order.
pub open spec fn spec_joined_pages(pages: Seq<Vec<Release>>) -> Seq<Release>
    decreases pages.len(),
{
    if pages.len() == 0 {
        Seq::empty()
    } else {
        pages[0]@ + spec_joined_pages(pages.drop_first())
    }
}

/// Joins the pages a paginated release listing arrives in: the candidate
/// list handed to the caller is logically complete up to the page count
/// fetched, not just the first page.
pub fn merge_pages(pages: Vec<Vec<Release>>) -> (r: Vec<Release>)
    ensures
        r@ == spec_joined_pages(pages@),
{
    let mut rest = pages;
    let mut out: Vec<Release> = Vec::new();
    while rest.len() > 0
        invariant
            spec_joined_pages(pages@) == out@ + spec_joined_pages(rest@),
        decreases rest@.len(),
    {
        let ghost before = rest@;
        let mut page = rest.remove(0);
        proof {
            assert(before.remove(0) =~= before.drop_first());
            assert(rest@ =~= before.drop_first());
        }
        out.append(&mut page);
        proof {
            assert(out@ + spec_joined_pages(rest@) =~= spec_joined_pages(pages@));
        }
    }
    proof {
        assert(out@ + spec_joined_pages(rest@) =~= out@);
    }
    out
}

/// "Newest first": the shape of the sequence a release source hands back.
pub open spec fn newest_first(rs: Seq<Release>) -> bool {
    forall|i: int, j: int| 0 <= i < j < rs.len() ==> !release_lt(rs[i], rs[j])
}

/// On a newest-first candidate list the latest release is simply the head.
pub proof fn lemma_latest_of_newest_first(rs: Seq<Release>)
    requires
        newest_first(rs),
        rs.len() > 0,
    ensures
        forall|j: int| 0 <= j < rs.len() ==> !release_lt(rs[0], rs[j]),
{
    assert forall|j: int| 0 <= j < rs.len() implies !release_lt(rs[0], rs[j]) by {
        if j > 0 {
            assert(!release_lt(rs[0], rs[j]));
        } else {
            lemma_lex_lt_irreflexive(rs[0].tag_name@);
        }
    }
}

} // verus!
