//! Grapheme clusters: the unit in which every row, column and length of this
//! library is counted. A string is segmented once, at the boundary, into its
//! clusters; all editing then works on the sequence of clusters.

use vstd::prelude::*;
use vstd::string::StringExecFns;
use unicode_segmentation::UnicodeSegmentation;

verus! {

/// The sequence of extended grapheme clusters of a string, as
/// unicode-segmentation's `graphemes(true)` yields them. The segmentation is
/// determined by the characters alone.
pub uninterp spec fn clusters_of(s: Seq<char>) -> Seq<Seq<char>>;

/// The views of a sequence of owned cluster strings.
pub open spec fn views_of(cs: Seq<String>) -> Seq<Seq<char>> {
    cs.map_values(|c: String| c@)
}

/// The concatenation of a sequence of clusters, in order.
pub open spec fn joined(cs: Seq<Seq<char>>) -> Seq<char> {
    cs.flatten()
}

pub proof fn lemma_joined_push(cs: Seq<Seq<char>>, x: Seq<char>)
    ensures
        joined(cs.push(x)) == joined(cs) + x,
{
    cs.lemma_flatten_push(x);
    assert(cs.push(x).flatten() =~= cs.flatten() + x);
}

pub proof fn lemma_joined_concat(a: Seq<Seq<char>>, b: Seq<Seq<char>>)
    ensures
        joined(a + b) == joined(a) + joined(b),
    decreases b.len(),
{
    if b.len() == 0 {
        assert(a + b =~= a);
        assert(b =~= Seq::<Seq<char>>::empty());
        assert(joined(b) =~= Seq::<char>::empty());
        assert(joined(a) + joined(b) =~= joined(a));
    } else {
        lemma_joined_concat(a, b.drop_last());
        lemma_joined_push(a + b.drop_last(), b.last());
        lemma_joined_push(b.drop_last(), b.last());
        assert((a + b.drop_last()).push(b.last()) =~= a + b);
        assert(b.drop_last().push(b.last()) =~= b);
        assert(joined(a + b) =~= joined(a) + joined(b));
    }
}

/// Relies on unicode_segmentation::UnicodeSegmentation::graphemes, which
/// yields the extended grapheme clusters of a string: non-empty substrings,
/// in order, whose concatenation is the whole string, and which depend on
/// the characters alone.
#[verifier::external_body]
pub(crate) fn split_clusters(s: &str) -> (r: Vec<String>)
    ensures
        views_of(r@) == clusters_of(s@),
        joined(views_of(r@)) == s@,
        forall|i: int| 0 <= i < r@.len() ==> (#[trigger] r@[i])@.len() >= 1,
{
    s.graphemes(true).map(|g| g.to_string()).collect()
}

/// Relies on char::to_string, which returns a string holding exactly this
/// one character.
#[verifier::external_body]
pub(crate) fn char_to_string(ch: char) -> (r: String)
    ensures
        r@ == seq![ch],
{
    ch.to_string()
}

/// The concatenation of the clusters `cs[start..end]`, as an owned string.
pub(crate) fn join_range(cs: &Vec<String>, start: usize, end: usize) -> (r: String)
    requires
        start <= end <= cs@.len(),
    ensures
        r@ == joined(views_of(cs@).subrange(start as int, end as int)),
{
    let mut out = String::new();
    let mut i: usize = start;
    while i < end
        invariant
            start <= i <= end <= cs@.len(),
            out@ == joined(views_of(cs@).subrange(start as int, i as int)),
        decreases end - i,
    {
        out.append(cs[i].as_str());
        proof {
            let v = views_of(cs@);
            lemma_joined_push(v.subrange(start as int, i as int), v[i as int]);
            assert(v.subrange(start as int, i as int + 1) =~= v.subrange(
                start as int,
                i as int,
            ).push(v[i as int]));
        }
        i = i + 1;
    }
    out
}

} // verus!
