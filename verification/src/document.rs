//! The text buffer: rows of grapheme clusters with a cached cluster count,
//! and the document operations — loading from lines, inserting a cluster or
//! a line break, deleting, and serialising for a save.

use vstd::prelude::*;
use vstd::string::StringExecFns;
use crate::cluster::{
    char_to_string, clusters_of, join_range, joined, lemma_joined_concat, lemma_joined_push,
    split_clusters, views_of,
};
use crate::position::Position;

verus! {

/// One line of text, held as its sequence of grapheme clusters together with
/// the concatenated content and the cached cluster count.
pub struct Row {
    pub content: String,
    pub clusters: Vec<String>,
    pub len: usize,
}

impl View for Row {
    type V = Seq<Seq<char>>;

    open spec fn view(&self) -> Seq<Seq<char>> {
        views_of(self.clusters@)
    }
}

/// What `Row::render` returns: the clusters in `[start, end)`, with `end`
/// clamped to the row length and `start` clamped to `end`, concatenated.
pub open spec fn render_clamped(row: Seq<Seq<char>>, start: int, end: int) -> Seq<char> {
    let e = if end <= row.len() {
        end
    } else {
        row.len() as int
    };
    let s = if start <= e {
        start
    } else {
        e
    };
    joined(row.subrange(s, e))
}

impl Row {
    /// The cached count matches the clusters held, and the content is their
    /// concatenation.
    pub open spec fn wf(self) -> bool {
        &&& self.len == self@.len()
        &&& self.content@ == joined(self@)
    }

    /// A row with no clusters.
    pub fn empty() -> (r: Row)
        ensures
            r.wf(),
            r@ == Seq::<Seq<char>>::empty(),
            r.content@ == Seq::<char>::empty(),
    {
        let r = Row { content: String::new(), clusters: Vec::new(), len: 0 };
        proof {
            assert(r@ =~= Seq::<Seq<char>>::empty());
        }
        r
    }

    /// A row holding the given text, segmented into its grapheme clusters.
    pub fn new(content: String) -> (r: Row)
        ensures
            r.wf(),
            r@ == clusters_of(content@),
            r.content@ == content@,
    {
        let clusters = split_clusters(content.as_str());
        let len = clusters.len();
        Row { content, clusters, len }
    }

    /// The clusters in `[start, end)`, clamped to the row, as one string.
    pub fn render(&self, start: usize, end: usize) -> (r: String)
        requires
            self.wf(),
        ensures
            r@ == render_clamped(self@, start as int, end as int),
    {
        let e = if end <= self.len {
            end
        } else {
            self.len
        };
        let s = if start <= e {
            start
        } else {
            e
        };
        join_range(&self.clusters, s, e)
    }

    /// Cuts the row at cluster index `at` (clamped to the row length): the
    /// receiver keeps the clusters before `at`, and the returned row holds
    /// the rest. The two contents concatenate to the original content.
    pub fn split(&mut self, at: usize) -> (r: Row)
        requires
            old(self).wf(),
        ensures
            ({
                let n = old(self)@.len() as int;
                let a = if at as int <= n {
                    at as int
                } else {
                    n
                };
                &&& final(self).wf()
                &&& r.wf()
                &&& final(self)@ == old(self)@.subrange(0, a)
                &&& r@ == old(self)@.subrange(a, n)
                &&& final(self).content@ + r.content@ == old(self).content@
            }),
    {
        let a = if at <= self.len {
            at
        } else {
            self.len
        };
        let tail = self.clusters.split_off(a);
        let tail_len = tail.len();
        let tail_content = join_range(&tail, 0, tail_len);
        self.len = self.clusters.len();
        let head_len = self.len;
        self.content = join_range(&self.clusters, 0, head_len);
        proof {
            let whole = views_of(old(self).clusters@);
            let n = whole.len() as int;
            assert(views_of(self.clusters@) =~= whole.subrange(0, a as int));
            assert(views_of(tail@) =~= whole.subrange(a as int, n));
            assert(views_of(self.clusters@).subrange(0, head_len as int) =~= views_of(
                self.clusters@,
            ));
            assert(views_of(tail@).subrange(0, tail_len as int) =~= views_of(tail@));
            lemma_joined_concat(whole.subrange(0, a as int), whole.subrange(a as int, n));
            assert(whole.subrange(0, a as int) + whole.subrange(a as int, n) =~= whole);
        }
        Row { content: tail_content, clusters: tail, len: tail_len }
    }

    /// The cached cluster count.
    pub fn len(&self) -> (n: usize)
        requires
            self.wf(),
        ensures
            n == self@.len(),
    {
        self.len
    }

    /// Recomputes the cached cluster count from the clusters held.
    pub fn update_len(&mut self)
        ensures
            final(self).clusters == old(self).clusters,
            final(self).content == old(self).content,
            final(self).len == old(self)@.len(),
    {
        self.len = self.clusters.len();
    }

    pub fn is_empty(&self) -> (b: bool)
        requires
            self.wf(),
        ensures
            b == (self@.len() == 0),
    {
        self.len == 0
    }

    /// Inserts one cluster at cluster index `at`.
    fn insert_cluster(&mut self, at: usize, cluster: String)
        requires
            old(self).wf(),
            at <= old(self)@.len(),
        ensures
            final(self).wf(),
            final(self)@ == old(self)@.insert(at as int, cluster@),
    {
        self.clusters.insert(at, cluster);
        let n = self.clusters.len();
        self.content = join_range(&self.clusters, 0, n);
        self.len = n;
        proof {
            assert(views_of(self.clusters@) =~= views_of(old(self).clusters@).insert(
                at as int,
                cluster@,
            ));
            assert(views_of(self.clusters@).subrange(0, n as int) =~= views_of(self.clusters@));
        }
    }

    /// Removes the cluster at cluster index `at`.
    fn remove_cluster(&mut self, at: usize)
        requires
            old(self).wf(),
            at < old(self)@.len(),
        ensures
            final(self).wf(),
            final(self)@ == old(self)@.remove(at as int),
    {
        self.clusters.remove(at);
        let n = self.clusters.len();
        self.content = join_range(&self.clusters, 0, n);
        self.len = n;
        proof {
            assert(views_of(self.clusters@) =~= views_of(old(self).clusters@).remove(at as int));
            assert(views_of(self.clusters@).subrange(0, n as int) =~= views_of(self.clusters@));
        }
    }

    /// Appends another row's clusters onto this row.
    fn push_row(&mut self, other: Row)
        requires
            old(self).wf(),
            other.wf(),
        ensures
            final(self).wf(),
            final(self)@ == old(self)@ + other@,
            final(self).content@ == old(self).content@ + other.content@,
    {
        let ghost other0 = other;
        let mut tail = other;
        self.content.append(tail.content.as_str());
        self.clusters.append(&mut tail.clusters);
        self.len = self.clusters.len();
        proof {
            assert(views_of(self.clusters@) =~= views_of(old(self).clusters@) + views_of(
                other0.clusters@,
            ));
            lemma_joined_concat(old(self)@, other0@);
        }
    }
}

/// An ordered, never-empty sequence of rows, an optional backing file path,
/// and a modified flag.
pub struct Document {
    pub path: Option<String>,
    pub rows: Vec<Row>,
    pub modified: bool,
}

impl Document {
    /// There is always at least one row, and every row is well formed.
    pub open spec fn wf(self) -> bool {
        &&& self.rows@.len() >= 1
        &&& forall|i: int| 0 <= i < self.rows@.len() ==> (#[trigger] self.rows@[i]).wf()
    }

    /// The cluster count of row `i`, or 0 when `i` is out of bounds.
    pub open spec fn spec_row_len(self, i: int) -> nat {
        if 0 <= i < self.rows@.len() {
            self.rows@[i]@.len()
        } else {
            0
        }
    }
}

/// Relates a document to the one obtained from it by splitting row `at.row`
/// at cluster index `at.column` (clamped to the row length): the row keeps
/// the clusters before the cut and a new row holding the rest follows it.
pub open spec fn line_split(d0: Document, d1: Document, at: Position) -> bool {
    let r = at.row as int;
    let n = d0.rows@[r]@.len() as int;
    let a = if at.column as int <= n {
        at.column as int
    } else {
        n
    };
    &&& d1.rows@.len() == d0.rows@.len() + 1
    &&& d1.rows@[r]@ == d0.rows@[r]@.subrange(0, a)
    &&& d1.rows@[r + 1]@ == d0.rows@[r]@.subrange(a, n)
    &&& d1.rows@[r].content@ + d1.rows@[r + 1].content@ == d0.rows@[r].content@
    &&& forall|i: int| 0 <= i < r ==> d1.rows@[i] == d0.rows@[i]
    &&& forall|i: int| r + 1 < i < d1.rows@.len() ==> d1.rows@[i] == d0.rows@[i - 1]
    &&& d1.path == d0.path
    &&& d1.modified
}

/// Relates a document to the one obtained by inserting the single cluster
/// `ch` at `at` into row `at.row`.
pub open spec fn cluster_inserted(d0: Document, d1: Document, at: Position, ch: char) -> bool {
    let r = at.row as int;
    &&& d1.rows@.len() == d0.rows@.len()
    &&& d1.rows@[r]@ == d0.rows@[r]@.insert(at.column as int, seq![ch])
    &&& forall|i: int| 0 <= i < d1.rows@.len() && i != r ==> d1.rows@[i] == d0.rows@[i]
    &&& d1.path == d0.path
    &&& d1.modified
}

/// Relates a document to the one obtained by merging row `at.row + 1` onto
/// row `at.row` (deleting the line break between them).
pub open spec fn lines_merged(d0: Document, d1: Document, at: Position) -> bool {
    let r = at.row as int;
    &&& d1.rows@.len() + 1 == d0.rows@.len()
    &&& d1.rows@[r]@ == d0.rows@[r]@ + d0.rows@[r + 1]@
    &&& d1.rows@[r].content@ == d0.rows@[r].content@ + d0.rows@[r + 1].content@
    &&& forall|i: int| 0 <= i < r ==> d1.rows@[i] == d0.rows@[i]
    &&& forall|i: int| r < i < d1.rows@.len() ==> d1.rows@[i] == d0.rows@[i + 1]
    &&& d1.path == d0.path
    &&& d1.modified
}

/// Relates a document to the one obtained by removing the cluster at `at`.
pub open spec fn cluster_removed(d0: Document, d1: Document, at: Position) -> bool {
    let r = at.row as int;
    &&& d1.rows@.len() == d0.rows@.len()
    &&& d1.rows@[r]@ == d0.rows@[r]@.remove(at.column as int)
    &&& forall|i: int| 0 <= i < d1.rows@.len() && i != r ==> d1.rows@[i] == d0.rows@[i]
    &&& d1.path == d0.path
    &&& d1.modified
}

/// The full effect of `Document::delete` at `at`: a merge when the cursor
/// sits at the end of a row that is not the last, a single-cluster removal
/// when it sits inside the row, and otherwise no change to the rows.
pub open spec fn deleted_at(d0: Document, d1: Document, at: Position) -> bool {
    let r = at.row as int;
    let n = d0.spec_row_len(r) as int;
    &&& (at.column as int == n && r + 1 < d0.rows@.len()) ==> lines_merged(d0, d1, at)
    &&& (at.column as int) < n ==> cluster_removed(d0, d1, at)
    &&& (at.column as int > n || (at.column as int == n && r + 1 == d0.rows@.len())) ==> (
    d1.rows@ == d0.rows@
        && d1.path == d0.path
        && d1.modified)
}

/// Every row's content followed by a line terminator, in order.
pub open spec fn terminated_lines(rows: Seq<Row>) -> Seq<Seq<char>> {
    rows.map_values(|r: Row| r.content@ + seq!['\n'])
}

/// The text that a save writes: each row's content followed by one line
/// terminator.
pub open spec fn spec_text(d: Document) -> Seq<char> {
    joined(terminated_lines(d.rows@))
}

impl Document {
    /// Builds a document from the lines read out of a file, in order; an
    /// empty line list (a missing or empty file) yields one empty row.
    pub fn from_lines(path: Option<String>, lines: Vec<String>) -> (d: Document)
        ensures
            d.wf(),
            !d.modified,
            d.path == path,
            lines@.len() == 0 ==> d.rows@.len() == 1 && d.rows@[0]@ == Seq::<Seq<char>>::empty(),
            lines@.len() > 0 ==> d.rows@.len() == lines@.len() && forall|i: int|
                0 <= i < lines@.len() ==> (#[trigger] d.rows@[i])@ == clusters_of(lines@[i]@)
                    && d.rows@[i].content@ == lines@[i]@,
    {
        let mut rows: Vec<Row> = Vec::new();
        if lines.len() == 0 {
            rows.push(Row::empty());
        } else {
            let mut i: usize = 0;
            while i < lines.len()
                invariant
                    i <= lines@.len(),
                    rows@.len() == i,
                    forall|j: int|
                        0 <= j < i as int ==> (#[trigger] rows@[j]).wf() && rows@[j]@
                            == clusters_of(lines@[j]@) && rows@[j].content@ == lines@[j]@,
                decreases lines@.len() - i,
            {
                rows.push(Row::new(lines[i].clone()));
                i = i + 1;
            }
        }
        Document { path, rows, modified: false }
    }

    /// The cluster count of row `index`, or 0 when `index` is out of bounds.
    pub fn row_len(&self, index: usize) -> (n: usize)
        requires
            self.wf(),
        ensures
            n == self.spec_row_len(index as int),
    {
        if index < self.rows.len() {
            self.rows[index].len()
        } else {
            0
        }
    }

    /// Splits row `at.row` at cluster index `at.column` (clamped), inserting
    /// the remainder as a new row immediately after, and marks the document
    /// modified.
    pub fn insert_new_line(&mut self, at: Position)
        requires
            old(self).wf(),
            (at.row as int) < old(self).rows@.len(),
        ensures
            final(self).wf(),
            line_split(*old(self), *final(self), at),
    {
        self.modified = true;
        let n = self.rows.len();
        proof {
            // binds the row count to a machine word, so `at.row + 1` fits
            assert(at.row < n);
        }
        let mut row = self.rows.remove(at.row);
        let new_row = row.split(at.column);
        self.rows.insert(at.row, row);
        self.rows.insert(at.row + 1, new_row);
    }

    /// Inserts `ch` at the cursor: a line break splits the row, any other
    /// character becomes one new cluster at `at.column`. Marks the document
    /// modified.
    pub fn insert(&mut self, at: Position, ch: char)
        requires
            old(self).wf(),
            (at.row as int) < old(self).rows@.len(),
            at.column <= old(self).rows@[at.row as int]@.len(),
        ensures
            final(self).wf(),
            ch == '\n' ==> line_split(*old(self), *final(self), at),
            ch != '\n' ==> cluster_inserted(*old(self), *final(self), at, ch),
    {
        if ch == '\n' {
            self.insert_new_line(at);
            return ;
        }
        self.modified = true;
        let mut row = self.rows.remove(at.row);
        row.insert_cluster(at.column, char_to_string(ch));
        self.rows.insert(at.row, row);
    }

    /// Deletes at the cursor: at the end of a row that is not the last, the
    /// next row is merged on (the line break goes); inside a row, the one
    /// cluster at `at.column` goes; otherwise the rows are unchanged. Marks
    /// the document modified in every case.
    pub fn delete(&mut self, at: Position)
        requires
            old(self).wf(),
            (at.row as int) < old(self).rows@.len(),
        ensures
            final(self).wf(),
            deleted_at(*old(self), *final(self), at),
    {
        self.modified = true;
        let n = self.rows.len();
        let rl = self.rows[at.row].len();
        if at.column == rl && at.row + 1 < n {
            let next = self.rows.remove(at.row + 1);
            let mut row = self.rows.remove(at.row);
            row.push_row(next);
            self.rows.insert(at.row, row);
        } else if at.column < rl {
            let mut row = self.rows.remove(at.row);
            row.remove_cluster(at.column);
            self.rows.insert(at.row, row);
        }
    }

    /// The text that a save writes: every row's content, each followed by a
    /// line terminator.
    pub fn save_text(&self) -> (t: String)
        requires
            self.wf(),
        ensures
            t@ == spec_text(*self),
    {
        let mut out = String::new();
        let mut i: usize = 0;
        while i < self.rows.len()
            invariant
                self.wf(),
                i <= self.rows@.len(),
                out@ == joined(terminated_lines(self.rows@).subrange(0, i as int)),
            decreases self.rows@.len() - i,
        {
            out.append(self.rows[i].content.as_str());
            out.append("\n");
            proof {
                reveal_strlit("\n");
                let m = terminated_lines(self.rows@);
                assert("\n"@ =~= seq!['\n']);
                lemma_joined_push(m.subrange(0, i as int), m[i as int]);
                assert(m.subrange(0, i as int + 1) =~= m.subrange(0, i as int).push(m[i as int]));
                assert(out@ =~= joined(m.subrange(0, i as int + 1)));
            }
            i = i + 1;
        }
        proof {
            let m = terminated_lines(self.rows@);
            assert(m.subrange(0, self.rows@.len() as int) =~= m);
        }
        out
    }
}

/// In a well-formed document every row's cached length is its cluster count,
/// and a length query out of bounds yields zero.
pub proof fn lemma_row_len_is_cluster_count(d: Document)
    requires
        d.wf(),
    ensures
        forall|i: int|
            0 <= i < d.rows@.len() ==> d.spec_row_len(i) == (#[trigger] d.rows@[i])@.len()
                && d.rows@[i].len == d.rows@[i]@.len(),
        forall|i: int| !(0 <= i < d.rows@.len()) ==> d.spec_row_len(i) == 0,
{
}

/// Inserting a printable cluster at a column within the row grows that row
/// by exactly one cluster and marks the document modified.
pub proof fn lemma_insert_grows_row(d0: Document, d1: Document, at: Position, ch: char)
    requires
        cluster_inserted(d0, d1, at, ch),
        (at.row as int) < d0.rows@.len(),
        at.column <= d0.spec_row_len(at.row as int),
    ensures
        d1.spec_row_len(at.row as int) == d0.spec_row_len(at.row as int) + 1,
        d1.modified,
{
}

/// A line-break insertion adds one row, and the two parts' contents — both
/// as cluster sequences and as text — concatenate to the original row's.
pub proof fn lemma_line_split_concat(d0: Document, d1: Document, at: Position)
    requires
        line_split(d0, d1, at),
        (at.row as int) < d0.rows@.len(),
    ensures
        d1.rows@.len() == d0.rows@.len() + 1,
        d1.rows@[at.row as int]@ + d1.rows@[at.row as int + 1]@ == d0.rows@[at.row as int]@,
        d1.rows@[at.row as int].content@ + d1.rows@[at.row as int + 1].content@ == d0.rows@[at.row
            as int].content@,
        d1.modified,
{
    let r = at.row as int;
    let n = d0.rows@[r]@.len() as int;
    let a = if at.column as int <= n {
        at.column as int
    } else {
        n
    };
    assert(d0.rows@[r]@.subrange(0, a) + d0.rows@[r]@.subrange(a, n) =~= d0.rows@[r]@);
}

/// Deleting at the end of a row that is not the last merges the next row on:
/// one row fewer, and the merged row's cluster count is the sum of the two.
pub proof fn lemma_merge_adds_counts(d0: Document, d1: Document, at: Position)
    requires
        d0.wf(),
        deleted_at(d0, d1, at),
        (at.row as int) + 1 < d0.rows@.len(),
        at.column == d0.spec_row_len(at.row as int),
    ensures
        d1.rows@.len() + 1 == d0.rows@.len(),
        d1.spec_row_len(at.row as int) == d0.spec_row_len(at.row as int) + d0.spec_row_len(
            at.row as int + 1,
        ),
        d1.modified,
{
}

/// Deleting inside a row removes exactly one cluster from it.
pub proof fn lemma_delete_shrinks_row(d0: Document, d1: Document, at: Position)
    requires
        d0.wf(),
        deleted_at(d0, d1, at),
        (at.row as int) < d0.rows@.len(),
        (at.column as int) < d0.spec_row_len(at.row as int),
    ensures
        d1.rows@.len() == d0.rows@.len(),
        d1.spec_row_len(at.row as int) + 1 == d0.spec_row_len(at.row as int),
        d1.modified,
{
}

} // verus!
