//! The data model: chapter references, chapters, and the assembled work.

use vstd::prelude::*;

verus! {

/// Mathematical value of a [`ChapterReference`].
pub struct ChapterReferenceView {
    pub location: Seq<char>,
    pub ordinal: int,
}

/// An immutable identifier of one chapter: where to fetch it and where it
/// stands in the work. The ordinal is the sole ordering key; ordinals are
/// unique within a work but need not be contiguous.
pub struct ChapterReference {
    pub location: String,
    pub ordinal: i32,
}

impl View for ChapterReference {
    type V = ChapterReferenceView;

    open spec fn view(&self) -> ChapterReferenceView {
        ChapterReferenceView { location: self.location@, ordinal: self.ordinal as int }
    }
}

/// Mathematical value of a [`Chapter`].
pub struct ChapterView {
    pub title: Seq<char>,
    pub location: Seq<char>,
    pub body: Seq<char>,
    pub ordinal: int,
}

/// One normalized chapter of a work, produced by a successful fetch task and
/// never mutated afterwards.
pub struct Chapter {
    pub title: String,
    pub location: String,
    pub body: String,
    pub ordinal: i32,
}

impl View for Chapter {
    type V = ChapterView;

    open spec fn view(&self) -> ChapterView {
        ChapterView {
            title: self.title@,
            location: self.location@,
            body: self.body@,
            ordinal: self.ordinal as int,
        }
    }
}

/// The chapters of `s` stand in strictly ascending ordinal order.
pub open spec fn sorted_by_ordinal(s: Seq<Chapter>) -> bool {
    forall|i: int, j: int| 0 <= i < j < s.len() ==> s[i].ordinal < s[j].ordinal
}

/// No two chapters of `s` share an ordinal.
pub open spec fn distinct_ordinals(s: Seq<Chapter>) -> bool {
    forall|i: int, j: int| 0 <= i < s.len() && 0 <= j < s.len() && i != j ==> s[i].ordinal != s[j].ordinal
}

/// No two references of `s` share an ordinal.
pub open spec fn distinct_reference_ordinals(s: Seq<ChapterReference>) -> bool {
    forall|i: int, j: int| 0 <= i < s.len() && 0 <= j < s.len() && i != j ==> s[i].ordinal != s[j].ordinal
}

/// The complete multi-chapter document handed to the packaging collaborator.
pub struct Work {
    pub name: String,
    pub author: String,
    pub location: String,
    pub chapters: Vec<Chapter>,
}

impl Work {
    /// A work is well formed when its chapters stand in strict ordinal order;
    /// a work with an incomplete or unordered chapter set is never exposed as
    /// a success.
    pub open spec fn wf(self) -> bool {
        sorted_by_ordinal(self.chapters@)
    }

    /// A work as the catalogue lists it: metadata only, no chapters yet.
    pub fn discovered(name: String, author: String, location: String) -> (w: Work)
        ensures
            w.name@ == name@,
            w.author@ == author@,
            w.location@ == location@,
            w.chapters@ =~= Seq::<Chapter>::empty(),
            w.wf(),
    {
        Work { name, author, location, chapters: Vec::new() }
    }
}

/// Combine work-level metadata with the aggregator's ordered chapters into
/// the final document model. Pure composition: nothing is validated beyond
/// the order the caller already established, and nothing is altered.
pub fn assemble_work(name: String, author: String, location: String, chapters: Vec<Chapter>) -> (w: Work)
    requires
        sorted_by_ordinal(chapters@),
    ensures
        w.name@ == name@,
        w.author@ == author@,
        w.location@ == location@,
        w.chapters@ == chapters@,
        w.wf(),
{
    Work { name, author, location, chapters }
}

} // verus!
