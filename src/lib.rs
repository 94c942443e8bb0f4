//! Verified validation and ownership layer around the Cubism Core engine.
//!
//! The engine itself is foreign code reached through raw pointers; this crate
//! holds what can be decided about the data it hands back: version checks,
//! flag validation, facet extraction, and the keyed collections built on top.
#![allow(non_camel_case_types)]
#![allow(non_upper_case_globals)]

pub mod drawable;
mod error;
pub mod facet;
pub mod flags;
pub mod ieee;
pub mod moc;
pub mod model;
pub mod parameter;
pub mod part;
pub mod version;

pub use error::{Error, Result};
pub use flags::{ConstantFlags, DynamicFlags};
pub use moc::{csmModel, csmMoc, Moc, MocBuffer, ALIGN_OF_MOC, ALIGN_OF_MODEL};
pub use model::{Canvas, Model, PartParent, Vector2};
pub use version::{CubismVersion, MocVersion};

use model::is_first_index;
use vstd::prelude::*;

verus! {

/// A keyed, indexed collection of records read from a [`Model`], which also
/// hands its records out in order from either end.
pub trait ModelData: Sized {
    /// Data type.
    type Data;

    /// The identifiers of the elements, in index order.
    spec fn spec_ids(&self) -> Seq<Seq<char>>;

    /// `data` is the record of the element at `index`.
    spec fn describes(&self, index: int, data: Self::Data) -> bool;

    /// The positions not yet handed out: from the first up to, not
    /// including, the second.
    spec fn spec_range(&self) -> (nat, nat);

    /// The positions not yet handed out.
    fn range(&self) -> (r: (usize, usize))
        ensures
            r.0 == self.spec_range().0,
            r.1 == self.spec_range().1,
            r.0 <= r.1 <= self.spec_ids().len(),
    ;

    /// Narrows the positions still to be handed out.
    fn set_range(&mut self, start: usize, end: usize)
        requires
            start <= end <= old(self).spec_ids().len(),
        ensures
            final(self).spec_range() == (start as nat, end as nat),
            final(self).spec_ids() == old(self).spec_ids(),
            forall|i: int, d: Self::Data| #[trigger]
                final(self).describes(i, d) == old(self).describes(i, d),
    ;

    /// The count of [`Data`](Self::Data).
    fn count(&self) -> (r: usize)
        ensures
            r == self.spec_ids().len(),
    ;

    /// Returns the index of the first element with this ID, or [`None`] if
    /// no element has it.
    fn index(&self, id: &str) -> (r: Option<usize>)
        ensures
            model::lookup_ok(self.spec_ids(), id@, r),
    ;

    /// Returns [`Data`](Self::Data) according to its index, which the caller
    /// keeps in bounds.
    fn get_index_unchecked(&self, index: usize) -> (r: Self::Data)
        requires
            index < self.spec_ids().len(),
        ensures
            self.describes(index as int, r),
    ;

    /// Returns [`Data`](Self::Data) of the first element with this ID, which
    /// must exist.
    fn get(&self, id: &str) -> (r: Self::Data)
        requires
            self.spec_ids().contains(id@),
        ensures
            exists|i: int| is_first_index(self.spec_ids(), id@, i) && self.describes(i, r),
    {
        let index = self.index(id);
        proof {
            if index is None {
                let k = choose|k: int| 0 <= k < self.spec_ids().len() && self.spec_ids()[k] == id@;
            }
        }
        self.get_index_unchecked(index.unwrap())
    }

    /// Returns [`Data`](Self::Data) according to its index, or [`None`] if
    /// the index is out of bounds.
    fn get_index(&self, index: usize) -> (r: Option<Self::Data>)
        ensures
            r is Some <==> index < self.spec_ids().len(),
            r matches Some(d) ==> self.describes(index as int, d),
    {
        if index < self.count() {
            Some(self.get_index_unchecked(index))
        } else {
            None
        }
    }

    /// The number of records not yet handed out.
    fn len(&self) -> (r: usize)
        ensures
            r == self.spec_range().1 - self.spec_range().0,
    {
        let (start, end) = self.range();
        end - start
    }

    /// Hands out the next record from the front.
    fn next(&mut self) -> (r: Option<Self::Data>)
        ensures
            final(self).spec_ids() == old(self).spec_ids(),
            forall|i: int, d: Self::Data| #[trigger]
                final(self).describes(i, d) == old(self).describes(i, d),
            old(self).spec_range().0 < old(self).spec_range().1 ==> (r matches Some(d)
                && old(self).describes(old(self).spec_range().0 as int, d)
                && final(self).spec_range() == (old(self).spec_range().0 + 1, old(self).spec_range().1)),
            old(self).spec_range().0 >= old(self).spec_range().1 ==> r is None
                && final(self).spec_range() == old(self).spec_range(),
    {
        let (start, end) = self.range();
        if start < end {
            let d = self.get_index_unchecked(start);
            self.set_range(start + 1, end);
            Some(d)
        } else {
            None
        }
    }

    /// Hands out the next record from the back.
    fn next_back(&mut self) -> (r: Option<Self::Data>)
        ensures
            final(self).spec_ids() == old(self).spec_ids(),
            forall|i: int, d: Self::Data| #[trigger]
                final(self).describes(i, d) == old(self).describes(i, d),
            old(self).spec_range().0 < old(self).spec_range().1 ==> (r matches Some(d)
                && old(self).describes(old(self).spec_range().1 - 1, d)
                && final(self).spec_range() == (old(self).spec_range().0, (old(self).spec_range().1 - 1) as nat)),
            old(self).spec_range().0 >= old(self).spec_range().1 ==> r is None
                && final(self).spec_range() == old(self).spec_range(),
    {
        let (start, end) = self.range();
        if start < end {
            let d = self.get_index_unchecked(end - 1);
            self.set_range(start, end - 1);
            Some(d)
        } else {
            None
        }
    }

    /// Gets all records not yet handed out, in index order.
    fn get_all(self) -> (r: Vec<Self::Data>)
        ensures
            r@.len() == self.spec_range().1 - self.spec_range().0,
            forall|k: int|
                0 <= k < r@.len() ==> self.describes(self.spec_range().0 + k, #[trigger] r@[k]),
    {
        let (start, end) = self.range();
        let mut out: Vec<Self::Data> = Vec::new();
        let mut i: usize = start;
        while i < end
            invariant
                start == self.spec_range().0,
                end == self.spec_range().1,
                start <= i <= end,
                end <= self.spec_ids().len(),
                out@.len() == i - start,
                forall|k: int| 0 <= k < out@.len() ==> self.describes(start + k, #[trigger] out@[k]),
            decreases end - i,
        {
            out.push(self.get_index_unchecked(i));
            i += 1;
        }
        out
    }
}

} // verus!
