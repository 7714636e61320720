//! Containers that hold an owner together with a value derived from it.
//!
//! A parsed view wants to live beside the buffer it was parsed from, as one
//! value that can be moved and dropped. Here the derived value, the
//! *dependent*, speaks of its owner by position and not by reference, so no
//! field borrows from its own container. What is left to get right, and what
//! the contracts of this crate state, is the protocol around the pair:
//!
//! * the owner is boxed when the container is made and is never changed or
//!   moved afterwards;
//! * the dependent is made from a borrow of that stored owner, at most once,
//!   either with the container ([`eager::SelfCell`]) or on first demand
//!   ([`lazy::OnceSelfCell`]);
//! * on every way out the dependent leaves before the owner.
//!
//! A lazy container keeps its dependent in a write-once cell. The cell is a
//! policy: anything that implements [`OnceCellCompatible`] will do, and
//! [`UnsyncOnceCell`] and [`SyncOnceCell`] are the two that come with the
//! crate. Both are cells of the `once_cell` crate; what is believed of that
//! crate without proof is gathered in [`trusted`].

use vstd::prelude::*;

pub mod eager;
pub mod lazy;
pub mod trusted;

use crate::lazy::DependentInner;

verus! {

/// How `get_or_init` changes a cell: afterwards the cell holds the value that
/// was handed out, and if it held one before, that is the one.
pub open spec fn filled<T>(before: Option<T>, out: T, after: Option<T>) -> bool {
    &&& after == Some(out)
    &&& before matches Some(v) ==> out == v
}

/// How `take` changes a cell: what the cell held is handed out, and the cell
/// is empty afterwards.
pub open spec fn took<T>(before: Option<T>, out: Option<T>, after: Option<T>) -> bool {
    &&& out == before
    &&& after is None
}

/// A cell that is written at most once between two extractions.
///
/// The cell is either empty or occupied; `held` is its state. It goes from
/// empty to occupied in `get_or_init`, and back in `take`, and in no other
/// way. Reading needs the cell shared; both transitions need it exclusively,
/// so that two first accesses cannot race and a contract can say what the
/// cell holds afterwards.
pub trait OnceCellCompatible<T>: Sized {
    /// What the cell holds.
    spec fn held(&self) -> Option<T>;

    /// An empty cell.
    fn new() -> (cell: Self)
        ensures
            cell.held() is None,
    ;

    /// The value in the cell, if there is one.
    fn get(&self) -> (r: Option<&T>)
        ensures
            r == (match self.held() {
                Some(v) => Some(&v),
                None => None,
            }),
    ;

    /// The value in the cell; an empty cell is first filled with what `f`
    /// makes. `f` has to be callable only if the cell is empty, and only then
    /// does its result count.
    fn get_or_init<F>(&mut self, f: F) -> (r: &T) where F: FnOnce() -> T
        requires
            old(self).held() is None ==> call_requires(f, ()),
        ensures
            filled(old(self).held(), *r, final(self).held()),
            old(self).held() is None ==> call_ensures(f, (), *r),
    ;

    /// Moves the value out of the cell and leaves the cell empty.
    fn take(&mut self) -> (r: Option<T>)
        ensures
            took(old(self).held(), r, final(self).held()),
    ;
}

/// The policy without synchronisation, on `once_cell::unsync::OnceCell`.
#[derive(Debug)]
pub struct UnsyncOnceCell {
    cell: once_cell::unsync::OnceCell<DependentInner>,
}

impl OnceCellCompatible<DependentInner> for UnsyncOnceCell {
    closed spec fn held(&self) -> Option<DependentInner> {
        trusted::unsync_held(self.cell)
    }

    fn new() -> (cell: Self) {
        UnsyncOnceCell { cell: trusted::unsync_new() }
    }

    fn get(&self) -> (r: Option<&DependentInner>) {
        trusted::unsync_get(&self.cell)
    }

    fn get_or_init<F>(&mut self, f: F) -> (r: &DependentInner) where F: FnOnce() -> DependentInner {
        trusted::unsync_get_or_init(&mut self.cell, f)
    }

    fn take(&mut self) -> (r: Option<DependentInner>) {
        trusted::unsync_take(&mut self.cell)
    }
}

/// The synchronised policy, on `once_cell::sync::OnceCell`. A container built
/// on it can be read from several threads at once.
#[derive(Debug)]
pub struct SyncOnceCell {
    cell: once_cell::sync::OnceCell<DependentInner>,
}

impl OnceCellCompatible<DependentInner> for SyncOnceCell {
    closed spec fn held(&self) -> Option<DependentInner> {
        trusted::sync_held(self.cell)
    }

    fn new() -> (cell: Self) {
        SyncOnceCell { cell: trusted::sync_new() }
    }

    fn get(&self) -> (r: Option<&DependentInner>) {
        trusted::sync_get(&self.cell)
    }

    fn get_or_init<F>(&mut self, f: F) -> (r: &DependentInner) where F: FnOnce() -> DependentInner {
        trusted::sync_get_or_init(&mut self.cell, f)
    }

    fn take(&mut self) -> (r: Option<DependentInner>) {
        trusted::sync_take(&mut self.cell)
    }
}

/// Nothing is extracted twice: of two `take`s in a row, the first hands out
/// what the cell held and the second finds the cell empty.
pub proof fn law_no_double_extraction<T>(
    held: Option<T>,
    first: Option<T>,
    between: Option<T>,
    second: Option<T>,
    after: Option<T>,
)
    requires
        took(held, first, between),
        took(between, second, after),
    ensures
        first == held,
        second is None,
        after is None,
{
}

/// A cell is constructed once. Let any number of callers ask one cell for its
/// value in turn, each with a factory of its own: `states[i]` is what the cell
/// holds before caller `i`, `outs[i]` what that caller is handed, and
/// `makes[i]` tells which values its factory can make. Then every caller is
/// handed the same value, from the first call on the cell holds it, and no
/// factory after the first is ever consulted. If the cell was empty at the
/// start, the value is one that the first factory made.
pub proof fn law_single_construction<T>(
    states: Seq<Option<T>>,
    outs: Seq<T>,
    makes: Seq<spec_fn(T) -> bool>,
)
    requires
        outs.len() >= 1,
        states.len() == outs.len() + 1,
        makes.len() == outs.len(),
        forall|i: int|
            #![trigger outs[i]]
            0 <= i < outs.len() ==> {
                &&& filled(states[i], outs[i], states[i + 1])
                &&& states[i] is None ==> makes[i](outs[i])
            },
    ensures
        forall|i: int| 0 <= i < outs.len() ==> (#[trigger] outs[i]) == outs[0],
        forall|i: int| 1 <= i < states.len() ==> (#[trigger] states[i]) == Some(outs[0]),
        states[0] is None ==> forall|i: int| 0 <= i < outs.len() ==> makes[0](#[trigger] outs[i]),
    decreases outs.len(),
{
    if outs.len() > 1 {
        let n: int = outs.len() - 1;
        let earlier_states = states.take(n + 1);
        let earlier_outs = outs.take(n);
        assert forall|i: int| #![trigger earlier_outs[i]] 0 <= i < n implies {
            &&& filled(earlier_states[i], earlier_outs[i], earlier_states[i + 1])
            &&& earlier_states[i] is None ==> makes.take(n)[i](earlier_outs[i])
        } by {
            assert(earlier_outs[i] == outs[i]);
        }
        law_single_construction(earlier_states, earlier_outs, makes.take(n));
        assert(earlier_states[n] == Some(earlier_outs[0]));
        assert(filled(states[n], outs[n], states[n + 1]));
        assert forall|i: int| 0 <= i < outs.len() implies (#[trigger] outs[i]) == outs[0] by {
            if i < n {
                assert(earlier_outs[i] == earlier_outs[0]);
            }
        }
        assert forall|i: int| 1 <= i < states.len() implies (#[trigger] states[i]) == Some(
            outs[0],
        ) by {
            if i <= n {
                assert(earlier_states[i] == Some(earlier_outs[0]));
            }
        }
    } else {
        assert(filled(states[0], outs[0], states[1]));
    }
}

} // verus!
