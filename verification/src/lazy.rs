//! The container whose dependent is made on first demand.

use core::marker::PhantomData;
use vstd::prelude::*;

use crate::filled;
use crate::OnceCellCompatible;

verus! {

/// What the two cells that come with the crate store: a dependent with its
/// tie to the owner erased. It is a position in the owner, and means something
/// only next to a borrow of that owner, which `get_owner` gives at each use.
pub type DependentInner = usize;

/// An owner, and beside it a cell for the dependent that is made from the
/// owner when it is first asked for.
///
/// The owner is boxed in `new` and stays where it is for as long as the
/// container lives, wherever the container itself is moved. The cell comes
/// before the owner in the struct: a container that goes out of scope gives
/// up its dependent first.
///
/// `Cell` is the policy by which the dependent is kept. With one of the two
/// cells of the crate the dependent is a `DependentInner`; a policy of the
/// caller's own may keep a dependent of any type.
#[derive(Debug)]
pub struct OnceSelfCell<Owner, Cell: OnceCellCompatible<Dependent>, Dependent = DependentInner> {
    dependent_cell: Cell,
    owner: Box<Owner>,
    stored: PhantomData<Dependent>,
}

impl<Owner, Cell: OnceCellCompatible<Dependent>, Dependent> OnceSelfCell<Owner, Cell, Dependent> {
    /// The owner that the container was made with.
    pub closed spec fn owner(&self) -> Owner {
        *self.owner
    }

    /// The dependent, once it has been made.
    pub closed spec fn dependent(&self) -> Option<Dependent> {
        self.dependent_cell.held()
    }

    /// How `drop_dependent` changes a container: afterwards it holds no
    /// dependent, and its owner is the one it had before.
    pub open spec fn reset_of(&self, before: &Self) -> bool {
        &&& self.dependent() is None
        &&& self.owner() == before.owner()
    }

    /// Stores the owner. No dependent is made yet.
    pub fn new(owner: Owner) -> (s: Self)
        ensures
            s.owner() == owner,
            s.dependent() is None,
    {
        OnceSelfCell { dependent_cell: Cell::new(), owner: Box::new(owner), stored: PhantomData }
    }

    /// The owner, as it was given to `new`.
    pub fn get_owner(&self) -> (r: &Owner)
        ensures
            *r == self.owner(),
    {
        &*self.owner
    }

    /// The dependent, if it has been made.
    pub fn get_dependent(&self) -> (r: Option<&Dependent>)
        ensures
            r == (match self.dependent() {
                Some(d) => Some(&d),
                None => None,
            }),
    {
        self.dependent_cell.get()
    }

    /// The dependent. If there is none yet, `make_dependent` is called with a
    /// borrow of the stored owner and what it returns is kept; if there is
    /// one, it is returned and `make_dependent` is not looked at. The owner is
    /// the same before and after.
    pub fn get_or_init_dependent<F>(&mut self, make_dependent: F) -> (r: &Dependent)
        where F: FnOnce(&Owner) -> Dependent
        requires
            old(self).dependent() is None ==> call_requires(make_dependent, (&old(self).owner(),)),
        ensures
            final(self).owner() == old(self).owner(),
            filled(old(self).dependent(), *r, final(self).dependent()),
            old(self).dependent() is None ==> call_ensures(
                make_dependent,
                (&old(self).owner(),),
                *r,
            ),
    {
        let owner: &Owner = &*self.owner;
        let make = || -> (made: Dependent)
            requires
                call_requires(make_dependent, (owner,)),
            ensures
                call_ensures(make_dependent, (owner,), made),
            { make_dependent(owner) };
        self.dependent_cell.get_or_init(make)
    }

    /// Whether no dependent has been made yet. Asking does not make one.
    pub fn dependent_is_none(&self) -> (b: bool)
        ensures
            b == (self.dependent() is None),
    {
        self.dependent_cell.get().is_none()
    }

    /// Gives up the dependent, if there is one, and keeps the owner. The
    /// container is then as `new` left it, and a dependent can be made again.
    pub fn drop_dependent(&mut self)
        ensures
            final(self).reset_of(old(self)),
    {
        let _leaving = self.dependent_cell.take();
    }

    /// Takes the container apart and hands back the owner. The dependent is
    /// given up first: the owner is released from a container that holds none.
    pub fn into_owner(self) -> (owner: Owner)
        ensures
            owner == self.owner(),
    {
        let mut this = self;
        this.drop_dependent();
        this.release_owner()
    }

    /// Unboxes the owner of a container whose dependent is gone.
    fn release_owner(self) -> (owner: Owner)
        requires
            self.dependent() is None,
        ensures
            owner == self.owner(),
    {
        let OnceSelfCell { dependent_cell, owner, stored: _ } = self;
        {
            let _leaving = dependent_cell;
        }
        *owner
    }
}

/// Presence follows the first access: a container fresh from `new` has no
/// dependent, and after one `get_or_init_dependent` it has one, namely the
/// value that the call handed out. So `dependent_is_none` answers `true`
/// before the call and `false` after it.
pub proof fn law_presence_follows_first_access<Owner, Cell: OnceCellCompatible<Dependent>, Dependent>(
    fresh: OnceSelfCell<Owner, Cell, Dependent>,
    out: Dependent,
    accessed: OnceSelfCell<Owner, Cell, Dependent>,
)
    requires
        fresh.dependent() is None,
        filled(fresh.dependent(), out, accessed.dependent()),
    ensures
        fresh.dependent() is None,
        accessed.dependent() == Some(out),
        !(accessed.dependent() is None),
{
}

/// The owner stays what it is. Let a container pass through any number of
/// states, each reached from the one before by `get_or_init_dependent` or by
/// `drop_dependent`, which both keep the owner. Then `get_owner` shows in every
/// state the owner of the first, and so the owner that every factory on the
/// way was handed.
pub proof fn law_owner_is_unchanged<Owner, Cell: OnceCellCompatible<Dependent>, Dependent>(
    states: Seq<OnceSelfCell<Owner, Cell, Dependent>>,
)
    requires
        forall|i: int|
            1 <= i < states.len() ==> (#[trigger] states[i]).owner() == states[i - 1].owner(),
    ensures
        forall|i: int| 0 <= i < states.len() ==> (#[trigger] states[i]).owner() == states[0].owner(),
    decreases states.len(),
{
    if states.len() > 1 {
        let n: int = states.len() - 1;
        let earlier = states.take(n);
        assert forall|i: int| 1 <= i < earlier.len() implies (#[trigger] earlier[i]).owner()
            == earlier[i - 1].owner() by {
            assert(states[i].owner() == states[i - 1].owner());
        }
        law_owner_is_unchanged(earlier);
        assert(states[n].owner() == states[n - 1].owner());
        assert forall|i: int| 0 <= i < states.len() implies (#[trigger] states[i]).owner()
            == states[0].owner() by {
            if i < n {
                assert(earlier[i].owner() == earlier[0].owner());
            } else {
                assert(earlier[n - 1].owner() == earlier[0].owner());
            }
        }
    }
}

/// The dependent leaves first. A container is taken apart in two steps:
/// `drop_dependent` leads from `before` to `reset`, and then the owner is
/// unboxed from `reset`. Whatever `before` held, no dependent is left at the
/// second step, and the owner that comes out is the one that `before` was
/// built around: the one that its dependent was made from.
pub proof fn law_dependent_leaves_first<Owner, Cell: OnceCellCompatible<Dependent>, Dependent>(
    before: OnceSelfCell<Owner, Cell, Dependent>,
    reset: OnceSelfCell<Owner, Cell, Dependent>,
    released: Owner,
)
    requires
        reset.reset_of(&before),
        released == reset.owner(),
    ensures
        reset.dependent() is None,
        released == before.owner(),
{
}

} // verus!
