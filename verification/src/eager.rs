//! The container whose dependent is made together with it.

use vstd::prelude::*;
use vstd::std_specs::cmp::PartialEqSpec;
use vstd::std_specs::convert::FromSpec;

verus! {

/// An owner and the dependent that was made from it when the container was
/// made.
///
/// The owner is boxed in `new` and stays where it is for as long as the
/// container lives, wherever the container itself is moved. The dependent
/// comes before the owner in the struct: a container that goes out of scope
/// gives up its dependent first.
#[derive(Debug)]
pub struct SelfCell<Owner, Dependent> {
    dependent: Dependent,
    owner: Box<Owner>,
}

impl<Owner, Dependent> SelfCell<Owner, Dependent> {
    /// The owner that the container was made with.
    pub closed spec fn owner(&self) -> Owner {
        *self.owner
    }

    /// The dependent that was made from the owner.
    pub closed spec fn dependent(&self) -> Dependent {
        self.dependent
    }

    /// Stores the owner, then makes the dependent from a borrow of the stored
    /// owner, by the conversion that `Dependent` has from `&Owner`, and keeps
    /// it.
    pub fn new(owner: Owner) -> (s: Self) where Dependent: for<'a> From<&'a Owner>
        ensures
            s.owner() == owner,
            call_ensures(Dependent::from, (&owner,), s.dependent()),
            Dependent::obeys_from_spec() ==> s.dependent() == Dependent::from_spec(&owner),
    {
        let owner = Box::new(owner);
        let dependent = Dependent::from(&*owner);
        SelfCell { dependent, owner }
    }

    /// The owner, as it was given to `new`.
    pub fn borrow_owner(&self) -> (r: &Owner)
        ensures
            *r == self.owner(),
    {
        &*self.owner
    }

    /// The dependent. The borrow lasts no longer than that of the container.
    pub fn borrow_dependent(&self) -> (r: &Dependent)
        ensures
            *r == self.dependent(),
    {
        &self.dependent
    }

    /// Calls `func` once, with a borrow of the dependent that ends with the
    /// call. Nothing comes back.
    pub fn with_dependent<F>(&self, func: F) where F: FnOnce(&Dependent)
        requires
            call_requires(func, (&self.dependent(),)),
        ensures
            call_ensures(func, (&self.dependent(),), ()),
    {
        func(&self.dependent)
    }

    /// Takes the container apart and hands back the owner. The dependent is
    /// given up first.
    pub fn into_owner(self) -> (owner: Owner)
        ensures
            owner == self.owner(),
    {
        let SelfCell { dependent, owner } = self;
        {
            let _leaving = dependent;
        }
        *owner
    }
}

impl<Owner: PartialEq, Dependent> PartialEq for SelfCell<Owner, Dependent> {
    /// Containers compare as their owners do. The dependents are not looked
    /// at: each is taken to be a function of its owner.
    fn eq(&self, other: &Self) -> (r: bool) {
        *self.owner == *other.owner
    }
}

impl<Owner: PartialEq, Dependent> vstd::std_specs::cmp::PartialEqSpecImpl for SelfCell<Owner, Dependent> {
    open spec fn obeys_eq_spec() -> bool {
        Owner::obeys_eq_spec()
    }

    open spec fn eq_spec(&self, other: &Self) -> bool {
        self.owner().eq_spec(&other.owner())
    }
}

impl<Owner: Eq, Dependent> Eq for SelfCell<Owner, Dependent> {}

impl<Owner: core::hash::Hash, Dependent> core::hash::Hash for SelfCell<Owner, Dependent> {
    /// Containers hash as their owners do: the owner is all that is fed to
    /// the hasher.
    fn hash<H: core::hash::Hasher>(&self, state: &mut H) {
        crate::trusted::feed(&*self.owner, state)
    }
}

impl<Owner: Clone, Dependent: for<'a> From<&'a Owner>> Clone for SelfCell<Owner, Dependent> {
    /// A container of its own around a clone of the owner. The dependent is
    /// not cloned: it is made anew, from the stored clone.
    fn clone(&self) -> (c: Self)
        ensures
            cloned(self.owner(), c.owner()),
            call_ensures(Dependent::from, (&c.owner(),), c.dependent()),
    {
        SelfCell::new((*self.owner).clone())
    }
}

/// Equality goes by the owners alone: two containers are equal exactly when
/// their owners are, whatever their dependents hold.
pub proof fn law_equality_goes_by_owner<Owner: PartialEq, Dependent>(
    a: SelfCell<Owner, Dependent>,
    b: SelfCell<Owner, Dependent>,
)
    ensures
        a.eq_spec(&b) == a.owner().eq_spec(&b.owner()),
{
}

} // verus!
