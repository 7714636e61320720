//! What this library takes on trust: the two write-once cells of the
//! `once_cell` crate, as far as it uses them, and the hashing of `std`.
//!
//! Nothing in this file is proved. Each function below makes one call into
//! `once_cell` or `std`, and its contract is what Verus is told to believe of
//! that call. Everything else in the library is verified against these
//! contracts.
//!
//! A shared reference is, to Verus, a value that never changes. A contract can
//! therefore only say what a cell holds if the cell changes through exclusive
//! borrows alone. That is why the cell is handed to `get_or_init` as `&mut`
//! here, although the method of `once_cell` would be content with `&`: what the
//! cell holds is then a plain function of the cell's value, it changes exactly
//! where a contract says so, and the factory cannot reach the cell while it
//! runs.

use vstd::prelude::*;

verus! {

/// `once_cell::unsync::OnceCell`, declared so that it can stand in a field and
/// in signatures. Verus sees nothing inside a value of it.
#[verifier::external_type_specification]
#[verifier::external_body]
#[verifier::reject_recursive_types(T)]
pub struct ExUnsyncOnceCell<T>(once_cell::unsync::OnceCell<T>);

/// `once_cell::sync::OnceCell`, declared so that it can stand in a field and in
/// signatures. Verus sees nothing inside a value of it.
#[verifier::external_type_specification]
#[verifier::external_body]
#[verifier::reject_recursive_types(T)]
pub struct ExSyncOnceCell<T>(once_cell::sync::OnceCell<T>);

/// What a single-threaded cell holds: `None` while it is empty, else the one
/// value that was stored in it. It changes in `unsync_get_or_init` and in
/// `unsync_take`, and nowhere else.
pub uninterp spec fn unsync_held(cell: once_cell::unsync::OnceCell<usize>) -> Option<usize>;

/// What a thread-safe cell holds: `None` while it is empty, else the one value
/// that was stored in it. It changes in `sync_get_or_init` and in `sync_take`,
/// and nowhere else.
pub uninterp spec fn sync_held(cell: once_cell::sync::OnceCell<usize>) -> Option<usize>;

/// `once_cell::unsync::OnceCell::new`: the cell it makes is empty.
#[verifier::external_body]
pub(crate) fn unsync_new() -> (cell: once_cell::unsync::OnceCell<usize>)
    ensures
        unsync_held(cell) is None,
{
    once_cell::unsync::OnceCell::new()
}

/// `once_cell::unsync::OnceCell::get`: a reference to the value in the cell,
/// or `None` if the cell is empty.
#[verifier::external_body]
pub(crate) fn unsync_get(cell: &once_cell::unsync::OnceCell<usize>) -> (r: Option<&usize>)
    ensures
        r == (match unsync_held(*cell) {
            Some(v) => Some(&v),
            None => None,
        }),
{
    cell.get()
}

/// `once_cell::unsync::OnceCell::get_or_init`: a full cell is left as it is and
/// its value is returned; into an empty cell the value that `f` returns is
/// stored first. `f` is called in the second case only. The method panics if
/// `f` itself initialises the cell; `f` cannot, as the cell is borrowed
/// exclusively for the call.
#[verifier::external_body]
pub(crate) fn unsync_get_or_init<F: FnOnce() -> usize>(
    cell: &mut once_cell::unsync::OnceCell<usize>,
    f: F,
) -> (r: &usize)
    requires
        unsync_held(*old(cell)) is None ==> call_requires(f, ()),
    ensures
        unsync_held(*final(cell)) == Some(*r),
        unsync_held(*old(cell)) matches Some(v) ==> *r == v,
        unsync_held(*old(cell)) is None ==> call_ensures(f, (), *r),
{
    cell.get_or_init(f)
}

/// `once_cell::unsync::OnceCell::take`: returns what the cell held and leaves
/// the cell empty.
#[verifier::external_body]
pub(crate) fn unsync_take(cell: &mut once_cell::unsync::OnceCell<usize>) -> (r: Option<usize>)
    ensures
        r == unsync_held(*old(cell)),
        unsync_held(*final(cell)) is None,
{
    cell.take()
}

/// `once_cell::sync::OnceCell::new`: the cell it makes is empty.
#[verifier::external_body]
pub(crate) fn sync_new() -> (cell: once_cell::sync::OnceCell<usize>)
    ensures
        sync_held(cell) is None,
{
    once_cell::sync::OnceCell::new()
}

/// `once_cell::sync::OnceCell::get`: a reference to the value in the cell, or
/// `None` if the cell is empty. It never blocks.
#[verifier::external_body]
pub(crate) fn sync_get(cell: &once_cell::sync::OnceCell<usize>) -> (r: Option<&usize>)
    ensures
        r == (match sync_held(*cell) {
            Some(v) => Some(&v),
            None => None,
        }),
{
    cell.get()
}

/// `once_cell::sync::OnceCell::get_or_init`: a full cell is left as it is and
/// its value is returned; into an empty cell the value that `f` returns is
/// stored first. `f` is called in the second case only. The method does not
/// return if `f` itself initialises the cell; `f` cannot, as the cell is
/// borrowed exclusively for the call, and for the same reason no other thread
/// is initialising it.
#[verifier::external_body]
pub(crate) fn sync_get_or_init<F: FnOnce() -> usize>(
    cell: &mut once_cell::sync::OnceCell<usize>,
    f: F,
) -> (r: &usize)
    requires
        sync_held(*old(cell)) is None ==> call_requires(f, ()),
    ensures
        sync_held(*final(cell)) == Some(*r),
        sync_held(*old(cell)) matches Some(v) ==> *r == v,
        sync_held(*old(cell)) is None ==> call_ensures(f, (), *r),
{
    cell.get_or_init(f)
}

/// `once_cell::sync::OnceCell::take`: returns what the cell held and leaves the
/// cell empty.
#[verifier::external_body]
pub(crate) fn sync_take(cell: &mut once_cell::sync::OnceCell<usize>) -> (r: Option<usize>)
    ensures
        r == sync_held(*old(cell)),
        sync_held(*final(cell)) is None,
{
    cell.take()
}

/// `core::hash::Hash::hash`: feeds `value` into `state`. What the hasher makes
/// of it is not stated.
#[verifier::external_body]
pub(crate) fn feed<T: core::hash::Hash, H: core::hash::Hasher>(value: &T, state: &mut H) {
    value.hash(state)
}

} // verus!
