//! The write-once guard that records whether the backend has been installed.

use crate::config::BackendConfig;
use once_cell::sync::OnceCell;
use vstd::prelude::*;

verus! {

/// `OnceCell` of `once_cell::sync`: a cell that can be written once.
#[verifier::external_type_specification]
#[verifier::external_body]
#[verifier::reject_recursive_types(T)]
pub struct ExOnceCell<T>(OnceCell<T>);

/// What a cell holds: nothing while it is empty, and the value it was
/// written with from then on.
pub uninterp spec fn cell_value(cell: OnceCell<BackendConfig>) -> Option<BackendConfig>;

/// `OnceCell::new` of `once_cell::sync`: the new cell is empty.
#[verifier::external_body]
fn empty_cell() -> (cell: OnceCell<BackendConfig>)
    ensures
        cell_value(cell) is None,
{
    OnceCell::new()
}

/// `OnceCell::get` of `once_cell::sync`: it returns the value of the cell, and
/// nothing while the cell is empty.
#[verifier::external_body]
fn read_cell(cell: &OnceCell<BackendConfig>) -> (value: Option<BackendConfig>)
    ensures
        value == cell_value(*cell),
{
    cell.get().copied()
}

/// `OnceCell::set` of `once_cell::sync`: an empty cell is written with the
/// value and the call succeeds; a full cell keeps its value and the call
/// fails. The exclusive borrow keeps any other writer out for the length of
/// the call.
#[verifier::external_body]
fn write_cell(cell: &mut OnceCell<BackendConfig>, value: BackendConfig) -> (written: bool)
    ensures
        written == (cell_value(*old(cell)) is None),
        written ==> cell_value(*final(cell)) == Some(value),
        !written ==> cell_value(*final(cell)) == cell_value(*old(cell)),
{
    cell.set(value).is_ok()
}

/// The guard of one logging backend. It starts unset, is set by the one
/// successful installation made through it, and is never unset again.
///
/// Whatever changes the guard borrows it exclusively, so no two calls on one
/// guard overlap. A process that shares its guard among threads keeps it
/// behind a lock.
pub struct InitGuard {
    cell: OnceCell<BackendConfig>,
}

impl View for InitGuard {
    type V = Option<BackendConfig>;

    /// `None` while the guard is unset; once it is set, the configuration
    /// that was installed through it.
    closed spec fn view(&self) -> Option<BackendConfig> {
        cell_value(self.cell)
    }
}

impl InitGuard {
    /// A guard in the unset state.
    pub fn new() -> (guard: InitGuard)
        ensures
            guard@ is None,
    {
        InitGuard { cell: empty_cell() }
    }

    /// Whether the backend has been installed through this guard.
    pub fn is_set(&self) -> (set: bool)
        ensures
            set == (self@ is Some),
    {
        read_cell(&self.cell).is_some()
    }

    /// The configuration that was installed through this guard, if any.
    pub fn installed(&self) -> (config: Option<BackendConfig>)
        ensures
            config == self@,
    {
        read_cell(&self.cell)
    }

    /// Sets the guard, recording the configuration that was installed. A
    /// guard that is set already keeps what it recorded.
    pub(crate) fn set(&mut self, config: BackendConfig) -> (written: bool)
        ensures
            written == (old(self)@ is None),
            final(self)@ == (if written { Some(config) } else { old(self)@ }),
    {
        write_cell(&mut self.cell, config)
    }
}

} // verus!
