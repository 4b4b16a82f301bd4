//! The surface for a binding to a dynamic language. The binding layer hands
//! over text that is valid already, so only the level name may be absent.

use crate::guard::InitGuard;
use crate::init::{init_logger, initialized_by};
use crate::level::{lemma_absent_name_is_info, level_of, level_or_default, SeverityLevel};
use vstd::prelude::*;

verus! {

/// The level that an optional level name asks for: the level it names, and
/// `Info` where it is absent.
pub open spec fn requested_level(level: Option<&str>) -> SeverityLevel {
    match level {
        Some(name) => level_of(name@),
        None => SeverityLevel::Info,
    }
}

/// Installs the backend for a caller in the bound language. The result is
/// `true` unless the backend refused the installation.
pub fn init(guard: &mut InitGuard, level: Option<&str>) -> (ok: bool)
    ensures
        initialized_by(old(guard)@, requested_level(level), final(guard)@, ok),
{
    init_logger(guard, level_or_default(level)).is_ok()
}

/// An absent level name asks for the same level as the name `info`.
pub proof fn lemma_absent_level_is_info(name: &str)
    requires
        name@ == "info"@,
    ensures
        requested_level(None) == requested_level(Some(name)),
{
    lemma_absent_name_is_info();
}

} // verus!
