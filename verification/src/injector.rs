//! The injector's decisions: whether it runs elevated, and where it
//! takes the overlay library from.
use vstd::prelude::*;

verus! {

/// The places where the overlay library is looked for, in order.
#[derive(Clone, Copy, Debug, PartialEq, Eq, Structural)]
pub enum DllLocation {
    /// Beside the injector's own executable.
    BesideExecutable,
    /// In the debug build directory.
    DebugBuild,
    /// In the release build directory.
    ReleaseBuild,
}

/// The first place, in the order of `DllLocation`, where the library
/// exists; `None` where it exists nowhere.
pub open spec fn spec_choose_dll(beside: bool, debug: bool, release: bool) -> Option<DllLocation> {
    if beside {
        Some(DllLocation::BesideExecutable)
    } else if debug {
        Some(DllLocation::DebugBuild)
    } else if release {
        Some(DllLocation::ReleaseBuild)
    } else {
        None
    }
}

/// Chooses where to take the overlay library from, given whether it
/// exists beside the executable, in the debug build and in the release
/// build.
pub fn choose_dll(beside: bool, debug: bool, release: bool) -> (r: Option<DllLocation>)
    ensures
        r == spec_choose_dll(beside, debug, release),
{
    if beside {
        Some(DllLocation::BesideExecutable)
    } else if debug {
        Some(DllLocation::DebugBuild)
    } else if release {
        Some(DllLocation::ReleaseBuild)
    } else {
        None
    }
}

/// Whether the process runs elevated: its token could be opened, the
/// elevation query succeeded, and the token's elevation flag is set.
pub fn is_elevated(token_opened: bool, query_succeeded: bool, token_is_elevated: u32) -> (r: bool)
    ensures
        r == (token_opened && query_succeeded && token_is_elevated != 0),
{
    token_opened && query_succeeded && token_is_elevated != 0
}

/// The library is found exactly when it exists somewhere; it is taken from
/// beside the executable whenever it is there, from the debug build
/// whenever it is not beside the executable but in the debug build
/// (whatever the release build holds), and from the release build only
/// when it is in neither of the other two places.
pub proof fn lemma_choose_dll_order(beside: bool, debug: bool, release: bool)
    ensures
        spec_choose_dll(beside, debug, release) is None <==> !beside && !debug && !release,
        spec_choose_dll(beside, debug, release) == Some(DllLocation::BesideExecutable) <==> beside,
        spec_choose_dll(beside, debug, release) == Some(DllLocation::DebugBuild) <==> !beside && debug,
        spec_choose_dll(beside, debug, release) == Some(DllLocation::ReleaseBuild) <==> !beside && !debug && release,
{
}

} // verus!
