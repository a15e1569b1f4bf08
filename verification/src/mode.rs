//! The three modes a build can be in.

use vstd::prelude::*;

verus! {

/// What the hooks do in a build.
#[derive(Debug, Clone, Copy, PartialEq, Eq, Structural)]
pub enum Mode {
    /// Assertions go to the simulation platform.
    Sdk,
    /// Assertions are decided locally, as debug assertions.
    Debug,
    /// The hooks compile to nothing.
    Release,
}

impl Mode {
    /// The mode of a build, from whether the SDK is enabled and whether debug assertions are on.
    pub open spec fn of(sdk_enabled: bool, debug_assertions: bool) -> Mode {
        if sdk_enabled {
            Mode::Sdk
        } else if debug_assertions {
            Mode::Debug
        } else {
            Mode::Release
        }
    }

    /// Whether ghost state holds a value and observations run.
    pub open spec fn live(self) -> bool {
        self is Sdk || self is Debug
    }

    /// Selects the mode of a build. The SDK wins over debug assertions: an instrumented build
    /// forwards whether or not debug assertions are on.
    pub fn select(sdk_enabled: bool, debug_assertions: bool) -> (mode: Mode)
        ensures
            mode == Mode::of(sdk_enabled, debug_assertions),
            mode is Sdk <==> sdk_enabled,
            mode is Debug <==> !sdk_enabled && debug_assertions,
            mode is Release <==> !sdk_enabled && !debug_assertions,
        no_unwind
    {
        if sdk_enabled {
            Mode::Sdk
        } else if debug_assertions {
            Mode::Debug
        } else {
            Mode::Release
        }
    }

    /// Whether an assertion site is evaluated and decided in the process itself.
    pub fn asserts_locally(self) -> (local: bool)
        ensures
            local <==> self is Debug,
        no_unwind
    {
        match self {
            Mode::Debug => true,
            Mode::Sdk | Mode::Release => false,
        }
    }
}

/// Every build is in exactly one mode, so of the alternatives "forward", "decide locally" and
/// "compile out" exactly one applies.
pub proof fn law_exactly_one_mode(sdk_enabled: bool, debug_assertions: bool)
    ensures
        ({
            let mode = Mode::of(sdk_enabled, debug_assertions);
            ||| mode is Sdk && mode !is Debug && mode !is Release
            ||| mode !is Sdk && mode is Debug && mode !is Release
            ||| mode !is Sdk && mode !is Debug && mode is Release
        }),
{
}

/// Ghost state is live exactly where the SDK is enabled or debug assertions are on, and a mode
/// that decides assertions locally is always live: a property never reads erased state.
pub proof fn law_live_where_observable(sdk_enabled: bool, debug_assertions: bool)
    ensures
        Mode::of(sdk_enabled, debug_assertions).live() <==> sdk_enabled || debug_assertions,
        Mode::of(sdk_enabled, debug_assertions) is Debug ==> Mode::of(
            sdk_enabled,
            debug_assertions,
        ).live(),
{
}

/// The mode that is selected is the SDK's where the SDK is enabled, the debug mode where it is not
/// and debug assertions are on, and the release mode where neither holds.
pub proof fn law_selected_mode(sdk_enabled: bool, debug_assertions: bool, mode: Mode)
    requires
        call_ensures(Mode::select, (sdk_enabled, debug_assertions), mode),
    ensures
        mode == Mode::Sdk <==> sdk_enabled,
        mode == Mode::Debug <==> !sdk_enabled && debug_assertions,
        mode == Mode::Release <==> !sdk_enabled && !debug_assertions,
        mode == Mode::of(sdk_enabled, debug_assertions),
        mode.live() <==> sdk_enabled || debug_assertions,
{
}

/// A build asserts locally exactly where the SDK is off and debug assertions are on.
pub proof fn law_asserts_locally(
    sdk_enabled: bool,
    debug_assertions: bool,
    mode: Mode,
    local: bool,
)
    requires
        call_ensures(Mode::select, (sdk_enabled, debug_assertions), mode),
        call_ensures(Mode::asserts_locally, (mode,), local),
    ensures
        local <==> !sdk_enabled && debug_assertions,
{
}

} // verus!
