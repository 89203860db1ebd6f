//! What the front end asks of the system's power management, and how the
//! codes that come back are read. The calls themselves are made elsewhere.

use vstd::prelude::*;

verus! {

/// The level of an assertion that is in force.
pub const ASSERTION_LEVEL_ON: u32 = 255;

/// The level of an assertion that is switched off.
pub const ASSERTION_LEVEL_OFF: u32 = 0;

/// The code for success.
pub const RETURN_SUCCESS: u32 = 0;

/// The code with which a change of the sleep setting is refused for want of
/// privilege.
pub const RETURN_NOT_PRIVILEGED: u32 = 0xE00002C1;

/// The code with which the release of an assertion is answered that was
/// released before.
pub const RETURN_ALREADY_RELEASED: u32 = 0xE00002C2;

/// The kinds of sleep that an assertion can prevent.
#[derive(Clone, Copy, Debug, PartialEq, Eq)]
pub enum AssertionType {
    /// Keeps the display from dimming when the user is idle.
    PreventUserIdleDisplaySleep,
    /// Keeps the disk from stopping when idle.
    PreventDiskIdle,
    /// Keeps the system from sleeping when the user is idle.
    PreventUserIdleSystemSleep,
    /// Keeps the system from sleeping while on AC power.
    PreventSystemSleep,
}

/// One request to power management.
#[derive(Clone, Copy, Debug, PartialEq, Eq)]
pub enum Request {
    /// Create an assertion of this type.
    Assertion(AssertionType),
    /// Declare that the user is active.
    UserActivity,
}

/// The kinds of sleep that the user asked to prevent.
#[derive(Clone, Copy, Debug, PartialEq, Eq)]
pub struct SleepOptions {
    /// Prevent nothing in fact.
    pub dry_run: bool,
    /// Prevent display sleep.
    pub display: bool,
    /// Prevent disk idle sleep.
    pub disk: bool,
    /// Prevent idle system sleep.
    pub system: bool,
    /// Prevent system sleep while on AC power.
    pub system_on_ac: bool,
    /// Disable system sleep entirely.
    pub entirely: bool,
    /// Declare the user active.
    pub user_active: bool,
}

/// How the answer to a change of the sleep setting reads.
#[derive(Clone, Copy, Debug, PartialEq, Eq)]
pub enum SwitchResult {
    /// The setting was changed.
    Changed,
    /// The caller lacks the privilege; the code is kept for the report.
    NotPrivileged(u32),
    /// Any other code: a fault that the caller cannot recover from.
    Fault(u32),
}

/// How the answer to the release of an assertion reads.
#[derive(Clone, Copy, Debug, PartialEq, Eq)]
pub enum ReleaseResult {
    /// The assertion was released.
    Released,
    /// The assertion had been released before.
    AlreadyReleased,
    /// Any other code: a fault that the caller cannot recover from.
    Fault(u32),
}

/// The name under which power management knows an assertion type.
pub open spec fn assertion_name(assertion: AssertionType) -> Seq<char> {
    match assertion {
        AssertionType::PreventUserIdleDisplaySleep => "PreventUserIdleDisplaySleep"@,
        AssertionType::PreventDiskIdle => "PreventDiskIdle"@,
        AssertionType::PreventUserIdleSystemSleep => "PreventUserIdleSystemSleep"@,
        AssertionType::PreventSystemSleep => "PreventSystemSleep"@,
    }
}

/// Whether the user named any kind of sleep.
pub open spec fn any_chosen(options: SleepOptions) -> bool {
    options.display || options.disk || options.system || options.system_on_ac || options.entirely
        || options.user_active
}

/// The requests that the options call for, in the order in which they are
/// made: display, disk, idle system sleep, system sleep on AC, user
/// activity. A dry run makes none.
pub open spec fn requests(options: SleepOptions) -> Seq<Request> {
    if options.dry_run {
        Seq::empty()
    } else {
        (if options.display {
            seq![Request::Assertion(AssertionType::PreventUserIdleDisplaySleep)]
        } else {
            Seq::empty()
        }) + (if options.disk {
            seq![Request::Assertion(AssertionType::PreventDiskIdle)]
        } else {
            Seq::empty()
        }) + (if options.system {
            seq![Request::Assertion(AssertionType::PreventUserIdleSystemSleep)]
        } else {
            Seq::empty()
        }) + (if options.system_on_ac {
            seq![Request::Assertion(AssertionType::PreventSystemSleep)]
        } else {
            Seq::empty()
        }) + (if options.user_active {
            seq![Request::UserActivity]
        } else {
            Seq::empty()
        })
    }
}

impl AssertionType {
    /// The name under which power management knows this assertion type.
    pub fn name(&self) -> (name: &'static str)
        ensures
            name@ == assertion_name(*self),
    {
        match self {
            AssertionType::PreventUserIdleDisplaySleep => "PreventUserIdleDisplaySleep",
            AssertionType::PreventDiskIdle => "PreventDiskIdle",
            AssertionType::PreventUserIdleSystemSleep => "PreventUserIdleSystemSleep",
            AssertionType::PreventSystemSleep => "PreventSystemSleep",
        }
    }
}

impl SleepOptions {
    /// The options as they apply: where the user named no kind of sleep,
    /// idle system sleep is prevented.
    pub fn with_default(self) -> (options: SleepOptions)
        ensures
            options == if any_chosen(self) {
                self
            } else {
                SleepOptions { system: true, ..self }
            },
    {
        if self.display || self.disk || self.system || self.system_on_ac || self.entirely
            || self.user_active {
            self
        } else {
            SleepOptions { system: true, ..self }
        }
    }

    /// Whether system sleep is to be disabled entirely, through the shared
    /// switch: asked for, and not a dry run.
    pub fn disables_sleep(&self) -> (disables: bool)
        ensures
            disables == (self.entirely && !self.dry_run),
    {
        self.entirely && !self.dry_run
    }

    /// The requests to make of power management, in order.
    pub fn requests(&self) -> (plan: Vec<Request>)
        ensures
            plan@ == requests(*self),
    {
        let mut plan: Vec<Request> = Vec::new();
        if self.dry_run {
            return plan;
        }
        if self.display {
            plan.push(Request::Assertion(AssertionType::PreventUserIdleDisplaySleep));
        }
        if self.disk {
            plan.push(Request::Assertion(AssertionType::PreventDiskIdle));
        }
        if self.system {
            plan.push(Request::Assertion(AssertionType::PreventUserIdleSystemSleep));
        }
        if self.system_on_ac {
            plan.push(Request::Assertion(AssertionType::PreventSystemSleep));
        }
        if self.user_active {
            plan.push(Request::UserActivity);
        }
        plan
    }
}

/// The level to create an assertion with: on for `true`, off for `false`.
pub fn assertion_level(state: bool) -> (level: u32)
    ensures
        level == if state {
            ASSERTION_LEVEL_ON
        } else {
            ASSERTION_LEVEL_OFF
        },
{
    if state {
        ASSERTION_LEVEL_ON
    } else {
        ASSERTION_LEVEL_OFF
    }
}

/// Reads the code that a change of the sleep setting returned.
pub fn switch_result(code: u32) -> (result: SwitchResult)
    ensures
        result == if code == RETURN_SUCCESS {
            SwitchResult::Changed
        } else if code == RETURN_NOT_PRIVILEGED {
            SwitchResult::NotPrivileged(code)
        } else {
            SwitchResult::Fault(code)
        },
{
    if code == RETURN_SUCCESS {
        SwitchResult::Changed
    } else if code == RETURN_NOT_PRIVILEGED {
        SwitchResult::NotPrivileged(code)
    } else {
        SwitchResult::Fault(code)
    }
}

/// Reads the code that the release of an assertion returned.
pub fn release_result(code: u32) -> (result: ReleaseResult)
    ensures
        result == if code == RETURN_SUCCESS {
            ReleaseResult::Released
        } else if code == RETURN_ALREADY_RELEASED {
            ReleaseResult::AlreadyReleased
        } else {
            ReleaseResult::Fault(code)
        },
{
    if code == RETURN_SUCCESS {
        ReleaseResult::Released
    } else if code == RETURN_ALREADY_RELEASED {
        ReleaseResult::AlreadyReleased
    } else {
        ReleaseResult::Fault(code)
    }
}

} // verus!
