use vstd::prelude::*;

verus! {

/// What the system's `PrepareForSleep` signal announces.
#[derive(Clone, Copy, Debug, PartialEq, Eq, Structural)]
pub enum SleepTransition {
    /// The system is about to sleep.
    Suspend,
    /// The system woke up.
    Resume,
}

/// The transition that a `PrepareForSleep(start)` signal announces.
pub fn sleep_transition(start: bool) -> (t: SleepTransition)
    ensures
        t == (if start {
            SleepTransition::Suspend
        } else {
            SleepTransition::Resume
        }),
{
    if start {
        SleepTransition::Suspend
    } else {
        SleepTransition::Resume
    }
}

impl SleepTransition {
    /// The line reported for the transition (the camera itself is left as
    /// it is; the transition is only reported).
    pub fn notice(&self) -> (text: String)
        ensures
            text@ == match *self {
                SleepTransition::Suspend => "System is preparing for sleep. Suspending camera..."@,
                SleepTransition::Resume => "System resumed from sleep. Waking camera..."@,
            },
    {
        match self {
            SleepTransition::Suspend => "System is preparing for sleep. Suspending camera...".to_owned(),
            SleepTransition::Resume => "System resumed from sleep. Waking camera...".to_owned(),
        }
    }
}

} // verus!
