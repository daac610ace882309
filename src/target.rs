//! One surface whose appearance follows either the operating system or a
//! daily window.
use crate::time::{TimeError, TimeOfDay, TimeWindow};
use vstd::prelude::*;

verus! {

/// Whether a surface shows its dark appearance.
#[derive(Clone, Copy, Debug, PartialEq, Eq, Structural)]
pub struct AppearanceState {
    pub is_dark: bool,
}

/// A surface's appearance, its dark window, and whether the window decides.
#[derive(Clone, Copy, Debug, PartialEq, Eq, Structural)]
pub struct ThemeTarget {
    pub current: AppearanceState,
    pub window: TimeWindow,
    pub auto_enabled: bool,
}

impl AppearanceState {
    pub fn new(is_dark: bool) -> (r: AppearanceState)
        ensures
            r.is_dark == is_dark,
    {
        AppearanceState { is_dark }
    }
}

impl ThemeTarget {
    pub open spec fn wf(self) -> bool {
        self.window.wf()
    }

    /// The appearance the surface should have at `now`, given what the
    /// operating system shows: dark inside the window when switching is
    /// automatic, and otherwise the system's own state.
    pub open spec fn desired(self, now: TimeOfDay, observed: AppearanceState) -> AppearanceState {
        if self.auto_enabled {
            AppearanceState { is_dark: self.window.spec_contains(now) }
        } else {
            observed
        }
    }

    pub fn new(current: AppearanceState, window: TimeWindow, auto_enabled: bool) -> (r: ThemeTarget)
        ensures
            r.current == current,
            r.window == window,
            r.auto_enabled == auto_enabled,
    {
        ThemeTarget { current, window, auto_enabled }
    }

    /// Moves the window's start to `hour`:`minute`; an out-of-range time is
    /// refused and leaves the surface as it was.
    pub fn set_start(&mut self, hour: u32, minute: u32) -> (r: Result<(), TimeError>)
        ensures
            (hour < 24 && minute < 60) ==> r is Ok && *final(self) == (ThemeTarget {
                window: TimeWindow { start: TimeOfDay { hour, minute }, ..old(self).window },
                ..*old(self)
            }),
            !(hour < 24 && minute < 60) ==> r == Err::<(), TimeError>(TimeError::InvalidTime)
                && *final(self) == *old(self),
    {
        match TimeOfDay::new(hour, minute) {
            Ok(t) => {
                self.window.start = t;
                Ok(())
            },
            Err(e) => Err(e),
        }
    }

    /// Moves the window's end to `hour`:`minute`; an out-of-range time is
    /// refused and leaves the surface as it was.
    pub fn set_end(&mut self, hour: u32, minute: u32) -> (r: Result<(), TimeError>)
        ensures
            (hour < 24 && minute < 60) ==> r is Ok && *final(self) == (ThemeTarget {
                window: TimeWindow { end: TimeOfDay { hour, minute }, ..old(self).window },
                ..*old(self)
            }),
            !(hour < 24 && minute < 60) ==> r == Err::<(), TimeError>(TimeError::InvalidTime)
                && *final(self) == *old(self),
    {
        match TimeOfDay::new(hour, minute) {
            Ok(t) => {
                self.window.end = t;
                Ok(())
            },
            Err(e) => Err(e),
        }
    }

    /// Brings the surface in line with the time and the observed system
    /// state, and returns the appearance to apply.
    pub fn reconcile(&mut self, now: TimeOfDay, observed: AppearanceState) -> (r: AppearanceState)
        ensures
            r == old(self).desired(now, observed),
            !old(self).auto_enabled ==> r == observed,
            old(self).auto_enabled ==> r.is_dark == (now.spec_ge(old(self).window.start)
                || now.spec_lt(old(self).window.end)),
            final(self).current == r,
            final(self).window == old(self).window,
            final(self).auto_enabled == old(self).auto_enabled,
    {
        let r = if self.auto_enabled {
            AppearanceState { is_dark: self.window.contains(now) }
        } else {
            observed
        };
        self.current = r;
        r
    }
}

/// With automatic switching off, a surface takes the observed system state,
/// whatever the time.
pub proof fn lemma_manual_passthrough(t: ThemeTarget, now: TimeOfDay, observed: AppearanceState)
    requires
        !t.auto_enabled,
    ensures
        t.desired(now, observed) == observed,
{
}

} // verus!
