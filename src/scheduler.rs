//! The per-tick reconciliation of the application and system surfaces.
use crate::target::{AppearanceState, ThemeTarget};
use crate::time::TimeOfDay;
use vstd::prelude::*;

verus! {

/// The two surfaces, and whether the system surface follows the
/// application surface.
#[derive(Clone, Copy, Debug, PartialEq, Eq, Structural)]
pub struct Scheduler {
    pub app_target: ThemeTarget,
    pub system_target: ThemeTarget,
    pub link_system_to_app: bool,
}

impl Scheduler {
    pub open spec fn wf(self) -> bool {
        self.app_target.wf() && self.system_target.wf()
    }

    /// The appearances to apply on a tick: the application's, and the
    /// system's, which is the application's while the two are linked.
    pub open spec fn outputs(
        self,
        now: TimeOfDay,
        observed_app: AppearanceState,
        observed_system: AppearanceState,
    ) -> (AppearanceState, AppearanceState) {
        let app_out = self.app_target.desired(now, observed_app);
        let sys_raw = self.system_target.desired(now, observed_system);
        (app_out, if self.link_system_to_app { app_out } else { sys_raw })
    }

    /// The scheduler after a tick: each surface holds what is applied to it.
    pub open spec fn after_tick(
        self,
        now: TimeOfDay,
        observed_app: AppearanceState,
        observed_system: AppearanceState,
    ) -> Scheduler {
        let out = self.outputs(now, observed_app, observed_system);
        Scheduler {
            app_target: ThemeTarget { current: out.0, ..self.app_target },
            system_target: ThemeTarget { current: out.1, ..self.system_target },
            link_system_to_app: self.link_system_to_app,
        }
    }

    pub fn new(app_target: ThemeTarget, system_target: ThemeTarget, link_system_to_app: bool) -> (r:
        Scheduler)
        ensures
            r.app_target == app_target,
            r.system_target == system_target,
            r.link_system_to_app == link_system_to_app,
    {
        Scheduler { app_target, system_target, link_system_to_app }
    }

    /// Reconciles both surfaces at `now` against the observed system states
    /// and returns (application, system) appearances to apply.
    pub fn tick(
        &mut self,
        now: TimeOfDay,
        observed_app: AppearanceState,
        observed_system: AppearanceState,
    ) -> (r: (AppearanceState, AppearanceState))
        ensures
            r == old(self).outputs(now, observed_app, observed_system),
            r.0 == old(self).app_target.desired(now, observed_app),
            old(self).link_system_to_app ==> r.1 == r.0,
            !old(self).link_system_to_app ==> r.1 == old(self).system_target.desired(
                now,
                observed_system,
            ),
            *final(self) == old(self).after_tick(now, observed_app, observed_system),
    {
        let app_out = self.app_target.reconcile(now, observed_app);
        let sys_raw = self.system_target.reconcile(now, observed_system);
        let sys_out = if self.link_system_to_app {
            app_out
        } else {
            sys_raw
        };
        self.system_target.current = sys_out;
        (app_out, sys_out)
    }
}

/// A tick is idempotent: the same inputs give the same outputs whatever
/// state an earlier tick left, and once its outputs are applied, a second
/// tick at the same time observes them, returns them again and changes
/// nothing.
pub proof fn lemma_tick_idempotent(
    s: Scheduler,
    now: TimeOfDay,
    observed_app: AppearanceState,
    observed_system: AppearanceState,
)
    ensures
        ({
            let out = s.outputs(now, observed_app, observed_system);
            let next = s.after_tick(now, observed_app, observed_system);
            &&& next.outputs(now, observed_app, observed_system) == out
            &&& next.outputs(now, out.0, out.1) == out
            &&& next.after_tick(now, out.0, out.1) == next
        }),
{
}

/// While the system surface is linked to the application surface, both get
/// the same appearance on every tick, whatever the system surface's own
/// window and switching flag.
pub proof fn lemma_linked_outputs_agree(
    s: Scheduler,
    now: TimeOfDay,
    observed_app: AppearanceState,
    observed_system: AppearanceState,
)
    requires
        s.link_system_to_app,
    ensures
        s.outputs(now, observed_app, observed_system).1 == s.outputs(
            now,
            observed_app,
            observed_system,
        ).0,
        s.after_tick(now, observed_app, observed_system).system_target.current == s.after_tick(
            now,
            observed_app,
            observed_system,
        ).app_target.current,
        forall|sys: ThemeTarget|
            (Scheduler { system_target: sys, ..s }).outputs(now, observed_app, observed_system)
                == s.outputs(now, observed_app, observed_system),
{
}

} // verus!
