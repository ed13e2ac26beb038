//! Hardware timer driver core.
//!
//! A [`TimerDriver`] owns one physical timer instance and decides, for each
//! operation, exactly which native routine must be called: it returns that
//! decision as a [`TimerAction`] value, and the embedding program performs
//! the native call and reports its outcome back.  The dual
//! interrupt-context / normal-context call paths of the native layer are
//! selected here, from the [`ExecContext`] the caller observed.

use vstd::prelude::*;

use crate::ExecContext;
use crate::NativeError;
use crate::timer::config::Config;
use crate::timer::registry::CallbackRegistry;
use crate::timer::registry::SLOT_COUNT;

pub mod config;
pub mod registry;

verus! {

/// Shorthand for the timer configuration type.
pub type TimerConfig = Config;

/// How many timer groups the target has.
pub const TIMER_GROUP_MAX: u32 = 2;

/// How many timers one group holds.
pub const TIMER_INDEX_MAX: u32 = 2;

/// A physical timer instance: a compile-time token exposing the fixed
/// group/index address of its engine.  One value of an implementing type
/// must exist per physical engine at most; a driver takes it by value, so
/// that a second live driver for the same engine cannot be constructed
/// while the first holds the token.
pub trait Timer: Sized {
    /// The timer group this instance belongs to.
    spec fn spec_group() -> u32;

    /// The index of this instance within its group.
    spec fn spec_index() -> u32;

    /// The hardware address is within the bounds of the target.
    proof fn addr_in_bounds()
        ensures
            Self::spec_group() < TIMER_GROUP_MAX,
            Self::spec_index() < TIMER_INDEX_MAX,
    ;

    /// The timer group this instance belongs to.
    fn group() -> (g: u32)
        ensures
            g == Self::spec_group(),
    ;

    /// The index of this instance within its group.
    fn index() -> (i: u32)
        ensures
            i == Self::spec_index(),
    ;
}

/// Timer 0 of group 0.
pub struct TIMER00 {
    _marker: (),
}

/// Timer 1 of group 0.
pub struct TIMER01 {
    _marker: (),
}

/// Timer 0 of group 1.
pub struct TIMER10 {
    _marker: (),
}

/// Timer 1 of group 1.
pub struct TIMER11 {
    _marker: (),
}

impl TIMER00 {
    /// Creates the token for this instance.  The embedder must create at
    /// most one per program run: the token stands for exclusive access to
    /// the physical engine.
    pub fn new() -> TIMER00 {
        TIMER00 { _marker: () }
    }
}

impl TIMER01 {
    /// Creates the token for this instance.  The embedder must create at
    /// most one per program run: the token stands for exclusive access to
    /// the physical engine.
    pub fn new() -> TIMER01 {
        TIMER01 { _marker: () }
    }
}

impl TIMER10 {
    /// Creates the token for this instance.  The embedder must create at
    /// most one per program run: the token stands for exclusive access to
    /// the physical engine.
    pub fn new() -> TIMER10 {
        TIMER10 { _marker: () }
    }
}

impl TIMER11 {
    /// Creates the token for this instance.  The embedder must create at
    /// most one per program run: the token stands for exclusive access to
    /// the physical engine.
    pub fn new() -> TIMER11 {
        TIMER11 { _marker: () }
    }
}

impl Timer for TIMER00 {
    open spec fn spec_group() -> u32 {
        0
    }

    open spec fn spec_index() -> u32 {
        0
    }

    proof fn addr_in_bounds() {
    }

    fn group() -> u32 {
        0
    }

    fn index() -> u32 {
        0
    }
}

impl Timer for TIMER01 {
    open spec fn spec_group() -> u32 {
        0
    }

    open spec fn spec_index() -> u32 {
        1
    }

    proof fn addr_in_bounds() {
    }

    fn group() -> u32 {
        0
    }

    fn index() -> u32 {
        1
    }
}

impl Timer for TIMER10 {
    open spec fn spec_group() -> u32 {
        1
    }

    open spec fn spec_index() -> u32 {
        0
    }

    proof fn addr_in_bounds() {
    }

    fn group() -> u32 {
        1
    }

    fn index() -> u32 {
        0
    }
}

impl Timer for TIMER11 {
    open spec fn spec_group() -> u32 {
        1
    }

    open spec fn spec_index() -> u32 {
        1
    }

    proof fn addr_in_bounds() {
    }

    fn group() -> u32 {
        1
    }

    fn index() -> u32 {
        1
    }
}

/// The initial hardware state a timer engine is installed with, mirroring
/// the fields of the native initialisation block.
#[derive(Clone, Copy, Debug, PartialEq, Eq, Structural)]
pub struct TimerHwConfig {
    /// Alarm raised when the counter reaches the alarm value.
    pub alarm_en: bool,
    /// Counter running.
    pub counter_en: bool,
    /// Counter counts upward.
    pub count_up: bool,
    /// Counter reloads automatically when the alarm fires.
    pub auto_reload: bool,
    /// Level-triggered (rather than edge-triggered) interrupt.
    pub level_intr: bool,
    /// Prescaler applied to the source clock.
    pub divider: u32,
    /// Counter fed by the crystal oscillator instead of the bus clock.
    pub xtal: bool,
}

/// One call into the native timer layer.  Each variant names the native
/// routine the embedder must perform for the addressed engine.
#[derive(Clone, Copy, Debug, PartialEq, Eq, Structural)]
pub enum TimerAction {
    /// Install the engine with the given initial state.
    Init { group: u32, index: u32, config: TimerHwConfig },
    /// Start the counter.
    Start { group: u32, index: u32 },
    /// Pause the counter.
    Pause { group: u32, index: u32 },
    /// Read the counter, blocking path (normal context only).
    GetCounter { group: u32, index: u32 },
    /// Read the counter, interrupt-safe path.
    GetCounterInIsr { group: u32, index: u32 },
    /// Write the counter (normal context only).
    SetCounter { group: u32, index: u32, value: u64 },
    /// Raise or clear the alarm-enable flag (normal context only).
    SetAlarmEnable { group: u32, index: u32, enable: bool },
    /// Raise the alarm-enable flag, interrupt-safe path.
    EnableAlarmInIsr { group: u32, index: u32 },
    /// Read the alarm value (normal context only).
    GetAlarm { group: u32, index: u32 },
    /// Write the alarm value, blocking path (normal context only).
    SetAlarmValue { group: u32, index: u32, value: u64 },
    /// Write the alarm value, interrupt-safe path.
    SetAlarmValueInIsr { group: u32, index: u32, value: u64 },
    /// Unmask the interrupt of this engine.
    EnableIntr { group: u32, index: u32 },
    /// Mask the interrupt of this engine.
    DisableIntr { group: u32, index: u32 },
    /// Register the interrupt trampoline for this engine.
    AddIsrCallback { group: u32, index: u32 },
    /// Remove the interrupt trampoline of this engine.
    RemoveIsrCallback { group: u32, index: u32 },
    /// Uninstall the engine.
    Deinit { group: u32, index: u32 },
}

/// The initial hardware state requested for a new driver: alarm disabled,
/// counter paused, counting upward, no auto-reload, level-triggered
/// interrupt, and the caller's clocking choices.
pub open spec fn spec_initial_hw_config(c: Config) -> TimerHwConfig {
    TimerHwConfig {
        alarm_en: false,
        counter_en: false,
        count_up: true,
        auto_reload: false,
        level_intr: true,
        divider: c.divider,
        xtal: c.xtal,
    }
}

/// A driver under construction: the identity token together with the
/// pending engine installation.  The embedder performs [`Self::init_action`]
/// and settles the construction with [`Self::complete`].
pub struct TimerSetup<TIMER: Timer> {
    timer: TIMER,
    hw: TimerHwConfig,
}

impl<TIMER: Timer> TimerSetup<TIMER> {
    /// The initial hardware state this setup installs.
    pub closed spec fn spec_hw(&self) -> TimerHwConfig {
        self.hw
    }

    /// The native installation call the embedder must perform.
    pub fn init_action(&self) -> (a: TimerAction)
        ensures
            a == (TimerAction::Init {
                group: TIMER::spec_group(),
                index: TIMER::spec_index(),
                config: self.spec_hw(),
            }),
    {
        TimerAction::Init { group: TIMER::group(), index: TIMER::index(), config: self.hw }
    }

    /// Settles the construction from the outcome of the installation call:
    /// a live driver exactly when the engine was installed, and otherwise
    /// the identity token back together with the native error, so the
    /// construction can be retried.
    pub fn complete(self, outcome: Result<(), NativeError>) -> (r: Result<
        TimerDriver<TIMER>,
        (TIMER, NativeError),
    >)
        ensures
            r is Ok <==> outcome is Ok,
            outcome matches Err(e) ==> r matches Err((_, e2)) && e2 == e,
    {
        match outcome {
            Ok(()) => Ok(TimerDriver { timer: self.timer }),
            Err(e) => Err((self.timer, e)),
        }
    }
}

/// The live, exclusively owning binding between one timer identity and its
/// installed engine.
pub struct TimerDriver<TIMER: Timer> {
    timer: TIMER,
}

impl<TIMER: Timer> TimerDriver<TIMER> {
    /// Begins constructing a driver: consumes the identity token and fixes
    /// the initial hardware state the engine will be installed with.
    pub fn new(timer: TIMER, config: &Config) -> (s: TimerSetup<TIMER>)
        ensures
            s.spec_hw() == spec_initial_hw_config(*config),
    {
        TimerSetup {
            timer,
            hw: TimerHwConfig {
                alarm_en: false,
                counter_en: false,
                count_up: true,
                auto_reload: false,
                level_intr: true,
                divider: config.divider,
                xtal: config.xtal,
            },
        }
    }

    /// Starts or pauses the counter.  Start/pause control is defined only
    /// for normal execution context.
    pub fn enable(&mut self, enable: bool, ctx: ExecContext) -> (a: TimerAction)
        requires
            ctx is Normal,
        ensures
            enable ==> a == (TimerAction::Start {
                group: TIMER::spec_group(),
                index: TIMER::spec_index(),
            }),
            !enable ==> a == (TimerAction::Pause {
                group: TIMER::spec_group(),
                index: TIMER::spec_index(),
            }),
    {
        if enable {
            TimerAction::Start { group: TIMER::group(), index: TIMER::index() }
        } else {
            TimerAction::Pause { group: TIMER::group(), index: TIMER::index() }
        }
    }

    /// Reads the current count.  From interrupt context the interrupt-safe
    /// read primitive is selected, otherwise the normal blocking one; the
    /// caller sees the same logical operation either way.
    pub fn counter(&self, ctx: ExecContext) -> (a: TimerAction)
        ensures
            ctx is Interrupt ==> a == (TimerAction::GetCounterInIsr {
                group: TIMER::spec_group(),
                index: TIMER::spec_index(),
            }),
            ctx is Normal ==> a == (TimerAction::GetCounter {
                group: TIMER::spec_group(),
                index: TIMER::spec_index(),
            }),
    {
        match ctx {
            ExecContext::Interrupt => TimerAction::GetCounterInIsr {
                group: TIMER::group(),
                index: TIMER::index(),
            },
            ExecContext::Normal => TimerAction::GetCounter {
                group: TIMER::group(),
                index: TIMER::index(),
            },
        }
    }

    /// Writes the counter.  Defined only for normal execution context.
    pub fn set_counter(&mut self, value: u64, ctx: ExecContext) -> (a: TimerAction)
        requires
            ctx is Normal,
        ensures
            a == (TimerAction::SetCounter {
                group: TIMER::spec_group(),
                index: TIMER::spec_index(),
                value,
            }),
    {
        TimerAction::SetCounter { group: TIMER::group(), index: TIMER::index(), value }
    }

    /// Raises or clears the alarm-enable flag.  Enabling is legal from both
    /// contexts; disabling from interrupt context is not signal-safe in the
    /// native engine and is excluded.
    pub fn enable_alarm(&mut self, enable: bool, ctx: ExecContext) -> (a: TimerAction)
        requires
            ctx is Normal || enable,
        ensures
            ctx is Interrupt ==> a == (TimerAction::EnableAlarmInIsr {
                group: TIMER::spec_group(),
                index: TIMER::spec_index(),
            }),
            ctx is Normal ==> a == (TimerAction::SetAlarmEnable {
                group: TIMER::spec_group(),
                index: TIMER::spec_index(),
                enable,
            }),
    {
        match ctx {
            ExecContext::Interrupt => TimerAction::EnableAlarmInIsr {
                group: TIMER::group(),
                index: TIMER::index(),
            },
            ExecContext::Normal => TimerAction::SetAlarmEnable {
                group: TIMER::group(),
                index: TIMER::index(),
                enable,
            },
        }
    }

    /// Reads the alarm value.  Defined only for normal execution context.
    pub fn alarm(&self, ctx: ExecContext) -> (a: TimerAction)
        requires
            ctx is Normal,
        ensures
            a == (TimerAction::GetAlarm {
                group: TIMER::spec_group(),
                index: TIMER::spec_index(),
            }),
    {
        TimerAction::GetAlarm { group: TIMER::group(), index: TIMER::index() }
    }

    /// Writes the alarm value.  From interrupt context the interrupt-safe
    /// write primitive is selected, otherwise the normal one.
    pub fn set_alarm(&mut self, value: u64, ctx: ExecContext) -> (a: TimerAction)
        ensures
            ctx is Interrupt ==> a == (TimerAction::SetAlarmValueInIsr {
                group: TIMER::spec_group(),
                index: TIMER::spec_index(),
                value,
            }),
            ctx is Normal ==> a == (TimerAction::SetAlarmValue {
                group: TIMER::spec_group(),
                index: TIMER::spec_index(),
                value,
            }),
    {
        match ctx {
            ExecContext::Interrupt => TimerAction::SetAlarmValueInIsr {
                group: TIMER::group(),
                index: TIMER::index(),
                value,
            },
            ExecContext::Normal => TimerAction::SetAlarmValue {
                group: TIMER::group(),
                index: TIMER::index(),
                value,
            },
        }
    }

    /// Unmasks the interrupt of this engine.  Defined only for normal
    /// execution context.
    pub fn enable_interrupt(&mut self, ctx: ExecContext) -> (a: TimerAction)
        requires
            ctx is Normal,
        ensures
            a == (TimerAction::EnableIntr {
                group: TIMER::spec_group(),
                index: TIMER::spec_index(),
            }),
    {
        TimerAction::EnableIntr { group: TIMER::group(), index: TIMER::index() }
    }

    /// Masks the interrupt of this engine.  Defined only for normal
    /// execution context.
    pub fn disable_interrupt(&mut self, ctx: ExecContext) -> (a: TimerAction)
        requires
            ctx is Normal,
        ensures
            a == (TimerAction::DisableIntr {
                group: TIMER::spec_group(),
                index: TIMER::spec_index(),
            }),
    {
        TimerAction::DisableIntr { group: TIMER::group(), index: TIMER::index() }
    }

    /// The registry slot of this instance.
    fn slot(&self) -> (s: usize)
        ensures
            s == spec_slot::<TIMER>(),
            s < SLOT_COUNT,
    {
        proof {
            TIMER::addr_in_bounds();
        }
        (TIMER::group() * TIMER_GROUP_MAX + TIMER::index()) as usize
    }

    /// Registers `handler` to run on this timer's interrupt, replacing any
    /// handler the slot held before, so that at no point two handlers are
    /// active for one engine.  The returned plan first tears down an
    /// existing registration (interrupt masked before its trampoline is
    /// removed), then registers the trampoline for the freshly stored
    /// handler and unmasks the interrupt.  Only valid from normal context.
    pub fn subscribe<H>(
        &mut self,
        registry: &mut CallbackRegistry<H>,
        handler: H,
        ctx: ExecContext,
    ) -> (plan: Vec<TimerAction>)
        requires
            ctx is Normal,
            old(registry).wf(),
        ensures
            *final(self) == *old(self),
            final(registry).wf(),
            final(registry)@ == old(registry)@.update(spec_slot::<TIMER>(), Some(handler)),
            old(registry)@[spec_slot::<TIMER>()] is Some ==> plan@ == seq![
                TimerAction::DisableIntr { group: TIMER::spec_group(), index: TIMER::spec_index() },
                TimerAction::RemoveIsrCallback {
                    group: TIMER::spec_group(),
                    index: TIMER::spec_index(),
                },
                TimerAction::AddIsrCallback {
                    group: TIMER::spec_group(),
                    index: TIMER::spec_index(),
                },
                TimerAction::EnableIntr { group: TIMER::spec_group(), index: TIMER::spec_index() },
            ],
            old(registry)@[spec_slot::<TIMER>()] is None ==> plan@ == seq![
                TimerAction::AddIsrCallback {
                    group: TIMER::spec_group(),
                    index: TIMER::spec_index(),
                },
                TimerAction::EnableIntr { group: TIMER::spec_group(), index: TIMER::spec_index() },
            ],
    {
        let mut plan = self.unsubscribe(registry, ctx);
        let slot = self.slot();
        registry.store(slot, handler);
        plan.push(TimerAction::AddIsrCallback { group: TIMER::group(), index: TIMER::index() });
        plan.push(TimerAction::EnableIntr { group: TIMER::group(), index: TIMER::index() });
        proof {
            assert(final(registry)@ =~= old(registry)@.update(
                spec_slot::<TIMER>(),
                Some(handler),
            ));
        }
        plan
    }

    /// Removes the handler of this timer, if one is registered: the plan
    /// masks the interrupt first and only then removes the trampoline, the
    /// ordering that makes clearing the slot safe against a concurrent
    /// interrupt.  On an already empty slot this is a no-op: the registry
    /// is left untouched and the plan is empty.  Only valid from normal
    /// context.
    pub fn unsubscribe<H>(
        &mut self,
        registry: &mut CallbackRegistry<H>,
        ctx: ExecContext,
    ) -> (plan: Vec<TimerAction>)
        requires
            ctx is Normal,
            old(registry).wf(),
        ensures
            *final(self) == *old(self),
            final(registry).wf(),
            final(registry)@ == old(registry)@.update(spec_slot::<TIMER>(), None::<H>),
            old(registry)@[spec_slot::<TIMER>()] is Some ==> plan@ == seq![
                TimerAction::DisableIntr { group: TIMER::spec_group(), index: TIMER::spec_index() },
                TimerAction::RemoveIsrCallback {
                    group: TIMER::spec_group(),
                    index: TIMER::spec_index(),
                },
            ],
            old(registry)@[spec_slot::<TIMER>()] is None ==> plan@ == Seq::<TimerAction>::empty()
                && final(registry)@ == old(registry)@,
    {
        let slot = self.slot();
        let mut plan: Vec<TimerAction> = Vec::new();
        if registry.is_subscribed(slot) {
            plan.push(
                TimerAction::DisableIntr { group: TIMER::group(), index: TIMER::index() },
            );
            plan.push(
                TimerAction::RemoveIsrCallback { group: TIMER::group(), index: TIMER::index() },
            );
            registry.clear(slot);
        } else {
            registry.clear(slot);
        }
        plan
    }

    /// Destroys the driver: any registered handler is removed first (with
    /// the same interrupt-masking order as [`Self::unsubscribe`]), then the
    /// engine is uninstalled, and the identity token becomes available
    /// again.  A failure of any step of the returned plan is a teardown
    /// error: there is no owner left to retry through, and the embedder
    /// must treat it as fatal rather than continue with an inconsistent
    /// engine.
    pub fn release<H>(
        self,
        registry: &mut CallbackRegistry<H>,
        ctx: ExecContext,
    ) -> (r: (TIMER, Vec<TimerAction>))
        requires
            ctx is Normal,
            old(registry).wf(),
        ensures
            final(registry).wf(),
            final(registry)@ == old(registry)@.update(spec_slot::<TIMER>(), None::<H>),
            old(registry)@[spec_slot::<TIMER>()] is Some ==> r.1@ == seq![
                TimerAction::DisableIntr { group: TIMER::spec_group(), index: TIMER::spec_index() },
                TimerAction::RemoveIsrCallback {
                    group: TIMER::spec_group(),
                    index: TIMER::spec_index(),
                },
                TimerAction::Deinit { group: TIMER::spec_group(), index: TIMER::spec_index() },
            ],
            old(registry)@[spec_slot::<TIMER>()] is None ==> r.1@ == seq![
                TimerAction::Deinit { group: TIMER::spec_group(), index: TIMER::spec_index() },
            ],
    {
        let mut this = self;
        let mut plan = this.unsubscribe(registry, ctx);
        plan.push(TimerAction::Deinit { group: TIMER::group(), index: TIMER::index() });
        (this.timer, plan)
    }
}

/// The registry slot assigned to a timer instance: its group picks the
/// stride, its index the offset, as the native callback table is laid out.
pub open spec fn spec_slot<TIMER: Timer>() -> int {
    TIMER::spec_group() as int * TIMER_GROUP_MAX as int + TIMER::spec_index() as int
}

/// Subscribing a second handler replaces the first instead of stacking on
/// it: the slot table after two stores at one slot equals the table after
/// storing only the second handler, that slot holds the second handler and
/// no other slot has moved, and clearing the slot afterwards leaves it
/// empty.
pub proof fn lemma_subscribe_replaces<H>(slots: Seq<Option<H>>, slot: int, h1: H, h2: H)
    requires
        0 <= slot < slots.len(),
    ensures
        slots.update(slot, Some(h1)).update(slot, Some(h2)) == slots.update(slot, Some(h2)),
        slots.update(slot, Some(h2))[slot] == Some(h2),
        forall|j: int|
            0 <= j < slots.len() && j != slot ==> slots.update(slot, Some(h2))[j] == slots[j],
        slots.update(slot, Some(h2)).update(slot, None::<H>)[slot] is None,
{
    assert(slots.update(slot, Some(h1)).update(slot, Some(h2)) =~= slots.update(
        slot,
        Some(h2),
    ));
}

} // verus!
