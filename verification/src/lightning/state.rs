//! The lightning state machine.
//!
//! After boot the board is in a grace period: until a BMS or IMD frame has been seen, faults
//! are not latched and the LEDs stay off. After that, a BMS or IMD fault latches red; the red
//! light is only cleared by a latch reset request, never by an "ok" frame.

use vstd::prelude::*;

use crate::lightning::frames::FaultframeState;
use crate::lightning::inbox::{inbox_contents, Inbox};
use crate::lightning::leds::Leds;

verus! {

/// The light the board shows.
#[derive(Clone, Copy, PartialEq, Eq, Structural, Debug)]
pub enum State {
    Red,
    Green,
    Startup,
    /// Never entered; shown as all LEDs off.
    Invalid,
}

/// The state machine's state: the light, and whether a BMS or IMD frame has been seen.
#[derive(Clone, Copy, PartialEq, Eq, Structural, Debug)]
pub struct LightningState {
    state: State,
    bms_seen: bool,
    imd_seen: bool,
}

/// What the task does after one step: which LEDs to drive, and whether to pause before the
/// next step because nothing useful was dequeued.
#[derive(Clone, Copy, PartialEq, Eq, Structural, Debug)]
pub struct StepOutcome {
    pub leds: Leds,
    pub wait: bool,
}

/// The grace period lasts until a BMS or IMD frame has been seen.
pub open spec fn in_grace(s: LightningState) -> bool {
    !s.bms_seen() && !s.imd_seen()
}

/// The state after handling one dequeued item.
///
/// `None` means the queue was empty and `Some(None)` an unrelated frame; both leave the state
/// unchanged.
pub open spec fn spec_step(s: LightningState, item: Option<Option<FaultframeState>>) -> LightningState {
    let grace = in_grace(s);
    match item {
        Some(Some(msg)) => match msg {
            FaultframeState::BMSFault | FaultframeState::IMDFault => {
                if !grace {
                    s.with_state(State::Red)
                } else {
                    LightningState::spec_new(
                        State::Startup,
                        s.bms_seen() || msg == FaultframeState::BMSFault,
                        s.imd_seen() || msg == FaultframeState::IMDFault,
                    )
                }
            },
            FaultframeState::ResetRequested => {
                if !grace {
                    s.with_state(State::Green)
                } else {
                    s
                }
            },
            FaultframeState::BMSOk => LightningState::spec_new(ok_state(s.state(), grace), true, s.imd_seen()),
            FaultframeState::IMDOk => LightningState::spec_new(ok_state(s.state(), grace), s.bms_seen(), true),
        },
        _ => s,
    }
}

/// The light after an "ok" frame: off during the grace period; otherwise green, unless the
/// light is red, which an "ok" frame never clears.
pub open spec fn ok_state(state: State, grace: bool) -> State {
    if grace {
        State::Startup
    } else if state != State::Red {
        State::Green
    } else {
        state
    }
}

/// The LEDs that show a state.
pub open spec fn spec_leds_for(state: State) -> Leds {
    match state {
        State::Red => Leds { red: true, green: false },
        State::Green => Leds { red: false, green: true },
        _ => Leds { red: false, green: false },
    }
}

/// The states the machine can be in: never `Invalid`, and off for the whole grace period.
pub open spec fn reachable(s: LightningState) -> bool {
    &&& s.state() != State::Invalid
    &&& in_grace(s) ==> s.state() == State::Startup
}

impl LightningState {
    pub closed spec fn state(self) -> State {
        self.state
    }

    pub closed spec fn bms_seen(self) -> bool {
        self.bms_seen
    }

    pub closed spec fn imd_seen(self) -> bool {
        self.imd_seen
    }

    pub closed spec fn spec_new(state: State, bms_seen: bool, imd_seen: bool) -> LightningState {
        LightningState { state, bms_seen, imd_seen }
    }

    pub closed spec fn with_state(self, state: State) -> LightningState {
        LightningState { state, ..self }
    }

    /// The accessors read back what `spec_new` and `with_state` put in.
    pub broadcast proof fn lemma_accessors(state: State, bms_seen: bool, imd_seen: bool, s: LightningState)
        ensures
            #![trigger LightningState::spec_new(state, bms_seen, imd_seen), s.with_state(state)]
            LightningState::spec_new(state, bms_seen, imd_seen).state() == state,
            LightningState::spec_new(state, bms_seen, imd_seen).bms_seen() == bms_seen,
            LightningState::spec_new(state, bms_seen, imd_seen).imd_seen() == imd_seen,
            s.with_state(state).state() == state,
            s.with_state(state).bms_seen() == s.bms_seen(),
            s.with_state(state).imd_seen() == s.imd_seen(),
    {
    }

    /// The state at boot: lights off, nothing seen yet.
    pub fn new() -> (s: LightningState)
        ensures
            s.state() == State::Startup,
            !s.bms_seen(),
            !s.imd_seen(),
            reachable(s),
    {
        LightningState { state: State::Startup, bms_seen: false, imd_seen: false }
    }

    /// The light currently shown.
    pub fn current(&self) -> (st: State)
        ensures
            st == self.state(),
    {
        self.state
    }

    /// Whether the board is still in its grace period.
    pub fn in_grace_period(&self) -> (g: bool)
        ensures
            g == in_grace(*self),
    {
        !self.bms_seen && !self.imd_seen
    }

    /// Handles one item dequeued from the inbox and returns the LEDs to show afterwards and
    /// whether to pause before the next item.
    pub fn step(&mut self, item: Option<Option<FaultframeState>>) -> (out: StepOutcome)
        ensures
            *final(self) == spec_step(*old(self), item),
            out.leds == spec_leds_for(final(self).state()),
            out.wait == !(item matches Some(Some(_))),
    {
        let grace_period = !self.bms_seen && !self.imd_seen;
        let mut wait = false;
        match item {
            Some(latest) => match latest {
                Some(msg) => match msg {
                    FaultframeState::BMSFault | FaultframeState::IMDFault => {
                        if !grace_period {
                            self.state = State::Red;
                        } else {
                            if msg == FaultframeState::BMSFault {
                                self.bms_seen = true;
                            } else if msg == FaultframeState::IMDFault {
                                self.imd_seen = true;
                            }
                            self.state = State::Startup;
                        }
                    },
                    FaultframeState::ResetRequested => {
                        if !grace_period {
                            self.state = State::Green;
                        }
                    },
                    FaultframeState::BMSOk => {
                        self.bms_seen = true;
                        if grace_period {
                            self.state = State::Startup;
                        }
                        if self.state != State::Red && !grace_period {
                            self.state = State::Green;
                        }
                    },
                    FaultframeState::IMDOk => {
                        self.imd_seen = true;
                        if grace_period {
                            self.state = State::Startup;
                        }
                        if self.state != State::Red && !grace_period {
                            self.state = State::Green;
                        }
                    },
                },
                None => {
                    wait = true;
                },
            },
            None => {
                wait = true;
            },
        }
        let mut leds = Leds::new();
        match self.state {
            State::Red => leds.set_red_on(),
            State::Green => leds.set_green_on(),
            State::Startup => leds.set_all_off(),
            State::Invalid => leds.set_all_off(),
        }
        proof {
            broadcast use LightningState::lemma_accessors;
        }
        StepOutcome { leds, wait }
    }

    /// Takes the next entry from the inbox (if any) and handles it.
    pub fn step_from_inbox(&mut self, inbox: &mut Inbox) -> (out: StepOutcome)
        ensures
            inbox_contents(*old(inbox)).len() == 0 ==> *final(self) == *old(self) && out.wait
                && inbox_contents(*final(inbox)) == inbox_contents(*old(inbox)),
            inbox_contents(*old(inbox)).len() > 0 ==> *final(self) == spec_step(*old(self), Some(inbox_contents(*old(inbox))[0]))
                && inbox_contents(*final(inbox)) == inbox_contents(*old(inbox)).drop_first(),
            out.leds == spec_leds_for(final(self).state()),
    {
        let item = inbox.dequeue();
        self.step(item)
    }
}

/// Every state the machine can reach is `reachable`: it holds at boot (see `new`) and every
/// step keeps it.
pub proof fn lemma_step_keeps_reachable(s: LightningState, item: Option<Option<FaultframeState>>)
    requires
        reachable(s),
    ensures
        reachable(spec_step(s, item)),
{
    broadcast use LightningState::lemma_accessors;
}

/// The red light latches: from red, every item but a latch reset request leaves the light red.
pub proof fn lemma_red_latches(s: LightningState, item: Option<Option<FaultframeState>>)
    requires
        reachable(s),
        s.state() == State::Red,
        item != Some(Some(FaultframeState::ResetRequested)),
    ensures
        spec_step(s, item).state() == State::Red,
{
    broadcast use LightningState::lemma_accessors;
}

/// An "ok" frame never turns a red light green.
pub proof fn lemma_ok_never_clears_red(s: LightningState, msg: FaultframeState)
    requires
        s.state() == State::Red,
        msg == FaultframeState::BMSOk || msg == FaultframeState::IMDOk,
    ensures
        spec_step(s, Some(Some(msg))).state() != State::Green,
{
    broadcast use LightningState::lemma_accessors;
}

/// Once the grace period is over, any BMS or IMD fault turns the light red.
pub proof fn lemma_fault_after_grace_is_red(s: LightningState, msg: FaultframeState)
    requires
        !in_grace(s),
        msg == FaultframeState::BMSFault || msg == FaultframeState::IMDFault,
    ensures
        spec_step(s, Some(Some(msg))).state() == State::Red,
{
    broadcast use LightningState::lemma_accessors;
}

/// During the grace period the light stays off whatever arrives, and a reset request is
/// ignored.
pub proof fn lemma_grace_keeps_lights_off(s: LightningState, item: Option<Option<FaultframeState>>)
    requires
        reachable(s),
        in_grace(s),
    ensures
        spec_step(s, item).state() == State::Startup,
        item == Some(Some(FaultframeState::ResetRequested)) ==> spec_step(s, item) == s,
{
    broadcast use LightningState::lemma_accessors;
}

/// Seeing a frame is never forgotten: once over, the grace period never comes back.
pub proof fn lemma_seen_is_kept(s: LightningState, item: Option<Option<FaultframeState>>)
    ensures
        s.bms_seen() ==> spec_step(s, item).bms_seen(),
        s.imd_seen() ==> spec_step(s, item).imd_seen(),
        !in_grace(s) ==> !in_grace(spec_step(s, item)),
{
    broadcast use LightningState::lemma_accessors;
}

/// Only a latch reset request, outside the grace period, turns a red light green.
pub proof fn lemma_reset_clears_red(s: LightningState)
    requires
        !in_grace(s),
    ensures
        spec_step(s, Some(Some(FaultframeState::ResetRequested))).state() == State::Green,
{
    broadcast use LightningState::lemma_accessors;
}

/// The state after handling the items in order.
pub open spec fn spec_run(s: LightningState, items: Seq<Option<Option<FaultframeState>>>) -> LightningState
    decreases items.len(),
{
    if items.len() == 0 {
        s
    } else {
        spec_step(spec_run(s, items.drop_last()), items.last())
    }
}

/// An item that carries a BMS or IMD frame, which ends the grace period.
pub open spec fn is_bms_or_imd(item: Option<Option<FaultframeState>>) -> bool {
    match item {
        Some(Some(msg)) => msg != FaultframeState::ResetRequested,
        _ => false,
    }
}

/// Every state the task reaches from boot, whatever items it handles, is `reachable`.
pub proof fn lemma_run_reachable(items: Seq<Option<Option<FaultframeState>>>)
    ensures
        reachable(spec_run(LightningState::spec_new(State::Startup, false, false), items)),
    decreases items.len(),
{
    broadcast use LightningState::lemma_accessors;
    if items.len() > 0 {
        lemma_run_reachable(items.drop_last());
        lemma_step_keeps_reachable(
            spec_run(LightningState::spec_new(State::Startup, false, false), items.drop_last()),
            items.last(),
        );
    }
}

/// Once red, the light stays red through any run of items with no latch reset request: every
/// LED update along the way shows red.
pub proof fn lemma_red_latches_over_run(s: LightningState, items: Seq<Option<Option<FaultframeState>>>)
    requires
        reachable(s),
        s.state() == State::Red,
        forall|i: int| 0 <= i < items.len() ==> #[trigger] items[i] != Some(Some(FaultframeState::ResetRequested)),
    ensures
        reachable(spec_run(s, items)),
        spec_run(s, items).state() == State::Red,
        spec_leds_for(spec_run(s, items).state()) == (Leds { red: true, green: false }),
    decreases items.len(),
{
    if items.len() > 0 {
        let prefix = items.drop_last();
        assert forall|i: int| 0 <= i < prefix.len() implies #[trigger] prefix[i] != Some(Some(FaultframeState::ResetRequested)) by {
            assert(prefix[i] == items[i]);
        }
        lemma_red_latches_over_run(s, prefix);
        assert(items.last() == items[items.len() - 1]);
        lemma_step_keeps_reachable(spec_run(s, prefix), items.last());
        lemma_red_latches(spec_run(s, prefix), items.last());
    }
}

/// From boot, as long as no BMS or IMD frame has been handled, the board stays in its grace
/// period with every LED off; the first BMS or IMD frame of any kind ends the grace period.
pub proof fn lemma_grace_over_run(items: Seq<Option<Option<FaultframeState>>>)
    ensures
        (forall|i: int| 0 <= i < items.len() ==> !is_bms_or_imd(#[trigger] items[i])) ==> {
            let s = spec_run(LightningState::spec_new(State::Startup, false, false), items);
            &&& in_grace(s)
            &&& s.state() == State::Startup
            &&& spec_leds_for(s.state()) == (Leds { red: false, green: false })
        },
        items.len() > 0 && is_bms_or_imd(items.last())
            ==> !in_grace(spec_run(LightningState::spec_new(State::Startup, false, false), items)),
    decreases items.len(),
{
    broadcast use LightningState::lemma_accessors;
    if items.len() > 0 {
        let prefix = items.drop_last();
        lemma_grace_over_run(prefix);
        lemma_run_reachable(prefix);
        let before = spec_run(LightningState::spec_new(State::Startup, false, false), prefix);
        lemma_seen_is_kept(before, items.last());
        if forall|i: int| 0 <= i < items.len() ==> !is_bms_or_imd(#[trigger] items[i]) {
            assert forall|i: int| 0 <= i < prefix.len() implies !is_bms_or_imd(#[trigger] prefix[i]) by {
                assert(prefix[i] == items[i]);
            }
            assert(!is_bms_or_imd(items[items.len() - 1]));
            lemma_grace_keeps_lights_off(before, items.last());
        }
    }
}

/// Outside the grace period a BMS or IMD "ok" frame turns any light that is not red green.
pub proof fn lemma_ok_outside_grace_is_green(s: LightningState, msg: FaultframeState)
    requires
        !in_grace(s),
        s.state() != State::Red,
        msg == FaultframeState::BMSOk || msg == FaultframeState::IMDOk,
    ensures
        spec_step(s, Some(Some(msg))).state() == State::Green,
        spec_leds_for(spec_step(s, Some(Some(msg))).state()) == (Leds { red: false, green: true }),
{
    broadcast use LightningState::lemma_accessors;
}

/// From boot, two "ok" frames in a row show green: the first ends the grace period (lights
/// still off), the second turns the light green.
pub proof fn lemma_second_ok_from_boot_is_green(first: FaultframeState, second: FaultframeState)
    requires
        first == FaultframeState::BMSOk || first == FaultframeState::IMDOk,
        second == FaultframeState::BMSOk || second == FaultframeState::IMDOk,
    ensures
        spec_step(LightningState::spec_new(State::Startup, false, false), Some(Some(first))).state() == State::Startup,
        spec_step(
            spec_step(LightningState::spec_new(State::Startup, false, false), Some(Some(first))),
            Some(Some(second)),
        ).state() == State::Green,
{
    broadcast use LightningState::lemma_accessors;
}

/// Which frames are remembered as seen: a BMS "ok" frame always marks the BMS as seen, and a BMS
/// fault does so during the grace period (likewise for the IMD); nothing else changes them.
pub proof fn lemma_seen_flags(s: LightningState, item: Option<Option<FaultframeState>>)
    ensures
        spec_step(s, item).bms_seen() == (s.bms_seen() || item == Some(Some(FaultframeState::BMSOk))
            || (in_grace(s) && item == Some(Some(FaultframeState::BMSFault)))),
        spec_step(s, item).imd_seen() == (s.imd_seen() || item == Some(Some(FaultframeState::IMDOk))
            || (in_grace(s) && item == Some(Some(FaultframeState::IMDFault)))),
{
    broadcast use LightningState::lemma_accessors;
}

/// An empty inbox or an unrelated frame changes nothing.
pub proof fn lemma_nothing_changes_nothing(s: LightningState, item: Option<Option<FaultframeState>>)
    requires
        !(item matches Some(Some(_))),
    ensures
        spec_step(s, item) == s,
{
}

/// After any "ok" frame the light is green, unless the grace period was still running (then it
/// is off) or the light was red (then it stays red).
pub proof fn lemma_ok_frame_outcome(s: LightningState, msg: FaultframeState)
    requires
        msg == FaultframeState::BMSOk || msg == FaultframeState::IMDOk,
    ensures
        in_grace(s) ==> spec_step(s, Some(Some(msg))).state() == State::Startup,
        !in_grace(s) && s.state() == State::Red ==> spec_step(s, Some(Some(msg))).state() == State::Red,
        !in_grace(s) && s.state() != State::Red ==> spec_step(s, Some(Some(msg))).state() == State::Green,
{
    broadcast use LightningState::lemma_accessors;
}

} // verus!
