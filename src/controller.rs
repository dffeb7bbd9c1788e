//! On/off (hysteresis) control with independent minimum on and off times.
use vstd::prelude::*;

verus! {

/// The two states of the heater actuator.
#[derive(Clone, Copy, Debug, PartialEq, Eq, Structural)]
pub enum Actuator {
    Idle,
    Heating,
}

/// Setpoint and dwell guards. Durations are in milliseconds.
#[derive(Clone, Copy, Debug, PartialEq, Eq, Structural)]
pub struct ControllerConfig {
    pub target_temperature: i32,
    pub min_on_ms: u64,
    pub min_off_ms: u64,
}

/// Actuator state and the time (in milliseconds) of its last change;
/// `None` before the first change, so that no dwell applies yet.
#[derive(Clone, Copy, Debug, PartialEq, Eq, Structural)]
pub struct ControllerState {
    pub actuator: Actuator,
    pub last_transition: Option<u64>,
}

/// The controller: configuration plus the state its own cycle owns.
#[derive(Clone, Copy, Debug, PartialEq, Eq, Structural)]
pub struct HysteresisController {
    pub config: ControllerConfig,
    pub state: ControllerState,
}

/// How long the actuator must stay in `a` before it may leave it.
pub open spec fn dwell(c: ControllerConfig, a: Actuator) -> int {
    match a {
        Actuator::Heating => c.min_on_ms as int,
        Actuator::Idle => c.min_off_ms as int,
    }
}

/// Whether the dwell guard for leaving the current state has passed at `now`.
pub open spec fn dwell_elapsed(c: ControllerConfig, s: ControllerState, now: int) -> bool {
    match s.last_transition {
        None => true,
        Some(t) => now >= t + dwell(c, s.actuator),
    }
}

/// The state the actuator wants to be in for a given reading.
pub open spec fn demanded(c: ControllerConfig, temperature: int) -> Actuator {
    if temperature < c.target_temperature {
        Actuator::Heating
    } else {
        Actuator::Idle
    }
}

/// One control cycle: switch to the demanded state once the dwell guard of
/// the current state has passed, recording the time of the change.
pub open spec fn next_state(c: ControllerConfig, s: ControllerState, temperature: int, now: u64) -> ControllerState {
    if demanded(c, temperature) != s.actuator && dwell_elapsed(c, s, now as int) {
        ControllerState { actuator: demanded(c, temperature), last_transition: Some(now) }
    } else {
        s
    }
}

/// The state after the first `k` cycles of a run over `(temperature, time)` inputs.
pub open spec fn state_at(c: ControllerConfig, s0: ControllerState, inputs: Seq<(i32, u64)>, k: nat) -> ControllerState
    decreases k,
{
    if k == 0 {
        s0
    } else {
        let prev = state_at(c, s0, inputs, (k - 1) as nat);
        next_state(c, prev, inputs[k - 1].0 as int, inputs[k - 1].1)
    }
}

/// Whether cycle `k` of a run changed the actuator.
pub open spec fn switched_at(c: ControllerConfig, s0: ControllerState, inputs: Seq<(i32, u64)>, k: nat) -> bool {
    state_at(c, s0, inputs, k + 1).actuator != state_at(c, s0, inputs, k).actuator
}

/// Times of a run never go backwards.
pub open spec fn monotone(inputs: Seq<(i32, u64)>) -> bool {
    forall|a: int, b: int| 0 <= a <= b < inputs.len() ==> inputs[a].1 <= inputs[b].1
}

/// Between a change of the actuator at cycle `i` and cycle `m`, with no change
/// in between, the state stays the one entered at `i`, stamped with its time.
proof fn lemma_holds_since(c: ControllerConfig, s0: ControllerState, inputs: Seq<(i32, u64)>, i: nat, m: nat)
    requires
        i < m <= inputs.len(),
        switched_at(c, s0, inputs, i),
        forall|k: nat| i < k < m ==> !#[trigger] switched_at(c, s0, inputs, k),
    ensures
        state_at(c, s0, inputs, m).actuator == state_at(c, s0, inputs, i + 1).actuator,
        state_at(c, s0, inputs, m).last_transition == Some(inputs[i as int].1),
    decreases m,
{
    if m > i + 1 {
        let k = (m - 1) as nat;
        lemma_holds_since(c, s0, inputs, i, k);
        assert(!switched_at(c, s0, inputs, k));
    }
}

/// Anti-chatter: whenever the actuator changes at cycle `i` and again at a later
/// cycle `j`, at least the dwell time of the state entered at `i` lies between them.
pub proof fn lemma_no_chatter(c: ControllerConfig, s0: ControllerState, inputs: Seq<(i32, u64)>, i: nat, j: nat)
    requires
        monotone(inputs),
        i < j < inputs.len(),
        switched_at(c, s0, inputs, i),
        switched_at(c, s0, inputs, j),
    ensures
        inputs[j as int].1 - inputs[i as int].1 >= dwell(c, state_at(c, s0, inputs, i + 1).actuator),
    decreases j - i,
{
    if exists|k: nat| i < k < j && #[trigger] switched_at(c, s0, inputs, k) {
        let k = choose|k: nat| i < k < j && #[trigger] switched_at(c, s0, inputs, k);
        lemma_no_chatter(c, s0, inputs, i, k);
    } else {
        lemma_holds_since(c, s0, inputs, i, j);
    }
}

/// Convergence from below: when every reading is under the target, the
/// actuator is `Heating` after every cycle, provided it starts out `Heating`
/// or the off guard has passed at the first cycle; it then never leaves.
pub proof fn lemma_settles_heating(c: ControllerConfig, s0: ControllerState, inputs: Seq<(i32, u64)>, m: nat)
    requires
        1 <= m <= inputs.len(),
        forall|k: int| 0 <= k < inputs.len() ==> inputs[k].0 < c.target_temperature,
        s0.actuator == Actuator::Heating || dwell_elapsed(c, s0, inputs[0].1 as int),
    ensures
        state_at(c, s0, inputs, m).actuator == Actuator::Heating,
    decreases m,
{
    if m > 1 {
        lemma_settles_heating(c, s0, inputs, (m - 1) as nat);
    }
    assert(state_at(c, s0, inputs, 0) == s0);
}

/// Convergence from above: when every reading is at or over the target, the
/// actuator is `Idle` after every cycle, provided it starts out `Idle` or the
/// on guard has passed at the first cycle; it then never leaves.
pub proof fn lemma_settles_idle(c: ControllerConfig, s0: ControllerState, inputs: Seq<(i32, u64)>, m: nat)
    requires
        1 <= m <= inputs.len(),
        forall|k: int| 0 <= k < inputs.len() ==> inputs[k].0 >= c.target_temperature,
        s0.actuator == Actuator::Idle || dwell_elapsed(c, s0, inputs[0].1 as int),
    ensures
        state_at(c, s0, inputs, m).actuator == Actuator::Idle,
    decreases m,
{
    if m > 1 {
        lemma_settles_idle(c, s0, inputs, (m - 1) as nat);
    }
    assert(state_at(c, s0, inputs, 0) == s0);
}

impl HysteresisController {
    /// A controller in `Idle` that has never switched.
    pub fn new(target_temperature: i32, min_off_ms: u64, min_on_ms: u64) -> (r: Self)
        ensures
            r.config == (ControllerConfig { target_temperature, min_on_ms, min_off_ms }),
            r.state == (ControllerState { actuator: Actuator::Idle, last_transition: None }),
    {
        HysteresisController {
            config: ControllerConfig { target_temperature, min_on_ms, min_off_ms },
            state: ControllerState { actuator: Actuator::Idle, last_transition: None },
        }
    }

    /// Runs one control cycle on `temperature` read at time `now` (ms).
    /// Returns whether the actuator changed.
    pub fn cycle(&mut self, temperature: i32, now: u64) -> (switched: bool)
        ensures
            final(self).config == old(self).config,
            final(self).state == next_state(old(self).config, old(self).state, temperature as int, now),
            switched == (final(self).state.actuator != old(self).state.actuator),
    {
        let want = if temperature < self.config.target_temperature {
            Actuator::Heating
        } else {
            Actuator::Idle
        };
        if want == self.state.actuator {
            return false;
        }
        let guard = match self.state.actuator {
            Actuator::Heating => self.config.min_on_ms,
            Actuator::Idle => self.config.min_off_ms,
        };
        let passed = match self.state.last_transition {
            None => true,
            Some(t) => now >= t && now - t >= guard,
        };
        if passed {
            self.state = ControllerState { actuator: want, last_transition: Some(now) };
        }
        passed
    }

    /// Whether the heater output is to be asserted.
    pub fn output_asserted(&self) -> (on: bool)
        ensures
            on == (self.state.actuator == Actuator::Heating),
    {
        self.state.actuator == Actuator::Heating
    }
}

} // verus!
