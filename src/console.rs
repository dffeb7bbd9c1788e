//! The control task: sole owner of the controller. It runs a control cycle per
//! sensor sample and answers operator-console requests between cycles, so a
//! query never sees a half-written configuration and no update is lost.
use crate::controller::{next_state, ControllerConfig, ControllerState, HysteresisController};
use crate::telemetry::{retained, Reading, SensorError, TelemetryState};
use vstd::prelude::*;

verus! {

/// A request from the operator console. Durations are in milliseconds.
#[derive(Clone, Copy, Debug, PartialEq, Eq, Structural)]
pub enum ConsoleRequest {
    QueryState,
    UpdateTarget(i32),
    UpdateDurations { on_ms: u64, off_ms: u64 },
}

/// The answer to a console request.
#[derive(Clone, Copy, Debug, PartialEq, Eq, Structural)]
pub enum ConsoleResponse {
    /// Configuration, controller state and whether the network link is up.
    Status { config: ControllerConfig, state: ControllerState, network_up: bool },
    /// The configuration now in force.
    Updated { config: ControllerConfig },
}

/// The configuration after a request.
pub open spec fn config_after(c: ControllerConfig, req: ConsoleRequest) -> ControllerConfig {
    match req {
        ConsoleRequest::QueryState => c,
        ConsoleRequest::UpdateTarget(t) => ControllerConfig { target_temperature: t, ..c },
        ConsoleRequest::UpdateDurations { on_ms, off_ms } => ControllerConfig {
            min_on_ms: on_ms,
            min_off_ms: off_ms,
            ..c
        },
    }
}

/// The controller together with the last good reading it acts on.
pub struct ControlTask {
    pub controller: HysteresisController,
    pub last: Reading,
}

impl ControlTask {
    pub fn new(controller: HysteresisController, initial: Reading) -> (r: Self)
        ensures
            r.controller == controller,
            r.last == initial,
    {
        ControlTask { controller, last: initial }
    }

    /// Handles one acquisition at time `now` (ms): a good reading is kept and
    /// published, a failed one leaves the last good reading in force; the
    /// control cycle then runs on the reading in force. Returns whether the
    /// actuator changed.
    pub fn on_sample(
        &mut self,
        outcome: Result<Reading, SensorError>,
        now: u64,
        telemetry: &TelemetryState,
    ) -> (switched: bool)
        ensures
            final(self).last == retained(old(self).last, outcome),
            final(self).controller.config == old(self).controller.config,
            final(self).controller.state == next_state(
                old(self).controller.config,
                old(self).controller.state,
                final(self).last.temperature as int,
                now,
            ),
            switched == (final(self).controller.state.actuator != old(self).controller.state.actuator),
    {
        match outcome {
            Ok(r) => {
                self.last = r;
                telemetry.publish(r);
            },
            Err(_) => {},
        }
        self.controller.cycle(self.last.temperature, now)
    }

    /// Answers a console request. Updates replace exactly the named fields of
    /// the configuration; no request touches the controller state.
    pub fn on_request(&mut self, req: ConsoleRequest, network_up: bool) -> (resp: ConsoleResponse)
        ensures
            final(self).controller.config == config_after(old(self).controller.config, req),
            final(self).controller.state == old(self).controller.state,
            final(self).last == old(self).last,
            resp == (match req {
                ConsoleRequest::QueryState => ConsoleResponse::Status {
                    config: old(self).controller.config,
                    state: old(self).controller.state,
                    network_up,
                },
                _ => ConsoleResponse::Updated { config: final(self).controller.config },
            }),
    {
        match req {
            ConsoleRequest::QueryState => {
                return ConsoleResponse::Status {
                    config: self.controller.config,
                    state: self.controller.state,
                    network_up,
                };
            },
            ConsoleRequest::UpdateTarget(t) => {
                self.controller.config.target_temperature = t;
            },
            ConsoleRequest::UpdateDurations { on_ms, off_ms } => {
                self.controller.config.min_on_ms = on_ms;
                self.controller.config.min_off_ms = off_ms;
            },
        }
        ConsoleResponse::Updated { config: self.controller.config }
    }
}

} // verus!
