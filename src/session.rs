use vstd::prelude::*;
use crate::input::{
    key_events_spec, mouse_tick_spec, state_of, InputAggregator, InputView, KeyEvent, MouseEvent,
};
use crate::protocol::{
    answered_with_state, counter_spec, diagnostic_spec, next_phase, reply_spec, timed_counter_spec, timed_spec,
    Diagnostic, Phase, Protocol, ProtocolView, RUMBLE, RUMBLE_SUBCOMMAND,
};
use crate::report::{ControllerState, DeviceInfo};

verus! {

/// What one iteration of the controller loop decided.
pub struct Tick {
    /// The report to write to the host, if any.
    pub write: Option<Vec<u8>>,
    /// The host ended the session; the loop stops.
    pub terminated: bool,
    pub diagnostic: Option<Diagnostic>,
}

pub struct LoopView {
    pub protocol: ProtocolView,
    pub input: InputView,
    /// When the last report carrying the controller state was built, in
    /// milliseconds of the caller's clock.
    pub last_emission_ms: u64,
}

/// Milliseconds from `since` to `now`; zero if the clock went back.
pub open spec fn elapsed_spec(since: u64, now: u64) -> u64 {
    if now >= since {
        (now - since) as u64
    } else {
        0
    }
}

/// The input after one tick's key and mouse events.
pub open spec fn input_after(v: InputView, keys: Seq<KeyEvent>, mouse: Seq<MouseEvent>) -> InputView {
    mouse_tick_spec(InputView { slots: key_events_spec(v.slots, keys), ..v }, mouse)
}

/// The controller's decisions, one iteration at a time: input aggregation,
/// then either the reply to the host's report or a due timed report.
pub struct ControllerLoop {
    protocol: Protocol,
    input: InputAggregator,
    last_emission_ms: u64,
}

impl View for ControllerLoop {
    type V = LoopView;

    closed spec fn view(&self) -> LoopView {
        LoopView { protocol: self.protocol@, input: self.input@, last_emission_ms: self.last_emission_ms }
    }
}

impl ControllerLoop {
    /// The aggregator's slots and wheel stay well formed.
    pub closed spec fn wf(&self) -> bool {
        self.input.wf()
    }

    /// A loop for the given device, started at `now_ms`.
    pub fn new(info: DeviceInfo, now_ms: u64) -> (r: ControllerLoop)
        ensures
            r.wf(),
            r@.protocol.info == info,
            r@.protocol.phase == Phase::Idle,
            r@.protocol.counter == 0,
            r@.input.slots == Seq::new(6, |i: int| 0u8),
            r@.last_emission_ms == now_ms,
    {
        ControllerLoop { protocol: Protocol::new(info), input: InputAggregator::new(), last_emission_ms: now_ms }
    }

    /// The session's phase.
    pub fn phase(&self) -> (r: Phase)
        ensures
            r == self@.protocol.phase,
    {
        self.protocol.phase()
    }

    /// The controller state the input gathered so far gives.
    pub fn state(&self) -> (r: ControllerState)
        requires
            self.wf(),
        ensures
            r == state_of(self@.input),
            r.wf(),
    {
        self.input.snapshot()
    }

    /// One iteration at `now_ms`: folds in the tick's key and mouse events,
    /// then answers `received`, the host's report, or, where none arrived
    /// (it is empty), builds the timed report that streaming owes.
    pub fn tick(&mut self, keys: &[KeyEvent], mouse: &[MouseEvent], received: &[u8], now_ms: u64) -> (t: Tick)
        requires
            old(self).wf(),
        ensures
            final(self).wf(),
            final(self)@.input == input_after(old(self)@.input, keys@, mouse@),
            ({
                let st = state_of(final(self)@.input);
                let p = old(self)@.protocol;
                let elapsed = elapsed_spec(old(self)@.last_emission_ms, now_ms);
                if received@.len() > 0 {
                    &&& final(self)@.protocol == (ProtocolView {
                        phase: next_phase(p.phase, received@),
                        counter: counter_spec(p.phase, p.counter, received@, elapsed),
                        ..p
                    })
                    &&& match t.write {
                        Some(v) => reply_spec(p.info, p.phase, p.counter, received@, st) == Some(v@),
                        None => reply_spec(p.info, p.phase, p.counter, received@, st) is None,
                    }
                    &&& t.diagnostic == diagnostic_spec(p.info, p.phase, received@)
                    &&& final(self)@.last_emission_ms == if p.phase != Phase::Terminated
                        && answered_with_state(received@) {
                        now_ms
                    } else {
                        old(self)@.last_emission_ms
                    }
                } else {
                    &&& final(self)@.protocol == (ProtocolView {
                        counter: timed_counter_spec(p.phase, p.counter, elapsed),
                        ..p
                    })
                    &&& match t.write {
                        Some(v) => timed_spec(p.phase, p.counter, st, elapsed) == Some(v@),
                        None => timed_spec(p.phase, p.counter, st, elapsed) is None,
                    }
                    &&& t.diagnostic is None
                    &&& final(self)@.last_emission_ms == if t.write is Some {
                        now_ms
                    } else {
                        old(self)@.last_emission_ms
                    }
                }
            }),
            t.terminated == (final(self)@.protocol.phase == Phase::Terminated),
    {
        self.input.key_events(keys);
        self.input.mouse_tick(mouse);
        let state = self.input.snapshot();
        let elapsed = if now_ms >= self.last_emission_ms {
            now_ms - self.last_emission_ms
        } else {
            0
        };
        if received.len() > 0 {
            let carries_state = !self.protocol.is_terminated() && (received[0] == RUMBLE || received[0]
                == RUMBLE_SUBCOMMAND);
            let d = self.protocol.handle(received, &state, elapsed);
            if carries_state {
                self.last_emission_ms = now_ms;
            }
            Tick { write: d.reply, terminated: d.terminated, diagnostic: d.diagnostic }
        } else {
            let write = self.protocol.emit_due(&state, elapsed);
            if write.is_some() {
                self.last_emission_ms = now_ms;
            }
            Tick { write, terminated: self.protocol.is_terminated(), diagnostic: None }
        }
    }
}

} // verus!
