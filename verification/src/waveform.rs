//! The audio waveform loader's shared state.
//!
//! The decoder runs on a worker owned by the driver; the engine only
//! models the state it publishes: the load state machine
//! spawning -> opening -> reading -> complete, with error reachable
//! from any step, and the decoded buffers accumulated while reading.
//! The worker reports each step as an event; the state machine below
//! decides every transition, so the drawing side can read a consistent
//! snapshot once per frame.

use vstd::prelude::*;

verus! {

/// Where the loader stands.
#[derive(Clone, Copy, PartialEq, Eq, Structural, Debug)]
pub enum WaveformLoadState {
    Error,
    Spawning,
    Opening,
    Reading,
    Complete,
}

/// What the worker reports: the thread started, the file opened or
/// failed to, the sink attached or failed to, one buffer of the given
/// sample count was decoded, or the stream ended.
#[derive(Clone, Copy, PartialEq, Eq, Structural, Debug)]
pub enum WaveformEvent {
    Spawned,
    OpenFailed,
    AttachOk,
    AttachFailed,
    BufferDecoded(usize),
    EndOfStream,
}

/// The published loader state: the state machine's position and the
/// sample counts of the decoded buffers, in decode order.
pub struct Waveform {
    pub load_state: WaveformLoadState,
    pub buffers: Vec<usize>,
}

/// The transition relation: the worker opens the file right after
/// spawning, starts reading once the sink is attached, accumulates
/// buffers while reading, completes at end of stream, and lands in the
/// error state when opening or attaching fails.  Anything a worker
/// would never report in the current state leaves the state machine in
/// the error state rather than faulting.
pub open spec fn next_state_spec(s: WaveformLoadState, ev: WaveformEvent) -> WaveformLoadState {
    match (s, ev) {
        (WaveformLoadState::Spawning, WaveformEvent::Spawned) => WaveformLoadState::Opening,
        (WaveformLoadState::Opening, WaveformEvent::AttachOk) => WaveformLoadState::Reading,
        (WaveformLoadState::Opening, WaveformEvent::OpenFailed) => WaveformLoadState::Error,
        (WaveformLoadState::Opening, WaveformEvent::AttachFailed) => WaveformLoadState::Error,
        (WaveformLoadState::Reading, WaveformEvent::BufferDecoded(_)) => WaveformLoadState::Reading,
        (WaveformLoadState::Reading, WaveformEvent::EndOfStream) => WaveformLoadState::Complete,
        (_, _) => WaveformLoadState::Error,
    }
}

impl Waveform {
    /// The loader as the worker is spawned: no buffers yet.
    pub fn new() -> (r: Self)
        ensures
            r.load_state == WaveformLoadState::Spawning,
            r.buffers@.len() == 0,
    {
        Waveform { load_state: WaveformLoadState::Spawning, buffers: Vec::new() }
    }

    /// Advances the state machine by one worker event.  A decoded
    /// buffer in the reading state is appended; no other event changes
    /// the buffers.
    pub fn on_event(&mut self, ev: WaveformEvent)
        ensures
            final(self).load_state == next_state_spec(old(self).load_state, ev),
            final(self).buffers@ == (if old(self).load_state == WaveformLoadState::Reading {
                match ev {
                    WaveformEvent::BufferDecoded(n) => old(self).buffers@.push(n),
                    _ => old(self).buffers@,
                }
            } else {
                old(self).buffers@
            }),
    {
        match ev {
            WaveformEvent::BufferDecoded(n) => {
                if matches!(self.load_state, WaveformLoadState::Reading) {
                    self.buffers.push(n);
                } else {
                    self.load_state = WaveformLoadState::Error;
                }
            },
            _ => {
                let next = match (self.load_state, ev) {
                    (WaveformLoadState::Spawning, WaveformEvent::Spawned) => WaveformLoadState::Opening,
                    (WaveformLoadState::Opening, WaveformEvent::AttachOk) => WaveformLoadState::Reading,
                    (WaveformLoadState::Opening, WaveformEvent::OpenFailed) => WaveformLoadState::Error,
                    (WaveformLoadState::Opening, WaveformEvent::AttachFailed) => WaveformLoadState::Error,
                    (WaveformLoadState::Reading, WaveformEvent::EndOfStream) => WaveformLoadState::Complete,
                    (_, _) => WaveformLoadState::Error,
                };
                self.load_state = next;
            },
        }
    }

    /// The drawing stub: the renderer reads the published state once
    /// per frame; nothing is drawn yet.
    pub fn draw(&self) {
    }
}

} // verus!
