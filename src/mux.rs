//! The multiplexed event type that flows through the control loop, and the
//! admission policy of its shared bounded queue.
use vstd::prelude::*;

verus! {

/// Capacity of the shared event queue.
pub const QUEUE_CAPACITY: usize = 256;

/// Period of the timer producer, and bound of the input producer's poll wait.
pub const TICK_MILLIS: u64 = 250;

/// Pause of the stand-in backend between two fragments.
pub const STAND_IN_PAUSE_MILLIS: u64 = 80;

/// A key of the terminal, as far as the control loop tells keys apart.
#[derive(Debug, Clone, Copy, PartialEq, Eq, Structural)]
pub enum KeyCode {
    Char(char),
    Enter,
    Esc,
    Backspace,
    Up,
    Down,
    Other,
}

/// A raw terminal input event.
#[derive(Debug, Clone, Copy, PartialEq, Eq, Structural)]
pub enum InputEvent {
    /// A key press, with whether the control modifier was held.
    Key { code: KeyCode, ctrl: bool },
    /// The terminal was resized.
    Resize,
    /// Anything else (a key release, the mouse, focus, paste).
    Other,
}

/// The single event type consumed by the control loop.
#[derive(Debug)]
pub enum AppEvent {
    /// A raw terminal input event.
    Input(InputEvent),
    /// A timer tick.
    Tick,
    /// A streamed fragment of the assistant's reply.
    AgentChunk(String),
    /// The current reply stream is complete (done or cancelled).
    AgentDone,
}

/// What a producer does with an event it is about to enqueue.
#[derive(Debug, Clone, Copy, PartialEq, Eq, Structural)]
pub enum Admission {
    /// Put it on the queue now.
    Enqueue,
    /// Wait until the queue has room, then put it on the queue.
    Wait,
    /// Discard it.
    Drop,
}

/// Events whose loss violates nothing: timer ticks.
pub open spec fn is_lossy(e: &AppEvent) -> bool {
    e is Tick
}

/// Decides what a producer does with `event` given whether the queue is full:
/// a tick that finds the queue full is dropped, any other event waits for room,
/// and an event that finds room is enqueued. No input or streaming event is
/// ever dropped.
pub fn admission(event: &AppEvent, queue_full: bool) -> (r: Admission)
    ensures
        !queue_full ==> r == Admission::Enqueue,
        queue_full && is_lossy(event) ==> r == Admission::Drop,
        queue_full && !is_lossy(event) ==> r == Admission::Wait,
        r == Admission::Drop ==> is_lossy(event),
{
    if !queue_full {
        Admission::Enqueue
    } else {
        match event {
            AppEvent::Tick => Admission::Drop,
            _ => Admission::Wait,
        }
    }
}

} // verus!
