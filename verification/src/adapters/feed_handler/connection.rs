//! The life of a feed connection: connect, stream, back off, connect again.
//!
//! The loop that owns the socket belongs to the caller. It reports each
//! thing that happened as a [`Signal`]; [`advance`] answers with the next
//! state and what to do. There is no final state: a handler runs until its
//! task is cancelled, and never gives an error back.

use vstd::prelude::*;

verus! {

/// The pause before every reconnection, in milliseconds.
pub const BACKOFF_MS: u64 = 5000;

/// Where a handler stands with its connection.
#[derive(Debug, Clone, Copy, PartialEq, Eq, Structural)]
pub enum ConnectionState {
    /// No connection; one is being made.
    Connecting,
    /// Connected; frames are being read.
    Streaming,
    /// The connection was lost or refused; the pause is running.
    BackingOff,
}

/// What the loop saw.
#[derive(Debug, Clone, Copy, PartialEq, Eq, Structural)]
pub enum Signal {
    /// The connection was made.
    Connected,
    /// The connection could not be made.
    ConnectFailed,
    /// A text frame arrived; whether it could be read makes no difference here.
    TextFrame,
    /// A binary, ping or pong frame arrived.
    ControlFrame,
    /// A close frame arrived.
    CloseFrame,
    /// Reading failed.
    TransportError,
    /// The stream ended without a close frame.
    StreamEnded,
    /// The pause is over.
    BackoffElapsed,
}

/// What the loop has to do next.
#[derive(Debug, Clone, Copy, PartialEq, Eq, Structural)]
pub enum Directive {
    /// Open a connection.
    Connect,
    /// Read the next frame.
    Receive,
    /// Drop the connection if there is one and pause for this many milliseconds.
    Backoff(u64),
}

/// What the loop does in `state` while no signal has arrived.
pub open spec fn pending(state: ConnectionState) -> Directive {
    match state {
        ConnectionState::Connecting => Directive::Connect,
        ConnectionState::Streaming => Directive::Receive,
        ConnectionState::BackingOff => Directive::Backoff(BACKOFF_MS),
    }
}

/// The state that follows `state` on `signal`.
///
/// While streaming, a text or control frame keeps the connection, and a close
/// frame, a failure or the end of the stream leads to the pause. A connection
/// made leads to streaming and one refused to the pause. The end of the pause
/// leads to connecting. A signal that cannot arise in a state leaves it as it is.
pub open spec fn next_state(state: ConnectionState, signal: Signal) -> ConnectionState {
    match (state, signal) {
        (ConnectionState::Connecting, Signal::Connected) => ConnectionState::Streaming,
        (ConnectionState::Connecting, Signal::ConnectFailed) => ConnectionState::BackingOff,
        (ConnectionState::Streaming, Signal::CloseFrame) => ConnectionState::BackingOff,
        (ConnectionState::Streaming, Signal::TransportError) => ConnectionState::BackingOff,
        (ConnectionState::Streaming, Signal::StreamEnded) => ConnectionState::BackingOff,
        (ConnectionState::BackingOff, Signal::BackoffElapsed) => ConnectionState::Connecting,
        _ => state,
    }
}

/// The state a handler starts in, and what it does first.
pub fn start() -> (first: (ConnectionState, Directive))
    ensures
        first.0 == ConnectionState::Connecting,
        first.1 == Directive::Connect,
{
    (ConnectionState::Connecting, Directive::Connect)
}

/// Answers a signal with the next state and what to do in it.
pub fn advance(state: ConnectionState, signal: Signal) -> (next: (ConnectionState, Directive))
    ensures
        next.0 == next_state(state, signal),
        next.1 == pending(next.0),
{
    let following: ConnectionState = match (state, signal) {
        (ConnectionState::Connecting, Signal::Connected) => ConnectionState::Streaming,
        (ConnectionState::Connecting, Signal::ConnectFailed) => ConnectionState::BackingOff,
        (ConnectionState::Streaming, Signal::CloseFrame) => ConnectionState::BackingOff,
        (ConnectionState::Streaming, Signal::TransportError) => ConnectionState::BackingOff,
        (ConnectionState::Streaming, Signal::StreamEnded) => ConnectionState::BackingOff,
        (ConnectionState::BackingOff, Signal::BackoffElapsed) => ConnectionState::Connecting,
        _ => state,
    };
    let directive: Directive = match following {
        ConnectionState::Connecting => Directive::Connect,
        ConnectionState::Streaming => Directive::Receive,
        ConnectionState::BackingOff => Directive::Backoff(BACKOFF_MS),
    };
    (following, directive)
}

/// The state reached from `state` after the signals `signals`, in order.
pub open spec fn state_after(state: ConnectionState, signals: Seq<Signal>) -> ConnectionState
    decreases signals.len(),
{
    if signals.len() == 0 {
        state
    } else {
        next_state(state_after(state, signals.drop_last()), signals.last())
    }
}

/// Whether `signal` is a frame that carries data or keeps the connection alive.
pub open spec fn is_data_or_control(signal: Signal) -> bool {
    signal == Signal::TextFrame || signal == Signal::ControlFrame
}

/// A text frame never costs the connection, whatever it holds: after it the
/// handler is still streaming and reads the next frame.
pub proof fn law_text_frame_keeps_connection()
    ensures
        next_state(ConnectionState::Streaming, Signal::TextFrame) == ConnectionState::Streaming,
        pending(next_state(ConnectionState::Streaming, Signal::TextFrame)) == Directive::Receive,
{
}

/// After any run of text and control frames on one connection, malformed
/// ones among them or not, the handler is still streaming: the frames that
/// follow are read.
pub proof fn law_frames_keep_connection(signals: Seq<Signal>)
    requires
        forall|i: int| 0 <= i < signals.len() ==> is_data_or_control(#[trigger] signals[i]),
    ensures
        state_after(ConnectionState::Streaming, signals) == ConnectionState::Streaming,
    decreases signals.len(),
{
    if signals.len() > 0 {
        law_frames_keep_connection(signals.drop_last());
        assert(is_data_or_control(signals.last()));
    }
}

/// The end of a connection, clean or not, is followed by the fixed pause and
/// then by a new connection attempt.
pub proof fn law_reconnects_after_pause(signal: Signal)
    requires
        signal == Signal::CloseFrame || signal == Signal::TransportError || signal
            == Signal::StreamEnded,
    ensures
        next_state(ConnectionState::Streaming, signal) == ConnectionState::BackingOff,
        pending(ConnectionState::BackingOff) == Directive::Backoff(BACKOFF_MS),
        BACKOFF_MS == 5000,
        state_after(ConnectionState::Streaming, seq![signal, Signal::BackoffElapsed])
            == ConnectionState::Connecting,
        pending(ConnectionState::Connecting) == Directive::Connect,
{
    let run = seq![signal, Signal::BackoffElapsed];
    assert(run.drop_last() =~= seq![signal]);
    assert(seq![signal].drop_last() =~= Seq::<Signal>::empty());
    assert(run.last() == Signal::BackoffElapsed);
    assert(seq![signal].last() == signal);
    reveal_with_fuel(state_after, 3);
}

/// A refused connection is retried after the pause, however often it was
/// refused before: there is no limit on attempts.
pub proof fn law_retries_without_limit(refusals: nat)
    ensures
        state_after(ConnectionState::Connecting, retry_rounds(refusals))
            == ConnectionState::Connecting,
    decreases refusals,
{
    if refusals > 0 {
        law_retries_without_limit((refusals - 1) as nat);
        let earlier = retry_rounds((refusals - 1) as nat);
        let one = earlier.push(Signal::ConnectFailed);
        let two = one.push(Signal::BackoffElapsed);
        assert(two.drop_last() =~= one);
        assert(one.drop_last() =~= earlier);
        assert(state_after(ConnectionState::Connecting, one) == next_state(
            state_after(ConnectionState::Connecting, earlier),
            Signal::ConnectFailed,
        ));
        assert(state_after(ConnectionState::Connecting, two) == next_state(
            state_after(ConnectionState::Connecting, one),
            Signal::BackoffElapsed,
        ));
    }
}

/// `rounds` refused connection attempts, each followed by the end of its pause.
pub open spec fn retry_rounds(rounds: nat) -> Seq<Signal>
    decreases rounds,
{
    if rounds == 0 {
        Seq::empty()
    } else {
        retry_rounds((rounds - 1) as nat).push(Signal::ConnectFailed).push(Signal::BackoffElapsed)
    }
}

} // verus!
