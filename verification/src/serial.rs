use vstd::prelude::*;

verus! {

/// The state of the serial link, as the program's decisions see it. The port
/// itself and the channel from the reading thread are held by the caller,
/// which keeps them exactly while the link is `Connected`.
pub enum SerialConn {
    Disconnected,
    Connected,
    /// The link failed and is not retried; the reason.
    Error(String),
    /// The link failed and is retried at `reconnect_at` (milliseconds on the
    /// program's clock); the reason of the failure.
    Reconnecting { reason: String, reconnect_at: u64 },
}

/// The mathematical value of a `SerialConn`.
pub enum ConnView {
    Disconnected,
    Connected,
    Error(Seq<char>),
    Reconnecting { reason: Seq<char>, reconnect_at: u64 },
}

impl View for SerialConn {
    type V = ConnView;

    open spec fn view(&self) -> ConnView {
        match self {
            SerialConn::Disconnected => ConnView::Disconnected,
            SerialConn::Connected => ConnView::Connected,
            SerialConn::Error(e) => ConnView::Error(e@),
            SerialConn::Reconnecting { reason, reconnect_at } => ConnView::Reconnecting {
                reason: reason@,
                reconnect_at: *reconnect_at,
            },
        }
    }
}

impl SerialConn {
    /// Whether the port is open.
    pub fn is_connected(&self) -> (b: bool)
        ensures
            b == (self@ is Connected),
    {
        match self {
            SerialConn::Connected => true,
            _ => false,
        }
    }
}

/// What the reading thread hands over: a chunk of received bytes, or the
/// reason the port failed.
pub enum RxEvent {
    Data(Vec<u8>),
    Error(String),
}

/// The mathematical value of an `RxEvent`.
pub enum RxEventView {
    Data(Seq<u8>),
    Error(Seq<char>),
}

impl View for RxEvent {
    type V = RxEventView;

    open spec fn view(&self) -> RxEventView {
        match self {
            RxEvent::Data(b) => RxEventView::Data(b@),
            RxEvent::Error(e) => RxEventView::Error(e@),
        }
    }
}

/// What one read from the port gave.
pub enum ReadOutcome {
    /// The bytes read; none when the read returned zero bytes.
    Received(Vec<u8>),
    /// The read timed out with nothing to report.
    TimedOut,
    /// The read failed; the reason.
    Failed(String),
}

/// What the reading thread does after a read.
pub enum ReaderStep {
    /// Read again.
    Continue,
    /// Hand the event over and read again, unless nobody listens any more.
    Forward(RxEvent),
    /// Hand the event over, whether anybody listens or not, and stop.
    ForwardLast(RxEvent),
}

/// The mathematical value of a `ReaderStep`.
pub enum ReaderStepView {
    Continue,
    Forward(RxEventView),
    ForwardLast(RxEventView),
}

impl View for ReaderStep {
    type V = ReaderStepView;

    open spec fn view(&self) -> ReaderStepView {
        match self {
            ReaderStep::Continue => ReaderStepView::Continue,
            ReaderStep::Forward(e) => ReaderStepView::Forward(e@),
            ReaderStep::ForwardLast(e) => ReaderStepView::ForwardLast(e@),
        }
    }
}

/// The reading thread's rule: empty reads and timeouts are skipped, bytes are
/// forwarded, and a failure is forwarded as the last event.
pub open spec fn reader_step_spec(outcome: ReadOutcome) -> ReaderStepView {
    match outcome {
        ReadOutcome::Received(b) => if b@.len() == 0 {
            ReaderStepView::Continue
        } else {
            ReaderStepView::Forward(RxEventView::Data(b@))
        },
        ReadOutcome::TimedOut => ReaderStepView::Continue,
        ReadOutcome::Failed(e) => ReaderStepView::ForwardLast(RxEventView::Error(e@)),
    }
}

/// Decides what the reading thread does with the outcome of one read.
pub fn next_reader_step(outcome: ReadOutcome) -> (step: ReaderStep)
    ensures
        step@ == reader_step_spec(outcome),
{
    match outcome {
        ReadOutcome::Received(b) => {
            if b.len() == 0 {
                ReaderStep::Continue
            } else {
                ReaderStep::Forward(RxEvent::Data(b))
            }
        },
        ReadOutcome::TimedOut => ReaderStep::Continue,
        ReadOutcome::Failed(e) => ReaderStep::ForwardLast(RxEvent::Error(e)),
    }
}

/// The reading thread forwards exactly what it read: a read with bytes
/// forwards those bytes and goes on; an empty read or a timeout forwards
/// nothing and goes on; a failure forwards its reason and is the only thing
/// that stops the thread.
pub proof fn lemma_reader_forwards_what_it_read(outcome: ReadOutcome)
    ensures
        (outcome matches ReadOutcome::Received(b) && b@.len() > 0) ==> reader_step_spec(outcome)
            == ReaderStepView::Forward(RxEventView::Data(outcome->Received_0@)),
        (outcome matches ReadOutcome::Received(b) && b@.len() == 0) ==> reader_step_spec(outcome)
            is Continue,
        outcome is TimedOut ==> reader_step_spec(outcome) is Continue,
        reader_step_spec(outcome) is ForwardLast <==> outcome is Failed,
        outcome is Failed ==> reader_step_spec(outcome) == ReaderStepView::ForwardLast(
            RxEventView::Error(outcome->Failed_0@),
        ),
{
}

} // verus!
