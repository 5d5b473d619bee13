//! The messages on the fan-out bus, and what the command receiver and the
//! emitter do with what reaches them.
use vstd::prelude::*;

verus! {

/// A scrape command from the control plane; only `scrapUntil` is used.
#[allow(non_snake_case)]
#[derive(Debug, Clone)]
pub struct HypervisorCommand {
    pub scrapStart: Option<String>,
    pub scrapUntil: String,
    pub limit: Option<usize>,
    pub skip: Option<usize>,
}

/// What goes downstream for one class: its element id and tooltip HTML.
#[allow(non_snake_case)]
#[derive(Debug, Clone)]
pub struct UploadEntry {
    pub htmlId: String,
    pub body: String,
}

/// A message on the bus.
#[derive(Debug, Clone)]
pub enum EntryToSend {
    HypervisorCommand(HypervisorCommand),
    Entry(UploadEntry),
    HypervisorFinish,
    Quit,
}

/// What a subscriber's receive gave.
#[derive(Debug)]
pub enum Received {
    Message(EntryToSend),
    /// The subscriber fell behind; this many messages were skipped.
    Lagged(u64),
    /// Every sender is gone.
    Closed,
}

/// What the emitter does next.
#[derive(Debug)]
pub enum EmitterAction {
    /// Serialize the entry and send it.
    SendEntry(UploadEntry),
    /// Send this literal text frame.
    SendText(String),
    /// Log that this many messages were skipped, and go on.
    WarnLagged(u64),
    /// Nothing to do for this message.
    Ignore,
    /// Stop.
    Exit,
}

/// The text frame that ends a day.
pub open spec fn finished_text() -> Seq<char> {
    "finished"@
}

/// The emitter's decision for what it received.
pub fn emitter_step(received: Received) -> (r: EmitterAction)
    ensures
        match received {
            Received::Message(EntryToSend::Entry(e)) => r == EmitterAction::SendEntry(e),
            Received::Message(EntryToSend::HypervisorFinish) => r matches EmitterAction::SendText(t)
                && t@ == finished_text(),
            Received::Message(EntryToSend::Quit) => r is Exit,
            Received::Message(EntryToSend::HypervisorCommand(_)) => r is Ignore,
            Received::Lagged(n) => r == EmitterAction::WarnLagged(n),
            Received::Closed => r is Exit,
        },
{
    match received {
        Received::Message(EntryToSend::Entry(e)) => EmitterAction::SendEntry(e),
        Received::Message(EntryToSend::HypervisorFinish) => EmitterAction::SendText(
            crate::text::copy_str("finished"),
        ),
        Received::Message(EntryToSend::Quit) => EmitterAction::Exit,
        Received::Message(EntryToSend::HypervisorCommand(_)) => EmitterAction::Ignore,
        Received::Lagged(n) => EmitterAction::WarnLagged(n),
        Received::Closed => EmitterAction::Exit,
    }
}

/// What came from the control socket.
#[derive(Debug)]
pub enum Frame {
    /// A text frame, with the command it held, or `None` where it held none.
    Text(Option<HypervisorCommand>),
    /// A close frame.
    Close,
    /// The socket failed.
    Error,
    /// Any other frame.
    Other,
}

/// What the receiver does next.
#[derive(Debug)]
pub enum ReceiverAction {
    /// Put this message on the bus and go on.
    Publish(EntryToSend),
    /// Log that a text frame held no command, and go on.
    DropFrame,
    /// Go on.
    Continue,
    /// Put `Quit` on the bus and stop.
    QuitAndExit,
}

/// The receiver's decision for a frame.
pub fn receiver_step(frame: Frame) -> (r: ReceiverAction)
    ensures
        match frame {
            Frame::Text(Some(c)) => r == ReceiverAction::Publish(EntryToSend::HypervisorCommand(c)),
            Frame::Text(None) => r is DropFrame,
            Frame::Close => r is QuitAndExit,
            Frame::Error => r is QuitAndExit,
            Frame::Other => r is Continue,
        },
{
    match frame {
        Frame::Text(Some(c)) => ReceiverAction::Publish(EntryToSend::HypervisorCommand(c)),
        Frame::Text(None) => ReceiverAction::DropFrame,
        Frame::Close => ReceiverAction::QuitAndExit,
        Frame::Error => ReceiverAction::QuitAndExit,
        Frame::Other => ReceiverAction::Continue,
    }
}

} // verus!
