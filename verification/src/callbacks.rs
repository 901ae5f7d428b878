use vstd::prelude::*;

verus! {

/// What a callback tells the audio server about its own future: keep
/// invoking it, or stop.
#[derive(Clone, Copy, PartialEq, Eq, Structural, Debug)]
pub enum Control {
    Continue,
    Quit,
}

/// A lifecycle or topology event the audio server reports to the
/// notification sink, on its own thread.  The sink is a passive
/// observer: it never mutates engine state, so the events carry only
/// what its decision consumes.
#[derive(Clone, Copy, PartialEq, Eq, Structural, Debug)]
pub enum Notification {
    ThreadInitialized,
    Shutdown,
    Freewheel { enabled: bool },
    SampleRateChanged { rate: u64 },
    ClientRegistered { registered: bool },
    PortRegistered { port_id: u64, registered: bool },
    PortRenamed { port_id: u64 },
    PortsConnected { port_a: u64, port_b: u64, connected: bool },
    GraphReordered,
    XrunDetected,
}

/// The notification sink's decision for an event.  Handlers are pure
/// observers: whatever the server reports, they request continuation
/// and never call back into the engine's mutating operations.
pub fn notification_response(event: &Notification) -> (c: Control)
    ensures
        c == Control::Continue,
{
    match event {
        Notification::ThreadInitialized => Control::Continue,
        Notification::Shutdown => Control::Continue,
        Notification::Freewheel { .. } => Control::Continue,
        Notification::SampleRateChanged { .. } => Control::Continue,
        Notification::ClientRegistered { .. } => Control::Continue,
        Notification::PortRegistered { .. } => Control::Continue,
        Notification::PortRenamed { .. } => Control::Continue,
        Notification::PortsConnected { .. } => Control::Continue,
        Notification::GraphReordered => Control::Continue,
        Notification::XrunDetected => Control::Continue,
    }
}

/// The real-time callback's decision for one processing block.  It
/// passes audio through unmodified: it allocates nothing, blocks on
/// nothing, and always requests continuation within the block's time
/// budget.
pub fn process_block() -> (c: Control)
    ensures
        c == Control::Continue,
{
    Control::Continue
}

} // verus!
