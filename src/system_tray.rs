use vstd::prelude::*;

verus! {

/// Connection state of the companion, shown in the tray icon's tooltip.
#[derive(Debug, Clone, Copy, PartialEq, Eq, Structural)]
pub enum ConnectionStatus {
    Connected,
    Disconnected,
    Syncing,
}

pub open spec fn tooltip_of(status: ConnectionStatus) -> Seq<char> {
    match status {
        ConnectionStatus::Connected => "Tarkov Quest Companion - Connected"@,
        ConnectionStatus::Disconnected => "Tarkov Quest Companion - Disconnected"@,
        ConnectionStatus::Syncing => "Tarkov Quest Companion - Syncing..."@,
    }
}

/// The tray tooltip for a connection status.
pub fn tray_tooltip(status: ConnectionStatus) -> (r: &'static str)
    ensures
        r@ == tooltip_of(status),
{
    match status {
        ConnectionStatus::Connected => "Tarkov Quest Companion - Connected",
        ConnectionStatus::Disconnected => "Tarkov Quest Companion - Disconnected",
        ConnectionStatus::Syncing => "Tarkov Quest Companion - Syncing...",
    }
}

} // verus!
