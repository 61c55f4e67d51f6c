use vstd::prelude::*;

verus! {

/// Classified unsolicited result codes (URC) relevant to connection state.
///
/// The notification decoder reduces every incoming out-of-band message to one
/// of these kinds; anything it does not recognize arrives as `Unknown` and is
/// ignored by the adapter, so unfamiliar protocol messages never cause a
/// failure.
#[derive(Copy, Clone, Debug, PartialEq, Eq, Structural)]
pub enum URCMessages {
    /// Modem is ready to accept commands
    Ready,
    /// Joined an access point
    WifiConnected,
    /// Connection to the access point was lost
    WifiDisconnected,
    /// The access point assigned an IP address
    ReceivedIP,
    /// Any unsolicited message not otherwise classified
    Unknown,
}

} // verus!
