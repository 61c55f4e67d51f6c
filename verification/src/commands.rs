use vstd::prelude::*;

use crate::urc::URCMessages;

verus! {

/// Declares atat's error enum so that transport failures can be carried
/// through the adapter's error taxonomy as opaque payloads.
/// Relies on `atat::Error`, the error type atat's clients return from `send`.
#[verifier::external_type_specification]
#[verifier::external_body]
pub struct ExAtatError(atat::Error);

/// Relies on the derived `Clone` of `atat::Error`: with its default features
/// every variant payload is a plain copyable enum, so a clone is an equal
/// value.
pub assume_specification[ <atat::Error as Clone>::clone ](error: &atat::Error) -> (r: atat::Error)
    ensures
        r == *error,
;

/// Declares nb's error enum with its structure visible, so that verified code
/// can tell a would-block outcome apart from an underlying transport error.
/// Relies on `nb::Error` having exactly the two public variants
/// `Other(E)` and `WouldBlock`.
#[verifier::external_type_specification]
#[verifier::reject_recursive_types(E)]
pub struct ExNbError<E>(nb::Error<E>);

/// The outbound requests the adapter issues while joining an access point.
#[derive(Clone, Debug, PartialEq, Eq)]
pub enum Command {
    /// Switch the radio to station mode
    SetStationMode,
    /// Associate with an access point using the given SSID and pre-shared key
    ConnectAccessPoint { ssid: String, key: String },
}

/// One command exchange as the channel's ghost history records it: the
/// command that went out and the outcome the transport reported for it.
pub struct CommandRecord {
    /// The command that was sent
    pub command: Command,

    /// The outcome the transport reported
    pub outcome: Result<(), nb::Error<atat::Error>>,
}

/// The command layer and notification decoder the adapter drives.
///
/// `send` must block until the transport reports a definitive outcome; a
/// `WouldBlock` outcome signals a misconfigured (non-blocking) transport and
/// is surfaced by the adapter as `JoinError::UnexpectedWouldBlock`.
/// `poll_one` must never block: it reports the next buffered notification, if
/// any, in arrival order.
///
/// Three ghost views model the channel: the history of command exchanges,
/// the currently buffered notifications, and the log of notifications handed
/// out so far. The contracts below are obligations
/// on every implementation; ones outside verified code are trusted to meet
/// them, which holds of any channel that answers polls from a finite
/// first-in-first-out buffer that loses nothing and sends commands without
/// consuming buffered notifications.
pub trait CommandChannel {
    /// Ghost history of every command exchange so far, in order. The default
    /// stands for a channel that has sent nothing yet; an implementation
    /// overrides it with its own record.
    open spec fn history(&self) -> Seq<CommandRecord> {
        Seq::<CommandRecord>::empty()
    }

    /// Ghost contents of the notification buffer, in arrival order. The
    /// default stands for a channel with nothing buffered.
    open spec fn buffered(&self) -> Seq<URCMessages> {
        Seq::<URCMessages>::empty()
    }

    /// Ghost log of every notification `poll_one` has handed out so far, in
    /// order. The default stands for a channel that was never polled.
    open spec fn delivered(&self) -> Seq<URCMessages> {
        Seq::<URCMessages>::empty()
    }

    /// Sends one command and reports the transport outcome. Exactly this
    /// exchange is appended to the history; notifications may arrive while
    /// the command is in flight, so the buffer may grow, but none is lost
    /// and none is handed out.
    fn send(&mut self, command: &Command) -> (outcome: Result<(), nb::Error<atat::Error>>)
        ensures
            final(self).history() == old(self).history().push(
                (CommandRecord { command: *command, outcome: outcome }),
            ),
            old(self).buffered().is_prefix_of(final(self).buffered()),
            final(self).delivered() == old(self).delivered(),
    ;

    /// Returns the next pending classified notification, or `None` exactly
    /// when no notification is currently buffered. A delivered notification
    /// is the oldest buffered one and joins the delivered log; polling sends
    /// no command.
    fn poll_one(&mut self) -> (notification: Option<URCMessages>)
        ensures
            final(self).history() == old(self).history(),
            old(self).buffered().len() == 0 ==> notification is None && final(self).buffered()
                == old(self).buffered() && final(self).delivered() == old(self).delivered(),
            old(self).buffered().len() > 0 ==> notification == Some(old(self).buffered()[0])
                && final(self).buffered() == old(self).buffered().skip(1)
                && final(self).delivered() == old(self).delivered().push(old(self).buffered()[0]),
    ;
}

} // verus!
