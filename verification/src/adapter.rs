use vstd::prelude::*;
use vstd::string::StringSliceAdditionalSpecFns;

use crate::commands::{Command, CommandChannel, CommandRecord};
use crate::urc::URCMessages;

verus! {

/// Current WIFI connection state, copied out of the adapter's flags.
///
/// A point-in-time snapshot, not a live view: later notifications change the
/// adapter, not a snapshot already returned.
#[derive(Copy, Clone, Debug, PartialEq, Eq, Structural)]
pub struct JoinState {
    /// True if connected to a WIFI access point
    pub connected: bool,

    /// True if an IP address was assigned
    pub ip_assigned: bool,
}

/// Possible errors when joining an access point
#[derive(Clone, Debug, PartialEq)]
pub enum JoinError {
    /// Error while setting the flash configuration mode. Reserved for
    /// commands that set persistent configuration; the join sequence itself
    /// never produces it.
    ConfigurationStoreError(atat::Error),

    /// Error while setting the WIFI mode to station
    ModeError(atat::Error),

    /// Error while setting the WIFI credentials
    ConnectError(atat::Error),

    /// Given SSID is longer than the protocol limit of 32 bytes
    InvalidSSIDLength,

    /// Given password is longer than the protocol limit of 63 bytes
    InvalidPasswordLength,

    /// Received an unexpected WouldBlock. The most common cause is an
    /// incorrect mode of the client: it must be either timeout or blocking.
    UnexpectedWouldBlock,
}

/// Central client for network communication.
///
/// Owns the command channel exclusively and keeps the only mutable state of
/// the core: the two connection flags, updated solely by the join sequence
/// and by notification draining.
pub struct Adapter<A: CommandChannel> {
    /// Command channel and notification source
    client: A,

    /// Currently joined to a WIFI network? Gets updated by URC messages.
    joined: bool,

    /// True if an IP was assigned by the access point. Gets updated by URC
    /// messages.
    ip_assigned: bool,
}

/// The effect of one classified notification on the connection state:
/// a disconnect clears both flags in one step, a connect sets `connected`,
/// an address report sets `ip_assigned`, and everything else changes nothing.
pub open spec fn apply_notification(state: JoinState, urc: URCMessages) -> JoinState {
    match urc {
        URCMessages::WifiDisconnected => JoinState { connected: false, ip_assigned: false },
        URCMessages::WifiConnected => JoinState { connected: true, ip_assigned: state.ip_assigned },
        URCMessages::ReceivedIP => JoinState { connected: state.connected, ip_assigned: true },
        URCMessages::Ready => state,
        URCMessages::Unknown => state,
    }
}

/// Folds a sequence of notifications into the connection state in arrival
/// order, last writer wins.
pub open spec fn fold_notifications(state: JoinState, urcs: Seq<URCMessages>) -> JoinState
    decreases urcs.len(),
{
    if urcs.len() == 0 {
        state
    } else {
        fold_notifications(apply_notification(state, urcs[0]), urcs.skip(1))
    }
}

/// The join error owed for each outcome of the station-mode command: an
/// underlying transport error is wrapped in `ModeError`, a would-block
/// outcome signals a misconfigured transport.
pub open spec fn mode_error_of(error: nb::Error<atat::Error>) -> JoinError {
    match error {
        nb::Error::Other(other) => JoinError::ModeError(other),
        nb::Error::WouldBlock => JoinError::UnexpectedWouldBlock,
    }
}

/// The join error owed for each outcome of the connect-access-point command.
pub open spec fn connect_error_of(error: nb::Error<atat::Error>) -> JoinError {
    match error {
        nb::Error::Other(other) => JoinError::ConnectError(other),
        nb::Error::WouldBlock => JoinError::UnexpectedWouldBlock,
    }
}

/// What the station-mode step returns for each transport outcome: success
/// passes through, a failure is mapped by `mode_error_of`.
pub open spec fn mode_result_of(outcome: Result<(), nb::Error<atat::Error>>) -> Result<
    (),
    JoinError,
> {
    match outcome {
        Ok(()) => Ok(()),
        Err(error) => Err(mode_error_of(error)),
    }
}

/// What the connect-access-point step returns for each transport outcome.
pub open spec fn connect_result_of(outcome: Result<(), nb::Error<atat::Error>>) -> Result<
    (),
    JoinError,
> {
    match outcome {
        Ok(()) => Ok(()),
        Err(error) => Err(connect_error_of(error)),
    }
}

/// Exactly the two join-sequence exchanges were appended to the history
/// `h0`, in order: first the station-mode command, which succeeded, then the
/// connect command carrying exactly the given SSID and key.
pub open spec fn two_commands_appended(
    h0: Seq<CommandRecord>,
    h: Seq<CommandRecord>,
    ssid: Seq<char>,
    key: Seq<char>,
) -> bool {
    &&& h.len() == h0.len() + 2
    &&& h.subrange(0, h0.len() as int) == h0
    &&& h[h0.len() as int].command == Command::SetStationMode
    &&& h[h0.len() as int].outcome is Ok
    &&& h.last().command matches Command::ConnectAccessPoint { ssid: sent_ssid, key: sent_key }
        && sent_ssid@ == ssid && sent_key@ == key
}

/// Two single appends compose: the first history is still a prefix of the
/// second append's result, and the middle record sits right after it.
proof fn lemma_two_step_history(
    h0: Seq<CommandRecord>,
    h1: Seq<CommandRecord>,
    h2: Seq<CommandRecord>,
)
    requires
        h1.len() == h0.len() + 1,
        h1.drop_last() == h0,
        h2.len() == h1.len() + 1,
        h2.drop_last() == h1,
    ensures
        h2.subrange(0, h0.len() as int) == h0,
        h2[h0.len() as int] == h1.last(),
{
    assert(h2.subrange(0, h0.len() as int) =~= h0);
    assert(h2[h0.len() as int] == h2.drop_last().last());
}

/// Maps a failed station-mode command outcome into the error taxonomy.
pub fn mode_command_error(error: nb::Error<atat::Error>) -> (e: JoinError)
    ensures
        e == mode_error_of(error),
{
    match error {
        nb::Error::Other(other) => JoinError::ModeError(other),
        nb::Error::WouldBlock => JoinError::UnexpectedWouldBlock,
    }
}

/// Maps a failed connect-access-point command outcome into the error
/// taxonomy.
pub fn connect_command_error(error: nb::Error<atat::Error>) -> (e: JoinError)
    ensures
        e == connect_error_of(error),
{
    match error {
        nb::Error::Other(other) => JoinError::ConnectError(other),
        nb::Error::WouldBlock => JoinError::UnexpectedWouldBlock,
    }
}

/// A would-block outcome maps to `UnexpectedWouldBlock` no matter which of
/// the two commands produced it, both at the error mapping and at the full
/// step result.
pub proof fn lemma_would_block_uniform()
    ensures
        mode_error_of(nb::Error::<atat::Error>::WouldBlock) == JoinError::UnexpectedWouldBlock,
        connect_error_of(nb::Error::<atat::Error>::WouldBlock) == JoinError::UnexpectedWouldBlock,
        mode_result_of(Err(nb::Error::WouldBlock)) == Err::<(), JoinError>(
            JoinError::UnexpectedWouldBlock,
        ),
        connect_result_of(Err(nb::Error::WouldBlock)) == Err::<(), JoinError>(
            JoinError::UnexpectedWouldBlock,
        ),
{
}

/// `Ready` and `Unknown` notifications never alter the connection state,
/// whatever the prior state.
pub proof fn lemma_ready_unknown_no_effect(state: JoinState)
    ensures
        apply_notification(state, URCMessages::Ready) == state,
        apply_notification(state, URCMessages::Unknown) == state,
{
}

/// Applying the same notification twice in a row leaves the state where one
/// application put it: folding is idempotent per notification kind.
pub proof fn lemma_apply_notification_idempotent(state: JoinState, urc: URCMessages)
    ensures
        apply_notification(apply_notification(state, urc), urc) == apply_notification(state, urc),
{
}

impl<A: CommandChannel> Adapter<A> {
    /// The adapter's connection flags as one value.
    pub closed spec fn connection_state(&self) -> JoinState {
        JoinState { connected: self.joined, ip_assigned: self.ip_assigned }
    }

    /// Ghost contents of the channel's notification buffer, in arrival
    /// order.
    pub closed spec fn pending_urcs(&self) -> Seq<URCMessages> {
        self.client.buffered()
    }

    /// Ghost history of every command exchange the channel made, in order.
    pub closed spec fn command_history(&self) -> Seq<CommandRecord> {
        self.client.history()
    }

    /// Ghost log of every notification polled off the channel so far, in
    /// order.
    pub closed spec fn delivered_urcs(&self) -> Seq<URCMessages> {
        self.client.delivered()
    }

    /// Creates a new network adapter. The client needs to be in timeout or
    /// blocking mode. Construction only takes ownership: the given client's
    /// command history, notification buffer and delivered log carry over
    /// untouched, so nothing is sent and nothing is polled here.
    pub fn new(client: A) -> (adapter: Self)
        ensures
            adapter.connection_state() == (JoinState { connected: false, ip_assigned: false }),
            adapter.command_history() == client.history(),
            adapter.pending_urcs() == client.buffered(),
            adapter.delivered_urcs() == client.delivered(),
    {
        Self { client, joined: false, ip_assigned: false }
    }

    /// Returns a snapshot of the current connection state without issuing
    /// commands or draining notifications.
    pub fn get_join_state(&self) -> (state: JoinState)
        ensures
            state == self.connection_state(),
    {
        JoinState { connected: self.joined, ip_assigned: self.ip_assigned }
    }

    /// Connects to a WIFI access point and returns the connection state.
    ///
    /// The SSID and key are validated before any command is issued; then the
    /// station-mode and connect-access-point commands go out in that order,
    /// the first failure aborting the sequence with its mapped error. On
    /// success all currently pending notifications are folded into the state
    /// and a snapshot of it is returned.
    ///
    /// Note: if the connection was not successful or is lost, an ESP-AT modem
    /// retries independently from time to time (by default every second) to
    /// establish the connection. The status can be queried using
    /// `get_join_state()` after draining notifications again.
    pub fn join(&mut self, ssid: &str, key: &str) -> (result: Result<JoinState, JoinError>)
        ensures
            ssid.spec_bytes().len() > 32 ==> result == Result::<JoinState, JoinError>::Err(
                JoinError::InvalidSSIDLength,
            ) && *final(self) == *old(self),
            ssid.spec_bytes().len() <= 32 && key.spec_bytes().len() > 63 ==> result
                == Result::<JoinState, JoinError>::Err(JoinError::InvalidPasswordLength)
                && *final(self) == *old(self),
            result == Result::<JoinState, JoinError>::Err(JoinError::InvalidSSIDLength)
                ==> ssid.spec_bytes().len() > 32,
            result == Result::<JoinState, JoinError>::Err(JoinError::InvalidPasswordLength)
                ==> ssid.spec_bytes().len() <= 32 && key.spec_bytes().len() > 63,
            result is Err ==> final(self).connection_state() == old(self).connection_state(),
            result is Err ==> final(self).delivered_urcs() == old(self).delivered_urcs(),
            result matches Err(e) ==> !(e is ConfigurationStoreError),
            result matches Err(JoinError::ModeError(error)) ==> {
                &&& final(self).command_history().len() == old(self).command_history().len() + 1
                &&& final(self).command_history().drop_last() == old(self).command_history()
                &&& final(self).command_history().last() == (CommandRecord {
                    command: Command::SetStationMode,
                    outcome: Err(nb::Error::Other(error)),
                })
            },
            result matches Err(JoinError::ConnectError(error)) ==> {
                &&& two_commands_appended(
                    old(self).command_history(),
                    final(self).command_history(),
                    ssid@,
                    key@,
                )
                &&& final(self).command_history().last().outcome == Err::<
                    (),
                    nb::Error<atat::Error>,
                >(nb::Error::Other(error))
            },
            result == Result::<JoinState, JoinError>::Err(JoinError::UnexpectedWouldBlock) ==> {
                ||| {
                    &&& final(self).command_history().len() == old(self).command_history().len()
                        + 1
                    &&& final(self).command_history().drop_last() == old(self).command_history()
                    &&& final(self).command_history().last() == (CommandRecord {
                        command: Command::SetStationMode,
                        outcome: Err(nb::Error::WouldBlock),
                    })
                }
                ||| {
                    &&& two_commands_appended(
                    old(self).command_history(),
                    final(self).command_history(),
                    ssid@,
                    key@,
                )
                    &&& final(self).command_history().last().outcome == Err::<
                        (),
                        nb::Error<atat::Error>,
                    >(nb::Error::WouldBlock)
                }
            },
            result matches Ok(state) ==> {
                &&& ssid.spec_bytes().len() <= 32
                &&& key.spec_bytes().len() <= 63
                &&& two_commands_appended(
                    old(self).command_history(),
                    final(self).command_history(),
                    ssid@,
                    key@,
                )
                &&& final(self).command_history().last().outcome is Ok
                &&& state == final(self).connection_state()
                &&& final(self).pending_urcs().len() == 0
                &&& final(self).connection_state() == fold_notifications(
                    old(self).connection_state(),
                    final(self).delivered_urcs().skip(old(self).delivered_urcs().len() as int),
                )
                &&& old(self).delivered_urcs().is_prefix_of(final(self).delivered_urcs())
                &&& old(self).pending_urcs().is_prefix_of(
                    final(self).delivered_urcs().skip(old(self).delivered_urcs().len() as int),
                )
            },
    {
        if ssid.as_bytes().len() > 32 {
            return Err(JoinError::InvalidSSIDLength);
        }

        if key.as_bytes().len() > 63 {
            return Err(JoinError::InvalidPasswordLength);
        }

        match self.set_station_mode() {
            Ok(()) => {},
            Err(error) => {
                return Err(error);
            },
        }

        let ghost mid_history: Seq<CommandRecord> = self.command_history();
        match self.connect_access_point(ssid, key) {
            Ok(()) => {},
            Err(error) => {
                proof {
                    lemma_two_step_history(
                        old(self).command_history(),
                        mid_history,
                        self.command_history(),
                    );
                    assert(mid_history.last().outcome is Ok);
                }
                return Err(error);
            },
        }

        proof {
            lemma_two_step_history(
                old(self).command_history(),
                mid_history,
                self.command_history(),
            );
            assert(mid_history.last().outcome is Ok);
        }

        let ghost before_drain: Seq<URCMessages> = self.pending_urcs();
        self.process_urc_messages();

        proof {
            let b0 = old(self).pending_urcs();
            let d0 = old(self).delivered_urcs();
            assert(b0.is_prefix_of(before_drain));
            assert(self.delivered_urcs() == d0 + before_drain);
            assert(self.delivered_urcs().skip(d0.len() as int) =~= before_drain);
            assert(d0.is_prefix_of(self.delivered_urcs()));
        }

        Ok(JoinState { connected: self.joined, ip_assigned: self.ip_assigned })
    }

    /// Processes all pending messages in the queue: the state afterwards is
    /// the old state with exactly the buffered notifications folded in, in
    /// arrival order, and the buffer is empty. Returns as soon as the
    /// decoder reports none pending; with zero notifications queued the
    /// state is unchanged. No command is issued.
    pub fn process_urc_messages(&mut self)
        ensures
            final(self).connection_state() == fold_notifications(
                old(self).connection_state(),
                old(self).pending_urcs(),
            ),
            final(self).pending_urcs().len() == 0,
            final(self).delivered_urcs() == old(self).delivered_urcs() + old(self).pending_urcs(),
            final(self).command_history() == old(self).command_history(),
    {
        loop
            invariant
                fold_notifications(self.connection_state(), self.pending_urcs())
                    == fold_notifications(old(self).connection_state(), old(self).pending_urcs()),
                self.delivered_urcs() + self.pending_urcs() == old(self).delivered_urcs() + old(
                    self,
                ).pending_urcs(),
                self.command_history() == old(self).command_history(),
            ensures
                fold_notifications(self.connection_state(), self.pending_urcs())
                    == fold_notifications(old(self).connection_state(), old(self).pending_urcs()),
                self.pending_urcs().len() == 0,
                self.delivered_urcs() == old(self).delivered_urcs() + old(self).pending_urcs(),
                self.command_history() == old(self).command_history(),
            decreases self.pending_urcs().len(),
        {
            let ghost pre_delivered: Seq<URCMessages> = self.delivered_urcs();
            let ghost pre_pending: Seq<URCMessages> = self.pending_urcs();
            let pending = self.handle_single_urc();
            proof {
                if pending {
                    assert(self.delivered_urcs() + self.pending_urcs() =~= pre_delivered
                        + pre_pending);
                } else {
                    assert(self.delivered_urcs() + self.pending_urcs() =~= self.delivered_urcs());
                }
            }
            if !pending {
                break;
            }
        }
    }

    /// Checks a single pending URC message and folds it into the state.
    /// Returns false, exactly when no URC message is pending; the state is
    /// then unchanged. Otherwise the oldest buffered notification is
    /// consumed and applied.
    fn handle_single_urc(&mut self) -> (pending: bool)
        ensures
            final(self).command_history() == old(self).command_history(),
            pending <==> old(self).pending_urcs().len() > 0,
            !pending ==> final(self).connection_state() == old(self).connection_state()
                && final(self).pending_urcs() == old(self).pending_urcs()
                && final(self).delivered_urcs() == old(self).delivered_urcs(),
            pending ==> final(self).connection_state() == apply_notification(
                old(self).connection_state(),
                old(self).pending_urcs()[0],
            ) && final(self).pending_urcs() == old(self).pending_urcs().skip(1)
                && final(self).delivered_urcs() == old(self).delivered_urcs().push(
                old(self).pending_urcs()[0],
            ),
    {
        let polled = self.client.poll_one();
        match polled {
            Some(URCMessages::WifiDisconnected) => {
                self.joined = false;
                self.ip_assigned = false;
            },
            Some(URCMessages::ReceivedIP) => {
                self.ip_assigned = true;
            },
            Some(URCMessages::WifiConnected) => {
                self.joined = true;
            },
            Some(URCMessages::Ready) => {},
            Some(URCMessages::Unknown) => {},
            None => {
                return false;
            },
        }

        true
    }

    /// Sends the command for switching to station mode. Exactly one
    /// station-mode command is exchanged, the flags are not touched, and the
    /// result follows the transport outcome by `mode_result_of`.
    fn set_station_mode(&mut self) -> (result: Result<(), JoinError>)
        ensures
            final(self).connection_state() == old(self).connection_state(),
            old(self).pending_urcs().is_prefix_of(final(self).pending_urcs()),
            final(self).delivered_urcs() == old(self).delivered_urcs(),
            final(self).command_history().len() == old(self).command_history().len() + 1,
            final(self).command_history().drop_last() == old(self).command_history(),
            final(self).command_history().last().command == Command::SetStationMode,
            result == mode_result_of(final(self).command_history().last().outcome),
    {
        let command = Command::SetStationMode;
        match self.client.send(&command) {
            Ok(()) => Ok(()),
            Err(error) => Err(mode_command_error(error)),
        }
    }

    /// Sends the command for setting the WIFI credentials. The caller has
    /// already validated the lengths. Exactly one connect command is
    /// exchanged, carrying exactly the given SSID and key; the flags are not
    /// touched, and the result follows the transport outcome by
    /// `connect_result_of`.
    fn connect_access_point(&mut self, ssid: &str, key: &str) -> (result: Result<(), JoinError>)
        requires
            ssid.spec_bytes().len() <= 32,
            key.spec_bytes().len() <= 63,
        ensures
            final(self).connection_state() == old(self).connection_state(),
            old(self).pending_urcs().is_prefix_of(final(self).pending_urcs()),
            final(self).delivered_urcs() == old(self).delivered_urcs(),
            final(self).command_history().len() == old(self).command_history().len() + 1,
            final(self).command_history().drop_last() == old(self).command_history(),
            final(self).command_history().last().command matches Command::ConnectAccessPoint {
                ssid: sent_ssid,
                key: sent_key,
            } && sent_ssid@ == ssid@ && sent_key@ == key@,
            result == connect_result_of(final(self).command_history().last().outcome),
    {
        let command = Command::ConnectAccessPoint { ssid: ssid.to_owned(), key: key.to_owned() };
        match self.client.send(&command) {
            Ok(()) => Ok(()),
            Err(error) => Err(connect_command_error(error)),
        }
    }
}

} // verus!
