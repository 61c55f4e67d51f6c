use std::cell::RefCell;
use std::rc::Rc;

use esp_wifi_adapter::adapter::{Adapter, JoinError, JoinState};
use esp_wifi_adapter::commands::{Command, CommandChannel};
use esp_wifi_adapter::urc::URCMessages;

/// Shared state of the test double, kept behind a handle so a test can
/// inspect what was sent after the adapter took ownership of the channel.
struct MockState {
    mode_outcome: Result<(), nb::Error<atat::Error>>,
    connect_outcome: Result<(), nb::Error<atat::Error>>,
    urcs: Vec<URCMessages>,
    sent: Vec<Command>,
}

/// Test double for the command layer and notification decoder: replays fixed
/// outcomes for the two commands, hands out queued notifications in order,
/// and records every command it was asked to send.
struct MockChannel {
    state: Rc<RefCell<MockState>>,
}

fn mock() -> (MockChannel, Rc<RefCell<MockState>>) {
    let state = Rc::new(RefCell::new(MockState {
        mode_outcome: Ok(()),
        connect_outcome: Ok(()),
        urcs: Vec::new(),
        sent: Vec::new(),
    }));
    (
        MockChannel {
            state: state.clone(),
        },
        state,
    )
}

fn mock_with_urcs(urcs: Vec<URCMessages>) -> (MockChannel, Rc<RefCell<MockState>>) {
    let (channel, state) = mock();
    state.borrow_mut().urcs = urcs;
    (channel, state)
}

impl CommandChannel for MockChannel {
    fn send(&mut self, command: &Command) -> Result<(), nb::Error<atat::Error>> {
        let mut state = self.state.borrow_mut();
        state.sent.push(command.clone());
        match command {
            Command::SetStationMode => state.mode_outcome.clone(),
            Command::ConnectAccessPoint { .. } => state.connect_outcome.clone(),
        }
    }

    fn poll_one(&mut self) -> Option<URCMessages> {
        let mut state = self.state.borrow_mut();
        if state.urcs.is_empty() {
            None
        } else {
            Some(state.urcs.remove(0))
        }
    }
}

#[test]
fn new_adapter_starts_disconnected() {
    let (channel, _state) = mock();
    let adapter = Adapter::new(channel);
    let state = adapter.get_join_state();
    assert!(!state.connected);
    assert!(!state.ip_assigned);
}

#[test]
fn join_rejects_long_ssid_without_sending() {
    let (channel, state) = mock();
    let mut adapter = Adapter::new(channel);
    let ssid = "a".repeat(33);
    let result = adapter.join(&ssid, "secret");
    assert_eq!(result, Err(JoinError::InvalidSSIDLength));
    assert!(state.borrow().sent.is_empty());
}

#[test]
fn join_rejects_long_key_without_sending() {
    let (channel, state) = mock();
    let mut adapter = Adapter::new(channel);
    let key = "k".repeat(64);
    let result = adapter.join("network", &key);
    assert_eq!(result, Err(JoinError::InvalidPasswordLength));
    assert!(state.borrow().sent.is_empty());
}

#[test]
fn ssid_limit_is_in_bytes_not_chars() {
    let (channel, state) = mock();
    let mut adapter = Adapter::new(channel);
    // eleven three-byte characters: 11 chars but 33 bytes
    let ssid = "\u{20AC}".repeat(11);
    let result = adapter.join(&ssid, "secret");
    assert_eq!(result, Err(JoinError::InvalidSSIDLength));
    assert!(state.borrow().sent.is_empty());
}

#[test]
fn join_accepts_limit_lengths() {
    let (channel, state) = mock();
    let mut adapter = Adapter::new(channel);
    let ssid = "s".repeat(32);
    let key = "k".repeat(63);
    let result = adapter.join(&ssid, &key);
    assert!(result.is_ok());
    assert_eq!(state.borrow().sent.len(), 2);
}

#[test]
fn mode_error_short_circuits_connect() {
    let (channel, state) = mock();
    state.borrow_mut().mode_outcome = Err(nb::Error::Other(atat::Error::Timeout));
    let mut adapter = Adapter::new(channel);
    let result = adapter.join("network", "secret");
    assert_eq!(result, Err(JoinError::ModeError(atat::Error::Timeout)));
    assert_eq!(state.borrow().sent, vec![Command::SetStationMode]);
}

#[test]
fn connect_error_is_wrapped() {
    let (channel, state) = mock();
    state.borrow_mut().connect_outcome = Err(nb::Error::Other(atat::Error::Parse));
    let mut adapter = Adapter::new(channel);
    let result = adapter.join("network", "secret");
    assert_eq!(result, Err(JoinError::ConnectError(atat::Error::Parse)));
    let state = state.borrow();
    assert_eq!(state.sent.len(), 2);
    assert_eq!(state.sent[0], Command::SetStationMode);
    assert_eq!(
        state.sent[1],
        Command::ConnectAccessPoint {
            ssid: "network".to_string(),
            key: "secret".to_string(),
        }
    );
}

#[test]
fn would_block_on_mode_command() {
    let (channel, state) = mock();
    state.borrow_mut().mode_outcome = Err(nb::Error::WouldBlock);
    let mut adapter = Adapter::new(channel);
    let result = adapter.join("network", "secret");
    assert_eq!(result, Err(JoinError::UnexpectedWouldBlock));
}

#[test]
fn would_block_on_connect_command() {
    let (channel, state) = mock();
    state.borrow_mut().connect_outcome = Err(nb::Error::WouldBlock);
    let mut adapter = Adapter::new(channel);
    let result = adapter.join("network", "secret");
    assert_eq!(result, Err(JoinError::UnexpectedWouldBlock));
}

#[test]
fn join_without_pending_notifications_reports_initial_state() {
    let (channel, _state) = mock();
    let mut adapter = Adapter::new(channel);
    let state = adapter.join("network", "secret").unwrap();
    assert_eq!(
        state,
        JoinState {
            connected: false,
            ip_assigned: false
        }
    );
}

#[test]
fn connected_then_ip_yields_both_flags() {
    let (channel, _state) =
        mock_with_urcs(vec![URCMessages::WifiConnected, URCMessages::ReceivedIP]);
    let mut adapter = Adapter::new(channel);
    let state = adapter.join("network", "secret").unwrap();
    assert_eq!(
        state,
        JoinState {
            connected: true,
            ip_assigned: true
        }
    );
}

#[test]
fn connected_then_disconnected_clears_both_flags() {
    let (channel, _state) = mock_with_urcs(vec![
        URCMessages::ReceivedIP,
        URCMessages::WifiConnected,
        URCMessages::WifiDisconnected,
    ]);
    let mut adapter = Adapter::new(channel);
    let state = adapter.join("network", "secret").unwrap();
    assert_eq!(
        state,
        JoinState {
            connected: false,
            ip_assigned: false
        }
    );
}

#[test]
fn repeated_received_ip_is_idempotent() {
    let (once, _s1) = mock_with_urcs(vec![URCMessages::ReceivedIP]);
    let (twice, _s2) = mock_with_urcs(vec![URCMessages::ReceivedIP, URCMessages::ReceivedIP]);
    let mut adapter_once = Adapter::new(once);
    let mut adapter_twice = Adapter::new(twice);
    let state_once = adapter_once.join("network", "secret").unwrap();
    let state_twice = adapter_twice.join("network", "secret").unwrap();
    assert_eq!(state_once, state_twice);
    assert_eq!(
        state_once,
        JoinState {
            connected: false,
            ip_assigned: true
        }
    );
}

#[test]
fn ready_and_unknown_do_not_alter_state() {
    let (channel, _state) = mock_with_urcs(vec![
        URCMessages::WifiConnected,
        URCMessages::Ready,
        URCMessages::Unknown,
    ]);
    let mut adapter = Adapter::new(channel);
    adapter.process_urc_messages();
    assert_eq!(
        adapter.get_join_state(),
        JoinState {
            connected: true,
            ip_assigned: false
        }
    );

    let (channel, _state) = mock_with_urcs(vec![URCMessages::Ready, URCMessages::Unknown]);
    let mut untouched = Adapter::new(channel);
    untouched.process_urc_messages();
    assert_eq!(
        untouched.get_join_state(),
        JoinState {
            connected: false,
            ip_assigned: false
        }
    );
}

#[test]
fn drain_with_no_notifications_is_a_no_op() {
    let (channel, _state) = mock();
    let mut adapter = Adapter::new(channel);
    adapter.process_urc_messages();
    assert_eq!(
        adapter.get_join_state(),
        JoinState {
            connected: false,
            ip_assigned: false
        }
    );
}

#[test]
fn standalone_drain_updates_state() {
    let (channel, state) = mock_with_urcs(vec![URCMessages::WifiConnected]);
    let mut adapter = Adapter::new(channel);
    adapter.process_urc_messages();
    let snapshot = adapter.get_join_state();
    assert!(snapshot.connected);
    assert!(!snapshot.ip_assigned);
    assert!(state.borrow().urcs.is_empty());
    // the drain consumed the queue: a second drain changes nothing more
    adapter.process_urc_messages();
    assert_eq!(adapter.get_join_state(), snapshot);
}

#[test]
fn join_error_clone_preserves_payload() {
    let error = JoinError::ModeError(atat::Error::Timeout);
    assert_eq!(error.clone(), error);
    let error = JoinError::ConfigurationStoreError(atat::Error::Aborted);
    assert_eq!(error.clone(), error);
}
