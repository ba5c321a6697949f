use libant::ant::{Action, Ant, Request, Response, State};
use libant::channel::{Config, State as ChannelState};
use libant::error::{AntError, UsbError};
use libant::message::{
    close_channel, open_channel, reset, set_channel_id, set_network_key, unassign_channel,
    BroadcastDataMessage, ChannelResponseMessage, Message, Response as DeviceResponse,
    StartupMessage,
};

const KEY: [u8; 8] = [0xB9, 0xA5, 0x21, 0xFB, 0xBD, 0x72, 0xC3, 0x45];

fn startup() -> DeviceResponse {
    DeviceResponse::Startup(StartupMessage(0x00))
}

fn channel_response(channel: u8, id: u8, code: u8) -> DeviceResponse {
    DeviceResponse::ChannelResponse(ChannelResponseMessage([channel, id, code]))
}

fn running() -> Ant {
    let mut ant = Ant::init();
    assert_eq!(ant.on_timeout(), Ok(Action::Idle));
    ant.route(&startup());
    ant.route(&channel_response(0, 0x46, 0));
    assert_eq!(ant.state(), State::Running);
    ant
}

#[test]
fn bring_up_sequence() {
    let mut ant = Ant::init();
    assert_eq!(ant.state(), State::NotReady);
    // Messages before the first silence are dropped.
    assert_eq!(ant.route(&startup()), Action::Idle);
    assert_eq!(ant.state(), State::NotReady);
    assert_eq!(ant.on_timeout(), Ok(Action::Idle));
    assert_eq!(ant.state(), State::Reset);
    let action = ant.route(&startup());
    assert_eq!(action, Action::Write(set_network_key(1, &KEY).encode()));
    assert_eq!(ant.state(), State::SetNetworkKey);
    assert!(!ant.accepts_requests());
    assert_eq!(ant.route(&channel_response(0, 0x46, 0)), Action::Idle);
    assert_eq!(ant.state(), State::Running);
    assert!(ant.accepts_requests());
}

#[test]
fn network_key_error_code_keeps_waiting() {
    let mut ant = Ant::init();
    ant.on_timeout().unwrap();
    ant.route(&startup());
    assert_eq!(ant.route(&channel_response(0, 0x46, 0x15)), Action::Idle);
    assert_eq!(ant.state(), State::SetNetworkKey);
}

#[test]
fn failed_network_key_write_returns_to_reset() {
    let mut ant = Ant::init();
    ant.on_timeout().unwrap();
    ant.route(&startup());
    let e = AntError::UsbDeviceError(UsbError::Io);
    assert_eq!(ant.on_write_error(e), Ok(()));
    assert_eq!(ant.state(), State::Reset);
    let mut running = running();
    let e = AntError::UsbDeviceError(UsbError::Pipe);
    assert_eq!(running.on_write_error(e.clone()), Err(e));
    assert_eq!(running.state(), State::Running);
}

#[test]
fn unexpected_startup_forces_reset() {
    let mut ant = running();
    assert_eq!(ant.route(&startup()), Action::Idle);
    assert_eq!(ant.state(), State::Reset);
    let mut ant = Ant::init();
    ant.on_timeout().unwrap();
    ant.route(&startup());
    assert_eq!(ant.route(&startup()), Action::Idle);
    assert_eq!(ant.state(), State::Reset);
}

#[test]
fn reset_retry_exhaustion() {
    let mut ant = Ant::init();
    assert_eq!(ant.on_timeout(), Ok(Action::Idle));
    assert_eq!(ant.state(), State::Reset);
    let reset_frame = reset().encode();
    assert_eq!(ant.on_timeout(), Ok(Action::Reset(reset_frame.clone())));
    assert_eq!(ant.on_timeout(), Ok(Action::Reset(reset_frame.clone())));
    assert_eq!(ant.on_timeout(), Ok(Action::Reset(reset_frame.clone())));
    assert_eq!(ant.on_timeout(), Err(AntError::Reset));
}

#[test]
fn answered_reset_restores_retry_budget() {
    let mut ant = Ant::init();
    ant.on_timeout().unwrap();
    ant.on_timeout().unwrap();
    ant.on_timeout().unwrap();
    ant.route(&startup());
    ant.route(&startup());
    assert_eq!(ant.state(), State::Reset);
    let reset_frame = reset().encode();
    for _ in 0..3 {
        assert_eq!(ant.on_timeout(), Ok(Action::Reset(reset_frame.clone())));
    }
    assert_eq!(ant.on_timeout(), Err(AntError::Reset));
}

#[test]
fn timeouts_while_running_do_nothing() {
    let mut ant = running();
    assert_eq!(ant.on_timeout(), Ok(Action::Idle));
    assert_eq!(ant.state(), State::Running);
}

#[test]
fn already_running() {
    let mut ant = Ant::init();
    assert_eq!(ant.start(), Ok(()));
    let mut ant = running();
    assert_eq!(ant.start(), Err(AntError::AlreadyRunning));
}

#[test]
fn open_channel_sends_assign() {
    let mut ant = running();
    let config = Config::new().device_type(0x78).channel_type(0x00);
    let action = ant.handle_request(Request::OpenChannel(3, config));
    assert_eq!(action, Action::Write(Message::new(0x42, &[3, 0x00, 1]).encode()));
    let channel = ant.channel(3).unwrap();
    assert_eq!(channel.state(), ChannelState::Assign);
    assert_eq!(channel.number(), 3);
    assert_eq!(channel.device(), config);
}

#[test]
fn acknowledgement_drives_the_channel() {
    let mut ant = running();
    let config = Config::new().device_id(1000).device_type(0x78);
    ant.handle_request(Request::OpenChannel(1, config));
    let action = ant.route(&channel_response(1, 0x42, 0));
    assert_eq!(action, Action::Write(set_channel_id(1, 1000, 0x78, 0).encode()));
    assert_eq!(ant.channel(1).unwrap().state(), ChannelState::SetDeviceId);
    // An acknowledgement carrying an error leaves the channel as it was.
    assert_eq!(ant.route(&channel_response(1, 0x51, 0x15)), Action::Idle);
    assert_eq!(ant.channel(1).unwrap().state(), ChannelState::SetDeviceId);
    // So does one for an empty slot.
    assert_eq!(ant.route(&channel_response(4, 0x42, 0)), Action::Idle);
    assert!(ant.channel(4).is_none());
}

#[test]
fn open_channel_twice() {
    let mut ant = running();
    ant.handle_request(Request::OpenChannel(0, Config::new()));
    ant.route(&channel_response(0, 0x42, 0));
    let before = ant.channel(0).unwrap();
    let action = ant.handle_request(Request::OpenChannel(0, Config::new().device_id(9)));
    assert_eq!(action, Action::Emit(Response::Error(AntError::ChannelExists(0))));
    assert_eq!(ant.channel(0).unwrap(), before);
    assert_eq!(before.state(), ChannelState::SetDeviceId);
}

#[test]
fn channel_closed_recovery() {
    let mut ant = running();
    ant.handle_request(Request::OpenChannel(2, Config::new()));
    let action = ant.route(&channel_response(2, 1, 0x07));
    assert_eq!(action, Action::Write(open_channel(2).encode()));
    let action = ant.route(&channel_response(5, 1, 0x07));
    assert_eq!(action, Action::Write(unassign_channel(5).encode()));
    let action = ant.route(&channel_response(9, 1, 0x07));
    assert_eq!(action, Action::Write(unassign_channel(9).encode()));
}

#[test]
fn other_events_are_only_logged() {
    let mut ant = running();
    ant.handle_request(Request::OpenChannel(2, Config::new()));
    for code in [0x01u8, 0x02, 0x08, 0x03] {
        assert_eq!(ant.route(&channel_response(2, 1, code)), Action::Idle);
    }
    assert_eq!(ant.channel(2).unwrap().state(), ChannelState::Assign);
}

#[test]
fn close_channel_frees_the_slot() {
    let mut ant = running();
    ant.handle_request(Request::OpenChannel(6, Config::new()));
    let action = ant.handle_request(Request::CloseChannel(6));
    assert_eq!(action, Action::Write(close_channel(6).encode()));
    assert!(ant.channel(6).is_none());
    assert_eq!(ant.handle_request(Request::CloseChannel(6)), Action::Idle);
    let action = ant.handle_request(Request::OpenChannel(6, Config::new()));
    assert!(matches!(action, Action::Write(_)));
}

#[test]
fn invalid_channel_numbers() {
    let mut ant = running();
    assert_eq!(
        ant.handle_request(Request::OpenChannel(8, Config::new())),
        Action::Emit(Response::Error(AntError::InvalidChannel(8)))
    );
    assert_eq!(
        ant.handle_request(Request::CloseChannel(200)),
        Action::Emit(Response::Error(AntError::InvalidChannel(200)))
    );
}

#[test]
fn send_and_quit() {
    let mut ant = running();
    let m = Message::new(0x4D, &[0, 0x54]);
    assert_eq!(ant.handle_request(Request::Send(m.clone())), Action::Write(m.encode()));
    let long = Message::new(0x4D, &[0; 41]);
    assert_eq!(
        ant.handle_request(Request::Send(long)),
        Action::Emit(Response::Error(AntError::MessageTooLong(0x4D)))
    );
    assert_eq!(ant.handle_request(Request::Quit), Action::Shutdown(reset().encode()));
}

#[test]
fn requests_wait_for_running() {
    let mut ant = Ant::init();
    assert_eq!(ant.handle_request(Request::OpenChannel(0, Config::new())), Action::Idle);
    assert!(ant.channel(0).is_none());
}

#[test]
fn broadcast_data_and_unknown_messages() {
    let mut ant = running();
    let data = BroadcastDataMessage { channel_id: 1, data: [1, 2, 3, 4, 5, 6, 7, 8] };
    assert_eq!(
        ant.route(&DeviceResponse::BroadcastData(data)),
        Action::Emit(Response::BroadcastData(data))
    );
    assert_eq!(
        ant.route(&DeviceResponse::Unknown(0x54)),
        Action::Emit(Response::Error(AntError::UnknownMessage(0x54)))
    );
    let mut ant = Ant::init();
    assert_eq!(ant.route(&DeviceResponse::BroadcastData(data)), Action::Idle);
}
