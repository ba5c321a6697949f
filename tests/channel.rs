use libant::channel::{Channel, Config, State};
use libant::message::{
    assign_channel, open_channel, set_channel_frequency, set_channel_id, set_channel_period,
    set_hp_search_timeout, ChannelResponseMessage,
};

fn ack(channel: u8, id: u8) -> ChannelResponseMessage {
    ChannelResponseMessage([channel, id, 0])
}

#[test]
fn new() {
    let config = Config::new();
    let channel = Channel::new(0, config);
    assert_eq!(channel.state(), State::Assign);
    assert_eq!(channel.number(), 0);
    assert_eq!(channel.device(), Config::new());
}

#[test]
fn config_builders() {
    let c = Config::new()
        .device_id(1234)
        .device_type(0x78)
        .channel_type(0x10)
        .frequency(0x39)
        .period(8070)
        .timeout(10)
        .transmission_type(5);
    assert_eq!(c.device_id, 1234);
    assert_eq!(c.device_type, 0x78);
    assert_eq!(c.channel_type, 0x10);
    assert_eq!(c.frequency, 0x39);
    assert_eq!(c.period, 8070);
    assert_eq!(c.timeout, 10);
    assert_eq!(c.transmission_type, 5);
    let d = Config::new();
    assert_eq!(d.timeout, 30);
    assert_eq!(d.channel_type, 0);
    assert_eq!(d.device_id, 0);
}

#[test]
fn channel_lifecycle() {
    let config = Config::new()
        .device_id(1000)
        .device_type(0x78)
        .frequency(0x39)
        .period(8070)
        .timeout(10)
        .transmission_type(1);
    let mut channel = Channel::new(2, config);
    assert_eq!(channel.assign(1), assign_channel(2, 0, 1));

    assert_eq!(channel.route(&ack(2, 0x42)), Some(set_channel_id(2, 1000, 0x78, 1)));
    assert_eq!(channel.state(), State::SetDeviceId);
    assert_eq!(channel.route(&ack(2, 0x51)), Some(set_hp_search_timeout(2, 10)));
    assert_eq!(channel.state(), State::SetTimeout);
    assert_eq!(channel.route(&ack(2, 0x44)), Some(set_channel_period(2, 8070)));
    assert_eq!(channel.state(), State::SetPeriod);
    assert_eq!(channel.route(&ack(2, 0x43)), Some(set_channel_frequency(2, 0x39)));
    assert_eq!(channel.state(), State::SetFrequency);
    assert_eq!(channel.route(&ack(2, 0x45)), Some(open_channel(2)));
    assert_eq!(channel.state(), State::Open);
    // The channel is open: further acknowledgements change nothing.
    assert_eq!(channel.route(&ack(2, 0x4B)), None);
    assert_eq!(channel.state(), State::Open);
}

#[test]
fn channel_ignores_unexpected_acknowledgement() {
    let mut channel = Channel::new(0, Config::new());
    assert_eq!(channel.route(&ack(0, 0x51)), None);
    assert_eq!(channel.state(), State::Assign);
    assert_eq!(channel.route(&ack(0, 0x42)), Some(set_channel_id(0, 0, 0, 0)));
    assert_eq!(channel.route(&ack(0, 0x42)), None);
    assert_eq!(channel.state(), State::SetDeviceId);
}

#[test]
fn channel_config_messages() {
    let config = Config::new().device_id(0x1234).channel_type(0x40).period(0xABCD).frequency(57);
    let channel = Channel::new(7, config);
    assert_eq!(channel.assign(1).data, vec![7, 0x40, 1]);
    assert_eq!(channel.set_channel_id().data, vec![7, 0x34, 0x12, 0, 0]);
    assert_eq!(channel.set_hp_search_timeout().data, vec![7, 30]);
    assert_eq!(channel.set_period().data, vec![7, 0xCD, 0xAB]);
    assert_eq!(channel.set_frequency().data, vec![7, 57]);
    assert_eq!(channel.open().data, vec![7]);
}
