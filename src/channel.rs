//! One radio channel of the dongle: its configuration and the sequence of
//! commands that sets it up and opens it.
use vstd::prelude::*;
use crate::message::{
    self, assign_channel_msg, channel_id_msg, frequency_msg, message_view, open_channel_msg,
    period_msg, search_timeout_msg, ChannelResponseMessage, Message,
};

verus! {

/// Parameters of the device that a channel is bound to.
#[derive(Clone, Copy, Debug, PartialEq, Eq)]
pub struct Config {
    pub device_id: u16,
    pub device_type: u8,
    pub channel_type: u8,
    pub frequency: u8,
    pub period: u16,
    pub timeout: u8,
    pub transmission_type: u8,
}

impl Config {
    pub open spec fn spec_new() -> Config {
        Config {
            device_id: 0,
            device_type: 0,
            channel_type: 0x00,
            frequency: 0,
            period: 0,
            timeout: 30,
            transmission_type: 0,
        }
    }

    /// A receive channel with a search timeout of 30 and every other field zero.
    pub fn new() -> (r: Self)
        ensures
            r == Config::spec_new(),
    {
        Config {
            device_id: 0,
            device_type: 0,
            channel_type: 0x00,
            frequency: 0,
            period: 0,
            timeout: 30,
            transmission_type: 0,
        }
    }

    pub fn device_id(self, device_id: u16) -> (r: Self)
        ensures
            r == (Config { device_id, ..self }),
    {
        Config { device_id, ..self }
    }

    pub fn device_type(self, device_type: u8) -> (r: Self)
        ensures
            r == (Config { device_type, ..self }),
    {
        Config { device_type, ..self }
    }

    pub fn channel_type(self, channel_type: u8) -> (r: Self)
        ensures
            r == (Config { channel_type, ..self }),
    {
        Config { channel_type, ..self }
    }

    pub fn frequency(self, frequency: u8) -> (r: Self)
        ensures
            r == (Config { frequency, ..self }),
    {
        Config { frequency, ..self }
    }

    pub fn period(self, period: u16) -> (r: Self)
        ensures
            r == (Config { period, ..self }),
    {
        Config { period, ..self }
    }

    pub fn timeout(self, timeout: u8) -> (r: Self)
        ensures
            r == (Config { timeout, ..self }),
    {
        Config { timeout, ..self }
    }

    pub fn transmission_type(self, transmission_type: u8) -> (r: Self)
        ensures
            r == (Config { transmission_type, ..self }),
    {
        Config { transmission_type, ..self }
    }
}

/// Where a channel stands in its configuration sequence.
#[derive(Clone, Copy, Debug, PartialEq, Eq)]
pub enum State {
    Assign,
    Unassign,
    SetDeviceId,
    SetTimeout,
    SetFrequency,
    SetPeriod,
    Open,
    Closed,
    Ready,
}

/// The acknowledgement that a channel in state `s` waits for, and the state
/// it moves to on receiving it.
pub open spec fn next_step(s: State) -> Option<(u8, State)> {
    match s {
        State::Assign => Some((message::MESG_ASSIGN_CHANNEL_ID, State::SetDeviceId)),
        State::SetDeviceId => Some((message::MESG_CHANNEL_ID_ID, State::SetTimeout)),
        State::SetTimeout => Some((message::MESG_CHANNEL_SEARCH_TIMEOUT_ID, State::SetPeriod)),
        State::SetPeriod => Some((message::MESG_CHANNEL_MESG_PERIOD_ID, State::SetFrequency)),
        State::SetFrequency => Some((message::MESG_CHANNEL_RADIO_FREQ_ID, State::Open)),
        _ => None,
    }
}

/// The command that channel `number` sends on entering state `s`, for each
/// state that `next_step` leads to.
pub open spec fn entry_message(number: u8, config: Config, s: State) -> (u8, Seq<u8>) {
    match s {
        State::SetDeviceId => channel_id_msg(
            number,
            config.device_id,
            config.device_type,
            config.transmission_type,
        ),
        State::SetTimeout => search_timeout_msg(number, config.timeout),
        State::SetPeriod => period_msg(number, config.period),
        State::SetFrequency => frequency_msg(number, config.frequency),
        _ => open_channel_msg(number),
    }
}

/// What a channel is: its state, its number and its device's parameters.
pub struct ChannelView {
    pub state: State,
    pub number: u8,
    pub config: Config,
}

/// The channel after it receives an acknowledgement of message `ack`, and
/// the command it then sends, if any.
pub open spec fn route_step(c: ChannelView, ack: u8) -> (ChannelView, Option<(u8, Seq<u8>)>) {
    match next_step(c.state) {
        Some((expected, next)) => if ack == expected {
            (
                ChannelView { state: next, ..c },
                Some(entry_message(c.number, c.config, next)),
            )
        } else {
            (c, None)
        },
        None => (c, None),
    }
}

/// A channel of the dongle, bound to one device.
#[derive(Clone, Copy, Debug, PartialEq, Eq)]
pub struct Channel {
    state: State,
    number: u8,
    device: Config,
}

impl View for Channel {
    type V = ChannelView;

    closed spec fn view(&self) -> ChannelView {
        ChannelView { state: self.state, number: self.number, config: self.device }
    }
}

impl Channel {
    /// A channel that has yet to be assigned.
    pub fn new(number: u8, device: Config) -> (r: Self)
        ensures
            r@ == (ChannelView { state: State::Assign, number, config: device }),
    {
        Channel { state: State::Assign, number, device }
    }

    pub fn number(&self) -> (r: u8)
        ensures
            r == self@.number,
    {
        self.number
    }

    pub fn state(&self) -> (r: State)
        ensures
            r == self@.state,
    {
        self.state
    }

    pub fn device(&self) -> (r: Config)
        ensures
            r == self@.config,
    {
        self.device
    }

    /// Advances the configuration on the acknowledgement that the current
    /// state waits for, and returns the next command to send; ignores any
    /// other message.
    pub fn route(&mut self, mesg: &ChannelResponseMessage) -> (r: Option<Message>)
        ensures
            final(self)@ == route_step(old(self)@, mesg.0@[1]).0,
            message_view(r) == route_step(old(self)@, mesg.0@[1]).1,
    {
        let id = mesg.message_id();
        match self.state {
            State::Assign => {
                if id == message::MESG_ASSIGN_CHANNEL_ID {
                    self.state = State::SetDeviceId;
                    return Some(self.set_channel_id());
                }
                None
            },
            State::SetDeviceId => {
                if id == message::MESG_CHANNEL_ID_ID {
                    self.state = State::SetTimeout;
                    return Some(self.set_hp_search_timeout());
                }
                None
            },
            State::SetTimeout => {
                if id == message::MESG_CHANNEL_SEARCH_TIMEOUT_ID {
                    self.state = State::SetPeriod;
                    return Some(self.set_period());
                }
                None
            },
            State::SetPeriod => {
                if id == message::MESG_CHANNEL_MESG_PERIOD_ID {
                    self.state = State::SetFrequency;
                    return Some(self.set_frequency());
                }
                None
            },
            State::SetFrequency => {
                if id == message::MESG_CHANNEL_RADIO_FREQ_ID {
                    self.state = State::Open;
                    return Some(self.open());
                }
                None
            },
            _ => None,
        }
    }

    /// Assigns the channel to network `network`.
    pub fn assign(&self, network: u8) -> (r: Message)
        ensures
            r@ == assign_channel_msg(self@.number, self@.config.channel_type, network),
    {
        message::assign_channel(self.number, self.device.channel_type, network)
    }

    pub fn set_channel_id(&self) -> (r: Message)
        ensures
            r@ == entry_message(self@.number, self@.config, State::SetDeviceId),
    {
        message::set_channel_id(
            self.number,
            self.device.device_id,
            self.device.device_type,
            self.device.transmission_type,
        )
    }

    pub fn set_hp_search_timeout(&self) -> (r: Message)
        ensures
            r@ == entry_message(self@.number, self@.config, State::SetTimeout),
    {
        message::set_hp_search_timeout(self.number, self.device.timeout)
    }

    pub fn set_period(&self) -> (r: Message)
        ensures
            r@ == entry_message(self@.number, self@.config, State::SetPeriod),
    {
        message::set_channel_period(self.number, self.device.period)
    }

    pub fn set_frequency(&self) -> (r: Message)
        ensures
            r@ == entry_message(self@.number, self@.config, State::SetFrequency),
    {
        message::set_channel_frequency(self.number, self.device.frequency)
    }

    /// Opens the channel so that it starts receiving the device's data.
    pub fn open(&self) -> (r: Message)
        ensures
            r@ == open_channel_msg(self@.number),
    {
        message::open_channel(self.number)
    }
}

/// Channel lifecycle: a channel in its first state, fed the acknowledgements
/// of its configuration commands in order, moves through SetDeviceId,
/// SetTimeout, SetPeriod, SetFrequency and Open, sending at each step the
/// command for the new state, built from its number and configuration.
pub proof fn lemma_channel_lifecycle(number: u8, config: Config)
    ensures
        ({
            let c0 = ChannelView { state: State::Assign, number, config };
            let (c1, m1) = route_step(c0, message::MESG_ASSIGN_CHANNEL_ID);
            let (c2, m2) = route_step(c1, message::MESG_CHANNEL_ID_ID);
            let (c3, m3) = route_step(c2, message::MESG_CHANNEL_SEARCH_TIMEOUT_ID);
            let (c4, m4) = route_step(c3, message::MESG_CHANNEL_MESG_PERIOD_ID);
            let (c5, m5) = route_step(c4, message::MESG_CHANNEL_RADIO_FREQ_ID);
            &&& c1 == ChannelView { state: State::SetDeviceId, ..c0 }
            &&& m1 == Some(
                channel_id_msg(
                    number,
                    config.device_id,
                    config.device_type,
                    config.transmission_type,
                ),
            )
            &&& c2 == ChannelView { state: State::SetTimeout, ..c0 }
            &&& m2 == Some(search_timeout_msg(number, config.timeout))
            &&& c3 == ChannelView { state: State::SetPeriod, ..c0 }
            &&& m3 == Some(period_msg(number, config.period))
            &&& c4 == ChannelView { state: State::SetFrequency, ..c0 }
            &&& m4 == Some(frequency_msg(number, config.frequency))
            &&& c5 == ChannelView { state: State::Open, ..c0 }
            &&& m5 == Some(open_channel_msg(number))
        }),
{
}

/// A channel that is open, or in a state outside the configuration
/// sequence, ignores every acknowledgement.
pub proof fn lemma_open_channel_is_stable(c: ChannelView, ack: u8)
    requires
        next_step(c.state) is None,
    ensures
        route_step(c, ack) == (c, None::<(u8, Seq<u8>)>),
{
}

} // verus!
