//! The dispatcher: the dongle-wide bring-up state machine, the slots of its
//! channels, and the decisions of the run loop. Each event of the loop (a
//! message from the dongle, a read that timed out, a failed write, a request
//! of the caller) goes to one method, which updates the state and says what
//! the loop is to do next.
use vstd::prelude::*;
use crate::channel::{route_step, Channel, ChannelView, Config, State as ChannelState};
use crate::error::AntError;
use crate::message::{
    self, assign_channel_msg, close_channel_msg, code_of, encoded, network_key_msg,
    open_channel_msg, reset_msg, unassign_channel_msg, BroadcastDataMessage,
    ChannelResponseCode, ChannelResponseMessage, Message, Response as DeviceResponse,
};

verus! {

/// The network that every channel is assigned to.
pub const ANT_NETWORK: u8 = 1;
/// How many reset commands are sent while the dongle stays silent.
pub const MAX_RESET_ATTEMPTS: u8 = 3;
/// Channel slots of the dongle.
pub const NUM_CHANNELS: usize = 8;

/// The key of the network that every channel is assigned to.
pub open spec fn ant_network_key() -> Seq<u8> {
    seq![0xB9u8, 0xA5u8, 0x21u8, 0xFBu8, 0xBDu8, 0x72u8, 0xC3u8, 0x45u8]
}

/// Bring-up state of the dongle.
#[derive(Clone, Copy, Debug, PartialEq, Eq)]
pub enum State {
    NotReady,
    Reset,
    SetNetworkKey,
    Running,
}

/// What the caller asks of the run loop.
pub enum Request {
    OpenChannel(u8, Config),
    CloseChannel(u8),
    Send(Message),
    Quit,
}

/// What the run loop hands to the caller.
#[derive(Clone, Debug, PartialEq, Eq)]
pub enum Response {
    BroadcastData(BroadcastDataMessage),
    Error(AntError),
}

/// What the run loop is to do after an event.
#[derive(Clone, Debug, PartialEq, Eq)]
pub enum Action {
    /// Nothing.
    Idle,
    /// Write these bytes to the dongle.
    Write(Vec<u8>),
    /// Hand this to the caller.
    Emit(Response),
    /// Write this reset command to the dongle, then let it settle.
    Reset(Vec<u8>),
    /// Write this reset command, let the dongle settle, and end the loop.
    Shutdown(Vec<u8>),
}

pub enum ActionView {
    Idle,
    Write(Seq<u8>),
    Emit(Response),
    Reset(Seq<u8>),
    Shutdown(Seq<u8>),
}

impl View for Action {
    type V = ActionView;

    open spec fn view(&self) -> ActionView {
        match self {
            Action::Idle => ActionView::Idle,
            Action::Write(b) => ActionView::Write(b@),
            Action::Emit(r) => ActionView::Emit(*r),
            Action::Reset(b) => ActionView::Reset(b@),
            Action::Shutdown(b) => ActionView::Shutdown(b@),
        }
    }
}

/// The dispatcher's state: the dongle's bring-up state, what each of the
/// eight slots holds, and how many reset commands went unanswered.
pub struct AntView {
    pub state: State,
    pub channels: Seq<Option<ChannelView>>,
    pub reset_attempts: nat,
}

pub open spec fn slot_view(o: Option<Channel>) -> Option<ChannelView> {
    match o {
        Some(c) => Some(c@),
        None => None,
    }
}

/// Eight slots, each channel in the slot of its number, reset attempts within
/// the budget and counted only while resetting.
pub open spec fn wf_view(a: AntView) -> bool {
    &&& a.channels.len() == NUM_CHANNELS
    &&& a.reset_attempts <= MAX_RESET_ATTEMPTS
    &&& a.state != State::Reset ==> a.reset_attempts == 0
    &&& forall|i: int|
        0 <= i < NUM_CHANNELS && (#[trigger] a.channels[i]) is Some ==> a.channels[i].unwrap().number
            == i
}

/// The channel in slot `n`, if `n` is a slot and holds one.
pub open spec fn slot(a: AntView, n: u8) -> Option<ChannelView> {
    if (n as int) < NUM_CHANNELS {
        a.channels[n as int]
    } else {
        None
    }
}

/// A channel response while running. An event (message id 1) that reports a
/// closed channel reopens the channel of that slot, or unassigns the number
/// if the slot is empty; other events are only logged. An acknowledgement
/// without error goes to the channel of its slot, whose next command is sent.
pub open spec fn channel_response_step(a: AntView, c: ChannelResponseMessage) -> (
    AntView,
    ActionView,
) {
    let n = c.0@[0];
    let id = c.0@[1];
    let code = code_of(c.0@[2]);
    if id == message::MESG_EVENT_ID {
        if code == ChannelResponseCode::EventChannelClosed {
            match slot(a, n) {
                Some(_) => (a, ActionView::Write(encoded(open_channel_msg(n)))),
                None => (a, ActionView::Write(encoded(unassign_channel_msg(n)))),
            }
        } else {
            (a, ActionView::Idle)
        }
    } else if code == ChannelResponseCode::ResponseNoError {
        match slot(a, n) {
            Some(ch) => {
                let (ch2, out) = route_step(ch, id);
                (
                    AntView { channels: a.channels.update(n as int, Some(ch2)), ..a },
                    match out {
                        Some(m) => ActionView::Write(encoded(m)),
                        None => ActionView::Idle,
                    },
                )
            },
            None => (a, ActionView::Idle),
        }
    } else {
        (a, ActionView::Idle)
    }
}

/// A message from the dongle. Nothing is accepted before the dongle is known
/// to be alive; while resetting, its startup message leads to sending the
/// network key; a startup message later means that it rebooted; an
/// acknowledgement of the key puts it in service.
pub open spec fn message_step(a: AntView, r: DeviceResponse) -> (AntView, ActionView) {
    match a.state {
        State::NotReady => (a, ActionView::Idle),
        State::Reset => match r {
            DeviceResponse::Startup(_) => (
                AntView { state: State::SetNetworkKey, reset_attempts: 0, ..a },
                ActionView::Write(encoded(network_key_msg(ANT_NETWORK, ant_network_key()))),
            ),
            _ => (a, ActionView::Idle),
        },
        State::SetNetworkKey => match r {
            DeviceResponse::Startup(_) => (AntView { state: State::Reset, ..a }, ActionView::Idle),
            DeviceResponse::ChannelResponse(c) => if code_of(c.0@[2])
                == ChannelResponseCode::ResponseNoError {
                (AntView { state: State::Running, ..a }, ActionView::Idle)
            } else {
                (a, ActionView::Idle)
            },
            _ => (a, ActionView::Idle),
        },
        State::Running => match r {
            DeviceResponse::Startup(_) => (AntView { state: State::Reset, ..a }, ActionView::Idle),
            DeviceResponse::ChannelResponse(c) => channel_response_step(a, c),
            DeviceResponse::BroadcastData(b) => (
                a,
                ActionView::Emit(Response::BroadcastData(b)),
            ),
            DeviceResponse::Unknown(id) => (
                a,
                ActionView::Emit(Response::Error(AntError::UnknownMessage(id))),
            ),
        },
    }
}

/// A read that timed out. Silence ends the startup chatter and starts a
/// reset; while resetting, each silence sends another reset command until
/// the budget is spent, and then the loop fails.
pub open spec fn timeout_step(a: AntView) -> (AntView, Result<ActionView, AntError>) {
    match a.state {
        State::NotReady => (AntView { state: State::Reset, ..a }, Ok(ActionView::Idle)),
        State::Reset => if a.reset_attempts < MAX_RESET_ATTEMPTS {
            (
                AntView { reset_attempts: a.reset_attempts + 1, ..a },
                Ok(ActionView::Reset(encoded(reset_msg()))),
            )
        } else {
            (a, Err(AntError::Reset))
        },
        _ => (a, Ok(ActionView::Idle)),
    }
}

/// A request of the caller, acted on only while running.
pub open spec fn request_step(a: AntView, q: Request) -> (AntView, ActionView) {
    if a.state != State::Running {
        (a, ActionView::Idle)
    } else {
        match q {
            Request::OpenChannel(n, cfg) => if (n as int) >= NUM_CHANNELS {
                (a, ActionView::Emit(Response::Error(AntError::InvalidChannel(n))))
            } else if a.channels[n as int] is Some {
                (a, ActionView::Emit(Response::Error(AntError::ChannelExists(n))))
            } else {
                (
                    AntView {
                        channels: a.channels.update(
                            n as int,
                            Some(ChannelView { state: ChannelState::Assign, number: n, config: cfg }),
                        ),
                        ..a
                    },
                    ActionView::Write(
                        encoded(assign_channel_msg(n, cfg.channel_type, ANT_NETWORK)),
                    ),
                )
            },
            Request::CloseChannel(n) => if (n as int) >= NUM_CHANNELS {
                (a, ActionView::Emit(Response::Error(AntError::InvalidChannel(n))))
            } else if a.channels[n as int] is Some {
                (
                    AntView { channels: a.channels.update(n as int, None), ..a },
                    ActionView::Write(encoded(close_channel_msg(n))),
                )
            } else {
                (a, ActionView::Idle)
            },
            Request::Send(m) => if m.data@.len() <= message::MESG_MAX_DATA_SIZE {
                (a, ActionView::Write(encoded(m@)))
            } else {
                (a, ActionView::Emit(Response::Error(AntError::MessageTooLong(m.id))))
            },
            Request::Quit => (a, ActionView::Shutdown(encoded(reset_msg()))),
        }
    }
}

/// The id and payload of the network key command.
fn network_key_message() -> (r: Message)
    ensures
        r@ == network_key_msg(ANT_NETWORK, ant_network_key()),
{
    let key: [u8; 8] = [0xB9, 0xA5, 0x21, 0xFB, 0xBD, 0x72, 0xC3, 0x45];
    let r = message::set_network_key(ANT_NETWORK, key.as_slice());
    assert(key@ =~= ant_network_key());
    r
}

/// The dispatcher of one run loop.
pub struct Ant {
    state: State,
    channels: [Option<Channel>; 8],
    reset_attempts: u8,
}

impl View for Ant {
    type V = AntView;

    closed spec fn view(&self) -> AntView {
        AntView {
            state: self.state,
            channels: self.channels@.map_values(|o: Option<Channel>| slot_view(o)),
            reset_attempts: self.reset_attempts as nat,
        }
    }
}

impl Ant {
    pub open spec fn wf(&self) -> bool {
        wf_view(self@)
    }

    /// A dispatcher for a dongle not yet known to be alive, with no channels.
    pub fn init() -> (r: Ant)
        ensures
            r.wf(),
            r@.state == State::NotReady,
            r@.channels == Seq::new(8, |_i: int| None::<ChannelView>),
            r@.reset_attempts == 0,
    {
        let r = Ant { state: State::NotReady, channels: [None; 8], reset_attempts: 0 };
        assert(r@.channels =~= Seq::new(8, |_i: int| None::<ChannelView>));
        r
    }

    pub fn state(&self) -> (r: State)
        ensures
            r == self@.state,
    {
        self.state
    }

    /// The channel in slot `number`, if any.
    pub fn channel(&self, number: u8) -> (r: Option<Channel>)
        ensures
            slot_view(r) == slot(self@, number),
    {
        if (number as usize) < NUM_CHANNELS {
            self.channels[number as usize]
        } else {
            None
        }
    }

    /// Whether the caller's requests are taken: only while running.
    pub fn accepts_requests(&self) -> (r: bool)
        ensures
            r == (self@.state == State::Running),
    {
        match self.state {
            State::Running => true,
            _ => false,
        }
    }

    /// Starts a run loop; refused while one is running.
    pub fn start(&mut self) -> (r: Result<(), AntError>)
        requires
            old(self).wf(),
        ensures
            final(self).wf(),
            old(self)@.state == State::Running ==> r == Err::<(), AntError>(AntError::AlreadyRunning)
                && final(self)@ == old(self)@,
            old(self)@.state != State::Running ==> r == Ok::<(), AntError>(()) && final(self)@
                == old(self)@,
    {
        match self.state {
            State::Running => Err(AntError::AlreadyRunning),
            _ => Ok(()),
        }
    }

    fn set_slot(&mut self, n: usize, c: Option<Channel>)
        requires
            n < NUM_CHANNELS,
        ensures
            final(self)@ == (AntView {
                channels: old(self)@.channels.update(n as int, slot_view(c)),
                ..old(self)@
            }),
    {
        self.channels[n] = c;
        assert(self@.channels =~= old(self)@.channels.update(n as int, slot_view(c)));
    }

    fn route_channel_response(&mut self, mesg: &ChannelResponseMessage) -> (r: Action)
        requires
            old(self).wf(),
        ensures
            final(self).wf(),
            (final(self)@, r@) == channel_response_step(old(self)@, *mesg),
    {
        let n = mesg.channel();
        if mesg.message_id() == message::MESG_EVENT_ID {
            match mesg.code() {
                ChannelResponseCode::EventChannelClosed => {
                    let m = match self.channel(n) {
                        Some(c) => c.open(),
                        None => message::unassign_channel(n),
                    };
                    Action::Write(m.encode())
                },
                _ => Action::Idle,
            }
        } else {
            match mesg.code() {
                ChannelResponseCode::ResponseNoError => match self.channel(n) {
                    Some(c) => {
                        let mut c = c;
                        let out = c.route(mesg);
                        self.set_slot(n as usize, Some(c));
                        match out {
                            Some(m) => Action::Write(m.encode()),
                            None => Action::Idle,
                        }
                    },
                    None => Action::Idle,
                },
                _ => Action::Idle,
            }
        }
    }

    /// Handles a message from the dongle.
    pub fn route(&mut self, message: &DeviceResponse) -> (r: Action)
        requires
            old(self).wf(),
        ensures
            final(self).wf(),
            (final(self)@, r@) == message_step(old(self)@, *message),
    {
        match self.state {
            State::NotReady => Action::Idle,
            State::Reset => match message {
                DeviceResponse::Startup(_) => {
                    self.state = State::SetNetworkKey;
                    self.reset_attempts = 0;
                    Action::Write(network_key_message().encode())
                },
                _ => Action::Idle,
            },
            State::SetNetworkKey => match message {
                DeviceResponse::Startup(_) => {
                    self.state = State::Reset;
                    Action::Idle
                },
                DeviceResponse::ChannelResponse(mesg) => {
                    if matches!(mesg.code(), ChannelResponseCode::ResponseNoError) {
                        self.state = State::Running;
                    }
                    Action::Idle
                },
                _ => Action::Idle,
            },
            State::Running => match message {
                DeviceResponse::Startup(_) => {
                    self.state = State::Reset;
                    Action::Idle
                },
                DeviceResponse::ChannelResponse(mesg) => self.route_channel_response(mesg),
                DeviceResponse::BroadcastData(mesg) => Action::Emit(Response::BroadcastData(*mesg)),
                DeviceResponse::Unknown(id) => Action::Emit(
                    Response::Error(AntError::UnknownMessage(*id)),
                ),
            },
        }
    }

    /// Handles a read that timed out.
    pub fn on_timeout(&mut self) -> (r: Result<Action, AntError>)
        requires
            old(self).wf(),
        ensures
            final(self).wf(),
            final(self)@ == timeout_step(old(self)@).0,
            match r {
                Ok(act) => timeout_step(old(self)@).1 == Ok::<ActionView, AntError>(act@),
                Err(e) => timeout_step(old(self)@).1 == Err::<ActionView, AntError>(e),
            },
    {
        match self.state {
            State::NotReady => {
                self.state = State::Reset;
                Ok(Action::Idle)
            },
            State::Reset => {
                if self.reset_attempts < MAX_RESET_ATTEMPTS {
                    self.reset_attempts = self.reset_attempts + 1;
                    Ok(Action::Reset(message::reset().encode()))
                } else {
                    Err(AntError::Reset)
                }
            },
            _ => Ok(Action::Idle),
        }
    }

    /// Handles a write to the dongle that failed. Only the network key is
    /// sent again: the dongle goes back to resetting. Any other failure ends
    /// the loop with that error.
    pub fn on_write_error(&mut self, e: AntError) -> (r: Result<(), AntError>)
        requires
            old(self).wf(),
        ensures
            final(self).wf(),
            old(self)@.state == State::SetNetworkKey ==> r == Ok::<(), AntError>(())
                && final(self)@ == (AntView { state: State::Reset, ..old(self)@ }),
            old(self)@.state != State::SetNetworkKey ==> r == Err::<(), AntError>(e)
                && final(self)@ == old(self)@,
    {
        match self.state {
            State::SetNetworkKey => {
                self.state = State::Reset;
                Ok(())
            },
            _ => Err(e),
        }
    }

    /// Handles a request of the caller.
    pub fn handle_request(&mut self, request: Request) -> (r: Action)
        requires
            old(self).wf(),
        ensures
            final(self).wf(),
            (final(self)@, r@) == request_step(old(self)@, request),
    {
        if !self.accepts_requests() {
            return Action::Idle;
        }
        match request {
            Request::OpenChannel(number, device) => {
                if (number as usize) >= NUM_CHANNELS {
                    Action::Emit(Response::Error(AntError::InvalidChannel(number)))
                } else if self.channels[number as usize].is_some() {
                    Action::Emit(Response::Error(AntError::ChannelExists(number)))
                } else {
                    let channel = Channel::new(number, device);
                    let m = channel.assign(ANT_NETWORK).encode();
                    self.set_slot(number as usize, Some(channel));
                    Action::Write(m)
                }
            },
            Request::CloseChannel(number) => {
                if (number as usize) >= NUM_CHANNELS {
                    Action::Emit(Response::Error(AntError::InvalidChannel(number)))
                } else if self.channels[number as usize].is_some() {
                    self.set_slot(number as usize, None);
                    Action::Write(message::close_channel(number).encode())
                } else {
                    Action::Idle
                }
            },
            Request::Send(mesg) => {
                if mesg.data.len() <= message::MESG_MAX_DATA_SIZE {
                    Action::Write(mesg.encode())
                } else {
                    Action::Emit(Response::Error(AntError::MessageTooLong(mesg.id)))
                }
            },
            Request::Quit => Action::Shutdown(message::reset().encode()),
        }
    }
}

/// Bring-up: while resetting, the dongle's startup message makes the
/// dispatcher send the network key and wait for its acknowledgement; an
/// acknowledgement without error then puts the dongle in service.
pub proof fn lemma_bring_up(a: AntView, s: message::StartupMessage, ack: ChannelResponseMessage)
    requires
        wf_view(a),
        a.state == State::Reset,
        code_of(ack.0@[2]) == ChannelResponseCode::ResponseNoError,
    ensures
        message_step(a, DeviceResponse::Startup(s)).1 == ActionView::Write(
            encoded(network_key_msg(ANT_NETWORK, ant_network_key())),
        ),
        message_step(a, DeviceResponse::Startup(s)).0.state == State::SetNetworkKey,
        message_step(
            message_step(a, DeviceResponse::Startup(s)).0,
            DeviceResponse::ChannelResponse(ack),
        ).0.state == State::Running,
{
}

/// Recovery from a closed channel: a channel-closed event for a slot that
/// holds a channel sends the command that opens it again; for an empty slot
/// (or a number beyond the slots) it sends the command that unassigns the
/// number. Nothing else changes.
pub proof fn lemma_channel_closed_recovery(a: AntView, c: ChannelResponseMessage)
    requires
        wf_view(a),
        a.state == State::Running,
        c.0@[1] == message::MESG_EVENT_ID,
        code_of(c.0@[2]) == ChannelResponseCode::EventChannelClosed,
    ensures
        slot(a, c.0@[0]) is Some ==> message_step(a, DeviceResponse::ChannelResponse(c)) == (
            a,
            ActionView::Write(encoded(open_channel_msg(c.0@[0]))),
        ),
        slot(a, c.0@[0]) is None ==> message_step(a, DeviceResponse::ChannelResponse(c)) == (
            a,
            ActionView::Write(encoded(unassign_channel_msg(c.0@[0]))),
        ),
{
}

/// Opening a channel on a slot that already holds one reports that it
/// exists and changes nothing, whatever the new configuration.
pub proof fn lemma_open_channel_twice(a: AntView, n: u8, cfg: Config)
    requires
        wf_view(a),
        a.state == State::Running,
        (n as int) < NUM_CHANNELS,
        a.channels[n as int] is Some,
    ensures
        request_step(a, Request::OpenChannel(n, cfg)) == (
            a,
            ActionView::Emit(Response::Error(AntError::ChannelExists(n))),
        ),
{
}

/// Reset retries: from entering the reset state (the count of unanswered
/// resets is zero whenever the state is another, and stays so on entering),
/// three read timeouts in a row each send a reset command, and the fourth
/// ends the loop with the reset error.
pub proof fn lemma_reset_retry_exhaustion(a: AntView)
    requires
        wf_view(a),
        a.state == State::Reset,
        a.reset_attempts == 0,
    ensures
        timeout_step(a).1 == Ok::<ActionView, AntError>(ActionView::Reset(encoded(reset_msg()))),
        timeout_step(timeout_step(a).0).1 == Ok::<ActionView, AntError>(
            ActionView::Reset(encoded(reset_msg())),
        ),
        timeout_step(timeout_step(timeout_step(a).0).0).1 == Ok::<ActionView, AntError>(
            ActionView::Reset(encoded(reset_msg())),
        ),
        timeout_step(timeout_step(timeout_step(timeout_step(a).0).0).0).1 == Err::<
            ActionView,
            AntError,
        >(AntError::Reset),
{
}

} // verus!
