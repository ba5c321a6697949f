//! Messages exchanged with the dongle, and the frame codec that turns them
//! into bytes and back.
use vstd::prelude::*;
use vstd::slice::slice_to_vec;

verus! {

/// Sync byte that starts every frame sent to or received from the dongle.
pub const MESG_TX_SYNC: u8 = 0xA4;
/// Sync, length and message id.
pub const MESG_HEADER_SIZE: usize = 3;
/// Largest payload that a message may carry.
pub const MESG_MAX_DATA_SIZE: usize = 40;
/// Bytes that one transport read may deliver.
pub const READ_BUFFER_SIZE: usize = 512;

pub const RESPONSE_NO_ERROR: u8 = 0x00;
/// Message id that a channel response carries when it reports an event.
pub const MESG_EVENT_ID: u8 = 0x01;
pub const MESG_RESPONSE_EVENT_ID: u8 = 0x40;
pub const MESG_UNASSIGN_CHANNEL_ID: u8 = 0x41;
pub const MESG_ASSIGN_CHANNEL_ID: u8 = 0x42;
pub const MESG_CHANNEL_MESG_PERIOD_ID: u8 = 0x43;
pub const MESG_CHANNEL_SEARCH_TIMEOUT_ID: u8 = 0x44;
pub const MESG_CHANNEL_RADIO_FREQ_ID: u8 = 0x45;
pub const MESG_NETWORK_KEY_ID: u8 = 0x46;
pub const MESG_RESET: u8 = 0x4A;
pub const MESG_OPEN_CHANNEL_ID: u8 = 0x4B;
pub const MESG_CLOSE_CHANNEL_ID: u8 = 0x4C;
pub const MESG_REQUEST: u8 = 0x4D;
pub const MESG_BROADCAST_DATA_ID: u8 = 0x4E;
pub const MESG_ACKNOWLEDGE_DATA_ID: u8 = 0x4F;
pub const MESG_CHANNEL_ID_ID: u8 = 0x51;
pub const MESG_CAPABILITIES_ID: u8 = 0x54;
pub const MESG_STARTUP_MESG_ID: u8 = 0x6F;
/// Not part of the wire protocol: a control message asking the run loop to stop.
pub const MESG_QUIT: u8 = 0xFF;

/// XOR of all bytes of `s`.
pub open spec fn xor_all(s: Seq<u8>) -> u8
    decreases s.len(),
{
    if s.len() == 0 {
        0
    } else {
        xor_all(s.drop_last()) ^ s.last()
    }
}

/// The bytes of a frame carrying message `id` with payload `data`: sync byte,
/// payload length, id, payload, and the XOR of all of these.
pub open spec fn frame_of(id: u8, data: Seq<u8>) -> Seq<u8> {
    let head = seq![MESG_TX_SYNC, data.len() as u8, id].add(data);
    head.push(xor_all(head))
}

/// The frame of a message given as its id and payload.
pub open spec fn encoded(m: (u8, Seq<u8>)) -> Seq<u8> {
    frame_of(m.0, m.1)
}

/// XOR of `buf[start..end]`.
fn checksum_range(buf: &[u8], start: usize, end: usize) -> (r: u8)
    requires
        start <= end <= buf@.len(),
    ensures
        r == xor_all(buf@.subrange(start as int, end as int)),
{
    let mut acc: u8 = 0;
    let mut i: usize = start;
    while i < end
        invariant
            start <= i <= end <= buf@.len(),
            acc == xor_all(buf@.subrange(start as int, i as int)),
        decreases end - i,
    {
        assert(buf@.subrange(start as int, i + 1).drop_last() =~= buf@.subrange(
            start as int,
            i as int,
        ));
        acc = acc ^ buf[i];
        i = i + 1;
    }
    acc
}

/// XOR checksum of a byte slice.
pub fn checksum(buf: &[u8]) -> (r: u8)
    ensures
        r == xor_all(buf@),
{
    let r = checksum_range(buf, 0, buf.len());
    assert(buf@.subrange(0, buf@.len() as int) =~= buf@);
    r
}

/// A message to send to the dongle: a message id and its payload.
#[derive(Clone, Debug, PartialEq, Eq)]
pub struct Message {
    pub id: u8,
    pub data: Vec<u8>,
}

impl View for Message {
    type V = (u8, Seq<u8>);

    open spec fn view(&self) -> (u8, Seq<u8>) {
        (self.id, self.data@)
    }
}

/// A short description of message `id`.
pub open spec fn id_name(id: u8) -> &'static str {
    if id == MESG_STARTUP_MESG_ID {
        "Startup (0x6F)"
    } else if id == MESG_CAPABILITIES_ID {
        "Capabilities (0x54)"
    } else if id == MESG_RESPONSE_EVENT_ID {
        "Response Event (0x40)"
    } else if id == MESG_BROADCAST_DATA_ID {
        "Broadcast Data (0x4E)"
    } else if id == MESG_CHANNEL_ID_ID {
        "Channel ID Request (0x51)"
    } else {
        "Unknown message"
    }
}

impl Message {
    /// A short description of the message's id.
    pub fn id_as_str(&self) -> (r: &'static str)
        ensures
            r@ == id_name(self.id)@,
    {
        match self.id {
            MESG_STARTUP_MESG_ID => "Startup (0x6F)",
            MESG_CAPABILITIES_ID => "Capabilities (0x54)",
            MESG_RESPONSE_EVENT_ID => "Response Event (0x40)",
            MESG_BROADCAST_DATA_ID => "Broadcast Data (0x4E)",
            MESG_CHANNEL_ID_ID => "Channel ID Request (0x51)",
            _ => "Unknown message",
        }
    }

    pub fn new(id: u8, data: &[u8]) -> (r: Message)
        ensures
            r@ == (id, data@),
    {
        Message { id, data: slice_to_vec(data) }
    }

    /// The frame that carries this message on the wire.
    pub fn encode(&self) -> (r: Vec<u8>)
        requires
            self.data@.len() <= MESG_MAX_DATA_SIZE,
        ensures
            r@ == frame_of(self.id, self.data@),
    {
        let n = self.data.len();
        let mut buf: Vec<u8> = Vec::new();
        buf.push(MESG_TX_SYNC);
        buf.push(n as u8);
        buf.push(self.id);
        let ghost head = seq![MESG_TX_SYNC, n as u8, self.id];
        let mut i: usize = 0;
        while i < n
            invariant
                n == self.data@.len(),
                i <= n,
                buf@ == head.add(self.data@.subrange(0, i as int)),
            decreases n - i,
        {
            buf.push(self.data[i]);
            i = i + 1;
            assert(buf@ =~= head.add(self.data@.subrange(0, i as int)));
        }
        assert(self.data@.subrange(0, n as int) =~= self.data@);
        let c = checksum(buf.as_slice());
        buf.push(c);
        buf
    }
}

/// A reset command: fifteen zero bytes.
pub open spec fn reset_msg() -> (u8, Seq<u8>) {
    (MESG_RESET, Seq::new(15, |_i: int| 0u8))
}

pub open spec fn network_key_msg(network: u8, key: Seq<u8>) -> (u8, Seq<u8>) {
    (MESG_NETWORK_KEY_ID, seq![network].add(key))
}

pub open spec fn assign_channel_msg(channel: u8, channel_type: u8, network: u8) -> (u8, Seq<u8>) {
    (MESG_ASSIGN_CHANNEL_ID, seq![channel, channel_type, network])
}

/// Low byte of a 16-bit value.
pub open spec fn lsb(v: u16) -> u8 {
    (v % 256) as u8
}

/// High byte of a 16-bit value.
pub open spec fn msb(v: u16) -> u8 {
    (v / 256) as u8
}

pub open spec fn channel_id_msg(channel: u8, device_id: u16, device_type: u8, transmission_type: u8) -> (
    u8,
    Seq<u8>,
) {
    (
        MESG_CHANNEL_ID_ID,
        seq![channel, lsb(device_id), msb(device_id), device_type, transmission_type],
    )
}

pub open spec fn search_timeout_msg(channel: u8, timeout: u8) -> (u8, Seq<u8>) {
    (MESG_CHANNEL_SEARCH_TIMEOUT_ID, seq![channel, timeout])
}

pub open spec fn period_msg(channel: u8, period: u16) -> (u8, Seq<u8>) {
    (MESG_CHANNEL_MESG_PERIOD_ID, seq![channel, lsb(period), msb(period)])
}

pub open spec fn frequency_msg(channel: u8, frequency: u8) -> (u8, Seq<u8>) {
    (MESG_CHANNEL_RADIO_FREQ_ID, seq![channel, frequency])
}

pub open spec fn open_channel_msg(channel: u8) -> (u8, Seq<u8>) {
    (MESG_OPEN_CHANNEL_ID, seq![channel])
}

pub open spec fn close_channel_msg(channel: u8) -> (u8, Seq<u8>) {
    (MESG_CLOSE_CHANNEL_ID, seq![channel])
}

pub open spec fn unassign_channel_msg(channel: u8) -> (u8, Seq<u8>) {
    (MESG_UNASSIGN_CHANNEL_ID, seq![channel])
}

/// The id and payload of a message that may be absent.
pub open spec fn message_view(m: Option<Message>) -> Option<(u8, Seq<u8>)> {
    match m {
        Some(m) => Some(m@),
        None => None,
    }
}

pub fn reset() -> (r: Message)
    ensures
        r@ == reset_msg(),
{
    let data: Vec<u8> = vec![0; 15];
    let r = Message { id: MESG_RESET, data };
    assert(r.data@ =~= Seq::new(15, |_i: int| 0u8));
    r
}

pub fn set_network_key(network_number: u8, key: &[u8]) -> (r: Message)
    ensures
        r@ == network_key_msg(network_number, key@),
{
    let mut data: Vec<u8> = vec![network_number];
    data.extend_from_slice(key);
    let r = Message { id: MESG_NETWORK_KEY_ID, data };
    assert(r.data@ =~= seq![network_number].add(key@));
    r
}

pub fn get_capabilities() -> (r: Message)
    ensures
        r@ == (MESG_REQUEST, seq![0u8, MESG_CAPABILITIES_ID]),
{
    let r = Message { id: MESG_REQUEST, data: vec![0, MESG_CAPABILITIES_ID] };
    assert(r.data@ =~= seq![0u8, MESG_CAPABILITIES_ID]);
    r
}


pub fn get_channel_id(channel: u8) -> (r: Message)
    ensures
        r@ == (MESG_REQUEST, seq![channel, MESG_CHANNEL_ID_ID]),
{
    let r = Message { id: MESG_REQUEST, data: vec![channel, MESG_CHANNEL_ID_ID] };
    assert(r.data@ =~= seq![channel, MESG_CHANNEL_ID_ID]);
    r
}

pub fn assign_channel(channel: u8, channel_type: u8, network: u8) -> (r: Message)
    ensures
        r@ == assign_channel_msg(channel, channel_type, network),
{
    let r = Message { id: MESG_ASSIGN_CHANNEL_ID, data: vec![channel, channel_type, network] };
    assert(r.data@ =~= seq![channel, channel_type, network]);
    r
}

pub fn set_channel_id(channel: u8, device_id: u16, device_type: u8, transmission_type: u8) -> (r:
    Message)
    ensures
        r@ == channel_id_msg(channel, device_id, device_type, transmission_type),
{
    let data: Vec<u8> = vec![
        channel,
        (device_id % 256) as u8,
        (device_id / 256) as u8,
        device_type,
        transmission_type,
    ];
    let r = Message { id: MESG_CHANNEL_ID_ID, data };
    assert(r.data@ =~= seq![
        channel,
        lsb(device_id),
        msb(device_id),
        device_type,
        transmission_type,
    ]);
    r
}

pub fn set_hp_search_timeout(channel: u8, timeout: u8) -> (r: Message)
    ensures
        r@ == search_timeout_msg(channel, timeout),
{
    let r = Message { id: MESG_CHANNEL_SEARCH_TIMEOUT_ID, data: vec![channel, timeout] };
    assert(r.data@ =~= seq![channel, timeout]);
    r
}

pub fn set_channel_period(channel: u8, period: u16) -> (r: Message)
    ensures
        r@ == period_msg(channel, period),
{
    let data: Vec<u8> = vec![channel, (period % 256) as u8, (period / 256) as u8];
    let r = Message { id: MESG_CHANNEL_MESG_PERIOD_ID, data };
    assert(r.data@ =~= seq![channel, lsb(period), msb(period)]);
    r
}

pub fn set_channel_frequency(channel: u8, frequency: u8) -> (r: Message)
    ensures
        r@ == frequency_msg(channel, frequency),
{
    let r = Message { id: MESG_CHANNEL_RADIO_FREQ_ID, data: vec![channel, frequency] };
    assert(r.data@ =~= seq![channel, frequency]);
    r
}

pub fn open_channel(channel: u8) -> (r: Message)
    ensures
        r@ == open_channel_msg(channel),
{
    let r = Message { id: MESG_OPEN_CHANNEL_ID, data: vec![channel] };
    assert(r.data@ =~= seq![channel]);
    r
}

pub fn close_channel(channel: u8) -> (r: Message)
    ensures
        r@ == close_channel_msg(channel),
{
    let r = Message { id: MESG_CLOSE_CHANNEL_ID, data: vec![channel] };
    assert(r.data@ =~= seq![channel]);
    r
}

pub fn unassign_channel(channel: u8) -> (r: Message)
    ensures
        r@ == unassign_channel_msg(channel),
{
    let r = Message { id: MESG_UNASSIGN_CHANNEL_ID, data: vec![channel] };
    assert(r.data@ =~= seq![channel]);
    r
}

/// Control message that asks the run loop to stop.
pub fn quit() -> (r: Message)
    ensures
        r@ == (MESG_QUIT, seq![0u8]),
{
    let r = Message { id: MESG_QUIT, data: vec![0] };
    assert(r.data@ =~= seq![0u8]);
    r
}

/// Little-endian value of one or two bytes (only the first two are read).
pub open spec fn le_u16(b: Seq<u8>) -> u16 {
    if b.len() == 1 {
        b[0] as u16
    } else {
        (b[0] + 256 * b[1]) as u16
    }
}

/// Little-endian value of one to four bytes (only the first four are read).
pub open spec fn le_u32(b: Seq<u8>) -> u32 {
    if b.len() == 1 {
        b[0] as u32
    } else if b.len() == 2 {
        (b[0] + 256 * b[1]) as u32
    } else if b.len() == 3 {
        (b[0] + 256 * b[1] + 65536 * b[2]) as u32
    } else {
        (b[0] + 256 * b[1] + 65536 * b[2] + 16777216 * b[3]) as u32
    }
}

/// Combines bytes given least significant first into a `u16`.
pub fn bytes_to_u16(b: &[u8]) -> (r: u16)
    requires
        b@.len() >= 1,
    ensures
        r == le_u16(b@),
{
    if b.len() == 1 {
        b[0] as u16
    } else {
        (b[0] as u16) + (b[1] as u16) * 256
    }
}

/// Combines bytes given least significant first into a `u32`.
pub fn bytes_to_u32(b: &[u8]) -> (r: u32)
    requires
        b@.len() >= 1,
    ensures
        r == le_u32(b@),
{
    let n = b.len();
    if n == 1 {
        b[0] as u32
    } else if n == 2 {
        (b[0] as u32) + (b[1] as u32) * 256
    } else if n == 3 {
        (b[0] as u32) + (b[1] as u32) * 256 + (b[2] as u32) * 65536
    } else {
        (b[0] as u32) + (b[1] as u32) * 256 + (b[2] as u32) * 65536 + (b[3] as u32) * 16777216
    }
}


/// Message 0x6F: the dongle finished (re)booting; the byte says why.
#[derive(Clone, Copy, Debug, PartialEq, Eq)]
pub struct StartupMessage(pub u8);

#[derive(Clone, Copy, Debug, PartialEq, Eq)]
pub enum StartupReason {
    PowerOnReset,
    HardwareResetLine,
    WatchDogReset,
    CommandReset,
    SynchronousReset,
    SuspendReset,
    Error,
}

pub open spec fn reason_of(b: u8) -> StartupReason {
    if b == 0x00 {
        StartupReason::PowerOnReset
    } else if b == 0x01 {
        StartupReason::HardwareResetLine
    } else if b == 0x02 {
        StartupReason::WatchDogReset
    } else if b == 0x20 {
        StartupReason::CommandReset
    } else if b == 0x40 {
        StartupReason::SynchronousReset
    } else if b == 0x80 {
        StartupReason::SuspendReset
    } else {
        StartupReason::Error
    }
}

impl StartupMessage {
    pub fn reason(&self) -> (r: StartupReason)
        ensures
            r == reason_of(self.0),
    {
        match self.0 {
            0x00 => StartupReason::PowerOnReset,
            0x01 => StartupReason::HardwareResetLine,
            0x02 => StartupReason::WatchDogReset,
            0x20 => StartupReason::CommandReset,
            0x40 => StartupReason::SynchronousReset,
            0x80 => StartupReason::SuspendReset,
            _ => StartupReason::Error,
        }
    }
}

/// Status carried by a channel response.
#[derive(Clone, Copy, Debug, PartialEq, Eq)]
pub enum ChannelResponseCode {
    ResponseNoError,
    EventRxSearchTimeout,
    EventRxFail,
    EventTx,
    EventTransferTxCompleted,
    EventTransferTxFailed,
    EventChannelClosed,
    EventRxFailGoToSearch,
    ChannelCollision,
    ChannelInWrongState,
    /// A status byte that this library does not know.
    Unknown(u8),
}

pub open spec fn code_of(b: u8) -> ChannelResponseCode {
    if b == 0x00 {
        ChannelResponseCode::ResponseNoError
    } else if b == 0x01 {
        ChannelResponseCode::EventRxSearchTimeout
    } else if b == 0x02 {
        ChannelResponseCode::EventRxFail
    } else if b == 0x03 {
        ChannelResponseCode::EventTx
    } else if b == 0x05 {
        ChannelResponseCode::EventTransferTxCompleted
    } else if b == 0x06 {
        ChannelResponseCode::EventTransferTxFailed
    } else if b == 0x07 {
        ChannelResponseCode::EventChannelClosed
    } else if b == 0x08 {
        ChannelResponseCode::EventRxFailGoToSearch
    } else if b == 0x09 {
        ChannelResponseCode::ChannelCollision
    } else if b == 0x15 {
        ChannelResponseCode::ChannelInWrongState
    } else {
        ChannelResponseCode::Unknown(b)
    }
}

/// Message 0x40: channel number, id of the message answered (1 for an event),
/// and a status code.
#[derive(Clone, Copy, Debug, PartialEq, Eq)]
pub struct ChannelResponseMessage(pub [u8; 3]);

impl ChannelResponseMessage {
    pub fn from(mesg: &[u8]) -> (r: Self)
        requires
            mesg@.len() == 3,
        ensures
            r.0@ == mesg@,
    {
        let a: [u8; 3] = [mesg[0], mesg[1], mesg[2]];
        assert(a@ =~= mesg@);
        ChannelResponseMessage(a)
    }

    pub fn channel(&self) -> (r: u8)
        ensures
            r == self.0@[0],
    {
        self.0[0]
    }

    pub fn message_id(&self) -> (r: u8)
        ensures
            r == self.0@[1],
    {
        self.0[1]
    }

    pub fn code(&self) -> (r: ChannelResponseCode)
        ensures
            r == code_of(self.0@[2]),
    {
        match self.0[2] {
            0x00 => ChannelResponseCode::ResponseNoError,
            0x01 => ChannelResponseCode::EventRxSearchTimeout,
            0x02 => ChannelResponseCode::EventRxFail,
            0x03 => ChannelResponseCode::EventTx,
            0x05 => ChannelResponseCode::EventTransferTxCompleted,
            0x06 => ChannelResponseCode::EventTransferTxFailed,
            0x07 => ChannelResponseCode::EventChannelClosed,
            0x08 => ChannelResponseCode::EventRxFailGoToSearch,
            0x09 => ChannelResponseCode::ChannelCollision,
            0x15 => ChannelResponseCode::ChannelInWrongState,
            b => ChannelResponseCode::Unknown(b),
        }
    }
}

/// Message 0x4E: eight bytes of sensor data received on a channel.
#[derive(Clone, Copy, Debug, PartialEq, Eq)]
pub struct BroadcastDataMessage {
    pub channel_id: u8,
    pub data: [u8; 8],
}

impl BroadcastDataMessage {
    pub fn from(mesg: &[u8]) -> (r: Self)
        requires
            mesg@.len() == 9,
        ensures
            r.channel_id == mesg@[0],
            r.data@ == mesg@.subrange(1, 9),
    {
        let data: [u8; 8] = [mesg[1], mesg[2], mesg[3], mesg[4], mesg[5], mesg[6], mesg[7], mesg[8]];
        assert(data@ =~= mesg@.subrange(1, 9));
        BroadcastDataMessage { channel_id: mesg[0], data }
    }

    pub fn channel(&self) -> (r: u8)
        ensures
            r == self.channel_id,
    {
        self.channel_id
    }

    pub fn data(self) -> (r: [u8; 8])
        ensures
            r == self.data,
    {
        self.data
    }
}

/// Message 0x4F: a channel number and eight bytes to send to the device with
/// acknowledgement.
#[derive(Clone, Copy, Debug, PartialEq, Eq)]
pub struct AcknowledgeDataMessage(pub [u8; 9]);

impl AcknowledgeDataMessage {
    pub fn new(channel_number: u8, data: &[u8]) -> (r: Self)
        requires
            data@.len() == 8,
        ensures
            r.0@ == seq![channel_number].add(data@),
    {
        let a: [u8; 9] = [
            channel_number,
            data[0],
            data[1],
            data[2],
            data[3],
            data[4],
            data[5],
            data[6],
            data[7],
        ];
        assert(a@ =~= seq![channel_number].add(data@));
        AcknowledgeDataMessage(a)
    }

    pub fn from(mesg: &[u8]) -> (r: Self)
        requires
            mesg@.len() == 9,
        ensures
            r.0@ == mesg@,
    {
        let a: [u8; 9] = [
            mesg[0],
            mesg[1],
            mesg[2],
            mesg[3],
            mesg[4],
            mesg[5],
            mesg[6],
            mesg[7],
            mesg[8],
        ];
        assert(a@ =~= mesg@);
        AcknowledgeDataMessage(a)
    }

    pub fn channel(&self) -> (r: u8)
        ensures
            r == self.0@[0],
    {
        self.0[0]
    }

    pub fn data(&self) -> (r: &[u8])
        ensures
            r@ == self.0@.subrange(1, 9),
    {
        vstd::slice::slice_subrange(self.0.as_slice(), 1, 9)
    }

    pub fn to_message(&self) -> (r: Message)
        ensures
            r@ == (MESG_ACKNOWLEDGE_DATA_ID, self.0@),
    {
        Message::new(MESG_ACKNOWLEDGE_DATA_ID, self.0.as_slice())
    }
}


/// What the dongle sends back.
#[derive(Clone, Copy, Debug, PartialEq, Eq)]
pub enum Response {
    Startup(StartupMessage),
    ChannelResponse(ChannelResponseMessage),
    BroadcastData(BroadcastDataMessage),
    /// A frame with a valid checksum whose message id is not understood, or
    /// whose payload does not have the length that its id calls for.
    Unknown(u8),
}

/// `r` is the response that message `m` (an id and its payload) stands for.
pub open spec fn response_of(m: (u8, Seq<u8>), r: Response) -> bool {
    let id = m.0;
    let d = m.1;
    if id == MESG_STARTUP_MESG_ID && d.len() >= 1 {
        r == Response::Startup(StartupMessage(d[0]))
    } else if id == MESG_RESPONSE_EVENT_ID && d.len() == 3 {
        match r {
            Response::ChannelResponse(c) => c.0@ == d,
            _ => false,
        }
    } else if id == MESG_BROADCAST_DATA_ID && d.len() == 9 {
        match r {
            Response::BroadcastData(b) => b.channel_id == d[0] && b.data@ == d.subrange(1, 9),
            _ => false,
        }
    } else {
        r == Response::Unknown(id)
    }
}

/// The response for message `id` whose payload is `buf[start..end]`.
fn response_from(id: u8, buf: &[u8], start: usize, end: usize) -> (r: Response)
    requires
        start <= end <= buf@.len(),
    ensures
        response_of((id, buf@.subrange(start as int, end as int)), r),
{
    let n = end - start;
    if id == MESG_STARTUP_MESG_ID && n >= 1 {
        Response::Startup(StartupMessage(buf[start]))
    } else if id == MESG_RESPONSE_EVENT_ID && n == 3 {
        Response::ChannelResponse(ChannelResponseMessage::from(vstd::slice::slice_subrange(buf, start, end)))
    } else if id == MESG_BROADCAST_DATA_ID && n == 9 {
        Response::BroadcastData(BroadcastDataMessage::from(vstd::slice::slice_subrange(buf, start, end)))
    } else {
        Response::Unknown(id)
    }
}

/// Turns the bytes of a frame, from its sync byte on, into a response.
pub fn process_message(buf: &[u8]) -> (r: Response)
    requires
        buf@.len() >= MESG_HEADER_SIZE,
    ensures
        response_of((buf@[2], buf@.subrange(3, buf@.len() as int)), r),
{
    response_from(buf[2], buf, 3, buf.len())
}

/// Size of the frame whose sync byte is at `i`: header, payload and checksum.
pub open spec fn frame_size(s: Seq<u8>, i: int) -> int {
    s[i + 1] as int + 4
}

/// A frame with a correct checksum starts at `i` and ends within `s`.
pub open spec fn is_frame_at(s: Seq<u8>, i: int) -> bool {
    &&& 0 <= i
    &&& i + 1 < s.len()
    &&& s[i] == MESG_TX_SYNC
    &&& i + frame_size(s, i) <= s.len()
    &&& xor_all(s.subrange(i, i + frame_size(s, i))) == 0
}

/// Id and payload of the frame at `i`.
pub open spec fn frame_message(s: Seq<u8>, i: int) -> (u8, Seq<u8>) {
    (s[i + 2], s.subrange(i + 3, i + frame_size(s, i) - 1))
}

/// The messages that decoding `s` from position `i` yields: at each position
/// either a valid frame is taken whole, or the byte is skipped.
pub open spec fn messages_from(s: Seq<u8>, i: int) -> Seq<(u8, Seq<u8>)>
    decreases s.len() - i,
{
    if i < 0 || i >= s.len() {
        seq![]
    } else if is_frame_at(s, i) {
        seq![frame_message(s, i)].add(messages_from(s, i + frame_size(s, i)))
    } else {
        messages_from(s, i + 1)
    }
}

/// Holds the bytes of one transport read and decodes them into responses.
pub struct ReadBuffer {
    index: usize,
    inner: [u8; READ_BUFFER_SIZE],
    len: usize,
}

impl ReadBuffer {
    pub closed spec fn wf(&self) -> bool {
        self.index <= self.len <= READ_BUFFER_SIZE
    }

    /// All bytes of storage.
    pub closed spec fn storage(&self) -> Seq<u8> {
        self.inner@
    }

    /// How many bytes of storage hold the last read.
    pub closed spec fn filled(&self) -> int {
        self.len as int
    }

    /// Where decoding resumes.
    pub closed spec fn cursor(&self) -> int {
        self.index as int
    }

    /// The bytes of the last read.
    pub open spec fn contents(&self) -> Seq<u8> {
        self.storage().subrange(0, self.filled())
    }

    /// The messages that are still to be decoded.
    pub open spec fn pending(&self) -> Seq<(u8, Seq<u8>)> {
        messages_from(self.contents(), self.cursor())
    }

    pub fn new() -> (r: ReadBuffer)
        ensures
            r.wf(),
            r.storage().len() == READ_BUFFER_SIZE,
            r.filled() == 0,
            r.cursor() == 0,
    {
        ReadBuffer { index: 0, inner: [0u8; READ_BUFFER_SIZE], len: 0 }
    }

    /// Says how many bytes of storage the last read filled, and restarts
    /// decoding at the first of them.
    pub fn len(&mut self, len: usize)
        requires
            len <= READ_BUFFER_SIZE,
        ensures
            final(self).wf(),
            final(self).storage() == old(self).storage(),
            final(self).filled() == len,
            final(self).cursor() == 0,
    {
        self.len = len;
        self.index = 0;
    }

    /// The storage, for a transport read to fill.
    pub fn inner_as_mut(&mut self) -> (r: &mut [u8])
        ensures
            r@ == old(self).storage(),
            final(self).storage() == final(r)@,
            final(self).filled() == old(self).filled(),
            final(self).cursor() == old(self).cursor(),
            final(self).wf() == old(self).wf(),
    {
        &mut self.inner
    }

    /// Scans for the next valid frame and moves the cursor past it; returns
    /// where it starts.
    fn find_frame(&mut self) -> (r: Option<usize>)
        requires
            old(self).wf(),
        ensures
            final(self).wf(),
            final(self).storage() == old(self).storage(),
            match r {
                Some(i) => {
                    &&& final(self).filled() == old(self).filled()
                    &&& is_frame_at(old(self).contents(), i as int)
                    &&& final(self).cursor() == i + frame_size(old(self).contents(), i as int)
                    &&& old(self).pending() == seq![frame_message(old(self).contents(), i as int)].add(
                        final(self).pending(),
                    )
                },
                None => {
                    &&& old(self).pending().len() == 0
                    &&& final(self).filled() == 0
                    &&& final(self).cursor() == 0
                },
            },
    {
        let ghost s = old(self).contents();
        loop
            invariant
                self.wf(),
                self.inner == old(self).inner,
                self.len == old(self).len,
                s == self.contents(),
                old(self).pending() == self.pending(),
            decreases self.len - self.index,
        {
            if self.index >= self.len {
                self.index = 0;
                self.len = 0;
                return None;
            }
            let i = self.index;
            if i + 1 < self.len && self.inner[i] == MESG_TX_SYNC {
                let end = i + self.inner[i + 1] as usize + 4;
                assert(s[i as int] == self.inner@[i as int]);
                assert(s[i + 1] == self.inner@[i + 1]);
                if end <= self.len {
                    let c = checksum_range(self.inner.as_slice(), i, end);
                    assert(s.subrange(i as int, end as int) =~= self.inner@.subrange(
                        i as int,
                        end as int,
                    ));
                    if c == 0 {
                        self.index = end;
                        return Some(i);
                    }
                }
            }
            self.index = i + 1;
        }
    }

    /// The next message of the buffer: its id and payload.
    pub fn next_message(&mut self) -> (r: Option<Message>)
        requires
            old(self).wf(),
        ensures
            final(self).wf(),
            final(self).storage() == old(self).storage(),
            match r {
                Some(m) => {
                    &&& old(self).pending().len() > 0
                    &&& m@ == old(self).pending()[0]
                    &&& final(self).pending() == old(self).pending().drop_first()
                },
                None => old(self).pending().len() == 0 && final(self).filled() == 0,
            },
    {
        let ghost s = old(self).contents();
        match self.find_frame() {
            Some(i) => {
                let end = self.index;
                let buf = self.inner.as_slice();
                let data = slice_to_vec(vstd::slice::slice_subrange(buf, i + 3, end - 1));
                let m = Message { id: self.inner[i + 2], data };
                assert(data@ =~= s.subrange(i + 3, end - 1));
                assert(seq![frame_message(s, i as int)].add(self.pending()).drop_first()
                    =~= self.pending());
                Some(m)
            },
            None => None,
        }
    }

    /// The next response of the buffer.
    pub fn next(&mut self) -> (r: Option<Response>)
        requires
            old(self).wf(),
        ensures
            final(self).wf(),
            final(self).storage() == old(self).storage(),
            match r {
                Some(x) => {
                    &&& old(self).pending().len() > 0
                    &&& response_of(old(self).pending()[0], x)
                    &&& final(self).pending() == old(self).pending().drop_first()
                },
                None => old(self).pending().len() == 0 && final(self).filled() == 0,
            },
    {
        let ghost s = old(self).contents();
        match self.find_frame() {
            Some(i) => {
                let end = self.index;
                let x = response_from(self.inner[i + 2], self.inner.as_slice(), i + 3, end - 1);
                assert(self.inner@.subrange(i + 3, end - 1) =~= s.subrange(i + 3, end - 1));
                assert(seq![frame_message(s, i as int)].add(self.pending()).drop_first()
                    =~= self.pending());
                Some(x)
            },
            None => None,
        }
    }
}


proof fn lemma_xor_self(x: u8)
    ensures
        x ^ x == 0,
{
    assert(x ^ x == 0) by (bit_vector);
}

/// Changing one byte of `s` by XOR with `v` changes the XOR of `s` by `v`.
proof fn lemma_xor_all_update(s: Seq<u8>, k: int, v: u8)
    requires
        0 <= k < s.len(),
    ensures
        xor_all(s.update(k, s[k] ^ v)) == xor_all(s) ^ v,
    decreases s.len(),
{
    let t = s.update(k, s[k] ^ v);
    let a = xor_all(s.drop_last());
    let l = s.last();
    if k == s.len() - 1 {
        assert(t.drop_last() =~= s.drop_last());
        assert(a ^ (l ^ v) == (a ^ l) ^ v) by (bit_vector);
    } else {
        assert(t.drop_last() =~= s.drop_last().update(k, s[k] ^ v));
        lemma_xor_all_update(s.drop_last(), k, v);
        assert((a ^ v) ^ l == (a ^ l) ^ v) by (bit_vector);
    }
}

/// Decoding the frame of a message whose payload fits the maximum yields
/// exactly that message.
pub proof fn lemma_round_trip(id: u8, data: Seq<u8>)
    requires
        data.len() <= MESG_MAX_DATA_SIZE,
    ensures
        messages_from(frame_of(id, data), 0) == seq![(id, data)],
{
    let s = frame_of(id, data);
    assert(s.subrange(0, s.len() as int) =~= s);
    lemma_frame_in_stream(s, 0, id, data);
    assert(messages_from(s, s.len() as int) == Seq::<(u8, Seq<u8>)>::empty());
    assert(seq![(id, data)].add(Seq::<(u8, Seq<u8>)>::empty()) =~= seq![(id, data)]);
}

/// `s` with bit `bit` of byte `k` inverted.
pub open spec fn flip_bit(s: Seq<u8>, k: int, bit: u8) -> Seq<u8> {
    s.update(k, s[k] ^ (1u8 << bit))
}

/// Inverting one bit of an encoded frame invalidates it: decoding does not
/// take a frame at its first byte but skips that byte and scans on. The one
/// exception is a flip that lowers the length byte, which makes the decoder
/// check a shorter range whose XOR may happen to be zero.
pub proof fn lemma_bit_flip_rejected(id: u8, data: Seq<u8>, k: int, bit: u8)
    requires
        data.len() <= MESG_MAX_DATA_SIZE,
        0 <= k < data.len() + 4,
        bit < 8,
        !(k == 1 && (data.len() as u8 ^ (1u8 << bit)) < data.len()),
    ensures
        !is_frame_at(flip_bit(frame_of(id, data), k, bit), 0),
        messages_from(flip_bit(frame_of(id, data), k, bit), 0) == messages_from(
            flip_bit(frame_of(id, data), k, bit),
            1,
        ),
{
    let head = seq![MESG_TX_SYNC, data.len() as u8, id].add(data);
    let s = frame_of(id, data);
    let t = flip_bit(s, k, bit);
    let m: u8 = 1u8 << bit;
    assert(m != 0) by (bit_vector)
        requires
            m == 1u8 << bit,
            bit < 8,
    ;
    if k == 0 {
        let x = s[0];
        assert(x ^ m != x) by (bit_vector)
            requires
                m != 0,
        ;
    } else if k == 1 {
        let n = data.len() as u8;
        assert(n ^ m != n) by (bit_vector)
            requires
                m != 0,
        ;
        assert(t[1] == n ^ m);
    } else {
        assert(s.drop_last() =~= head);
        lemma_xor_self(xor_all(head));
        lemma_xor_all_update(s, k, m);
        assert(0u8 ^ m == m) by (bit_vector);
        assert(t.subrange(0, frame_size(t, 0)) =~= t);
    }
}

/// Positions where no valid frame starts are skipped one by one.
proof fn lemma_skip_noise(s: Seq<u8>, i: int, j: int)
    requires
        0 <= i <= j <= s.len(),
        forall|k: int| i <= k < j ==> !is_frame_at(s, k),
    ensures
        messages_from(s, i) == messages_from(s, j),
    decreases j - i,
{
    if i < j {
        lemma_skip_noise(s, i + 1, j);
    }
}

/// A frame whose payload fits the maximum is taken whole wherever it stands.
proof fn lemma_frame_in_stream(s: Seq<u8>, p: int, id: u8, data: Seq<u8>)
    requires
        data.len() <= MESG_MAX_DATA_SIZE,
        0 <= p,
        p + frame_of(id, data).len() <= s.len(),
        s.subrange(p, p + frame_of(id, data).len()) == frame_of(id, data),
    ensures
        messages_from(s, p) == seq![(id, data)].add(
            messages_from(s, p + frame_of(id, data).len()),
        ),
{
    let f = frame_of(id, data);
    let head = seq![MESG_TX_SYNC, data.len() as u8, id].add(data);
    assert(f.drop_last() =~= head);
    lemma_xor_self(xor_all(head));
    assert(s[p] == f[0]);
    assert(s[p + 1] == f[1]);
    assert(s[p + 2] == f[2]);
    assert(frame_size(s, p) == f.len());
    assert(is_frame_at(s, p));
    assert(s.subrange(p + 3, p + frame_size(s, p) - 1) =~= f.subrange(3, f.len() - 1));
    assert(f.subrange(3, f.len() - 1) =~= data);
}

/// Resynchronization: a valid frame, then noise in which no valid frame
/// starts, then another valid frame decode to exactly the two messages, in
/// order.
pub proof fn lemma_resync(id1: u8, data1: Seq<u8>, noise: Seq<u8>, id2: u8, data2: Seq<u8>)
    requires
        data1.len() <= MESG_MAX_DATA_SIZE,
        data2.len() <= MESG_MAX_DATA_SIZE,
        forall|k: int|
            frame_of(id1, data1).len() <= k < frame_of(id1, data1).len() + noise.len()
                ==> !is_frame_at(frame_of(id1, data1).add(noise).add(frame_of(id2, data2)), k),
    ensures
        messages_from(frame_of(id1, data1).add(noise).add(frame_of(id2, data2)), 0) == seq![
            (id1, data1),
            (id2, data2),
        ],
{
    let f1 = frame_of(id1, data1);
    let f2 = frame_of(id2, data2);
    let s = f1.add(noise).add(f2);
    let a = f1.len() as int;
    let b = a + noise.len();
    assert(s.subrange(0, a) =~= f1);
    lemma_frame_in_stream(s, 0, id1, data1);
    lemma_skip_noise(s, a, b);
    assert(s.subrange(b, b + f2.len()) =~= f2);
    lemma_frame_in_stream(s, b, id2, data2);
    assert(messages_from(s, b + f2.len()) == Seq::<(u8, Seq<u8>)>::empty());
    assert(seq![(id1, data1)].add(seq![(id2, data2)].add(Seq::<(u8, Seq<u8>)>::empty())) =~= seq![
        (id1, data1),
        (id2, data2),
    ]);
}

} // verus!
