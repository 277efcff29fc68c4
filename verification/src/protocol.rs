//! Wire codec for the Channel Access UDP message headers.
//!
//! Every CA message starts with a fixed 16-byte header of big-endian
//! fields; messages whose payload does not fit the 16-bit size field use a
//! 24-byte extended header instead.  The encoders and decoders here are
//! exact inverses of one another, which is stated by the round-trip lemmas
//! at the end of the module.

use vstd::prelude::*;

verus! {

/// Size in bytes of the standard message header.
pub const HEADER_SIZE: usize = 16;

/// Size in bytes of the extended message header.
pub const EXTENDED_HEADER_SIZE: usize = 24;

/// Marker value in the payload-size slot of an extended header.
pub const EXTENDED_PAYLOAD_MARKER: u16 = 0xFFFF;

/// What can go wrong when reading a header from raw bytes.
#[derive(Clone, Copy, Debug, PartialEq, Eq, Structural)]
pub enum Error {
    /// The buffer does not have the exact length the header needs.
    BufferError,
    /// The bytes are the right length but are not a well-formed header,
    /// or a 16-bit value is not a known command identifier.
    ParseError,
}

/// Big-endian bytes of a 16-bit value, most significant first.
pub open spec fn spec_u16_be(x: u16) -> Seq<u8> {
    seq![(x / 0x100) as u8, (x % 0x100) as u8]
}

/// Big-endian bytes of a 32-bit value, most significant first.
pub open spec fn spec_u32_be(x: u32) -> Seq<u8> {
    seq![
        (x / 0x100_0000) as u8,
        ((x / 0x1_0000) % 0x100) as u8,
        ((x / 0x100) % 0x100) as u8,
        (x % 0x100) as u8,
    ]
}

/// The 16-bit value whose big-endian bytes are `hi`, `lo`.
pub open spec fn spec_u16_from_be(hi: u8, lo: u8) -> u16 {
    (hi * 0x100 + lo) as u16
}

/// The 32-bit value whose big-endian bytes are `b0` .. `b3`.
pub open spec fn spec_u32_from_be(b0: u8, b1: u8, b2: u8, b3: u8) -> u32 {
    (b0 * 0x100_0000 + b1 * 0x1_0000 + b2 * 0x100 + b3) as u32
}

pub proof fn lemma_u16_be_of_from(hi: u8, lo: u8)
    ensures
        spec_u16_be(spec_u16_from_be(hi, lo)) == seq![hi, lo],
{
    let x = spec_u16_from_be(hi, lo);
    assert(x == hi * 0x100 + lo);
    assert(x / 0x100 == hi && x % 0x100 == lo) by (nonlinear_arith)
        requires
            x == hi * 0x100 + lo,
            lo < 0x100,
    ;
    assert(spec_u16_be(x) =~= seq![hi, lo]);
}

pub proof fn lemma_u16_from_of_be(x: u16)
    ensures
        spec_u16_from_be(spec_u16_be(x)[0], spec_u16_be(x)[1]) == x,
{
    assert((x / 0x100) * 0x100 + x % 0x100 == x) by (nonlinear_arith);
}

pub proof fn lemma_u32_be_of_from(b0: u8, b1: u8, b2: u8, b3: u8)
    ensures
        spec_u32_be(spec_u32_from_be(b0, b1, b2, b3)) == seq![b0, b1, b2, b3],
{
    let x = spec_u32_from_be(b0, b1, b2, b3);
    assert(x == b0 * 0x100_0000 + b1 * 0x1_0000 + b2 * 0x100 + b3);
    assert(x / 0x100_0000 == b0 && (x / 0x1_0000) % 0x100 == b1 && (x / 0x100) % 0x100 == b2
        && x % 0x100 == b3) by (nonlinear_arith)
        requires
            x == b0 * 0x100_0000 + b1 * 0x1_0000 + b2 * 0x100 + b3,
            b1 < 0x100,
            b2 < 0x100,
            b3 < 0x100,
    ;
    assert(spec_u32_be(x) =~= seq![b0, b1, b2, b3]);
}

pub proof fn lemma_u32_from_of_be(x: u32)
    ensures
        spec_u32_from_be(
            spec_u32_be(x)[0],
            spec_u32_be(x)[1],
            spec_u32_be(x)[2],
            spec_u32_be(x)[3],
        ) == x,
{
    assert((x / 0x100_0000) * 0x100_0000 + ((x / 0x1_0000) % 0x100) * 0x1_0000 + ((x / 0x100)
        % 0x100) * 0x100 + x % 0x100 == x) by (nonlinear_arith);
}

/// Closed enumeration of the CA protocol commands.  Only the UDP subset
/// (beacon, register, confirm) is acted on by the repeater; the rest is
/// kept representable so that any header can round-trip through the codec.
#[allow(non_camel_case_types)]
#[derive(Clone, Copy, Debug, PartialEq, Eq, Structural)]
pub enum Command {
    /// UDP/TCP (0x00) Exchanges client and server protocol versions and
    /// desired circuit priority.  Must be the first message on a new
    /// virtual circuit, and starts UDP search messages.
    CA_PROTO_VERSION,
    /// UDP/TCP (0x06) Searches for a given channel name.
    CA_PROTO_SEARCH,
    /// UDP (0x0E) Reports that a channel with the requested name does not
    /// exist; sent in response to a search with the DO_REPLY flag set.
    CA_PROTO_NOT_FOUND,
    /// UDP (0x0D) Beacon sent by a server when it becomes available and
    /// periodically afterwards to announce that it is still alive.
    CA_PROTO_RSRV_IS_UP,
    /// UDP (0x11) Confirms successful client registration with the
    /// repeater.
    CA_REPEATER_CONFIRM,
    /// UDP (0x18) Requests registration with the repeater, answered with
    /// CA_REPEATER_CONFIRM.
    CA_REPEATER_REGISTER,
    /// TCP (0x01) Creates a subscription on a channel.
    CA_PROTO_EVENT_ADD,
    /// TCP (0x02) Clears an event subscription.
    CA_PROTO_EVENT_CANCEL,
    /// TCP (0x03) Reads the value of a channel; deprecated.
    CA_PROTO_READ,
    /// TCP (0x04) Writes a new channel value.
    CA_PROTO_WRITE,
    /// TCP (0x05) Obsolete.
    CA_PROTO_SNAPSHOT,
    /// TCP (0x07) Obsolete.
    CA_PROTO_BUILD,
    /// TCP (0x08) Disables subscription updates on this circuit.
    CA_PROTO_EVENTS_OFF,
    /// TCP (0x09) Re-enables subscription updates on this circuit.
    CA_PROTO_EVENTS_ON,
    /// TCP (0x0A) Deprecated.
    CA_PROTO_READ_SYNC,
    /// TCP (0x0C) Clears a channel and releases its server resources.
    CA_PROTO_CLEAR_CHANNEL,
    /// TCP (0x0F) Reads the value of a channel.
    CA_PROTO_READ_NOTIFY,
    /// TCP (0x10) Obsolete.
    CA_PROTO_READ_BUILD,
    /// TCP (0x12) Requests creation of a channel.
    CA_PROTO_CREATE_CHAN,
    /// TCP (0x13) Writes a new channel value with notification.
    CA_PROTO_WRITE_NOTIFY,
    /// TCP (0x14) Sends the local user name to the circuit peer.
    CA_PROTO_CLIENT_NAME,
    /// TCP (0x15) Sends the local host name to the circuit peer.
    CA_PROTO_HOST_NAME,
    /// TCP (0x16) Notifies of access rights for a channel.
    CA_PROTO_ACCESS_RIGHTS,
    /// TCP (0x17) Connection verify used by CA_V43.
    CA_PROTO_ECHO,
    /// TCP (0x19) Obsolete.
    CA_PROTO_SIGNAL,
    /// TCP (0x1A) Reports that channel creation failed.
    CA_PROTO_CREATE_CH_FAIL,
    /// TCP (0x1B) Notifies the client that the server has disconnected the
    /// channel.
    CA_PROTO_SERVER_DISCONN,
}

/// Whether a 16-bit value is the identifier of some protocol command:
/// the identifiers are 0x00 through 0x1B with the single gap 0x0B.
pub open spec fn spec_valid_command_id(value: u16) -> bool {
    value <= 0x1B && value != 0x0B
}

impl Command {
    /// The fixed 16-bit identifier of this command.
    pub open spec fn spec_id(self) -> u16 {
        match self {
            Command::CA_PROTO_VERSION => 0x00,
            Command::CA_PROTO_SEARCH => 0x06,
            Command::CA_PROTO_NOT_FOUND => 0x0E,
            Command::CA_PROTO_RSRV_IS_UP => 0x0D,
            Command::CA_REPEATER_CONFIRM => 0x11,
            Command::CA_REPEATER_REGISTER => 0x18,
            Command::CA_PROTO_EVENT_ADD => 0x01,
            Command::CA_PROTO_EVENT_CANCEL => 0x02,
            Command::CA_PROTO_READ => 0x03,
            Command::CA_PROTO_WRITE => 0x04,
            Command::CA_PROTO_SNAPSHOT => 0x05,
            Command::CA_PROTO_BUILD => 0x07,
            Command::CA_PROTO_EVENTS_OFF => 0x08,
            Command::CA_PROTO_EVENTS_ON => 0x09,
            Command::CA_PROTO_READ_SYNC => 0x0A,
            Command::CA_PROTO_CLEAR_CHANNEL => 0x0C,
            Command::CA_PROTO_READ_NOTIFY => 0x0F,
            Command::CA_PROTO_READ_BUILD => 0x10,
            Command::CA_PROTO_CREATE_CHAN => 0x12,
            Command::CA_PROTO_WRITE_NOTIFY => 0x13,
            Command::CA_PROTO_CLIENT_NAME => 0x14,
            Command::CA_PROTO_HOST_NAME => 0x15,
            Command::CA_PROTO_ACCESS_RIGHTS => 0x16,
            Command::CA_PROTO_ECHO => 0x17,
            Command::CA_PROTO_SIGNAL => 0x19,
            Command::CA_PROTO_CREATE_CH_FAIL => 0x1A,
            Command::CA_PROTO_SERVER_DISCONN => 0x1B,
        }
    }

    /// Returns the identifier value of this command variant.
    pub fn to_u16(self) -> (r: u16)
        ensures
            r == self.spec_id(),
    {
        match self {
            Command::CA_PROTO_VERSION => 0x00,
            Command::CA_PROTO_SEARCH => 0x06,
            Command::CA_PROTO_NOT_FOUND => 0x0E,
            Command::CA_PROTO_RSRV_IS_UP => 0x0D,
            Command::CA_REPEATER_CONFIRM => 0x11,
            Command::CA_REPEATER_REGISTER => 0x18,
            Command::CA_PROTO_EVENT_ADD => 0x01,
            Command::CA_PROTO_EVENT_CANCEL => 0x02,
            Command::CA_PROTO_READ => 0x03,
            Command::CA_PROTO_WRITE => 0x04,
            Command::CA_PROTO_SNAPSHOT => 0x05,
            Command::CA_PROTO_BUILD => 0x07,
            Command::CA_PROTO_EVENTS_OFF => 0x08,
            Command::CA_PROTO_EVENTS_ON => 0x09,
            Command::CA_PROTO_READ_SYNC => 0x0A,
            Command::CA_PROTO_CLEAR_CHANNEL => 0x0C,
            Command::CA_PROTO_READ_NOTIFY => 0x0F,
            Command::CA_PROTO_READ_BUILD => 0x10,
            Command::CA_PROTO_CREATE_CHAN => 0x12,
            Command::CA_PROTO_WRITE_NOTIFY => 0x13,
            Command::CA_PROTO_CLIENT_NAME => 0x14,
            Command::CA_PROTO_HOST_NAME => 0x15,
            Command::CA_PROTO_ACCESS_RIGHTS => 0x16,
            Command::CA_PROTO_ECHO => 0x17,
            Command::CA_PROTO_SIGNAL => 0x19,
            Command::CA_PROTO_CREATE_CH_FAIL => 0x1A,
            Command::CA_PROTO_SERVER_DISCONN => 0x1B,
        }
    }

    /// Promotes a raw 16-bit value to the command it identifies.  Exactly
    /// the known identifiers succeed; everything else is a `ParseError`,
    /// so arbitrary values never become variants.
    pub fn try_from_u16(value: u16) -> (r: Result<Command, Error>)
        ensures
            spec_valid_command_id(value) ==> (r matches Ok(c) && c.spec_id() == value),
            !spec_valid_command_id(value) ==> r == Err::<Command, Error>(Error::ParseError),
    {
        match value {
            0x00 => Ok(Command::CA_PROTO_VERSION),
            0x06 => Ok(Command::CA_PROTO_SEARCH),
            0x0E => Ok(Command::CA_PROTO_NOT_FOUND),
            0x0D => Ok(Command::CA_PROTO_RSRV_IS_UP),
            0x11 => Ok(Command::CA_REPEATER_CONFIRM),
            0x18 => Ok(Command::CA_REPEATER_REGISTER),
            0x01 => Ok(Command::CA_PROTO_EVENT_ADD),
            0x02 => Ok(Command::CA_PROTO_EVENT_CANCEL),
            0x03 => Ok(Command::CA_PROTO_READ),
            0x04 => Ok(Command::CA_PROTO_WRITE),
            0x05 => Ok(Command::CA_PROTO_SNAPSHOT),
            0x07 => Ok(Command::CA_PROTO_BUILD),
            0x08 => Ok(Command::CA_PROTO_EVENTS_OFF),
            0x09 => Ok(Command::CA_PROTO_EVENTS_ON),
            0x0A => Ok(Command::CA_PROTO_READ_SYNC),
            0x0C => Ok(Command::CA_PROTO_CLEAR_CHANNEL),
            0x0F => Ok(Command::CA_PROTO_READ_NOTIFY),
            0x10 => Ok(Command::CA_PROTO_READ_BUILD),
            0x12 => Ok(Command::CA_PROTO_CREATE_CHAN),
            0x13 => Ok(Command::CA_PROTO_WRITE_NOTIFY),
            0x14 => Ok(Command::CA_PROTO_CLIENT_NAME),
            0x15 => Ok(Command::CA_PROTO_HOST_NAME),
            0x16 => Ok(Command::CA_PROTO_ACCESS_RIGHTS),
            0x17 => Ok(Command::CA_PROTO_ECHO),
            0x19 => Ok(Command::CA_PROTO_SIGNAL),
            0x1A => Ok(Command::CA_PROTO_CREATE_CH_FAIL),
            0x1B => Ok(Command::CA_PROTO_SERVER_DISCONN),
            _ => Err(Error::ParseError),
        }
    }
}

/// Every command's identifier is a known identifier, so promoting it back
/// through `try_from_u16` cannot fail.
pub proof fn lemma_command_id_known(c: Command)
    ensures
        spec_valid_command_id(c.spec_id()),
{
}

/// No two commands share an identifier; together with the contract of
/// `try_from_u16` this makes the identifier mapping a bijection between
/// the variants and the known identifier values.
pub proof fn lemma_command_id_injective(a: Command, b: Command)
    requires
        a.spec_id() == b.spec_id(),
    ensures
        a == b,
{
}

/// Identifier of the data type carried in a message payload.  The
/// repeater never inspects payloads; the mapping is kept for forward
/// compatibility with the full command set.
#[allow(non_camel_case_types)]
#[derive(Clone, Copy, Debug, PartialEq, Eq, Structural)]
pub enum DataType {
    /// (0x07) DBR_STS structure for string type.
    DBR_STS_STRING,
    /// (0x08) DBR_STS structure for UINT16 type.
    DBR_STS_SHORT,
    /// (0x09) DBR_STS structure for FLOAT type.
    DBR_STS_FLOAT,
    /// (0x0A) DBR_STS structure for ENUM type.
    DBR_STS_ENUM,
    /// (0x0B) DBR_STS structure for CHAR type.
    DBR_STS_CHAR,
    /// (0x0C) DBR_STS structure for LONG type.
    DBR_STS_LONG,
    /// (0x0D) DBR_STS structure for DOUBLE type.
    DBR_STS_DOUBLE,
    /// (0x0E) DBR_TIME structure for string type.
    DBR_TIME_STRING,
    /// (0x0F) DBR_TIME structure for UINT16 type.
    DBR_TIME_SHORT,
    /// (0x10) DBR_TIME structure for FLOAT type.
    DBR_TIME_FLOAT,
    /// (0x11) DBR_TIME structure for ENUM type.
    DBR_TIME_ENUM,
    /// (0x12) DBR_TIME structure for CHAR type.
    DBR_TIME_CHAR,
    /// (0x13) DBR_TIME structure for LONG type.
    DBR_TIME_LONG,
    /// (0x14) DBR_TIME structure for DOUBLE type.
    DBR_TIME_DOUBLE,
    /// (0x15) DBR_GR structure for string type.
    DBR_GR_STRING,
    /// (0x16) DBR_GR structure for short type.
    DBR_GR_SHORT,
    /// (0x16) DBR_GR structure for int type.
    DBR_GR_INT,
    /// (0x17) DBR_GR structure for float type.
    DBR_GR_FLOAT,
    /// (0x18) DBR_GR structure for ENUM type.
    DBR_GR_ENUM,
    /// (0x19) DBR_GR structure for char type.
    DBR_GR_CHAR,
    /// (0x1A) DBR_GR structure for long type.
    DBR_GR_LONG,
    /// (0x1B) DBR_GR structure for double type.
    DBR_GR_DOUBLE,
    /// (0x1C) DBR_CTRL structure for string type.
    DBR_CTRL_STRING,
    /// (0x1D) DBR_CTRL structure for short type.
    DBR_CTRL_SHORT,
    /// (0x1D) DBR_CTRL structure for INT16 type.
    DBR_CTRL_INT,
    /// (0x1E) DBR_CTRL structure for float type.
    DBR_CTRL_FLOAT,
    /// (0x1F) DBR_CTRL structure for ENUM type.
    DBR_CTRL_ENUM,
    /// (0x20) DBR_CTRL structure for char type.
    DBR_CTRL_CHAR,
    /// (0x21) DBR_CTRL structure for INT32 type.
    DBR_CTRL_LONG,
    /// (0x22) DBR_CTRL structure for DOUBLE type.
    DBR_CTRL_DOUBLE,
}

/// The 16-byte standard frame that starts every CA message.  All
/// multi-byte fields travel in network byte order.
#[derive(Clone, Copy, Debug, PartialEq, Eq, Structural)]
pub struct MessageHeader {
    /// Identifier of the command this message requests.  The meaning of
    /// the other fields and of the payload depends on the command.
    pub command: u16,
    /// Size of the payload in bytes.  Must not exceed 0x4000; the value
    /// 0xFFFF marks an extended message.
    pub payload_size: u16,
    /// Identifier of the data type carried in the payload.
    pub data_type: u16,
    /// Number of elements in the payload.
    pub data_count: u16,
    /// Command-dependent parameter.
    pub parameter_1: u32,
    /// Command-dependent parameter.
    pub parameter_2: u32,
}

/// The exact 16-byte encoding of a standard header.
pub open spec fn spec_encode_header(h: MessageHeader) -> Seq<u8> {
    spec_u16_be(h.command) + spec_u16_be(h.payload_size) + spec_u16_be(h.data_type) + spec_u16_be(
        h.data_count,
    ) + spec_u32_be(h.parameter_1) + spec_u32_be(h.parameter_2)
}

/// The header read from the first 16 bytes of `b`.
pub open spec fn spec_decode_header(b: Seq<u8>) -> MessageHeader
    recommends
        b.len() == HEADER_SIZE,
{
    MessageHeader {
        command: spec_u16_from_be(b[0], b[1]),
        payload_size: spec_u16_from_be(b[2], b[3]),
        data_type: spec_u16_from_be(b[4], b[5]),
        data_count: spec_u16_from_be(b[6], b[7]),
        parameter_1: spec_u32_from_be(b[8], b[9], b[10], b[11]),
        parameter_2: spec_u32_from_be(b[12], b[13], b[14], b[15]),
    }
}

impl MessageHeader {
    /// Reads a standard header out of an exactly 16-byte buffer; any other
    /// length is a `BufferError`.  No validation of the command field
    /// happens here: unknown commands stay representable as raw 16-bit
    /// values and are rejected downstream.
    pub fn from_bytes(buf: &[u8]) -> (r: Result<MessageHeader, Error>)
        ensures
            buf@.len() == HEADER_SIZE ==> r == Ok::<MessageHeader, Error>(
                spec_decode_header(buf@),
            ),
            buf@.len() != HEADER_SIZE ==> r == Err::<MessageHeader, Error>(Error::BufferError),
    {
        if buf.len() != HEADER_SIZE {
            return Err(Error::BufferError);
        }
        Ok(
            MessageHeader {
                command: u16_from_be_pair(buf[0], buf[1]),
                payload_size: u16_from_be_pair(buf[2], buf[3]),
                data_type: u16_from_be_pair(buf[4], buf[5]),
                data_count: u16_from_be_pair(buf[6], buf[7]),
                parameter_1: u32_from_be_quad(buf[8], buf[9], buf[10], buf[11]),
                parameter_2: u32_from_be_quad(buf[12], buf[13], buf[14], buf[15]),
            },
        )
    }

    /// Produces the exact 16 big-endian octets of this header.
    pub fn as_bytes(&self) -> (r: Vec<u8>)
        ensures
            r@ == spec_encode_header(*self),
            r@.len() == HEADER_SIZE,
    {
        let mut buf: Vec<u8> = Vec::with_capacity(HEADER_SIZE);
        push_u16_be(&mut buf, self.command);
        push_u16_be(&mut buf, self.payload_size);
        push_u16_be(&mut buf, self.data_type);
        push_u16_be(&mut buf, self.data_count);
        push_u32_be(&mut buf, self.parameter_1);
        push_u32_be(&mut buf, self.parameter_2);
        proof {
            assert(buf@ =~= spec_encode_header(*self));
        }
        buf
    }
}

fn u16_from_be_pair(hi: u8, lo: u8) -> (r: u16)
    ensures
        r == spec_u16_from_be(hi, lo),
{
    (hi as u16) * 0x100 + (lo as u16)
}

fn u32_from_be_quad(b0: u8, b1: u8, b2: u8, b3: u8) -> (r: u32)
    ensures
        r == spec_u32_from_be(b0, b1, b2, b3),
{
    (b0 as u32) * 0x100_0000 + (b1 as u32) * 0x1_0000 + (b2 as u32) * 0x100 + (b3 as u32)
}

fn push_u16_be(buf: &mut Vec<u8>, x: u16)
    ensures
        final(buf)@ == old(buf)@ + spec_u16_be(x),
{
    buf.push((x / 0x100) as u8);
    buf.push((x % 0x100) as u8);
    proof {
        assert(buf@ =~= old(buf)@ + spec_u16_be(x));
    }
}

fn push_u32_be(buf: &mut Vec<u8>, x: u32)
    ensures
        final(buf)@ == old(buf)@ + spec_u32_be(x),
{
    buf.push((x / 0x100_0000) as u8);
    buf.push(((x / 0x1_0000) % 0x100) as u8);
    buf.push(((x / 0x100) % 0x100) as u8);
    buf.push((x % 0x100) as u8);
    proof {
        assert(buf@ =~= old(buf)@ + spec_u32_be(x));
    }
}

/// Decoding the encoding of any header gives the header back, field for
/// field.
pub proof fn lemma_header_decode_encode(h: MessageHeader)
    ensures
        spec_decode_header(spec_encode_header(h)) == h,
{
    lemma_u16_from_of_be(h.command);
    lemma_u16_from_of_be(h.payload_size);
    lemma_u16_from_of_be(h.data_type);
    lemma_u16_from_of_be(h.data_count);
    lemma_u32_from_of_be(h.parameter_1);
    lemma_u32_from_of_be(h.parameter_2);
}

/// Re-encoding the header decoded from any 16-byte buffer reproduces that
/// buffer bit for bit.
pub proof fn lemma_header_encode_decode(b: Seq<u8>)
    requires
        b.len() == HEADER_SIZE,
    ensures
        spec_encode_header(spec_decode_header(b)) == b,
{
    lemma_u16_be_of_from(b[0], b[1]);
    lemma_u16_be_of_from(b[2], b[3]);
    lemma_u16_be_of_from(b[4], b[5]);
    lemma_u16_be_of_from(b[6], b[7]);
    lemma_u32_be_of_from(b[8], b[9], b[10], b[11]);
    lemma_u32_be_of_from(b[12], b[13], b[14], b[15]);
    assert(spec_encode_header(spec_decode_header(b)) =~= b);
}

/// The 24-byte extended frame, used when a payload is too large for the
/// 16-bit size field of the standard header.  On the wire the slots that
/// the standard header uses for payload size and element count hold the
/// fixed markers 0xFFFF and 0x0000, and the true 32-bit values follow the
/// parameters.
#[derive(Clone, Copy, Debug, PartialEq, Eq, Structural)]
pub struct ExtendedMessageHeader {
    /// Identifier of the command this message requests.
    pub command: u16,
    /// Identifier of the data type carried in the payload.
    pub data_type: u16,
    /// Command-dependent parameter.
    pub parameter_1: u32,
    /// Command-dependent parameter.
    pub parameter_2: u32,
    /// Size of the payload in bytes.
    pub payload_size: u32,
    /// Number of elements in the payload.
    pub data_count: u32,
}

/// The exact 24-byte encoding of an extended header, markers included.
pub open spec fn spec_encode_extended_header(h: ExtendedMessageHeader) -> Seq<u8> {
    spec_u16_be(h.command) + spec_u16_be(0xFFFF) + spec_u16_be(h.data_type) + spec_u16_be(0x0000)
        + spec_u32_be(h.parameter_1) + spec_u32_be(h.parameter_2) + spec_u32_be(h.payload_size)
        + spec_u32_be(h.data_count)
}

/// The extended header read from a 24-byte buffer, markers ignored.
pub open spec fn spec_decode_extended_header(b: Seq<u8>) -> ExtendedMessageHeader
    recommends
        b.len() == EXTENDED_HEADER_SIZE,
{
    ExtendedMessageHeader {
        command: spec_u16_from_be(b[0], b[1]),
        data_type: spec_u16_from_be(b[4], b[5]),
        parameter_1: spec_u32_from_be(b[8], b[9], b[10], b[11]),
        parameter_2: spec_u32_from_be(b[12], b[13], b[14], b[15]),
        payload_size: spec_u32_from_be(b[16], b[17], b[18], b[19]),
        data_count: spec_u32_from_be(b[20], b[21], b[22], b[23]),
    }
}

/// Whether a 24-byte buffer carries the two fixed extended-frame markers.
pub open spec fn spec_extended_markers_ok(b: Seq<u8>) -> bool
    recommends
        b.len() == EXTENDED_HEADER_SIZE,
{
    b[2] == 0xFF && b[3] == 0xFF && b[6] == 0x00 && b[7] == 0x00
}

impl ExtendedMessageHeader {
    /// Reads an extended header out of an exactly 24-byte buffer.  Any
    /// other length is a `BufferError`; a 24-byte buffer whose marker
    /// slots do not hold 0xFFFF and 0x0000 is a `ParseError`.
    pub fn from_bytes(buf: &[u8]) -> (r: Result<ExtendedMessageHeader, Error>)
        ensures
            buf@.len() == EXTENDED_HEADER_SIZE && spec_extended_markers_ok(buf@) ==> r == Ok::<
                ExtendedMessageHeader,
                Error,
            >(spec_decode_extended_header(buf@)),
            buf@.len() == EXTENDED_HEADER_SIZE && !spec_extended_markers_ok(buf@) ==> r == Err::<
                ExtendedMessageHeader,
                Error,
            >(Error::ParseError),
            buf@.len() != EXTENDED_HEADER_SIZE ==> r == Err::<ExtendedMessageHeader, Error>(
                Error::BufferError,
            ),
    {
        if buf.len() != EXTENDED_HEADER_SIZE {
            return Err(Error::BufferError);
        }
        if !(buf[2] == 0xFF && buf[3] == 0xFF && buf[6] == 0x00 && buf[7] == 0x00) {
            return Err(Error::ParseError);
        }
        Ok(
            ExtendedMessageHeader {
                command: u16_from_be_pair(buf[0], buf[1]),
                data_type: u16_from_be_pair(buf[4], buf[5]),
                parameter_1: u32_from_be_quad(buf[8], buf[9], buf[10], buf[11]),
                parameter_2: u32_from_be_quad(buf[12], buf[13], buf[14], buf[15]),
                payload_size: u32_from_be_quad(buf[16], buf[17], buf[18], buf[19]),
                data_count: u32_from_be_quad(buf[20], buf[21], buf[22], buf[23]),
            },
        )
    }

    /// Produces the exact 24 big-endian octets of this header, with the
    /// extended-frame markers in the standard header's size and count
    /// slots.
    pub fn as_bytes(&self) -> (r: Vec<u8>)
        ensures
            r@ == spec_encode_extended_header(*self),
            r@.len() == EXTENDED_HEADER_SIZE,
    {
        let mut buf: Vec<u8> = Vec::with_capacity(EXTENDED_HEADER_SIZE);
        push_u16_be(&mut buf, self.command);
        push_u16_be(&mut buf, 0xFFFF);
        push_u16_be(&mut buf, self.data_type);
        push_u16_be(&mut buf, 0x0000);
        push_u32_be(&mut buf, self.parameter_1);
        push_u32_be(&mut buf, self.parameter_2);
        push_u32_be(&mut buf, self.payload_size);
        push_u32_be(&mut buf, self.data_count);
        proof {
            assert(buf@ =~= spec_encode_extended_header(*self));
        }
        buf
    }
}

/// Decoding the encoding of any extended header gives the header back,
/// field for field; the encoding always carries well-formed markers.
pub proof fn lemma_extended_header_decode_encode(h: ExtendedMessageHeader)
    ensures
        spec_decode_extended_header(spec_encode_extended_header(h)) == h,
        spec_extended_markers_ok(spec_encode_extended_header(h)),
{
    lemma_u16_from_of_be(h.command);
    lemma_u16_from_of_be(h.data_type);
    lemma_u32_from_of_be(h.parameter_1);
    lemma_u32_from_of_be(h.parameter_2);
    lemma_u32_from_of_be(h.payload_size);
    lemma_u32_from_of_be(h.data_count);
}

/// Re-encoding the extended header decoded from any 24-byte buffer with
/// well-formed markers reproduces that buffer bit for bit.
pub proof fn lemma_extended_header_encode_decode(b: Seq<u8>)
    requires
        b.len() == EXTENDED_HEADER_SIZE,
        spec_extended_markers_ok(b),
    ensures
        spec_encode_extended_header(spec_decode_extended_header(b)) == b,
{
    lemma_u16_be_of_from(b[0], b[1]);
    lemma_u16_be_of_from(b[4], b[5]);
    lemma_u32_be_of_from(b[8], b[9], b[10], b[11]);
    lemma_u32_be_of_from(b[12], b[13], b[14], b[15]);
    lemma_u32_be_of_from(b[16], b[17], b[18], b[19]);
    lemma_u32_be_of_from(b[20], b[21], b[22], b[23]);
    assert(spec_encode_extended_header(spec_decode_extended_header(b)) =~= b);
}

} // verus!
