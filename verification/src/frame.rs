//! The frame layer: escaping, checksums, and the conversion between a frame
//! and its bytes on the wire.

use vstd::prelude::*;
use vstd::slice::slice_to_vec;
use vstd::string::StringExecFns;
use crate::bytes::{be32, be32_bytes, u32_from_be, u32_to_be};
use crate::hex::{decimal_text, hex_text, push_decimal, U8ArrayExtension};

verus! {

/// Marks the first byte of a frame on the wire.
pub const TANDEM_FRAME_START: u8 = 0x3e;

/// Marks the last byte of a frame on the wire.
pub const TANDEM_FRAME_END: u8 = 0x3c;

/// Announces that the following byte was escaped.
pub const TANDEM_ESCAPE: u8 = 0x3d;

/// Clears bit 4 of a byte; every reserved byte has that bit set.
pub const TANDEM_ESCAPE_MASK: u8 = 0xef;

/// Length of the fixed header inside the delimiters: type, sequence number
/// and the four bytes of the content length.
pub const FRAME_HEADER_LEN: usize = 6;

/// Length of the shortest frame on the wire: delimiters, header and checksum.
pub const FRAME_MIN_LEN: usize = 9;

/// A byte is reserved when it is one of the three control bytes.
pub open spec fn is_reserved(byte: u8) -> bool {
    byte == TANDEM_FRAME_START || byte == TANDEM_FRAME_END || byte == TANDEM_ESCAPE
}

/// A byte with bit 4 cleared, as it follows an escape byte on the wire.
pub open spec fn escaped(byte: u8) -> u8 {
    byte & TANDEM_ESCAPE_MASK
}

/// A byte with bit 4 set again.
pub open spec fn unescaped(byte: u8) -> u8 {
    byte | 0x10
}

/// What one byte becomes on the wire.
pub open spec fn escape_unit(byte: u8) -> Seq<u8> {
    if is_reserved(byte) {
        seq![TANDEM_ESCAPE, escaped(byte)]
    } else {
        seq![byte]
    }
}

/// What a byte sequence becomes on the wire: each reserved byte is replaced
/// by the escape byte and the byte with bit 4 cleared.
pub open spec fn escape_seq(bytes: Seq<u8>) -> Seq<u8>
    decreases bytes.len(),
{
    if bytes.len() == 0 {
        Seq::empty()
    } else {
        escape_seq(bytes.drop_last()) + escape_unit(bytes.last())
    }
}

/// Restores bit 4 of a byte that followed an escape byte.
pub fn unescape(byte: u8) -> (out: u8)
    ensures
        out == unescaped(byte),
{
    assert(byte | (!0xefu8 & 0xff) == byte | 0x10) by (bit_vector);
    byte | (!TANDEM_ESCAPE_MASK & 0xFF)
}

/// Escapes every reserved byte of `bytes`.
pub fn escape(bytes: &[u8]) -> (out: Vec<u8>)
    ensures
        out@ == escape_seq(bytes@),
{
    let mut out: Vec<u8> = Vec::new();
    let mut i: usize = 0;
    while i < bytes.len()
        invariant
            i <= bytes.len(),
            out@ == escape_seq(bytes@.take(i as int)),
        decreases bytes.len() - i,
    {
        let b = bytes[i];
        proof {
            assert(bytes@.take(i + 1).drop_last() =~= bytes@.take(i as int));
            assert(bytes@.take(i + 1).last() == b);
        }
        if b == TANDEM_FRAME_START || b == TANDEM_FRAME_END || b == TANDEM_ESCAPE {
            out.push(TANDEM_ESCAPE);
            out.push(b & TANDEM_ESCAPE_MASK);
            assert(out@ =~= escape_seq(bytes@.take(i as int)) + escape_unit(b));
        } else {
            out.push(b);
            assert(out@ =~= escape_seq(bytes@.take(i as int)) + escape_unit(b));
        }
        i += 1;
    }
    assert(bytes@.take(i as int) =~= bytes@);
    out
}

/// The transport class of a frame, sent as the first byte after the start
/// delimiter.
#[derive(Debug, Clone, Copy, PartialEq, Eq, Structural)]
pub enum FrameDataType {
    Data,
    Ack,
    DataMcNo1,
    DataIcd,
    DataEv,
    DataMdr,
    DataCommon,
    DataMdrNo2,
    Shot,
    ShotMcNo1,
    ShotIcd,
    ShotEv,
    ShotMdr,
    ShotCommon,
    ShotMdrNo2,
    LargeDataCommon,
}

impl FrameDataType {
    /// The byte that stands for this data type on the wire.
    pub open spec fn byte(self) -> u8 {
        match self {
            FrameDataType::Data => 0x00,
            FrameDataType::Ack => 0x01,
            FrameDataType::DataMcNo1 => 0x02,
            FrameDataType::DataIcd => 0x09,
            FrameDataType::DataEv => 0x0a,
            FrameDataType::DataMdr => 0x0c,
            FrameDataType::DataCommon => 0x0d,
            FrameDataType::DataMdrNo2 => 0x0e,
            FrameDataType::Shot => 0x10,
            FrameDataType::ShotMcNo1 => 0x12,
            FrameDataType::ShotIcd => 0x19,
            FrameDataType::ShotEv => 0x1a,
            FrameDataType::ShotMdr => 0x1c,
            FrameDataType::ShotCommon => 0x1d,
            FrameDataType::ShotMdrNo2 => 0x1e,
            FrameDataType::LargeDataCommon => 0x2d,
        }
    }

    /// The data type that a byte stands for, if it stands for one.
    pub open spec fn of_byte(byte: u8) -> Option<FrameDataType> {
        if byte == 0x00 {
            Some(FrameDataType::Data)
        } else if byte == 0x01 {
            Some(FrameDataType::Ack)
        } else if byte == 0x02 {
            Some(FrameDataType::DataMcNo1)
        } else if byte == 0x09 {
            Some(FrameDataType::DataIcd)
        } else if byte == 0x0a {
            Some(FrameDataType::DataEv)
        } else if byte == 0x0c {
            Some(FrameDataType::DataMdr)
        } else if byte == 0x0d {
            Some(FrameDataType::DataCommon)
        } else if byte == 0x0e {
            Some(FrameDataType::DataMdrNo2)
        } else if byte == 0x10 {
            Some(FrameDataType::Shot)
        } else if byte == 0x12 {
            Some(FrameDataType::ShotMcNo1)
        } else if byte == 0x19 {
            Some(FrameDataType::ShotIcd)
        } else if byte == 0x1a {
            Some(FrameDataType::ShotEv)
        } else if byte == 0x1c {
            Some(FrameDataType::ShotMdr)
        } else if byte == 0x1d {
            Some(FrameDataType::ShotCommon)
        } else if byte == 0x1e {
            Some(FrameDataType::ShotMdrNo2)
        } else if byte == 0x2d {
            Some(FrameDataType::LargeDataCommon)
        } else {
            None
        }
    }

    /// The byte that stands for this data type on the wire.
    pub fn to_u8(self) -> (byte: u8)
        ensures
            byte == self.byte(),
    {
        match self {
            FrameDataType::Data => 0x00,
            FrameDataType::Ack => 0x01,
            FrameDataType::DataMcNo1 => 0x02,
            FrameDataType::DataIcd => 0x09,
            FrameDataType::DataEv => 0x0a,
            FrameDataType::DataMdr => 0x0c,
            FrameDataType::DataCommon => 0x0d,
            FrameDataType::DataMdrNo2 => 0x0e,
            FrameDataType::Shot => 0x10,
            FrameDataType::ShotMcNo1 => 0x12,
            FrameDataType::ShotIcd => 0x19,
            FrameDataType::ShotEv => 0x1a,
            FrameDataType::ShotMdr => 0x1c,
            FrameDataType::ShotCommon => 0x1d,
            FrameDataType::ShotMdrNo2 => 0x1e,
            FrameDataType::LargeDataCommon => 0x2d,
        }
    }

    /// The data type that `byte` stands for, or `None` for a byte outside
    /// the table.
    pub fn from_u8(byte: u8) -> (data_type: Option<FrameDataType>)
        ensures
            data_type == FrameDataType::of_byte(byte),
    {
        match byte {
            0x00 => Some(FrameDataType::Data),
            0x01 => Some(FrameDataType::Ack),
            0x02 => Some(FrameDataType::DataMcNo1),
            0x09 => Some(FrameDataType::DataIcd),
            0x0a => Some(FrameDataType::DataEv),
            0x0c => Some(FrameDataType::DataMdr),
            0x0d => Some(FrameDataType::DataCommon),
            0x0e => Some(FrameDataType::DataMdrNo2),
            0x10 => Some(FrameDataType::Shot),
            0x12 => Some(FrameDataType::ShotMcNo1),
            0x19 => Some(FrameDataType::ShotIcd),
            0x1a => Some(FrameDataType::ShotEv),
            0x1c => Some(FrameDataType::ShotMdr),
            0x1d => Some(FrameDataType::ShotCommon),
            0x1e => Some(FrameDataType::ShotMdrNo2),
            0x2d => Some(FrameDataType::LargeDataCommon),
            _ => None,
        }
    }

    /// The name of this data type as text.
    pub open spec fn name_text(self) -> Seq<char> {
        match self {
            FrameDataType::Data => "Data"@,
            FrameDataType::Ack => "Ack"@,
            FrameDataType::DataMcNo1 => "DataMcNo1"@,
            FrameDataType::DataIcd => "DataIcd"@,
            FrameDataType::DataEv => "DataEv"@,
            FrameDataType::DataMdr => "DataMdr"@,
            FrameDataType::DataCommon => "DataCommon"@,
            FrameDataType::DataMdrNo2 => "DataMdrNo2"@,
            FrameDataType::Shot => "Shot"@,
            FrameDataType::ShotMcNo1 => "ShotMcNo1"@,
            FrameDataType::ShotIcd => "ShotIcd"@,
            FrameDataType::ShotEv => "ShotEv"@,
            FrameDataType::ShotMdr => "ShotMdr"@,
            FrameDataType::ShotCommon => "ShotCommon"@,
            FrameDataType::ShotMdrNo2 => "ShotMdrNo2"@,
            FrameDataType::LargeDataCommon => "LargeDataCommon"@,
        }
    }

    /// The name of this data type.
    pub fn name(self) -> (name: &'static str)
        ensures
            name@ == self.name_text(),
    {
        match self {
            FrameDataType::Data => "Data",
            FrameDataType::Ack => "Ack",
            FrameDataType::DataMcNo1 => "DataMcNo1",
            FrameDataType::DataIcd => "DataIcd",
            FrameDataType::DataEv => "DataEv",
            FrameDataType::DataMdr => "DataMdr",
            FrameDataType::DataCommon => "DataCommon",
            FrameDataType::DataMdrNo2 => "DataMdrNo2",
            FrameDataType::Shot => "Shot",
            FrameDataType::ShotMcNo1 => "ShotMcNo1",
            FrameDataType::ShotIcd => "ShotIcd",
            FrameDataType::ShotEv => "ShotEv",
            FrameDataType::ShotMdr => "ShotMdr",
            FrameDataType::ShotCommon => "ShotCommon",
            FrameDataType::ShotMdrNo2 => "ShotMdrNo2",
            FrameDataType::LargeDataCommon => "LargeDataCommon",
        }
    }

    /// Every data type is found again from its byte, and a byte that stands
    /// for a data type is the byte of that data type.
    pub proof fn lemma_byte_round_trip(data_type: FrameDataType, byte: u8)
        ensures
            FrameDataType::of_byte(data_type.byte()) == Some(data_type),
            FrameDataType::of_byte(byte) matches Some(t) ==> t.byte() == byte,
    {
    }
}

/// One transport unit: a data type, a sequence number and a payload.
#[derive(Debug, Clone)]
pub struct Frame {
    pub data_type: FrameDataType,
    pub sequence_number: u8,
    pub content: Vec<u8>,
}

/// A frame as a mathematical value.
pub struct FrameView {
    pub data_type: FrameDataType,
    pub sequence_number: u8,
    pub content: Seq<u8>,
}

impl View for Frame {
    type V = FrameView;

    open spec fn view(&self) -> FrameView {
        FrameView {
            data_type: self.data_type,
            sequence_number: self.sequence_number,
            content: self.content@,
        }
    }
}

/// Why a delimited byte run is not a frame.
#[derive(Debug, Clone, Copy, PartialEq, Eq, Structural)]
pub enum FrameParseError {
    /// The checksum byte differs from the checksum of what was received.
    InvalidCheckSum { expected: u8, actual: u8 },
    /// Fewer bytes than the shortest frame has.
    TooSmall,
    /// The run does not start with the start delimiter or does not end with
    /// the end delimiter.
    InvalidFormat,
    /// The declared content length needs more bytes than the run holds.
    IncorrectLenght,
    /// The first byte after the start delimiter stands for no data type.
    InvalidDataType,
}

/// The sum of the bytes, as an unbounded integer.
pub open spec fn byte_sum(bytes: Seq<u8>) -> int
    decreases bytes.len(),
{
    if bytes.len() == 0 {
        0
    } else {
        byte_sum(bytes.drop_last()) + bytes.last() as int
    }
}

/// The checksum of a frame: content bytes, sequence number, data type byte
/// and content length, added up modulo 256.
pub open spec fn checksum_of(data_type: u8, sequence_number: u8, content: Seq<u8>) -> u8 {
    ((byte_sum(content) + sequence_number as int + data_type as int + content.len() as int)
        % 0x100) as u8
}

/// The unescaped bytes between the delimiters of a frame that carries the
/// given checksum byte: type, sequence number, the content length as four
/// big-endian bytes, the content and the checksum byte.
pub open spec fn frame_body_with(frame: FrameView, checksum: u8) -> Seq<u8> {
    seq![frame.data_type.byte(), frame.sequence_number]
        + be32_bytes((frame.content.len() % 0x1_0000_0000) as u32)
        + frame.content
        + seq![checksum]
}

/// What a frame holds between the delimiters, before escaping.
pub open spec fn frame_body(frame: FrameView) -> Seq<u8> {
    frame_body_with(frame, frame.checksum())
}

/// A frame as it is sent: the escaped body between the two delimiters.
pub open spec fn encode_frame(frame: FrameView) -> Seq<u8> {
    seq![TANDEM_FRAME_START] + escape_seq(frame_body(frame)) + seq![TANDEM_FRAME_END]
}

/// The frame that an unescaped, delimited byte run holds, or the first
/// check that the run fails, in this order: size, delimiters, declared
/// length, checksum, data type. The declared length is that of the content;
/// the content and the checksum byte behind it must lie between the
/// delimiters, and what follows the checksum byte there is ignored.
pub open spec fn parse_frame(run: Seq<u8>) -> Result<FrameView, FrameParseError> {
    if run.len() < FRAME_MIN_LEN {
        Err(FrameParseError::TooSmall)
    } else if run[0] != TANDEM_FRAME_START || run.last() != TANDEM_FRAME_END {
        Err(FrameParseError::InvalidFormat)
    } else {
        let body = run.subrange(1, run.len() - 1);
        let declared = be32(body[2], body[3], body[4], body[5]);
        if declared + FRAME_HEADER_LEN >= body.len() {
            Err(FrameParseError::IncorrectLenght)
        } else {
            let content = body.subrange(FRAME_HEADER_LEN as int, FRAME_HEADER_LEN + declared);
            let actual = body[FRAME_HEADER_LEN + declared];
            let expected = checksum_of(body[0], body[1], content);
            if actual != expected {
                Err(FrameParseError::InvalidCheckSum { expected, actual })
            } else {
                match FrameDataType::of_byte(body[0]) {
                    None => Err(FrameParseError::InvalidDataType),
                    Some(data_type) => Ok(
                        FrameView { data_type, sequence_number: body[1], content },
                    ),
                }
            }
        }
    }
}

/// The view of a parse result.
pub open spec fn parsed_view(result: Result<Frame, FrameParseError>) -> Result<
    FrameView,
    FrameParseError,
> {
    match result {
        Ok(frame) => Ok(frame@),
        Err(e) => Err(e),
    }
}

/// The views of a sequence of parse results.
pub open spec fn parsed_views(results: Seq<Result<Frame, FrameParseError>>) -> Seq<
    Result<FrameView, FrameParseError>,
> {
    results.map_values(|result: Result<Frame, FrameParseError>| parsed_view(result))
}

/// The payload bytes of a run of parse results: the contents of the frames
/// one after the other, up to the first result that is an error.
pub open spec fn mdr_bytes(results: Seq<Result<FrameView, FrameParseError>>) -> Seq<u8>
    decreases results.len(),
{
    if results.len() == 0 {
        Seq::empty()
    } else {
        match results[0] {
            Ok(frame) => frame.content + mdr_bytes(results.skip(1)),
            Err(_) => Seq::empty(),
        }
    }
}

impl FrameView {
    /// The checksum that this frame carries on the wire.
    pub open spec fn checksum(self) -> u8 {
        checksum_of(self.data_type.byte(), self.sequence_number, self.content)
    }

    /// The frame as a line of a log: data type, sequence number, and the
    /// content in hexadecimal.
    pub open spec fn text(self) -> Seq<char> {
        "Frame(type: "@ + self.data_type.name_text() + ", seq: "@ + decimal_text(
            self.sequence_number,
        ) + ") { "@ + hex_text(self.content) + " }"@
    }
}

/// The sum of a prefix and one more byte.
proof fn lemma_byte_sum_take(bytes: Seq<u8>, i: int)
    requires
        0 <= i < bytes.len(),
    ensures
        byte_sum(bytes.take(i + 1)) == byte_sum(bytes.take(i)) + bytes[i] as int,
{
    assert(bytes.take(i + 1).drop_last() =~= bytes.take(i));
}

/// Adding a byte with wraparound keeps a running sum modulo 256.
proof fn lemma_wrapping_add_mod(acc: u8, total: int, byte: u8)
    requires
        acc as int == total % 0x100,
    ensures
        acc.wrapping_add(byte) as int == (total + byte as int) % 0x100,
{
}

/// The checksum of the given header bytes and content.
fn checksum_bytes(data_type: u8, sequence_number: u8, content: &[u8]) -> (sum: u8)
    ensures
        sum == checksum_of(data_type, sequence_number, content@),
{
    let mut acc: u8 = 0;
    let mut i: usize = 0;
    while i < content.len()
        invariant
            i <= content.len(),
            acc as int == byte_sum(content@.take(i as int)) % 0x100,
        decreases content.len() - i,
    {
        proof {
            lemma_byte_sum_take(content@, i as int);
            lemma_wrapping_add_mod(acc, byte_sum(content@.take(i as int)), content[i as int]);
        }
        acc = acc.wrapping_add(content[i]);
        i += 1;
    }
    assert(content@.take(i as int) =~= content@);
    let len_byte: u8 = (content.len() % 0x100) as u8;
    let ghost total = byte_sum(content@);
    proof {
        lemma_wrapping_add_mod(acc, total, sequence_number);
        lemma_wrapping_add_mod(
            acc.wrapping_add(sequence_number),
            total + sequence_number as int,
            data_type,
        );
        lemma_wrapping_add_mod(
            acc.wrapping_add(sequence_number).wrapping_add(data_type),
            total + sequence_number as int + data_type as int,
            len_byte,
        );
        assert((total + sequence_number as int + data_type as int + len_byte as int) % 0x100 == (
        total + sequence_number as int + data_type as int + content@.len() as int) % 0x100);
    }
    acc.wrapping_add(sequence_number).wrapping_add(data_type).wrapping_add(len_byte)
}

impl Frame {
    /// A frame with a copy of `content`.
    pub fn new(data_type: FrameDataType, sequence_number: u8, content: &[u8]) -> (frame: Frame)
        ensures
            frame@ == (FrameView { data_type, sequence_number, content: content@ }),
    {
        Frame { data_type, sequence_number, content: slice_to_vec(content) }
    }

    /// The acknowledgement of a frame that carried `sequence_number`: an
    /// empty frame whose sequence number is `1 - sequence_number`, reduced
    /// modulo 256 where the subtraction would leave the range of a byte.
    pub fn new_ack(sequence_number: u8) -> (frame: Frame)
        ensures
            frame@ == (FrameView {
                data_type: FrameDataType::Ack,
                sequence_number: ((1 - sequence_number as int) % 0x100) as u8,
                content: Seq::empty(),
            }),
            sequence_number <= 1 ==> frame.sequence_number == 1 - sequence_number,
    {
        Frame {
            data_type: FrameDataType::Ack,
            sequence_number: 1u8.wrapping_sub(sequence_number),
            content: Vec::new(),
        }
    }

    /// The checksum that this frame carries on the wire.
    pub fn checksum(&self) -> (sum: u8)
        ensures
            sum == self@.checksum(),
    {
        checksum_bytes(self.data_type.to_u8(), self.sequence_number, self.content.as_slice())
    }

    /// Reads a frame from an unescaped byte run that includes both
    /// delimiters.
    pub fn try_from_bytes(value: &[u8]) -> (result: Result<Frame, FrameParseError>)
        ensures
            parsed_view(result) == parse_frame(value@),
    {
        if value.len() < FRAME_MIN_LEN {
            return Err(FrameParseError::TooSmall);
        }
        if value[0] != TANDEM_FRAME_START || value[value.len() - 1] != TANDEM_FRAME_END {
            return Err(FrameParseError::InvalidFormat);
        }
        let body = vstd::slice::slice_subrange(value, 1, value.len() - 1);
        let declared = u32_from_be(body[2], body[3], body[4], body[5]);
        if declared as u64 + FRAME_HEADER_LEN as u64 >= body.len() as u64 {
            return Err(FrameParseError::IncorrectLenght);
        }
        let checksum_pos: usize = declared as usize + FRAME_HEADER_LEN;
        let content = vstd::slice::slice_subrange(body, FRAME_HEADER_LEN, checksum_pos);
        let actual = body[checksum_pos];
        let expected = checksum_bytes(body[0], body[1], content);
        if actual != expected {
            return Err(FrameParseError::InvalidCheckSum { expected, actual });
        }
        match FrameDataType::from_u8(body[0]) {
            None => Err(FrameParseError::InvalidDataType),
            Some(data_type) => Ok(Frame::new(data_type, body[1], content)),
        }
    }

    /// The bytes of this frame as they are sent: body escaped, delimiters
    /// added.
    pub fn to_bytes(&self) -> (bytes: Vec<u8>)
        ensures
            bytes@ == encode_frame(self@),
    {
        let mut payload: Vec<u8> = Vec::new();
        payload.push(self.data_type.to_u8());
        payload.push(self.sequence_number);
        let length = u32_to_be((self.content.len() as u64 % 0x1_0000_0000) as u32);
        payload.extend_from_slice(length.as_slice());
        payload.extend_from_slice(self.content.as_slice());
        payload.push(self.checksum());
        assert(payload@ =~= frame_body(self@));

        let escaped = escape(payload.as_slice());
        let mut bytes: Vec<u8> = Vec::new();
        bytes.push(TANDEM_FRAME_START);
        bytes.extend_from_slice(escaped.as_slice());
        bytes.push(TANDEM_FRAME_END);
        assert(bytes@ =~= encode_frame(self@));
        bytes
    }

    /// The frame as a line of a log.
    pub fn to_text(&self) -> (text: String)
        ensures
            text@ == self@.text(),
    {
        let mut text = String::new();
        text.append("Frame(type: ");
        text.append(self.data_type.name());
        text.append(", seq: ");
        push_decimal(&mut text, self.sequence_number);
        text.append(") { ");
        let content = self.content.as_slice().format_as_hex();
        text.append(content.as_str());
        text.append(" }");
        assert(text@ =~= self@.text());
        text
    }

    /// The payload bytes of a run of parse results: the contents of the
    /// frames one after the other. The first error ends the run, and what
    /// follows it is not looked at.
    pub fn to_mdr_bytes_stream(results: Vec<Result<Frame, FrameParseError>>) -> (bytes: Vec<u8>)
        ensures
            bytes@ == mdr_bytes(parsed_views(results@)),
    {
        let ghost all = parsed_views(results@);
        let mut bytes: Vec<u8> = Vec::new();
        let mut i: usize = 0;
        assert(all.skip(0) =~= all);
        while i < results.len()
            invariant
                i <= results.len(),
                all == parsed_views(results@),
                bytes@ + mdr_bytes(all.skip(i as int)) == mdr_bytes(all),
            decreases results.len() - i,
        {
            proof {
                assert(all.skip(i as int)[0] == all[i as int]);
                assert(all.skip(i as int).skip(1) =~= all.skip(i + 1));
            }
            match &results[i] {
                Ok(frame) => {
                    let ghost before = bytes@;
                    bytes.extend_from_slice(frame.content.as_slice());
                    assert(bytes@ =~= before + frame@.content);
                    assert(bytes@ + mdr_bytes(all.skip(i + 1)) =~= before + (frame@.content
                        + mdr_bytes(all.skip(i + 1))));
                },
                Err(_) => {
                    assert(bytes@ + Seq::<u8>::empty() =~= bytes@);
                    return bytes;
                },
            }
            i += 1;
        }
        assert(bytes@ + Seq::<u8>::empty() =~= bytes@);
        bytes
    }
}

} // verus!
