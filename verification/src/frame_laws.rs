//! What holds of the frame codec as a whole: escaping is undone by the
//! scanner, an encoded frame is read back unchanged, a wrong checksum byte is
//! refused, and a stream without an end delimiter yields nothing.

use vstd::prelude::*;
use crate::bytes::{be32_bytes, lemma_be32_of_bytes};
use crate::frame::{
    encode_frame, escape_seq, escape_unit, escaped, frame_body, frame_body_with, is_reserved,
    parse_frame, unescaped, FrameDataType, FrameParseError, FrameView, TANDEM_ESCAPE,
    TANDEM_FRAME_END, TANDEM_FRAME_START,
};
use crate::scanner::{scan, scan_byte, ScannerState};

verus! {

/// A reserved byte with bit 4 cleared is no longer reserved, and setting the
/// bit again gives the byte back.
pub proof fn lemma_escaped_byte(byte: u8)
    requires
        is_reserved(byte),
    ensures
        !is_reserved(escaped(byte)),
        unescaped(escaped(byte)) == byte,
{
    assert(0x3eu8 & 0xef == 0x2e) by (bit_vector);
    assert(0x3cu8 & 0xef == 0x2c) by (bit_vector);
    assert(0x3du8 & 0xef == 0x2d) by (bit_vector);
    assert(0x2eu8 | 0x10 == 0x3e) by (bit_vector);
    assert(0x2cu8 | 0x10 == 0x3c) by (bit_vector);
    assert(0x2du8 | 0x10 == 0x3d) by (bit_vector);
}

/// Scanning a single byte is one step of the scanner.
pub proof fn lemma_scan_one(state: ScannerState, byte: u8)
    ensures
        scan(state, seq![byte]).0 == scan_byte(state, byte).0,
        scan(state, seq![byte]).1 == match scan_byte(state, byte).1 {
            Some(frame) => seq![frame],
            None => Seq::<FrameView>::empty(),
        },
{
    let bytes = seq![byte];
    assert(bytes.drop_last() =~= Seq::<u8>::empty());
    assert(scan(state, bytes.drop_last()) == (state, Seq::<FrameView>::empty()));
    match scan_byte(state, byte).1 {
        Some(frame) => {
            assert(Seq::<FrameView>::empty().push(frame) =~= seq![frame]);
        },
        None => {},
    }
}

/// Scanning two runs one after the other is scanning their concatenation:
/// the second run starts in the state that the first left, and the frames
/// come out in order.
pub proof fn lemma_scan_concat(state: ScannerState, first: Seq<u8>, second: Seq<u8>)
    ensures
        scan(state, first + second).0 == scan(scan(state, first).0, second).0,
        scan(state, first + second).1 == scan(state, first).1 + scan(
            scan(state, first).0,
            second,
        ).1,
    decreases second.len(),
{
    let middle = scan(state, first);
    if second.len() == 0 {
        assert(first + second =~= first);
        assert(middle.1 + Seq::<FrameView>::empty() =~= middle.1);
    } else {
        lemma_scan_concat(state, first, second.drop_last());
        assert((first + second).drop_last() =~= first + second.drop_last());
        assert((first + second).last() == second.last());
        let before = scan(middle.0, second.drop_last());
        match scan_byte(before.0, second.last()).1 {
            Some(frame) => {
                assert((middle.1 + before.1).push(frame) =~= middle.1 + before.1.push(frame));
            },
            None => {},
        }
    }
}

/// The scanner undoes escaping: from a state with no escape pending, the
/// escaped form of any bytes, reserved ones included, adds exactly those
/// bytes to the buffer and completes no frame.
pub proof fn lemma_unescape_escape(state: ScannerState, content: Seq<u8>)
    requires
        !state.escape_next,
    ensures
        scan(state, escape_seq(content)) == (
            ScannerState { buffer: state.buffer + content, escape_next: false },
            Seq::<FrameView>::empty(),
        ),
    decreases content.len(),
{
    if content.len() == 0 {
        assert(state.buffer + content =~= state.buffer);
    } else {
        let head = content.drop_last();
        let byte = content.last();
        lemma_unescape_escape(state, head);
        lemma_scan_concat(state, escape_seq(head), escape_unit(byte));
        let middle = ScannerState { buffer: state.buffer + head, escape_next: false };
        assert(scan(state, escape_seq(head)).0 == middle);
        assert((state.buffer + head).push(byte) =~= state.buffer + content);
        if is_reserved(byte) {
            lemma_escaped_byte(byte);
            let unit = seq![TANDEM_ESCAPE, escaped(byte)];
            assert(unit =~= seq![TANDEM_ESCAPE] + seq![escaped(byte)]);
            lemma_scan_concat(middle, seq![TANDEM_ESCAPE], seq![escaped(byte)]);
            lemma_scan_one(middle, TANDEM_ESCAPE);
            let pending = ScannerState { buffer: middle.buffer, escape_next: true };
            lemma_scan_one(pending, escaped(byte));
            assert(scan(middle, unit).1 =~= Seq::<FrameView>::empty());
        } else {
            lemma_scan_one(middle, byte);
        }
        assert(scan(state, escape_seq(content)).1 =~= Seq::<FrameView>::empty());
    }
}

/// A well-formed frame body between its delimiters is read back as the
/// frame it was built from when it carries the checksum of that frame, and is
/// refused as a checksum mismatch when it carries any other checksum byte.
pub proof fn lemma_parse_frame_body(frame: FrameView, checksum: u8)
    requires
        frame.content.len() <= u32::MAX,
    ensures
        parse_frame(
            seq![TANDEM_FRAME_START] + frame_body_with(frame, checksum) + seq![TANDEM_FRAME_END],
        ) == if checksum == frame.checksum() {
            Ok::<FrameView, FrameParseError>(frame)
        } else {
            Err::<FrameView, FrameParseError>(
                FrameParseError::InvalidCheckSum { expected: frame.checksum(), actual: checksum },
            )
        },
{
    let inner = frame_body_with(frame, checksum);
    let run = seq![TANDEM_FRAME_START] + inner + seq![TANDEM_FRAME_END];
    let length = frame.content.len() as u32;
    assert(frame.content.len() % 0x1_0000_0000 == frame.content.len());
    assert(be32_bytes(length).len() == 4);
    assert(inner.len() == frame.content.len() + 7);
    let body = run.subrange(1, run.len() - 1);
    assert(body =~= inner);
    assert(body[0] == frame.data_type.byte());
    assert(body[1] == frame.sequence_number);
    assert(body[2] == be32_bytes(length)[0]);
    assert(body[3] == be32_bytes(length)[1]);
    assert(body[4] == be32_bytes(length)[2]);
    assert(body[5] == be32_bytes(length)[3]);
    lemma_be32_of_bytes(length);
    assert(body.subrange(6, 6 + length as int) =~= frame.content);
    assert(body[6 + length as int] == checksum);
    FrameDataType::lemma_byte_round_trip(frame.data_type, 0);
}

/// A frame survives the wire: scanning the bytes of an encoded frame, from
/// any state of the scanner, completes exactly that frame, with its data
/// type, sequence number and content, and leaves the scanner idle.
pub proof fn lemma_frame_round_trip(state: ScannerState, frame: FrameView)
    requires
        frame.content.len() <= u32::MAX,
    ensures
        scan(state, encode_frame(frame)) == (ScannerState::idle(), seq![frame]),
{
    let body = frame_body(frame);
    let started = ScannerState { buffer: seq![TANDEM_FRAME_START], escape_next: false };
    let filled = ScannerState { buffer: seq![TANDEM_FRAME_START] + body, escape_next: false };
    lemma_scan_one(state, TANDEM_FRAME_START);
    lemma_unescape_escape(started, body);
    lemma_scan_concat(state, seq![TANDEM_FRAME_START], escape_seq(body));
    lemma_scan_concat(
        state,
        seq![TANDEM_FRAME_START] + escape_seq(body),
        seq![TANDEM_FRAME_END],
    );
    lemma_scan_one(filled, TANDEM_FRAME_END);
    lemma_parse_frame_body(frame, frame.checksum());
    assert(filled.buffer.push(TANDEM_FRAME_END) =~= seq![TANDEM_FRAME_START] + body
        + seq![TANDEM_FRAME_END]);
    assert(Seq::<FrameView>::empty() + Seq::<FrameView>::empty() + seq![frame] =~= seq![frame]);
}

/// A stream that holds no end delimiter completes no frame, whatever else
/// it holds and whatever state the scanner was in.
pub proof fn lemma_no_end_no_frame(state: ScannerState, bytes: Seq<u8>)
    requires
        forall|i: int| 0 <= i < bytes.len() ==> bytes[i] != TANDEM_FRAME_END,
    ensures
        scan(state, bytes).1 == Seq::<FrameView>::empty(),
    decreases bytes.len(),
{
    if bytes.len() > 0 {
        lemma_no_end_no_frame(state, bytes.drop_last());
    }
}

/// The number of end delimiters in a stream.
pub open spec fn end_count(bytes: Seq<u8>) -> nat
    decreases bytes.len(),
{
    if bytes.len() == 0 {
        0
    } else if bytes.last() == TANDEM_FRAME_END {
        end_count(bytes.drop_last()) + 1
    } else {
        end_count(bytes.drop_last())
    }
}

/// A stream completes at most one frame for each end delimiter it holds.
pub proof fn lemma_frames_bounded(state: ScannerState, bytes: Seq<u8>)
    ensures
        scan(state, bytes).1.len() <= end_count(bytes),
    decreases bytes.len(),
{
    if bytes.len() > 0 {
        lemma_frames_bounded(state, bytes.drop_last());
    }
}

/// The bytes of a run of frames sent one after the other.
pub open spec fn encode_frames(frames: Seq<FrameView>) -> Seq<u8>
    decreases frames.len(),
{
    if frames.len() == 0 {
        Seq::empty()
    } else {
        encode_frames(frames.drop_last()) + encode_frame(frames.last())
    }
}

/// Frames sent back to back arrive as they were sent: scanning their bytes
/// completes exactly those frames, in order, none lost, none twice.
pub proof fn lemma_frames_round_trip(state: ScannerState, frames: Seq<FrameView>)
    requires
        forall|i: int| 0 <= i < frames.len() ==> (#[trigger] frames[i]).content.len() <= u32::MAX,
    ensures
        scan(state, encode_frames(frames)).1 == frames,
        frames.len() > 0 ==> scan(state, encode_frames(frames)).0 == ScannerState::idle(),
    decreases frames.len(),
{
    if frames.len() > 0 {
        let head = frames.drop_last();
        lemma_frames_round_trip(state, head);
        lemma_scan_concat(state, encode_frames(head), encode_frame(frames.last()));
        lemma_frame_round_trip(scan(state, encode_frames(head)).0, frames.last());
        assert(head + seq![frames.last()] =~= frames);
    }
}

} // verus!
