//! Cuts a continuous byte stream into frames.
//!
//! The scanner keeps one buffer and one flag. A start delimiter begins a new
//! accumulation, an escape byte marks the next byte, an end delimiter closes
//! the accumulation and has it parsed; a run that does not parse is dropped
//! and scanning goes on.

use vstd::prelude::*;
use crate::frame::{
    parse_frame, unescape, unescaped, Frame, FrameView, TANDEM_ESCAPE, TANDEM_FRAME_END,
    TANDEM_FRAME_START,
};

verus! {

/// What the scanner remembers between two bytes.
pub struct ScannerState {
    /// The bytes accumulated since the last delimiter, unescaped.
    pub buffer: Seq<u8>,
    /// Whether the previous byte was an escape byte that is still unused.
    pub escape_next: bool,
}

impl ScannerState {
    /// The state before the first byte and after every end delimiter.
    pub open spec fn idle() -> ScannerState {
        ScannerState { buffer: Seq::empty(), escape_next: false }
    }
}

/// The state after one more byte, and the frame that this byte completed.
pub open spec fn scan_byte(state: ScannerState, byte: u8) -> (ScannerState, Option<FrameView>) {
    if byte == TANDEM_FRAME_START {
        (ScannerState { buffer: seq![TANDEM_FRAME_START], escape_next: false }, None)
    } else if byte == TANDEM_FRAME_END {
        (
            ScannerState::idle(),
            match parse_frame(state.buffer.push(TANDEM_FRAME_END)) {
                Ok(frame) => Some(frame),
                Err(_) => None,
            },
        )
    } else if byte == TANDEM_ESCAPE {
        (ScannerState { buffer: state.buffer, escape_next: true }, None)
    } else {
        (
            ScannerState {
                buffer: state.buffer.push(
                    if state.escape_next {
                        unescaped(byte)
                    } else {
                        byte
                    },
                ),
                escape_next: false,
            },
            None,
        )
    }
}

/// The state after a run of bytes, and the frames completed on the way, in
/// the order of their end delimiters.
pub open spec fn scan(state: ScannerState, bytes: Seq<u8>) -> (ScannerState, Seq<FrameView>)
    decreases bytes.len(),
{
    if bytes.len() == 0 {
        (state, Seq::empty())
    } else {
        let before = scan(state, bytes.drop_last());
        let step = scan_byte(before.0, bytes.last());
        (
            step.0,
            match step.1 {
                Some(frame) => before.1.push(frame),
                None => before.1,
            },
        )
    }
}

/// The views of a sequence of frames.
pub open spec fn frame_views(frames: Seq<Frame>) -> Seq<FrameView> {
    frames.map_values(|frame: Frame| frame@)
}

/// The view of a frame that may be absent.
pub open spec fn frame_option_view(frame: Option<Frame>) -> Option<FrameView> {
    match frame {
        Some(frame) => Some(frame@),
        None => None,
    }
}

/// A streaming frame decoder.
#[derive(Debug)]
pub struct FrameScanner {
    buffer: Vec<u8>,
    escape_next: bool,
}

impl View for FrameScanner {
    type V = ScannerState;

    closed spec fn view(&self) -> ScannerState {
        ScannerState { buffer: self.buffer@, escape_next: self.escape_next }
    }
}

impl FrameScanner {
    /// A scanner that has seen no byte.
    pub fn new() -> (scanner: FrameScanner)
        ensures
            scanner@ == ScannerState::idle(),
    {
        FrameScanner { buffer: Vec::new(), escape_next: false }
    }

    /// Takes one byte of the stream. Returns the frame that the byte
    /// completed, if it was an end delimiter behind a well-formed frame.
    pub fn push(&mut self, byte: u8) -> (frame: Option<Frame>)
        ensures
            final(self)@ == scan_byte(old(self)@, byte).0,
            frame_option_view(frame) == scan_byte(old(self)@, byte).1,
    {
        if byte == TANDEM_FRAME_START {
            self.buffer.clear();
            self.buffer.push(TANDEM_FRAME_START);
            self.escape_next = false;
            assert(self.buffer@ =~= seq![TANDEM_FRAME_START]);
            None
        } else if byte == TANDEM_FRAME_END {
            self.buffer.push(TANDEM_FRAME_END);
            let parsed = Frame::try_from_bytes(self.buffer.as_slice());
            self.buffer.clear();
            self.escape_next = false;
            match parsed {
                Ok(frame) => Some(frame),
                Err(_) => None,
            }
        } else if byte == TANDEM_ESCAPE {
            self.escape_next = true;
            None
        } else {
            let plain = if self.escape_next {
                unescape(byte)
            } else {
                byte
            };
            self.buffer.push(plain);
            self.escape_next = false;
            None
        }
    }

    /// Takes a chunk of the stream. Returns the frames completed inside the
    /// chunk, in the order in which they ended.
    pub fn feed(&mut self, bytes: &[u8]) -> (frames: Vec<Frame>)
        ensures
            final(self)@ == scan(old(self)@, bytes@).0,
            frame_views(frames@) == scan(old(self)@, bytes@).1,
    {
        let mut frames: Vec<Frame> = Vec::new();
        let mut i: usize = 0;
        assert(frame_views(frames@) =~= Seq::<FrameView>::empty());
        while i < bytes.len()
            invariant
                i <= bytes.len(),
                self@ == scan(old(self)@, bytes@.take(i as int)).0,
                frame_views(frames@) == scan(old(self)@, bytes@.take(i as int)).1,
            decreases bytes.len() - i,
        {
            proof {
                assert(bytes@.take(i + 1).drop_last() =~= bytes@.take(i as int));
                assert(bytes@.take(i + 1).last() == bytes@[i as int]);
            }
            let ghost before = frames@;
            match self.push(bytes[i]) {
                Some(frame) => {
                    frames.push(frame);
                    assert(frame_views(frames@) =~= frame_views(before).push(frame@));
                },
                None => {},
            }
            i += 1;
        }
        assert(bytes@.take(i as int) =~= bytes@);
        frames
    }
}

impl Frame {
    /// The frames that a whole byte stream holds, scanned from its first
    /// byte.
    pub fn from_byte_stream(bytes: &[u8]) -> (frames: Vec<Frame>)
        ensures
            frame_views(frames@) == scan(ScannerState::idle(), bytes@).1,
    {
        let mut scanner = FrameScanner::new();
        scanner.feed(bytes)
    }
}

} // verus!
