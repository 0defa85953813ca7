//! Bytes as hexadecimal text.

use vstd::prelude::*;
use vstd::string::StringExecFns;

verus! {

/// The lower-case hexadecimal digit of a value below sixteen.
pub open spec fn lower_hex_char(nibble: u8) -> char {
    if nibble == 0 {
        '0'
    } else if nibble == 1 {
        '1'
    } else if nibble == 2 {
        '2'
    } else if nibble == 3 {
        '3'
    } else if nibble == 4 {
        '4'
    } else if nibble == 5 {
        '5'
    } else if nibble == 6 {
        '6'
    } else if nibble == 7 {
        '7'
    } else if nibble == 8 {
        '8'
    } else if nibble == 9 {
        '9'
    } else if nibble == 10 {
        'a'
    } else if nibble == 11 {
        'b'
    } else if nibble == 12 {
        'c'
    } else if nibble == 13 {
        'd'
    } else if nibble == 14 {
        'e'
    } else {
        'f'
    }
}

/// The upper-case hexadecimal digit of a value below sixteen.
pub open spec fn upper_hex_char(nibble: u8) -> char {
    if nibble == 0 {
        '0'
    } else if nibble == 1 {
        '1'
    } else if nibble == 2 {
        '2'
    } else if nibble == 3 {
        '3'
    } else if nibble == 4 {
        '4'
    } else if nibble == 5 {
        '5'
    } else if nibble == 6 {
        '6'
    } else if nibble == 7 {
        '7'
    } else if nibble == 8 {
        '8'
    } else if nibble == 9 {
        '9'
    } else if nibble == 10 {
        'A'
    } else if nibble == 11 {
        'B'
    } else if nibble == 12 {
        'C'
    } else if nibble == 13 {
        'D'
    } else if nibble == 14 {
        'E'
    } else {
        'F'
    }
}

/// The two lower-case hexadecimal digits of a byte.
pub open spec fn lower_hex_pair(byte: u8) -> Seq<char> {
    seq![lower_hex_char(byte / 16), lower_hex_char(byte % 16)]
}

/// The two upper-case hexadecimal digits of a byte.
pub open spec fn upper_hex_pair(byte: u8) -> Seq<char> {
    seq![upper_hex_char(byte / 16), upper_hex_char(byte % 16)]
}

/// The bytes as pairs of lower-case hexadecimal digits with one space
/// between two pairs.
pub open spec fn hex_text(bytes: Seq<u8>) -> Seq<char>
    decreases bytes.len(),
{
    if bytes.len() == 0 {
        Seq::empty()
    } else if bytes.len() == 1 {
        lower_hex_pair(bytes[0])
    } else {
        hex_text(bytes.drop_last()) + seq![' '] + lower_hex_pair(bytes.last())
    }
}

/// One lower-case hexadecimal digit as text.
fn lower_hex_digit(nibble: u8) -> (digit: &'static str)
    requires
        nibble < 16,
    ensures
        digit@ =~= seq![lower_hex_char(nibble)],
{
    match nibble {
        0 => {
            proof {
                reveal_strlit("0");
            }
            "0"
        },
        1 => {
            proof {
                reveal_strlit("1");
            }
            "1"
        },
        2 => {
            proof {
                reveal_strlit("2");
            }
            "2"
        },
        3 => {
            proof {
                reveal_strlit("3");
            }
            "3"
        },
        4 => {
            proof {
                reveal_strlit("4");
            }
            "4"
        },
        5 => {
            proof {
                reveal_strlit("5");
            }
            "5"
        },
        6 => {
            proof {
                reveal_strlit("6");
            }
            "6"
        },
        7 => {
            proof {
                reveal_strlit("7");
            }
            "7"
        },
        8 => {
            proof {
                reveal_strlit("8");
            }
            "8"
        },
        9 => {
            proof {
                reveal_strlit("9");
            }
            "9"
        },
        10 => {
            proof {
                reveal_strlit("a");
            }
            "a"
        },
        11 => {
            proof {
                reveal_strlit("b");
            }
            "b"
        },
        12 => {
            proof {
                reveal_strlit("c");
            }
            "c"
        },
        13 => {
            proof {
                reveal_strlit("d");
            }
            "d"
        },
        14 => {
            proof {
                reveal_strlit("e");
            }
            "e"
        },
        _ => {
            proof {
                reveal_strlit("f");
            }
            "f"
        },
    }
}

/// One upper-case hexadecimal digit as text.
fn upper_hex_digit(nibble: u8) -> (digit: &'static str)
    requires
        nibble < 16,
    ensures
        digit@ =~= seq![upper_hex_char(nibble)],
{
    match nibble {
        0 => {
            proof {
                reveal_strlit("0");
            }
            "0"
        },
        1 => {
            proof {
                reveal_strlit("1");
            }
            "1"
        },
        2 => {
            proof {
                reveal_strlit("2");
            }
            "2"
        },
        3 => {
            proof {
                reveal_strlit("3");
            }
            "3"
        },
        4 => {
            proof {
                reveal_strlit("4");
            }
            "4"
        },
        5 => {
            proof {
                reveal_strlit("5");
            }
            "5"
        },
        6 => {
            proof {
                reveal_strlit("6");
            }
            "6"
        },
        7 => {
            proof {
                reveal_strlit("7");
            }
            "7"
        },
        8 => {
            proof {
                reveal_strlit("8");
            }
            "8"
        },
        9 => {
            proof {
                reveal_strlit("9");
            }
            "9"
        },
        10 => {
            proof {
                reveal_strlit("A");
            }
            "A"
        },
        11 => {
            proof {
                reveal_strlit("B");
            }
            "B"
        },
        12 => {
            proof {
                reveal_strlit("C");
            }
            "C"
        },
        13 => {
            proof {
                reveal_strlit("D");
            }
            "D"
        },
        14 => {
            proof {
                reveal_strlit("E");
            }
            "E"
        },
        _ => {
            proof {
                reveal_strlit("F");
            }
            "F"
        },
    }
}

/// Adds the two lower-case hexadecimal digits of `byte` to `text`.
pub fn push_lower_hex(text: &mut String, byte: u8)
    ensures
        final(text)@ == old(text)@ + lower_hex_pair(byte),
{
    text.append(lower_hex_digit(byte / 16));
    text.append(lower_hex_digit(byte % 16));
    assert(text@ =~= old(text)@ + lower_hex_pair(byte));
}

/// Adds the two upper-case hexadecimal digits of `byte` to `text`.
pub fn push_upper_hex(text: &mut String, byte: u8)
    ensures
        final(text)@ == old(text)@ + upper_hex_pair(byte),
{
    text.append(upper_hex_digit(byte / 16));
    text.append(upper_hex_digit(byte % 16));
    assert(text@ =~= old(text)@ + upper_hex_pair(byte));
}

/// A byte as a decimal number without leading zeros.
pub open spec fn decimal_text(byte: u8) -> Seq<char> {
    if byte < 10 {
        seq![lower_hex_char(byte)]
    } else if byte < 100 {
        seq![lower_hex_char(byte / 10), lower_hex_char(byte % 10)]
    } else {
        seq![lower_hex_char(byte / 100), lower_hex_char(byte / 10 % 10), lower_hex_char(byte % 10)]
    }
}

/// Adds `byte` as a decimal number to `text`.
pub fn push_decimal(text: &mut String, byte: u8)
    ensures
        final(text)@ == old(text)@ + decimal_text(byte),
{
    if byte >= 100 {
        text.append(lower_hex_digit(byte / 100));
    }
    if byte >= 10 {
        text.append(lower_hex_digit(byte / 10 % 10));
    }
    text.append(lower_hex_digit(byte % 10));
    assert(text@ =~= old(text)@ + decimal_text(byte));
}

/// Hexadecimal text of byte slices.
pub trait U8ArrayExtension {
    /// The view of the bytes that the text is made from.
    spec fn hex_source(&self) -> Seq<u8>;

    /// The bytes as lower-case hexadecimal pairs separated by single spaces.
    fn format_as_hex(&self) -> (text: String)
        ensures
            text@ == hex_text(self.hex_source()),
    ;

    /// The first `lenght` bytes as lower-case hexadecimal pairs separated by
    /// single spaces.
    fn format_as_hex_with_lenght(&self, lenght: usize) -> (text: String)
        requires
            lenght <= self.hex_source().len(),
        ensures
            text@ == hex_text(self.hex_source().take(lenght as int)),
    ;
}

impl U8ArrayExtension for [u8] {
    open spec fn hex_source(&self) -> Seq<u8> {
        self@
    }

    fn format_as_hex(&self) -> (text: String) {
        let mut text = String::new();
        let mut i: usize = 0;
        while i < self.len()
            invariant
                i <= self.len(),
                text@ == hex_text(self@.take(i as int)),
            decreases self.len() - i,
        {
            proof {
                assert(self@.take(i + 1).drop_last() =~= self@.take(i as int));
                assert(self@.take(i + 1).last() == self@[i as int]);
                assert(self@.take(i + 1)[0] == self@[0]);
            }
            if i > 0 {
                proof {
                    reveal_strlit(" ");
                }
                text.append(" ");
                assert(text@ =~= hex_text(self@.take(i as int)) + seq![' ']);
            }
            push_lower_hex(&mut text, self[i]);
            i += 1;
        }
        assert(self@.take(i as int) =~= self@);
        text
    }

    fn format_as_hex_with_lenght(&self, lenght: usize) -> (text: String) {
        let head = vstd::slice::slice_subrange(self, 0, lenght);
        assert(head@ =~= self@.take(lenght as int));
        head.format_as_hex()
    }
}

} // verus!
