//! Globally unique identifiers and their textual form.
//!
//! A GUID is written as 32 hexadecimal digits in groups of 8, 4, 4, 4 and 12,
//! separated by dashes. Upper and lower case digits are both read, and the
//! whole text may be enclosed in one pair of curly braces.

use vstd::prelude::*;

verus! {

/// A 128-bit identifier, held as the four fields of its binary layout.
#[derive(Clone, Copy, Debug, PartialEq, Eq, Hash)]
pub struct Guid {
    /// The first group of 8 hexadecimal digits.
    pub data1: u32,
    /// The second group, 4 digits.
    pub data2: u16,
    /// The third group, 4 digits.
    pub data3: u16,
    /// The fourth group (2 bytes) followed by the last group (6 bytes).
    pub data4: [u8; 8],
}

/// Whether `c` is one of `0-9`, `a-f`, `A-F`.
pub open spec fn is_hex_digit(c: char) -> bool {
    ||| '0' <= c <= '9'
    ||| 'a' <= c <= 'f'
    ||| 'A' <= c <= 'F'
}

/// The number a hexadecimal digit stands for.
pub open spec fn hex_digit_value(c: char) -> int {
    if '0' <= c <= '9' {
        c as int - '0' as int
    } else if 'a' <= c <= 'f' {
        c as int - 'a' as int + 10
    } else {
        c as int - 'A' as int + 10
    }
}

/// The byte written by the two digits of `s` that start at `i`.
pub open spec fn hex_pair_value(s: Seq<char>, i: int) -> int {
    hex_digit_value(s[i]) * 16 + hex_digit_value(s[i + 1])
}

/// Whether position `i` of the 36-character form holds a dash.
pub open spec fn is_dash_position(i: int) -> bool {
    i == 8 || i == 13 || i == 18 || i == 23
}

/// The 36-character form without braces: dashes at their four places and
/// hexadecimal digits everywhere else.
pub open spec fn is_canonical(s: Seq<char>) -> bool {
    &&& s.len() == 36
    &&& forall|i: int|
        0 <= i < 36 ==> if is_dash_position(i) {
            #[trigger] s[i] == '-'
        } else {
            is_hex_digit(s[i])
        }
}

/// The identifier that a text in the 36-character form denotes.
#[verifier::opaque]
pub open spec fn canonical_value(s: Seq<char>) -> Guid {
    Guid {
        data1: (hex_pair_value(s, 0) * 0x100_0000 + hex_pair_value(s, 2) * 0x1_0000
            + hex_pair_value(s, 4) * 0x100 + hex_pair_value(s, 6)) as u32,
        data2: (hex_pair_value(s, 9) * 0x100 + hex_pair_value(s, 11)) as u16,
        data3: (hex_pair_value(s, 14) * 0x100 + hex_pair_value(s, 16)) as u16,
        data4: [
            hex_pair_value(s, 19) as u8,
            hex_pair_value(s, 21) as u8,
            hex_pair_value(s, 24) as u8,
            hex_pair_value(s, 26) as u8,
            hex_pair_value(s, 28) as u8,
            hex_pair_value(s, 30) as u8,
            hex_pair_value(s, 32) as u8,
            hex_pair_value(s, 34) as u8,
        ],
    }
}

/// Whether `s` is the 36-character form enclosed in curly braces.
pub open spec fn is_braced(s: Seq<char>) -> bool {
    &&& s.len() == 38
    &&& s[0] == '{'
    &&& s[37] == '}'
    &&& is_canonical(s.subrange(1, 37))
}

/// The texts that denote an identifier.
pub open spec fn is_guid_text(s: Seq<char>) -> bool {
    is_canonical(s) || is_braced(s)
}

/// The identifier that a valid text denotes.
pub open spec fn text_value(s: Seq<char>) -> Guid {
    if s.len() == 38 {
        canonical_value(s.subrange(1, 37))
    } else {
        canonical_value(s)
    }
}

/// What parsing yields on any text: the identifier for a valid text, and
/// nothing otherwise.
pub open spec fn parse_text(s: Seq<char>) -> Option<Guid> {
    if is_guid_text(s) {
        Some(text_value(s))
    } else {
        None
    }
}

/// The lower-case hexadecimal digit for a number below 16.
pub open spec fn hex_digit_char(d: int) -> char {
    if d < 10 {
        (d + '0' as int) as char
    } else {
        (d - 10 + 'a' as int) as char
    }
}

/// The sixteen bytes of an identifier in the order in which they are written.
pub open spec fn byte_at(g: Guid, j: int) -> int {
    if j == 0 {
        g.data1 as int / 0x100_0000
    } else if j == 1 {
        g.data1 as int / 0x1_0000 % 0x100
    } else if j == 2 {
        g.data1 as int / 0x100 % 0x100
    } else if j == 3 {
        g.data1 as int % 0x100
    } else if j == 4 {
        g.data2 as int / 0x100
    } else if j == 5 {
        g.data2 as int % 0x100
    } else if j == 6 {
        g.data3 as int / 0x100
    } else if j == 7 {
        g.data3 as int % 0x100
    } else {
        g.data4[j - 8] as int
    }
}

/// How many of the 32 digits stand before position `i` of the 36-character
/// form.
pub open spec fn digit_index(i: int) -> int {
    if i < 8 {
        i
    } else if i < 13 {
        i - 1
    } else if i < 18 {
        i - 2
    } else if i < 23 {
        i - 3
    } else {
        i - 4
    }
}

/// The character at position `i` of the text written for `g`.
pub open spec fn text_char(g: Guid, i: int) -> char {
    if is_dash_position(i) {
        '-'
    } else if digit_index(i) % 2 == 0 {
        hex_digit_char(byte_at(g, digit_index(i) / 2) / 16)
    } else {
        hex_digit_char(byte_at(g, digit_index(i) / 2) % 16)
    }
}

/// The text written for an identifier: the 36-character form in lower case.
pub open spec fn text_of(g: Guid) -> Seq<char> {
    Seq::new(36, |i: int| text_char(g, i))
}

/// The one-character text of the lower-case digit for a number below 16.
fn hex_digit_str(d: u8) -> (s: &'static str)
    requires
        d < 16,
    ensures
        s@ == seq![hex_digit_char(d as int)],
{
    proof {
        reveal_strlit("0");
        reveal_strlit("1");
        reveal_strlit("2");
        reveal_strlit("3");
        reveal_strlit("4");
        reveal_strlit("5");
        reveal_strlit("6");
        reveal_strlit("7");
        reveal_strlit("8");
        reveal_strlit("9");
        reveal_strlit("a");
        reveal_strlit("b");
        reveal_strlit("c");
        reveal_strlit("d");
        reveal_strlit("e");
        reveal_strlit("f");
    }
    let s: &'static str = if d == 0 {
        "0"
    } else if d == 1 {
        "1"
    } else if d == 2 {
        "2"
    } else if d == 3 {
        "3"
    } else if d == 4 {
        "4"
    } else if d == 5 {
        "5"
    } else if d == 6 {
        "6"
    } else if d == 7 {
        "7"
    } else if d == 8 {
        "8"
    } else if d == 9 {
        "9"
    } else if d == 10 {
        "a"
    } else if d == 11 {
        "b"
    } else if d == 12 {
        "c"
    } else if d == 13 {
        "d"
    } else if d == 14 {
        "e"
    } else {
        "f"
    };
    s
}

/// Decides whether a character is a hexadecimal digit.
fn is_hex_digit_char(c: char) -> (b: bool)
    ensures
        b == is_hex_digit(c),
{
    ('0' <= c && c <= '9') || ('a' <= c && c <= 'f') || ('A' <= c && c <= 'F')
}

/// Decides whether `text` is in the 36-character form.
fn check_canonical(text: &str) -> (b: bool)
    ensures
        b == is_canonical(text@),
{
    let n: usize = text.unicode_len();
    if n != 36 {
        return false;
    }
    let mut i: usize = 0;
    while i < 36
        invariant
            i <= 36,
            text@.len() == 36,
            forall|j: int|
                0 <= j < i ==> if is_dash_position(j) {
                    #[trigger] text@[j] == '-'
                } else {
                    is_hex_digit(text@[j])
                },
        decreases 36 - i,
    {
        let c: char = text.get_char(i);
        let dash: bool = i == 8 || i == 13 || i == 18 || i == 23;
        if dash {
            if c != '-' {
                return false;
            }
        } else if !is_hex_digit_char(c) {
            return false;
        }
        i += 1;
    }
    true
}

/// Reads a text in the 36-character form with `windows::core::GUID::from`
/// and copies the four fields of its result.
///
/// That function panics unless its argument is exactly 36 bytes long with
/// dashes at their four places and hexadecimal digits elsewhere, which is
/// what `is_canonical` demands. It folds each pair of digits into a byte and
/// lays the bytes out most significant first: four in `data1`, two in
/// `data2`, two in `data3` and one in each element of `data4`.
#[verifier::external_body]
fn read_canonical(text: &str) -> (g: Guid)
    requires
        is_canonical(text@),
    ensures
        g == canonical_value(text@),
{
    let read = windows::core::GUID::from(text);
    Guid { data1: read.data1, data2: read.data2, data3: read.data3, data4: read.data4 }
}

impl Guid {
    /// Parses a textual identifier; `None` when the text is malformed.
    pub fn parse(text: &str) -> (r: Option<Guid>)
        ensures
            r == parse_text(text@),
    {
        let n: usize = text.unicode_len();
        if n == 36 {
            if check_canonical(text) {
                Some(read_canonical(text))
            } else {
                None
            }
        } else if n == 38 {
            if text.get_char(0) == '{' && text.get_char(37) == '}' {
                let core: &str = text.substring_char(1, 37);
                if check_canonical(core) {
                    Some(read_canonical(core))
                } else {
                    None
                }
            } else {
                None
            }
        } else {
            None
        }
    }

    /// One of the sixteen bytes of the identifier, in the order in which they
    /// are written.
    pub fn byte(&self, j: usize) -> (b: u8)
        requires
            j < 16,
        ensures
            b == byte_at(*self, j as int),
    {
        if j == 0 {
            (self.data1 / 0x100_0000) as u8
        } else if j == 1 {
            (self.data1 / 0x1_0000 % 0x100) as u8
        } else if j == 2 {
            (self.data1 / 0x100 % 0x100) as u8
        } else if j == 3 {
            (self.data1 % 0x100) as u8
        } else if j == 4 {
            (self.data2 / 0x100) as u8
        } else if j == 5 {
            (self.data2 % 0x100) as u8
        } else if j == 6 {
            (self.data3 / 0x100) as u8
        } else if j == 7 {
            (self.data3 % 0x100) as u8
        } else {
            self.data4[j - 8]
        }
    }

    /// Writes the identifier in the 36-character form, in lower case.
    pub fn to_text(&self) -> (text: String)
        ensures
            text@ == text_of(*self),
    {
        let mut text: String = String::new();
        let mut i: usize = 0;
        while i < 36
            invariant
                i <= 36,
                text@ == Seq::new(i as nat, |j: int| text_char(*self, j)),
            decreases 36 - i,
        {
            if i == 8 || i == 13 || i == 18 || i == 23 {
                proof {
                    reveal_strlit("-");
                }
                text.append("-");
            } else {
                let k: usize = if i < 8 {
                    i
                } else if i < 13 {
                    i - 1
                } else if i < 18 {
                    i - 2
                } else if i < 23 {
                    i - 3
                } else {
                    i - 4
                };
                let b: u8 = self.byte(k / 2);
                let d: u8 = if k % 2 == 0 {
                    b / 16
                } else {
                    b % 16
                };
                text.append(hex_digit_str(d));
            }
            i += 1;
        }
        text
    }

    /// Reads a textual identifier that is known to be well formed.
    pub fn from(text: &str) -> (g: Guid)
        requires
            is_guid_text(text@),
        ensures
            g == text_value(text@),
    {
        if text.unicode_len() == 38 {
            read_canonical(text.substring_char(1, 37))
        } else {
            read_canonical(text)
        }
    }
}

/// A number below 16 is read back from the digit written for it.
proof fn lemma_digit(d: int)
    requires
        0 <= d < 16,
    ensures
        is_hex_digit(hex_digit_char(d)),
        hex_digit_value(hex_digit_char(d)) == d,
{
}

/// Each of the sixteen bytes of an identifier is below 256.
proof fn lemma_byte_range(g: Guid, j: int)
    requires
        0 <= j < 16,
    ensures
        0 <= byte_at(g, j) < 256,
{
}

/// The two digits written for byte `j` are read back as that byte.
proof fn lemma_pair(g: Guid, j: int, i: int)
    requires
        0 <= j < 16,
        0 <= i < 35,
        !is_dash_position(i),
        !is_dash_position(i + 1),
        digit_index(i) == 2 * j,
    ensures
        hex_pair_value(text_of(g), i) == byte_at(g, j),
{
    lemma_byte_range(g, j);
    let b = byte_at(g, j);
    lemma_digit(b / 16);
    lemma_digit(b % 16);
}

/// The text written for an identifier is in the 36-character form.
pub proof fn lemma_text_is_canonical(g: Guid)
    ensures
        is_canonical(text_of(g)),
{
    let s = text_of(g);
    assert forall|i: int| 0 <= i < 36 implies if is_dash_position(i) {
        #[trigger] s[i] == '-'
    } else {
        is_hex_digit(s[i])
    } by {
        if !is_dash_position(i) {
            let j = digit_index(i) / 2;
            lemma_byte_range(g, j);
            lemma_digit(byte_at(g, j) / 16);
            lemma_digit(byte_at(g, j) % 16);
        }
    }
}

/// The four bytes taken from a 32-bit number put it together again.
proof fn lemma_four_bytes(x: int)
    requires
        0 <= x < 0x1_0000_0000,
    ensures
        (x / 0x100_0000) * 0x100_0000 + (x / 0x1_0000 % 0x100) * 0x1_0000 + (x / 0x100 % 0x100)
            * 0x100 + x % 0x100 == x,
{
}

/// The two bytes taken from a 16-bit number put it together again.
proof fn lemma_two_bytes(x: int)
    requires
        0 <= x < 0x1_0000,
    ensures
        (x / 0x100) * 0x100 + x % 0x100 == x,
{
}

/// The first three fields are read back from the text written for them.
proof fn lemma_read_numbers(g: Guid)
    ensures
        canonical_value(text_of(g)).data1 == g.data1,
        canonical_value(text_of(g)).data2 == g.data2,
        canonical_value(text_of(g)).data3 == g.data3,
{
    reveal(canonical_value);
    lemma_pair(g, 0, 0);
    lemma_pair(g, 1, 2);
    lemma_pair(g, 2, 4);
    lemma_pair(g, 3, 6);
    lemma_pair(g, 4, 9);
    lemma_pair(g, 5, 11);
    lemma_pair(g, 6, 14);
    lemma_pair(g, 7, 16);
    lemma_four_bytes(g.data1 as int);
    lemma_two_bytes(g.data2 as int);
    lemma_two_bytes(g.data3 as int);
}

/// Element `k` of the last field is read back from the text written for it.
proof fn lemma_read_byte(g: Guid, k: int)
    requires
        0 <= k < 8,
    ensures
        canonical_value(text_of(g)).data4[k] == g.data4[k],
{
    reveal(canonical_value);
    if k == 0 {
        lemma_pair(g, 8, 19);
    } else if k == 1 {
        lemma_pair(g, 9, 21);
    } else if k == 2 {
        lemma_pair(g, 10, 24);
    } else if k == 3 {
        lemma_pair(g, 11, 26);
    } else if k == 4 {
        lemma_pair(g, 12, 28);
    } else if k == 5 {
        lemma_pair(g, 13, 30);
    } else if k == 6 {
        lemma_pair(g, 14, 32);
    } else {
        lemma_pair(g, 15, 34);
    }
}

/// The last field is read back from the text written for it.
proof fn lemma_read_bytes(g: Guid)
    ensures
        canonical_value(text_of(g)).data4 == g.data4,
{
    let a = canonical_value(text_of(g)).data4;
    assert forall|k: int| 0 <= k < 8 implies a[k] == g.data4[k] by {
        lemma_read_byte(g, k);
    }
}

/// Writing an identifier and reading the text back gives the identifier
/// again.
pub proof fn lemma_write_then_read(g: Guid)
    ensures
        is_guid_text(text_of(g)),
        parse_text(text_of(g)) == Some(g),
{
    lemma_text_is_canonical(g);
    lemma_read_numbers(g);
    lemma_read_bytes(g);
}

/// Reading a well-formed text, writing the identifier and reading that text
/// again gives the same identifier.
pub proof fn lemma_read_write_read(s: Seq<char>)
    requires
        is_guid_text(s),
    ensures
        parse_text(s) is Some,
        parse_text(text_of(parse_text(s)->0)) == parse_text(s),
{
    lemma_write_then_read(text_value(s));
}

} // verus!
