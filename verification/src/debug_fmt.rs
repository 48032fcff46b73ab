//! Helper structures for runtime packing visualization.

use vstd::prelude::*;
use vstd::string::{StringExecFns, StringSliceAdditionalSpecFns};
use core::ops::Range;
use crate::bits::{bit_at, byte_bit};
use crate::packing::{PackedStruct, PackingError};
use crate::types_bits::ByteArray;

verus! {

/// A structure that can show its fields.
pub trait PackedStructDebug {
    /// What `fmt_fields` gives.
    closed spec fn spec_fmt_fields(&self) -> Seq<char> {
        arbitrary()
    }

    /// What `packed_struct_display_header` gives.
    closed spec fn spec_display_header() -> Seq<char> {
        arbitrary()
    }

    /// The table of the fields with their bits and values.
    fn fmt_fields(&self) -> (r: String)
        ensures
            r@ == self.spec_fmt_fields(),
    ;

    /// The name and the size of the structure.
    fn packed_struct_display_header() -> (r: String)
        ensures
            r@ == Self::spec_display_header(),
    ;
}

/// The bits from the first to the last of a range inside a slice of
/// bytes.
pub struct DebugBinaryByteSlice<'a> {
    pub bits: &'a Range<usize>,
    pub slice: &'a [u8],
}

/// The digits 0 and 1 for the bits `start` to `end` of the bytes.
pub open spec fn spec_binary_digits(slice: Seq<u8>, start: usize, end: usize) -> Seq<char> {
    Seq::new(
        (if start <= end {
            end - start + 1
        } else {
            0
        }) as nat,
        |k: int|
            if bit_at(slice, start + k) {
                '1'
            } else {
                '0'
            },
    )
}

proof fn lemma_bit_test(b: u8, k: u8)
    by (bit_vector)
    requires
        k < 8,
    ensures
        ((b & (1u8 << ((7 - k) as u8))) == (1u8 << ((7 - k) as u8))) == byte_bit(b, k),
{
}

impl<'a> DebugBinaryByteSlice<'a> {
    /// The digits 0 and 1 for the bits of the range. The range must lie
    /// inside the bytes.
    pub fn to_binary_string(&self) -> (r: String)
        requires
            self.bits.start <= self.bits.end ==> self.bits.end < 8 * self.slice@.len(),
            self.bits.end < usize::MAX,
        ensures
            r@ == spec_binary_digits(self.slice@, self.bits.start, self.bits.end),
    {
        let mut r = String::new();
        let start = self.bits.start;
        let end = self.bits.end;
        let mut i: usize = start;
        proof {
            reveal_strlit("1");
            reveal_strlit("0");
        }
        while i < end + 1
            invariant
                start <= i,
                start <= end ==> i <= end + 1,
                end < usize::MAX,
                start <= end ==> end < 8 * self.slice@.len(),
                "1"@ == seq!['1'],
                "0"@ == seq!['0'],
                r@ == spec_binary_digits(self.slice@, start, end).subrange(
                    0,
                    if start <= end {
                        i - start
                    } else {
                        0
                    },
                ),
            decreases end + 1 - i,
        {
            let byte = i / 8;
            let bit = i % 8;
            let bit = 7 - bit;
            let src_byte = self.slice[byte];
            proof {
                lemma_bit_test(src_byte, (i % 8) as u8);
            }
            let src_bit = (src_byte & (1u8 << bit)) == (1u8 << bit);
            let s = if src_bit {
                "1"
            } else {
                "0"
            };
            r.append(s);
            assert(r@ =~= spec_binary_digits(self.slice@, start, end).subrange(0, i + 1 - start));
            i += 1;
        }
        assert(r@ =~= spec_binary_digits(self.slice@, start, end));
        r
    }
}

/// The name, the bits and the shown value of a field.
pub struct DebugBitField {
    pub name: String,
    pub bits: Range<usize>,
    pub display_value: String,
}

/// The number of steps from the start of a range to its end.
pub open spec fn spec_range_len(r: Range<usize>) -> nat {
    if r.start < r.end {
        (r.end - r.start) as nat
    } else {
        0
    }
}

/// The length in bytes of the longest name among the first `n` fields.
pub open spec fn spec_max_name_len(fields: Seq<DebugBitField>, n: nat) -> nat
    decreases n,
{
    if n == 0 {
        0
    } else {
        let rest = spec_max_name_len(fields, (n - 1) as nat);
        let len = vstd::utf8::encode_utf8(fields[n - 1].name@).len();
        if len > rest {
            len
        } else {
            rest
        }
    }
}

/// The greatest length of the ranges of the first `n` fields.
pub open spec fn spec_max_bit_width(fields: Seq<DebugBitField>, n: nat) -> nat
    decreases n,
{
    if n == 0 {
        0
    } else {
        let rest = spec_max_bit_width(fields, (n - 1) as nat);
        let len = spec_range_len(fields[n - 1].bits);
        if len > rest {
            len
        } else {
            rest
        }
    }
}

/// `n` blanks.
pub open spec fn spec_blanks(n: nat) -> Seq<char> {
    Seq::new(n, |i: int| ' ')
}

/// A text at the right end of `width` places, with blanks in front of
/// it; the text alone where it is longer.
pub open spec fn spec_pad_left(s: Seq<char>, width: nat) -> Seq<char> {
    if width > s.len() {
        spec_blanks((width - s.len()) as nat) + s
    } else {
        s
    }
}

/// A text at the left end of `width` places, with blanks behind it; the
/// text alone where it is longer.
pub open spec fn spec_pad_right(s: Seq<char>, width: nat) -> Seq<char> {
    if width > s.len() {
        s + spec_blanks((width - s.len()) as nat)
    } else {
        s
    }
}

/// The decimal digits of a number, without leading zeroes.
pub open spec fn spec_decimal(n: nat) -> Seq<char>
    decreases n,
{
    if n < 10 {
        seq![spec_digit_char(n as u8)]
    } else {
        spec_decimal(n / 10).push(spec_digit_char((n % 10) as u8))
    }
}

/// A text in the form of `Debug`: between quotation marks, with what
/// cannot be shown written as an escape.
pub uninterp spec fn spec_debug_str(value: Seq<char>) -> Seq<char>;

/// `format!` of a text in the form of `Debug`. The contract gives the
/// result a name and says no more.
#[verifier::external_body]
fn debug_str(value: &str) -> (r: String)
    ensures
        r@ == spec_debug_str(value@),
{
    format!("{:?}", value)
}

/// The line of a field in a table without the bits: the name at the
/// right end of `width` places, a bar, and the value in the form of
/// `Debug`.
pub open spec fn spec_wide_line(name: Seq<char>, width: usize, value: Seq<char>) -> Seq<char> {
    spec_pad_left(name, width as nat) + " | "@ + spec_debug_str(value) + "\r\n"@
}

/// The line of a field in a table with the bits: the name at the right
/// end of `width` places; the first bit at the right end and the last
/// bit at the left end of three places; the binary digits and `spaces`
/// blanks; and the value in the form of `Debug`.
pub open spec fn spec_bits_line(
    name: Seq<char>,
    width: usize,
    bits_start: usize,
    bits_end: usize,
    binary: Seq<char>,
    spaces: usize,
    value: Seq<char>,
) -> Seq<char> {
    spec_pad_left(name, width as nat) + " | bits "@ + spec_pad_left(spec_decimal(bits_start as nat), 3)
        + ":"@ + spec_pad_right(spec_decimal(bits_end as nat), 3) + " | 0b"@ + binary + spec_blanks(
        spaces as nat,
    ) + " | "@ + spec_debug_str(value) + "\r\n"@
}

/// Adds `n` blanks to a text.
fn push_blanks(r: &mut String, n: usize)
    ensures
        final(r)@ == old(r)@ + spec_blanks(n as nat),
{
    let ghost before = r@;
    let mut i: usize = 0;
    while i < n
        invariant
            i <= n,
            r@ == before + spec_blanks(i as nat),
        decreases n - i,
    {
        r.push(' ');
        assert(r@ =~= before + spec_blanks((i + 1) as nat));
        i += 1;
    }
}

/// Adds a text at the right end of `width` places.
fn push_pad_left(r: &mut String, s: &str, width: usize)
    ensures
        final(r)@ == old(r)@ + spec_pad_left(s@, width as nat),
{
    let ghost before = r@;
    let len = s.unicode_len();
    if width > len {
        push_blanks(r, width - len);
    }
    r.append(s);
    assert(r@ =~= before + spec_pad_left(s@, width as nat));
}

/// The decimal digits of a number.
pub fn decimal_chars(n: u128) -> (v: Vec<char>)
    ensures
        v@ == spec_decimal(n as nat),
    decreases n,
{
    if n < 10 {
        let mut v: Vec<char> = Vec::new();
        v.push(digit_char(n as u8));
        assert(v@ =~= spec_decimal(n as nat));
        v
    } else {
        let mut v = decimal_chars(n / 10);
        v.push(digit_char((n % 10) as u8));
        v
    }
}

/// Adds the decimal digits of a number in three places: at their right
/// end, or at their left end.
fn push_decimal(r: &mut String, n: usize, right: bool)
    ensures
        final(r)@ == old(r)@ + (if right {
            spec_pad_left(spec_decimal(n as nat), 3)
        } else {
            spec_pad_right(spec_decimal(n as nat), 3)
        }),
{
    let ghost before = r@;
    let digits = decimal_chars(n as u128);
    let len = digits.len();
    if right && len < 3 {
        push_blanks(r, 3 - len);
    }
    let ghost start = r@;
    let mut i: usize = 0;
    while i < len
        invariant
            i <= len,
            len == digits@.len(),
            r@ == start + digits@.subrange(0, i as int),
        decreases len - i,
    {
        r.push(digits[i]);
        assert(r@ =~= start + digits@.subrange(0, i + 1));
        i += 1;
    }
    assert(digits@.subrange(0, len as int) =~= digits@);
    if !right && len < 3 {
        push_blanks(r, 3 - len);
    }
    assert(r@ =~= before + (if right {
        spec_pad_left(spec_decimal(n as nat), 3)
    } else {
        spec_pad_right(spec_decimal(n as nat), 3)
    }));
}

/// The line of a field in a table without the bits.
fn wide_line(name: &str, width: usize, value: &str) -> (r: String)
    ensures
        r@ == spec_wide_line(name@, width, value@),
{
    let mut r = String::new();
    push_pad_left(&mut r, name, width);
    r.append(" | ");
    let shown = debug_str(value);
    r.append(shown.as_str());
    r.append("\r\n");
    assert(r@ =~= spec_wide_line(name@, width, value@));
    r
}

/// The line of a field in a table with the bits.
fn bits_line(
    name: &str,
    width: usize,
    bits_start: usize,
    bits_end: usize,
    binary: &str,
    spaces: usize,
    value: &str,
) -> (r: String)
    ensures
        r@ == spec_bits_line(name@, width, bits_start, bits_end, binary@, spaces, value@),
{
    let mut r = String::new();
    push_pad_left(&mut r, name, width);
    r.append(" | bits ");
    push_decimal(&mut r, bits_start, true);
    r.append(":");
    push_decimal(&mut r, bits_end, false);
    r.append(" | 0b");
    r.append(binary);
    push_blanks(&mut r, spaces);
    r.append(" | ");
    let shown = debug_str(value);
    r.append(shown.as_str());
    r.append("\r\n");
    assert(r@ =~= spec_bits_line(name@, width, bits_start, bits_end, binary@, spaces, value@));
    r
}

/// The line of one field: with its bits where no field has more than 32
/// steps from its first to its last bit, without them otherwise.
pub open spec fn spec_field_line(
    packed_bytes: Seq<u8>,
    f: DebugBitField,
    max_name: nat,
    max_width: nat,
) -> Seq<char> {
    if max_width > 32 {
        spec_wide_line(f.name@, (max_name + 1) as usize, f.display_value@)
    } else {
        spec_bits_line(
            f.name@,
            (max_name + 1) as usize,
            f.bits.start,
            f.bits.end,
            spec_binary_digits(packed_bytes, f.bits.start, f.bits.end),
            (max_width - spec_range_len(f.bits)) as usize,
            f.display_value@,
        )
    }
}

/// The lines of the first `n` fields.
pub open spec fn spec_field_lines(
    packed_bytes: Seq<u8>,
    fields: Seq<DebugBitField>,
    max_name: nat,
    max_width: nat,
    n: nat,
) -> Seq<char>
    decreases n,
{
    if n == 0 {
        Seq::<char>::empty()
    } else {
        spec_field_lines(packed_bytes, fields, max_name, max_width, (n - 1) as nat) + spec_field_line(
            packed_bytes,
            fields[n - 1],
            max_name,
            max_width,
        )
    }
}

/// The table of the fields: one line for each.
pub open spec fn spec_packable_fmt_fields(packed_bytes: Seq<u8>, fields: Seq<DebugBitField>) -> Seq<
    char,
> {
    spec_field_lines(
        packed_bytes,
        fields,
        spec_max_name_len(fields, fields.len()),
        spec_max_bit_width(fields, fields.len()),
        fields.len(),
    )
}

/// The steps from the start of a range to its end.
fn range_len(r: &Range<usize>) -> (n: usize)
    ensures
        n == spec_range_len(*r),
{
    if r.start < r.end {
        r.end - r.start
    } else {
        0
    }
}

/// The table of the fields of a packed structure: for each field a line
/// with its name, its bits in the packed bytes and its value. Where a
/// field has more than 32 steps from its first to its last bit, the
/// lines hold the names and the values only. The bits that are shown
/// must lie inside the packed bytes.
pub fn packable_fmt_fields(packed_bytes: &[u8], fields: &[DebugBitField]) -> (r: String)
    requires
        spec_max_name_len(fields@, fields@.len()) < usize::MAX,
        spec_max_bit_width(fields@, fields@.len()) <= 32 ==> forall|i: int|
            0 <= i < fields@.len() ==> (#[trigger] fields@[i]).bits.end < usize::MAX && (
            fields@[i].bits.start <= fields@[i].bits.end ==> fields@[i].bits.end < 8
                * packed_bytes@.len()),
    ensures
        r@ == spec_packable_fmt_fields(packed_bytes@, fields@),
{
    let mut r = String::new();
    if fields.len() == 0 {
        return r;
    }
    let mut max_field_length_name: usize = 0;
    let mut max_bit_width: usize = 0;
    let mut i: usize = 0;
    while i < fields.len()
        invariant
            i <= fields@.len(),
            max_field_length_name == spec_max_name_len(fields@, i as nat),
            max_bit_width == spec_max_bit_width(fields@, i as nat),
        decreases fields@.len() - i,
    {
        let len = fields[i].name.as_str().as_bytes().len();
        if len > max_field_length_name {
            max_field_length_name = len;
        }
        let width = range_len(&fields[i].bits);
        if width > max_bit_width {
            max_bit_width = width;
        }
        i += 1;
    }
    let mut i: usize = 0;
    while i < fields.len()
        invariant
            i <= fields@.len(),
            max_field_length_name == spec_max_name_len(fields@, fields@.len()),
            max_bit_width == spec_max_bit_width(fields@, fields@.len()),
            max_field_length_name < usize::MAX,
            max_bit_width <= 32 ==> forall|i: int|
                0 <= i < fields@.len() ==> (#[trigger] fields@[i]).bits.end < usize::MAX && (
                fields@[i].bits.start <= fields@[i].bits.end ==> fields@[i].bits.end < 8
                    * packed_bytes@.len()),
            r@ == spec_field_lines(
                packed_bytes@,
                fields@,
                max_field_length_name as nat,
                max_bit_width as nat,
                i as nat,
            ),
        decreases fields@.len() - i,
    {
        let field = &fields[i];
        let line = if max_bit_width > 32 {
            wide_line(field.name.as_str(), max_field_length_name + 1, field.display_value.as_str())
        } else {
            let debug_binary = DebugBinaryByteSlice { bits: &field.bits, slice: packed_bytes };
            let binary = debug_binary.to_binary_string();
            proof {
                lemma_max_bit_width_bounds(fields@, fields@.len(), i as int);
            }
            bits_line(
                field.name.as_str(),
                max_field_length_name + 1,
                field.bits.start,
                field.bits.end,
                binary.as_str(),
                max_bit_width - range_len(&field.bits),
                field.display_value.as_str(),
            )
        };
        r.append(line.as_str());
        i += 1;
    }
    r
}

/// No field has a longer range than the longest.
pub proof fn lemma_max_bit_width_bounds(fields: Seq<DebugBitField>, n: nat, i: int)
    requires
        0 <= i < n,
    ensures
        spec_range_len(fields[i].bits) <= spec_max_bit_width(fields, n),
    decreases n,
{
    if i < n - 1 {
        lemma_max_bit_width_bounds(fields, (n - 1) as nat, i);
    }
}

/// What of a packed structure is shown.
pub struct PackedStructDisplay<'a, P> {
    pub packed_struct: &'a P,
    pub header: bool,
    pub raw_decimal: bool,
    pub raw_hex: bool,
    pub raw_binary: bool,
    pub fields: bool,
}

impl<'a, P> PackedStructDisplay<'a, P> {
    /// Shows everything of the structure.
    pub fn new(packed_struct: &'a P) -> (r: Self)
        ensures
            r.packed_struct == packed_struct,
            r.header,
            r.raw_decimal,
            r.raw_hex,
            r.raw_binary,
            r.fields,
    {
        PackedStructDisplay {
            packed_struct,
            header: true,
            raw_decimal: true,
            raw_hex: true,
            raw_binary: true,
            fields: true,
        }
    }
}

/// The notations in which the packed bytes are shown.
#[derive(Clone, Copy, Debug, PartialEq, Eq, Structural)]
pub enum ByteNotation {
    Decimal,
    Hex,
    Binary,
}

/// The character of a digit below 16: `0` to `9`, then `A` to `F`.
pub open spec fn spec_digit_char(d: u8) -> char {
    if d == 0 {
        '0'
    } else if d == 1 {
        '1'
    } else if d == 2 {
        '2'
    } else if d == 3 {
        '3'
    } else if d == 4 {
        '4'
    } else if d == 5 {
        '5'
    } else if d == 6 {
        '6'
    } else if d == 7 {
        '7'
    } else if d == 8 {
        '8'
    } else if d == 9 {
        '9'
    } else if d == 10 {
        'A'
    } else if d == 11 {
        'B'
    } else if d == 12 {
        'C'
    } else if d == 13 {
        'D'
    } else if d == 14 {
        'E'
    } else {
        'F'
    }
}

/// A byte in one of the notations: its decimal digits; `0x` and its
/// hexadecimal digits in upper case; or `0b` and its eight bits. The
/// first two show no leading zeroes.
pub open spec fn spec_byte_text(b: u8, notation: ByteNotation) -> Seq<char> {
    match notation {
        ByteNotation::Decimal => if b >= 100 {
            seq![spec_digit_char(b / 100), spec_digit_char((b / 10) % 10), spec_digit_char(b % 10)]
        } else if b >= 10 {
            seq![spec_digit_char(b / 10), spec_digit_char(b % 10)]
        } else {
            seq![spec_digit_char(b)]
        },
        ByteNotation::Hex => if b >= 16 {
            seq!['0', 'x', spec_digit_char(b / 16), spec_digit_char(b % 16)]
        } else {
            seq!['0', 'x', spec_digit_char(b)]
        },
        ByteNotation::Binary => seq!['0', 'b'] + Seq::new(
            8,
            |k: int|
                if byte_bit(b, k as u8) {
                    '1'
                } else {
                    '0'
                },
        ),
    }
}

/// The first `n` bytes in a notation, with a comma and a blank behind
/// each but the last of all bytes.
pub open spec fn spec_joined_bytes(bytes: Seq<u8>, notation: ByteNotation, n: nat) -> Seq<char>
    decreases n,
{
    if n == 0 {
        Seq::<char>::empty()
    } else {
        let head = spec_joined_bytes(bytes, notation, (n - 1) as nat) + spec_byte_text(
            bytes[n - 1],
            notation,
        );
        if n == bytes.len() {
            head
        } else {
            head + seq![',', ' ']
        }
    }
}

/// The title above the bytes in a notation.
pub open spec fn spec_notation_title(notation: ByteNotation) -> Seq<char> {
    match notation {
        ByteNotation::Decimal => "Decimal\r\n"@,
        ByteNotation::Hex => "Hex\r\n"@,
        ByteNotation::Binary => "Binary\r\n"@,
    }
}

/// The bytes in a notation: the title, the bytes in square brackets, and
/// an empty line.
pub open spec fn spec_byte_list(bytes: Seq<u8>, notation: ByteNotation) -> Seq<char> {
    spec_notation_title(notation) + seq!['['] + spec_joined_bytes(bytes, notation, bytes.len()) + seq![
        ']',
        '\r',
        '\n',
        '\r',
        '\n',
    ]
}

fn digit_char(d: u8) -> (c: char)
    requires
        d < 16,
    ensures
        c == spec_digit_char(d),
{
    match d {
        0 => '0',
        1 => '1',
        2 => '2',
        3 => '3',
        4 => '4',
        5 => '5',
        6 => '6',
        7 => '7',
        8 => '8',
        9 => '9',
        10 => 'A',
        11 => 'B',
        12 => 'C',
        13 => 'D',
        14 => 'E',
        _ => 'F',
    }
}

/// Adds a byte in a notation to a text.
pub fn push_byte_text(r: &mut String, b: u8, notation: ByteNotation)
    ensures
        final(r)@ == old(r)@ + spec_byte_text(b, notation),
{
    let ghost before = r@;
    match notation {
        ByteNotation::Decimal => {
            if b >= 100 {
                r.push(digit_char(b / 100));
                r.push(digit_char((b / 10) % 10));
                r.push(digit_char(b % 10));
            } else if b >= 10 {
                r.push(digit_char(b / 10));
                r.push(digit_char(b % 10));
            } else {
                r.push(digit_char(b));
            }
            assert(r@ =~= before + spec_byte_text(b, notation));
        },
        ByteNotation::Hex => {
            r.push('0');
            r.push('x');
            if b >= 16 {
                r.push(digit_char(b / 16));
                r.push(digit_char(b % 16));
            } else {
                r.push(digit_char(b));
            }
            assert(r@ =~= before + spec_byte_text(b, notation));
        },
        ByteNotation::Binary => {
            r.push('0');
            r.push('b');
            let ghost digits = spec_byte_text(b, notation);
            let mut k: u8 = 0;
            while k < 8
                invariant
                    k <= 8,
                    digits == spec_byte_text(b, ByteNotation::Binary),
                    r@ == before + digits.subrange(0, 2 + k),
                decreases 8 - k,
            {
                let c = if b & (0x80u8 >> k) != 0 {
                    '1'
                } else {
                    '0'
                };
                r.push(c);
                assert(r@ =~= before + digits.subrange(0, 3 + k));
                k += 1;
            }
            assert(digits.subrange(0, 10) =~= digits);
        },
    }
}

/// Adds the bytes in a notation to a text: the title, the bytes in
/// square brackets, and an empty line.
pub fn push_byte_list(r: &mut String, bytes: &[u8], notation: ByteNotation)
    ensures
        final(r)@ == old(r)@ + spec_byte_list(bytes@, notation),
{
    let ghost before = r@;
    match notation {
        ByteNotation::Decimal => r.append("Decimal\r\n"),
        ByteNotation::Hex => r.append("Hex\r\n"),
        ByteNotation::Binary => r.append("Binary\r\n"),
    }
    r.push('[');
    let ghost start = r@;
    let l = bytes.len();
    let mut i: usize = 0;
    while i < l
        invariant
            i <= l,
            l == bytes@.len(),
            r@ == start + spec_joined_bytes(bytes@, notation, i as nat),
        decreases l - i,
    {
        let ghost head = r@;
        push_byte_text(r, bytes[i], notation);
        if i + 1 != l {
            r.push(',');
            r.push(' ');
        }
        assert(r@ =~= start + spec_joined_bytes(bytes@, notation, (i + 1) as nat));
        i += 1;
    }
    r.push(']');
    r.push('\r');
    r.push('\n');
    r.push('\r');
    r.push('\n');
    assert(r@ =~= before + spec_byte_list(bytes@, notation));
}

impl<'a, P: PackedStruct + PackedStructDebug> PackedStructDisplay<'a, P> {
    /// What is shown of a structure whose packed bytes are `packed`: the
    /// header and an empty line, the bytes in decimal, hexadecimal and
    /// binary notation, and the table of the fields, each of them if it
    /// is asked for.
    pub open spec fn spec_display_string(&self, packed: Seq<u8>) -> Seq<char> {
        (if self.header {
            P::spec_display_header() + seq!['\r', '\n', '\r', '\n']
        } else {
            Seq::<char>::empty()
        }) + (if self.raw_decimal {
            spec_byte_list(packed, ByteNotation::Decimal)
        } else {
            Seq::<char>::empty()
        }) + (if self.raw_hex {
            spec_byte_list(packed, ByteNotation::Hex)
        } else {
            Seq::<char>::empty()
        }) + (if self.raw_binary {
            spec_byte_list(packed, ByteNotation::Binary)
        } else {
            Seq::<char>::empty()
        }) + (if self.fields {
            self.packed_struct.spec_fmt_fields()
        } else {
            Seq::<char>::empty()
        })
    }

    /// What a packed structure shows of itself, or the error of packing
    /// it.
    pub fn display_string(&self) -> (r: Result<String, PackingError>)
        ensures
            match self.packed_struct.spec_pack() {
                Ok(packed) => (r matches Ok(s) && s@ == self.spec_display_string(packed)),
                Err(e) => r == Err::<String, PackingError>(e),
            },
    {
        let packed = match self.packed_struct.pack() {
            Ok(packed) => packed,
            Err(e) => {
                return Err(e);
            },
        };
        let mut s = String::new();
        if self.header {
            let header = P::packed_struct_display_header();
            s.append(header.as_str());
            s.push('\r');
            s.push('\n');
            s.push('\r');
            s.push('\n');
            assert(s@ =~= P::spec_display_header() + seq!['\r', '\n', '\r', '\n']);
        }
        let ghost a = s@;
        if self.raw_decimal {
            push_byte_list(&mut s, packed.as_bytes_slice(), ByteNotation::Decimal);
        }
        let ghost b = s@;
        if self.raw_hex {
            push_byte_list(&mut s, packed.as_bytes_slice(), ByteNotation::Hex);
        }
        let ghost c = s@;
        if self.raw_binary {
            push_byte_list(&mut s, packed.as_bytes_slice(), ByteNotation::Binary);
        }
        let ghost d = s@;
        if self.fields {
            let fields = self.packed_struct.fmt_fields();
            s.append(fields.as_str());
        }
        assert(s@ =~= self.spec_display_string(packed.bytes()));
        Ok(s)
    }
}

} // verus!
