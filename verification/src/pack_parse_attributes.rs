//! The attributes of a structure and of its fields.

use vstd::prelude::*;
use vstd::string::StrSliceExecFns;
use crate::pack_parse::{BitNumbering, IntegerEndianness, BitsPositionParsed};

verus! {

/// The names of the attributes of a structure.
#[derive(Clone, Copy, Debug, PartialEq, Eq, Structural)]
pub enum PackStructAttributeKind {
    SizeBytes,
    DefaultIntEndianness,
    BitNumbering,
}

/// An attribute of a structure.
#[derive(Clone, Copy, Debug, PartialEq, Eq, Structural)]
pub enum PackStructAttribute {
    SizeBytes(usize),
    DefaultIntEndianness(IntegerEndianness),
    BitNumbering(BitNumbering),
}

/// The names of the attributes of a field.
#[derive(Clone, Copy, Debug, PartialEq, Eq, Structural)]
pub enum PackFieldAttributeKind {
    IntEndiannes,
    BitPosition,
    BytePosition,
    ElementSizeBytes,
    ElementSizeBits,
    SizeBytes,
    SizeBits,
    Ty,
}

/// An attribute of a field.
#[derive(Clone, Copy, Debug, PartialEq, Eq, Structural)]
pub enum PackFieldAttribute {
    IntEndiannes(IntegerEndianness),
    BitPosition(BitsPositionParsed),
    BytePosition(BitsPositionParsed),
    SizeBits(usize),
    ElementSizeBits(usize),
    Ty(TyKind),
}

/// The kinds of type that an attribute can name.
#[derive(Clone, Copy, Debug, PartialEq, Eq, Structural)]
pub enum TyKind {
    Enum,
}

/// What `a` says of the bit numbering, if anything.
pub open spec fn bit_numbering_of(a: PackStructAttribute) -> Option<BitNumbering> {
    match a {
        PackStructAttribute::BitNumbering(b) => Some(b),
        _ => None,
    }
}

/// The first bit numbering among the attributes from index `i` on.
pub open spec fn spec_first_bit_numbering(attrs: Seq<PackStructAttribute>, i: int) -> Option<BitNumbering>
    decreases attrs.len() - i,
{
    if i < 0 || i >= attrs.len() {
        None
    } else if bit_numbering_of(attrs[i]).is_some() {
        bit_numbering_of(attrs[i])
    } else {
        spec_first_bit_numbering(attrs, i + 1)
    }
}

/// The first bit numbering that the attributes give.
pub fn first_bit_numbering(attrs: &Vec<PackStructAttribute>) -> (r: Option<BitNumbering>)
    ensures
        r == spec_first_bit_numbering(attrs@, 0),
{
    let mut i: usize = 0;
    while i < attrs.len()
        invariant
            i <= attrs@.len(),
            spec_first_bit_numbering(attrs@, 0) == spec_first_bit_numbering(attrs@, i as int),
        decreases attrs@.len() - i,
    {
        match attrs[i] {
            PackStructAttribute::BitNumbering(b) => { return Some(b); },
            _ => {},
        }
        i += 1;
    }
    None
}

/// What `a` says of the default byte order, if anything.
pub open spec fn default_int_endianness_of(a: PackStructAttribute) -> Option<IntegerEndianness> {
    match a {
        PackStructAttribute::DefaultIntEndianness(e) => Some(e),
        _ => None,
    }
}

/// The first default byte order among the attributes from index `i` on.
pub open spec fn spec_first_default_int_endianness(attrs: Seq<PackStructAttribute>, i: int) -> Option<IntegerEndianness>
    decreases attrs.len() - i,
{
    if i < 0 || i >= attrs.len() {
        None
    } else if default_int_endianness_of(attrs[i]).is_some() {
        default_int_endianness_of(attrs[i])
    } else {
        spec_first_default_int_endianness(attrs, i + 1)
    }
}

/// The first default byte order that the attributes give.
pub fn first_default_int_endianness(attrs: &Vec<PackStructAttribute>) -> (r: Option<IntegerEndianness>)
    ensures
        r == spec_first_default_int_endianness(attrs@, 0),
{
    let mut i: usize = 0;
    while i < attrs.len()
        invariant
            i <= attrs@.len(),
            spec_first_default_int_endianness(attrs@, 0) == spec_first_default_int_endianness(attrs@, i as int),
        decreases attrs@.len() - i,
    {
        match attrs[i] {
            PackStructAttribute::DefaultIntEndianness(e) => { return Some(e); },
            _ => {},
        }
        i += 1;
    }
    None
}

/// What `a` says of the size in bytes, if anything.
pub open spec fn struct_size_bytes_of(a: PackStructAttribute) -> Option<usize> {
    match a {
        PackStructAttribute::SizeBytes(n) => Some(n),
        _ => None,
    }
}

/// The first size in bytes among the attributes from index `i` on.
pub open spec fn spec_first_struct_size_bytes(attrs: Seq<PackStructAttribute>, i: int) -> Option<usize>
    decreases attrs.len() - i,
{
    if i < 0 || i >= attrs.len() {
        None
    } else if struct_size_bytes_of(attrs[i]).is_some() {
        struct_size_bytes_of(attrs[i])
    } else {
        spec_first_struct_size_bytes(attrs, i + 1)
    }
}

/// The first size in bytes that the attributes give.
pub fn first_struct_size_bytes(attrs: &Vec<PackStructAttribute>) -> (r: Option<usize>)
    ensures
        r == spec_first_struct_size_bytes(attrs@, 0),
{
    let mut i: usize = 0;
    while i < attrs.len()
        invariant
            i <= attrs@.len(),
            spec_first_struct_size_bytes(attrs@, 0) == spec_first_struct_size_bytes(attrs@, i as int),
        decreases attrs@.len() - i,
    {
        match attrs[i] {
            PackStructAttribute::SizeBytes(n) => { return Some(n); },
            _ => {},
        }
        i += 1;
    }
    None
}

/// What `a` says of the position, in bits or in bytes, if anything.
pub open spec fn bits_position_of(a: PackFieldAttribute) -> Option<BitsPositionParsed> {
    match a {
        PackFieldAttribute::BitPosition(b) => Some(b),
        PackFieldAttribute::BytePosition(b) => Some(b),
        _ => None,
    }
}

/// The first position, in bits or in bytes among the attributes from index `i` on.
pub open spec fn spec_first_bits_position(attrs: Seq<PackFieldAttribute>, i: int) -> Option<BitsPositionParsed>
    decreases attrs.len() - i,
{
    if i < 0 || i >= attrs.len() {
        None
    } else if bits_position_of(attrs[i]).is_some() {
        bits_position_of(attrs[i])
    } else {
        spec_first_bits_position(attrs, i + 1)
    }
}

/// The first position, in bits or in bytes that the attributes give.
pub fn first_bits_position(attrs: &Vec<PackFieldAttribute>) -> (r: Option<BitsPositionParsed>)
    ensures
        r == spec_first_bits_position(attrs@, 0),
{
    let mut i: usize = 0;
    while i < attrs.len()
        invariant
            i <= attrs@.len(),
            spec_first_bits_position(attrs@, 0) == spec_first_bits_position(attrs@, i as int),
        decreases attrs@.len() - i,
    {
        match attrs[i] {
            PackFieldAttribute::BitPosition(b) => { return Some(b); },
            PackFieldAttribute::BytePosition(b) => { return Some(b); },
            _ => {},
        }
        i += 1;
    }
    None
}

/// What `a` says of the size in bits, if anything.
pub open spec fn size_bits_of(a: PackFieldAttribute) -> Option<usize> {
    match a {
        PackFieldAttribute::SizeBits(n) => Some(n),
        _ => None,
    }
}

/// The first size in bits among the attributes from index `i` on.
pub open spec fn spec_first_size_bits(attrs: Seq<PackFieldAttribute>, i: int) -> Option<usize>
    decreases attrs.len() - i,
{
    if i < 0 || i >= attrs.len() {
        None
    } else if size_bits_of(attrs[i]).is_some() {
        size_bits_of(attrs[i])
    } else {
        spec_first_size_bits(attrs, i + 1)
    }
}

/// The first size in bits that the attributes give.
pub fn first_size_bits(attrs: &Vec<PackFieldAttribute>) -> (r: Option<usize>)
    ensures
        r == spec_first_size_bits(attrs@, 0),
{
    let mut i: usize = 0;
    while i < attrs.len()
        invariant
            i <= attrs@.len(),
            spec_first_size_bits(attrs@, 0) == spec_first_size_bits(attrs@, i as int),
        decreases attrs@.len() - i,
    {
        match attrs[i] {
            PackFieldAttribute::SizeBits(n) => { return Some(n); },
            _ => {},
        }
        i += 1;
    }
    None
}

/// The number of bits from one bit to another, both of them counted,
/// whichever comes first; the greatest number where there are more.
pub open spec fn spec_range_width(a: usize, b: usize) -> usize {
    let d = if a <= b {
        b - a
    } else {
        a - b
    };
    if d == usize::MAX {
        usize::MAX
    } else {
        (d + 1) as usize
    }
}

/// The width in bits that `a` gives to a field, if it gives one: a size
/// in bits, or the bits from the first to the last of a range.
pub open spec fn width_of(a: PackFieldAttribute) -> Option<usize> {
    match a {
        PackFieldAttribute::SizeBits(n) => Some(n),
        PackFieldAttribute::ElementSizeBits(n) => Some(n),
        PackFieldAttribute::BitPosition(BitsPositionParsed::Range(a, b)) => Some(spec_range_width(a, b)),
        PackFieldAttribute::BytePosition(BitsPositionParsed::Range(a, b)) => Some(spec_range_width(a, b)),
        _ => None,
    }
}

/// The first width among the attributes from index `i` on.
pub open spec fn spec_first_width(attrs: Seq<PackFieldAttribute>, i: int) -> Option<usize>
    decreases attrs.len() - i,
{
    if i < 0 || i >= attrs.len() {
        None
    } else if width_of(attrs[i]).is_some() {
        width_of(attrs[i])
    } else {
        spec_first_width(attrs, i + 1)
    }
}

/// The width of a field that holds an enum: the first width that its
/// attributes give, or 64 bits where they give none. A field whose
/// attributes name no enum has none.
pub open spec fn spec_enum_bits(attrs: Seq<PackFieldAttribute>) -> Option<usize> {
    if spec_first_enum_ty(attrs, 0) is None {
        None
    } else {
        match spec_first_width(attrs, 0) {
            Some(n) => Some(n),
            None => Some(64),
        }
    }
}

fn range_width(a: usize, b: usize) -> (r: usize)
    ensures
        r == spec_range_width(a, b),
{
    let d = if a <= b {
        b - a
    } else {
        a - b
    };
    if d == usize::MAX {
        usize::MAX
    } else {
        d + 1
    }
}

/// The width of a field that holds an enum: the first width that its
/// attributes give, or 64 bits where they give none. A field whose
/// attributes name no enum has none.
pub fn enum_bits(attrs: &Vec<PackFieldAttribute>) -> (r: Option<usize>)
    ensures
        r == spec_enum_bits(attrs@),
{
    if first_enum_ty(attrs).is_none() {
        return None;
    }
    let mut i: usize = 0;
    while i < attrs.len()
        invariant
            i <= attrs@.len(),
            spec_first_enum_ty(attrs@, 0) is Some,
            spec_first_width(attrs@, 0) == spec_first_width(attrs@, i as int),
        decreases attrs@.len() - i,
    {
        match attrs[i] {
            PackFieldAttribute::SizeBits(n) => {
                return Some(n);
            },
            PackFieldAttribute::ElementSizeBits(n) => {
                return Some(n);
            },
            PackFieldAttribute::BitPosition(BitsPositionParsed::Range(a, b)) => {
                return Some(range_width(a, b));
            },
            PackFieldAttribute::BytePosition(BitsPositionParsed::Range(a, b)) => {
                return Some(range_width(a, b));
            },
            _ => {},
        }
        i += 1;
    }
    Some(64)
}

/// What `a` says of the size of an element in bits, if anything.
pub open spec fn element_size_bits_of(a: PackFieldAttribute) -> Option<usize> {
    match a {
        PackFieldAttribute::ElementSizeBits(n) => Some(n),
        _ => None,
    }
}

/// The first size of an element in bits among the attributes from index `i` on.
pub open spec fn spec_first_element_size_bits(attrs: Seq<PackFieldAttribute>, i: int) -> Option<usize>
    decreases attrs.len() - i,
{
    if i < 0 || i >= attrs.len() {
        None
    } else if element_size_bits_of(attrs[i]).is_some() {
        element_size_bits_of(attrs[i])
    } else {
        spec_first_element_size_bits(attrs, i + 1)
    }
}

/// The first size of an element in bits that the attributes give.
pub fn first_element_size_bits(attrs: &Vec<PackFieldAttribute>) -> (r: Option<usize>)
    ensures
        r == spec_first_element_size_bits(attrs@, 0),
{
    let mut i: usize = 0;
    while i < attrs.len()
        invariant
            i <= attrs@.len(),
            spec_first_element_size_bits(attrs@, 0) == spec_first_element_size_bits(attrs@, i as int),
        decreases attrs@.len() - i,
    {
        match attrs[i] {
            PackFieldAttribute::ElementSizeBits(n) => { return Some(n); },
            _ => {},
        }
        i += 1;
    }
    None
}

/// What `a` says of the byte order, if anything.
pub open spec fn int_endianness_of(a: PackFieldAttribute) -> Option<IntegerEndianness> {
    match a {
        PackFieldAttribute::IntEndiannes(e) => Some(e),
        _ => None,
    }
}

/// The first byte order among the attributes from index `i` on.
pub open spec fn spec_first_int_endianness(attrs: Seq<PackFieldAttribute>, i: int) -> Option<IntegerEndianness>
    decreases attrs.len() - i,
{
    if i < 0 || i >= attrs.len() {
        None
    } else if int_endianness_of(attrs[i]).is_some() {
        int_endianness_of(attrs[i])
    } else {
        spec_first_int_endianness(attrs, i + 1)
    }
}

/// The first byte order that the attributes give.
pub fn first_int_endianness(attrs: &Vec<PackFieldAttribute>) -> (r: Option<IntegerEndianness>)
    ensures
        r == spec_first_int_endianness(attrs@, 0),
{
    let mut i: usize = 0;
    while i < attrs.len()
        invariant
            i <= attrs@.len(),
            spec_first_int_endianness(attrs@, 0) == spec_first_int_endianness(attrs@, i as int),
        decreases attrs@.len() - i,
    {
        match attrs[i] {
            PackFieldAttribute::IntEndiannes(e) => { return Some(e); },
            _ => {},
        }
        i += 1;
    }
    None
}

/// What `a` says of the kind of type, if anything.
pub open spec fn enum_ty_of(a: PackFieldAttribute) -> Option<TyKind> {
    match a {
        PackFieldAttribute::Ty(t) => Some(t),
        _ => None,
    }
}

/// The first kind of type among the attributes from index `i` on.
pub open spec fn spec_first_enum_ty(attrs: Seq<PackFieldAttribute>, i: int) -> Option<TyKind>
    decreases attrs.len() - i,
{
    if i < 0 || i >= attrs.len() {
        None
    } else if enum_ty_of(attrs[i]).is_some() {
        enum_ty_of(attrs[i])
    } else {
        spec_first_enum_ty(attrs, i + 1)
    }
}

/// The first kind of type that the attributes give.
pub fn first_enum_ty(attrs: &Vec<PackFieldAttribute>) -> (r: Option<TyKind>)
    ensures
        r == spec_first_enum_ty(attrs@, 0),
{
    let mut i: usize = 0;
    while i < attrs.len()
        invariant
            i <= attrs@.len(),
            spec_first_enum_ty(attrs@, 0) == spec_first_enum_ty(attrs@, i as int),
        decreases attrs@.len() - i,
    {
        match attrs[i] {
            PackFieldAttribute::Ty(t) => { return Some(t); },
            _ => {},
        }
        i += 1;
    }
    None
}

/// Whether a character is white space: one of the 25 characters with the
/// property `White_Space` of Unicode.
pub open spec fn spec_is_whitespace(c: char) -> bool {
    let n = c as u32;
    ||| 0x09 <= n <= 0x0D
    ||| n == 0x20
    ||| n == 0x85
    ||| n == 0xA0
    ||| n == 0x1680
    ||| 0x2000 <= n <= 0x200A
    ||| n == 0x2028
    ||| n == 0x2029
    ||| n == 0x202F
    ||| n == 0x205F
    ||| n == 0x3000
}

/// `char::is_whitespace` of std: whether the character has the property
/// `White_Space` of Unicode.
#[verifier::external_body]
fn is_whitespace(c: char) -> (r: bool)
    ensures
        r == spec_is_whitespace(c),
{
    c.is_whitespace()
}

/// The lowercase form of a string as Unicode defines it.
pub uninterp spec fn spec_to_lowercase(s: Seq<char>) -> Seq<char>;

/// `str::to_lowercase`: the lowercase equivalent of the string. The
/// contract gives the result a name and says no more.
#[verifier::external_body]
fn to_lowercase(s: &str) -> (r: String)
    ensures
        r@ == spec_to_lowercase(s@),
{
    s.to_lowercase()
}

/// The characters of the lowercase form of a string.
pub fn lowercase_chars(s: &str) -> (v: Vec<char>)
    ensures
        v@ == spec_to_lowercase(s@),
{
    let lower = to_lowercase(s);
    chars_of(lower.as_str())
}

/// The characters of a string.
pub fn chars_of(s: &str) -> (v: Vec<char>)
    ensures
        v@ == s@,
{
    let n = s.unicode_len();
    let mut v: Vec<char> = Vec::new();
    let mut i: usize = 0;
    while i < n
        invariant
            i <= n,
            n == s@.len(),
            v@ == s@.subrange(0, i as int),
        decreases n - i,
    {
        v.push(s.get_char(i));
        assert(v@ =~= s@.subrange(0, i + 1));
        i += 1;
    }
    assert(v@ =~= s@);
    v
}

/// Whether the characters are those of the string.
pub fn chars_are(v: &Vec<char>, s: &str) -> (r: bool)
    ensures
        r == (v@ == s@),
{
    let n = s.unicode_len();
    if v.len() != n {
        return false;
    }
    let mut i: usize = 0;
    while i < n
        invariant
            i <= n,
            n == s@.len(),
            v@.len() == n,
            forall|k: int| 0 <= k < i ==> v@[k] == s@[k],
        decreases n - i,
    {
        if v[i] != s.get_char(i) {
            return false;
        }
        i += 1;
    }
    assert(v@ =~= s@);
    true
}

/// The characters from index `from` up to index `to`.
pub fn sub_chars(v: &Vec<char>, from: usize, to: usize) -> (r: Vec<char>)
    requires
        from <= to <= v@.len(),
    ensures
        r@ == v@.subrange(from as int, to as int),
{
    let mut r: Vec<char> = Vec::new();
    let mut i: usize = from;
    while i < to
        invariant
            from <= i <= to <= v@.len(),
            r@ == v@.subrange(from as int, i as int),
        decreases to - i,
    {
        r.push(v[i]);
        assert(r@ =~= v@.subrange(from as int, i + 1));
        i += 1;
    }
    r
}

/// Index of the first character from `i` on that is no white space.
pub open spec fn spec_skip_whitespace(s: Seq<char>, i: int) -> int
    decreases s.len() - i,
{
    if 0 <= i < s.len() && spec_is_whitespace(s[i]) {
        spec_skip_whitespace(s, i + 1)
    } else {
        i
    }
}

/// Index after the last character before `j`, and not before `from`, that
/// is no white space.
pub open spec fn spec_skip_whitespace_back(s: Seq<char>, from: int, j: int) -> int
    decreases j - from,
{
    if from < j <= s.len() && spec_is_whitespace(s[j - 1]) {
        spec_skip_whitespace_back(s, from, j - 1)
    } else {
        j
    }
}

/// The string without the white space at its start and at its end.
pub open spec fn spec_trim(s: Seq<char>) -> Seq<char> {
    let from = spec_skip_whitespace(s, 0);
    let to = spec_skip_whitespace_back(s, from, s.len() as int);
    s.subrange(from, to)
}

/// The characters without the white space at their start and at their
/// end.
pub fn trim_chars(v: &Vec<char>) -> (r: Vec<char>)
    ensures
        r@ == spec_trim(v@),
{
    let n = v.len();
    let mut from: usize = 0;
    while from < n && is_whitespace(v[from])
        invariant
            from <= n,
            n == v@.len(),
            spec_skip_whitespace(v@, 0) == spec_skip_whitespace(v@, from as int),
        decreases n - from,
    {
        from += 1;
    }
    let mut to: usize = n;
    while to > from && is_whitespace(v[to - 1])
        invariant
            from <= to <= n,
            n == v@.len(),
            spec_skip_whitespace_back(v@, from as int, n as int) == spec_skip_whitespace_back(
                v@,
                from as int,
                to as int,
            ),
        decreases to,
    {
        to -= 1;
    }
    sub_chars(v, from, to)
}

/// The value of a digit in a number of the given radix.
pub open spec fn spec_digit(c: char, radix: nat) -> Option<nat> {
    let d: int = if '0' <= c <= '9' {
        c as int - '0' as int
    } else if 'a' <= c <= 'z' {
        c as int - 'a' as int + 10
    } else if 'A' <= c <= 'Z' {
        c as int - 'A' as int + 10
    } else {
        -1
    };
    if 0 <= d < radix {
        Some(d as nat)
    } else {
        None
    }
}

/// The number that the first `n` digits spell, if they are all digits of
/// the radix.
pub open spec fn spec_digits_value(s: Seq<char>, radix: nat, n: nat) -> Option<nat>
    decreases n,
{
    if n == 0 {
        Some(0)
    } else {
        match spec_digits_value(s, radix, (n - 1) as nat) {
            None => None,
            Some(v) => match spec_digit(s[n - 1], radix) {
                None => None,
                Some(d) => Some(v * radix + d),
            },
        }
    }
}

/// The number that the string spells in the given radix: digits, with or
/// without a plus sign before them, that give a number of the machine.
pub open spec fn spec_parse_radix(s: Seq<char>, radix: nat) -> Option<usize> {
    let digits = if s.len() > 0 && s[0] == '+' {
        s.drop_first()
    } else {
        s
    };
    if digits.len() == 0 {
        None
    } else {
        match spec_digits_value(digits, radix, digits.len()) {
            Some(v) => if v <= usize::MAX {
                Some(v as usize)
            } else {
                None
            },
            None => None,
        }
    }
}

/// The number that a string spells: after white space is trimmed, a
/// hexadecimal number behind `0x` or `0X`, or else a decimal number.
pub open spec fn spec_parse_num(s: Seq<char>) -> Option<usize> {
    let t = spec_trim(s);
    if t.len() >= 2 && t[0] == '0' && (t[1] == 'x' || t[1] == 'X') {
        spec_parse_radix(t.subrange(2, t.len() as int), 16)
    } else {
        spec_parse_radix(t, 10)
    }
}

/// Digits that are too many for a number stay too many, whatever
/// follows them.
pub proof fn lemma_digits_value_grows(s: Seq<char>, radix: nat, n: nat, m: nat)
    requires
        radix >= 1,
        n <= m,
        spec_digits_value(s, radix, m) is Some,
    ensures
        spec_digits_value(s, radix, n) is Some,
        spec_digits_value(s, radix, n)->Some_0 <= spec_digits_value(s, radix, m)->Some_0,
    decreases m,
{
    if n < m {
        lemma_digits_value_grows(s, radix, n, (m - 1) as nat);
        let v = spec_digits_value(s, radix, (m - 1) as nat)->Some_0;
        assert(v * radix >= v) by (nonlinear_arith)
            requires
                radix >= 1,
                v >= 0,
        ;
    }
}

/// The value of a digit in a number of the given radix.
fn digit(c: char, radix: u32) -> (r: Option<u32>)
    requires
        radix <= 36,
    ensures
        r matches Some(d) ==> spec_digit(c, radix as nat) == Some(d as nat),
        r is None ==> spec_digit(c, radix as nat) is None,
{
    let x = c as u32;
    let d: u32 = if x >= 48 && x <= 57 {
        x - 48
    } else if x >= 97 && x <= 122 {
        x - 97 + 10
    } else if x >= 65 && x <= 90 {
        x - 65 + 10
    } else {
        return None;
    };
    if d < radix {
        Some(d)
    } else {
        None
    }
}

/// The number that the characters spell in the given radix.
pub fn parse_radix(s: &Vec<char>, radix: u32) -> (r: Option<usize>)
    requires
        1 <= radix <= 36,
    ensures
        r == spec_parse_radix(s@, radix as nat),
{
    let start: usize = if s.len() > 0 && s[0] == '+' {
        1
    } else {
        0
    };
    let digits = sub_chars(s, start, s.len());
    assert(digits@ =~= (if s@.len() > 0 && s@[0] == '+' {
        s@.drop_first()
    } else {
        s@
    }));
    let n = digits.len();
    if n == 0 {
        return None;
    }
    let mut value: usize = 0;
    let mut i: usize = 0;
    while i < n
        invariant
            i <= n,
            n == digits@.len(),
            n > 0,
            1 <= radix <= 36,
            digits@ == (if s@.len() > 0 && s@[0] == '+' {
                s@.drop_first()
            } else {
                s@
            }),
            spec_digits_value(digits@, radix as nat, i as nat) == Some(value as nat),
        decreases n - i,
    {
        let d = match digit(digits[i], radix) {
            Some(d) => d,
            None => {
                proof {
                    if spec_digits_value(digits@, radix as nat, n as nat) is Some {
                        lemma_digits_value_grows(digits@, radix as nat, (i + 1) as nat, n as nat);
                    }
                }
                return None;
            },
        };
        let next = match value.checked_mul(radix as usize) {
            Some(x) => x.checked_add(d as usize),
            None => None,
        };
        match next {
            Some(x) => {
                value = x;
            },
            None => {
                proof {
                    if spec_digits_value(digits@, radix as nat, n as nat) is Some {
                        lemma_digits_value_grows(digits@, radix as nat, (i + 1) as nat, n as nat);
                    }
                }
                return None;
            },
        }
        i += 1;
    }
    Some(value)
}

/// The number that a string spells, if it spells one: a hexadecimal
/// number behind `0x` or `0X`, or else a decimal number, with white space
/// around it.
pub fn try_parse_num(s: &str) -> (r: Option<usize>)
    ensures
        r == spec_parse_num(s@),
{
    let chars = chars_of(s);
    if parse_num_chars(&chars).is_some() {
        Some(parse_num(s))
    } else {
        None
    }
}

/// The number that the characters spell, if they spell one.
pub fn parse_num_chars(chars: &Vec<char>) -> (r: Option<usize>)
    ensures
        r == spec_parse_num(chars@),
{
    let t = trim_chars(chars);
    if t.len() >= 2 && t[0] == '0' && (t[1] == 'x' || t[1] == 'X') {
        let digits = sub_chars(&t, 2, t.len());
        parse_radix(&digits, 16)
    } else {
        parse_radix(&t, 10)
    }
}

/// The number that a string spells. The string must spell one.
pub fn parse_num(s: &str) -> (r: usize)
    requires
        spec_parse_num(s@) is Some,
    ensures
        Some(r) == spec_parse_num(s@),
{
    let chars = chars_of(s);
    match parse_num_chars(&chars) {
        Some(n) => n,
        None => 0,
    }
}

/// Whether two dots stand at index `i`.
pub open spec fn is_dots_at(s: Seq<char>, i: int) -> bool {
    0 <= i && i + 2 <= s.len() && s[i] == '.' && s[i + 1] == '.'
}

/// Index of the first two dots from index `i` on.
pub open spec fn spec_find_dots(s: Seq<char>, i: int) -> Option<int>
    decreases s.len() - i,
{
    if i < 0 || i + 2 > s.len() {
        None
    } else if is_dots_at(s, i) {
        Some(i)
    } else {
        spec_find_dots(s, i + 1)
    }
}

/// The characters from index `i` on without any two dots, taken from
/// the left.
pub open spec fn spec_remove_dots(s: Seq<char>, i: int) -> Seq<char>
    decreases s.len() - i,
{
    if i < 0 || i >= s.len() {
        Seq::<char>::empty()
    } else if is_dots_at(s, i) {
        spec_remove_dots(s, i + 2)
    } else {
        seq![s[i]] + spec_remove_dots(s, i + 1)
    }
}

/// Index of the first two dots.
pub fn find_dots(s: &Vec<char>) -> (r: Option<usize>)
    ensures
        r matches Some(p) ==> spec_find_dots(s@, 0) == Some(p as int) && p + 2 <= s@.len(),
        r is None ==> spec_find_dots(s@, 0) is None,
{
    let n = s.len();
    if n < 2 {
        return None;
    }
    let mut i: usize = 0;
    while i <= n - 2
        invariant
            i <= n - 1,
            n >= 2,
            n == s@.len(),
            spec_find_dots(s@, 0) == spec_find_dots(s@, i as int),
        decreases n - i,
    {
        if s[i] == '.' && s[i + 1] == '.' {
            return Some(i);
        }
        i += 1;
    }
    None
}

/// The characters without any two dots, taken from the left.
pub fn remove_dots(s: &Vec<char>) -> (r: Vec<char>)
    ensures
        r@ == spec_remove_dots(s@, 0),
{
    let n = s.len();
    let mut r: Vec<char> = Vec::new();
    let mut i: usize = 0;
    while i < n
        invariant
            i <= n,
            n == s@.len(),
            spec_remove_dots(s@, 0) == r@ + spec_remove_dots(s@, i as int),
        decreases n - i,
    {
        if i + 1 < n && s[i] == '.' && s[i + 1] == '.' {
            i += 2;
        } else {
            let ghost before = r@;
            r.push(s[i]);
            assert(r@ + spec_remove_dots(s@, i + 1) =~= before + (seq![s@[i as int]]
                + spec_remove_dots(s@, i + 1)));
            i += 1;
        }
    }
    assert(r@ + Seq::<char>::empty() =~= r@);
    r
}

/// The range of a field from the numbers of its first and last unit,
/// where a unit is a bit or, with a multiplier above one, that many
/// bits.
pub open spec fn spec_position_range(start: usize, end: usize, multiplier: usize) -> Option<
    BitsPositionParsed,
> {
    if multiplier > 1 {
        if start * multiplier <= usize::MAX && (end + 1) * multiplier <= usize::MAX {
            Some(
                BitsPositionParsed::Range(
                    (start * multiplier) as usize,
                    ((end + 1) * multiplier - 1) as usize,
                ),
            )
        } else {
            None
        }
    } else {
        if start * multiplier <= usize::MAX && end * multiplier <= usize::MAX {
            Some(
                BitsPositionParsed::Range((start * multiplier) as usize, (end * multiplier) as usize),
            )
        } else {
            None
        }
    }
}

/// The position that a string spells, if it spells one: `4..` is from
/// unit 4 on, `2..5` is from unit 2 to unit 5, and `3` is unit 3 alone.
pub open spec fn spec_parse_position_val(v: Seq<char>, multiplier: usize) -> Option<
    BitsPositionParsed,
> {
    let t = spec_trim(v);
    if is_dots_at(t, t.len() - 2) {
        match spec_parse_num(spec_remove_dots(t, 0)) {
            Some(n) => if n * multiplier <= usize::MAX {
                Some(BitsPositionParsed::Start((n * multiplier) as usize))
            } else {
                None
            },
            None => None,
        }
    } else {
        match spec_find_dots(t, 0) {
            Some(p) => {
                let rest = t.subrange(p + 2, t.len() as int);
                if spec_find_dots(rest, 0) is Some {
                    None
                } else {
                    match spec_parse_num(t.subrange(0, p)) {
                        None => None,
                        Some(start) => match spec_parse_num(rest) {
                            None => None,
                            Some(end) => spec_position_range(start, end, multiplier),
                        },
                    }
                }
            },
            None => match spec_parse_num(t) {
                None => None,
                Some(start) => spec_position_range(start, start, multiplier),
            },
        }
    }
}

/// The range of a field from the numbers of its first and last unit.
fn position_range(start: usize, end: usize, multiplier: usize) -> (r: Option<BitsPositionParsed>)
    ensures
        r == spec_position_range(start, end, multiplier),
{
    let a = match start.checked_mul(multiplier) {
        Some(a) => a,
        None => {
            return None;
        },
    };
    if multiplier > 1 {
        let e = match end.checked_add(1) {
            Some(e) => e,
            None => {
                assert((end + 1) * multiplier > usize::MAX) by (nonlinear_arith)
                    requires
                        end + 1 > usize::MAX,
                        multiplier > 1,
                ;
                return None;
            },
        };
        match e.checked_mul(multiplier) {
            Some(b) => {
                assert(b >= 1) by (nonlinear_arith)
                    requires
                        b == e * multiplier,
                        e >= 1,
                        multiplier > 1,
                ;
                Some(BitsPositionParsed::Range(a, b - 1))
            },
            None => None,
        }
    } else {
        match end.checked_mul(multiplier) {
            Some(b) => Some(BitsPositionParsed::Range(a, b)),
            None => None,
        }
    }
}

/// The position that a string spells, if it spells one.
pub fn try_parse_position_val(v: &str, multiplier: usize) -> (r: Option<BitsPositionParsed>)
    ensures
        r == spec_parse_position_val(v@, multiplier),
{
    let chars = chars_of(v);
    if position_of_chars(&chars, multiplier).is_some() {
        Some(parse_position_val(v, multiplier))
    } else {
        None
    }
}

/// The position that the characters spell, if they spell one.
pub fn position_of_chars(chars: &Vec<char>, multiplier: usize) -> (r: Option<BitsPositionParsed>)
    ensures
        r == spec_parse_position_val(chars@, multiplier),
{
    let t = trim_chars(chars);
    let n = t.len();
    if n >= 2 && t[n - 2] == '.' && t[n - 1] == '.' {
        let digits = remove_dots(&t);
        return match parse_num_chars(&digits) {
            Some(x) => match x.checked_mul(multiplier) {
                Some(y) => Some(BitsPositionParsed::Start(y)),
                None => None,
            },
            None => None,
        };
    }
    match find_dots(&t) {
        Some(p) => {
            let rest = sub_chars(&t, p + 2, n);
            if find_dots(&rest).is_some() {
                return None;
            }
            let first = sub_chars(&t, 0, p);
            let start = match parse_num_chars(&first) {
                Some(x) => x,
                None => {
                    return None;
                },
            };
            let end = match parse_num_chars(&rest) {
                Some(x) => x,
                None => {
                    return None;
                },
            };
            position_range(start, end, multiplier)
        },
        None => match parse_num_chars(&t) {
            Some(start) => position_range(start, start, multiplier),
            None => None,
        },
    }
}

/// The position that a string spells. The string must spell one.
pub fn parse_position_val(v: &str, multiplier: usize) -> (r: BitsPositionParsed)
    requires
        spec_parse_position_val(v@, multiplier) is Some,
    ensures
        Some(r) == spec_parse_position_val(v@, multiplier),
{
    let chars = chars_of(v);
    match position_of_chars(&chars, multiplier) {
        Some(p) => p,
        None => BitsPositionParsed::Next,
    }
}

/// The bit numbering that a lowercase name stands for.
pub open spec fn spec_bit_numbering(lower: Seq<char>) -> Option<BitNumbering> {
    if lower == "lsb0"@ {
        Some(BitNumbering::Lsb0)
    } else if lower == "msb0"@ {
        Some(BitNumbering::Msb0)
    } else {
        None
    }
}

/// The byte order that a lowercase name stands for.
pub open spec fn spec_integer_endianness(lower: Seq<char>) -> Option<IntegerEndianness> {
    if lower == "lsb"@ || lower == "le"@ {
        Some(IntegerEndianness::Lsb)
    } else if lower == "msb"@ || lower == "be"@ {
        Some(IntegerEndianness::Msb)
    } else {
        None
    }
}

impl BitNumbering {
    /// The bit numbering that a lowercase name stands for.
    pub fn from_lowercase(lower: &str) -> (r: Option<Self>)
        ensures
            r == spec_bit_numbering(lower@),
    {
        let chars = chars_of(lower);
        if chars_are(&chars, "lsb0") {
            Some(BitNumbering::Lsb0)
        } else if chars_are(&chars, "msb0") {
            Some(BitNumbering::Msb0)
        } else {
            None
        }
    }

    /// The bit numbering that a name stands for, in whatever case it is
    /// written.
    pub fn from_str(s: &str) -> (r: Option<Self>)
        ensures
            r == spec_bit_numbering(spec_to_lowercase(s@)),
    {
        let s = to_lowercase(s);
        Self::from_lowercase(s.as_str())
    }
}

impl IntegerEndianness {
    /// The byte order that a lowercase name stands for.
    pub fn from_lowercase(lower: &str) -> (r: Option<Self>)
        ensures
            r == spec_integer_endianness(lower@),
    {
        let chars = chars_of(lower);
        if chars_are(&chars, "lsb") || chars_are(&chars, "le") {
            Some(IntegerEndianness::Lsb)
        } else if chars_are(&chars, "msb") || chars_are(&chars, "be") {
            Some(IntegerEndianness::Msb)
        } else {
            None
        }
    }

    /// The byte order that a name stands for, in whatever case it is
    /// written.
    pub fn from_str(s: &str) -> (r: Option<Self>)
        ensures
            r == spec_integer_endianness(spec_to_lowercase(s@)),
    {
        let s = to_lowercase(s);
        Self::from_lowercase(s.as_str())
    }
}

impl PackStructAttributeKind {
    /// The name of the attribute.
    pub open spec fn spec_attr_name(self) -> Seq<char> {
        match self {
            PackStructAttributeKind::SizeBytes => "size_bytes"@,
            PackStructAttributeKind::DefaultIntEndianness => "endian"@,
            PackStructAttributeKind::BitNumbering => "bit_numbering"@,
        }
    }

    /// The name of the attribute.
    pub fn get_attr_name(&self) -> (r: &'static str)
        ensures
            r@ == self.spec_attr_name(),
    {
        match *self {
            PackStructAttributeKind::SizeBytes => "size_bytes",
            PackStructAttributeKind::DefaultIntEndianness => "endian",
            PackStructAttributeKind::BitNumbering => "bit_numbering",
        }
    }
}

impl PackFieldAttributeKind {
    /// The name of the attribute.
    pub open spec fn spec_attr_name(self) -> Seq<char> {
        match self {
            PackFieldAttributeKind::IntEndiannes => "endian"@,
            PackFieldAttributeKind::BitPosition => "bits"@,
            PackFieldAttributeKind::BytePosition => "bytes"@,
            PackFieldAttributeKind::SizeBytes => "size_bytes"@,
            PackFieldAttributeKind::SizeBits => "size_bits"@,
            PackFieldAttributeKind::ElementSizeBytes => "element_size_bytes"@,
            PackFieldAttributeKind::ElementSizeBits => "element_size_bits"@,
            PackFieldAttributeKind::Ty => "ty"@,
        }
    }

    /// The name of the attribute.
    pub fn get_attr_name(&self) -> (r: &'static str)
        ensures
            r@ == self.spec_attr_name(),
    {
        match *self {
            PackFieldAttributeKind::IntEndiannes => "endian",
            PackFieldAttributeKind::BitPosition => "bits",
            PackFieldAttributeKind::BytePosition => "bytes",
            PackFieldAttributeKind::SizeBytes => "size_bytes",
            PackFieldAttributeKind::SizeBits => "size_bits",
            PackFieldAttributeKind::ElementSizeBytes => "element_size_bytes",
            PackFieldAttributeKind::ElementSizeBits => "element_size_bits",
            PackFieldAttributeKind::Ty => "ty",
        }
    }
}

/// What a name and a value say of a structure: an attribute, or nothing
/// for a name that is none of an attribute (the inner error), or that
/// the value cannot be read (no result at all).
pub open spec fn spec_struct_attribute(name: Seq<char>, val: Seq<char>) -> Option<
    Result<PackStructAttribute, ()>,
> {
    if name == PackStructAttributeKind::DefaultIntEndianness.spec_attr_name() {
        match spec_integer_endianness(spec_to_lowercase(val)) {
            Some(e) => Some(Ok(PackStructAttribute::DefaultIntEndianness(e))),
            None => None,
        }
    } else if name == PackStructAttributeKind::BitNumbering.spec_attr_name() {
        match spec_bit_numbering(spec_to_lowercase(val)) {
            Some(b) => Some(Ok(PackStructAttribute::BitNumbering(b))),
            None => None,
        }
    } else if name == PackStructAttributeKind::SizeBytes.spec_attr_name() {
        match spec_parse_num(val) {
            Some(b) => Some(Ok(PackStructAttribute::SizeBytes(b))),
            None => None,
        }
    } else {
        Some(Err(()))
    }
}

/// The attributes that the first `n` pairs of name and value give.
pub open spec fn spec_struct_attributes(attributes: Seq<(String, String)>, n: nat) -> Seq<
    PackStructAttribute,
>
    decreases n,
{
    if n == 0 {
        Seq::<PackStructAttribute>::empty()
    } else {
        let rest = spec_struct_attributes(attributes, (n - 1) as nat);
        match spec_struct_attribute(attributes[n - 1].0@, attributes[n - 1].1@) {
            Some(Ok(a)) => rest.push(a),
            _ => rest,
        }
    }
}

/// `n * 8`, where that is a number of the machine.
pub open spec fn spec_times_eight(n: Option<usize>) -> Option<usize> {
    match n {
        Some(n) => if n * 8 <= usize::MAX {
            Some((n * 8) as usize)
        } else {
            None
        },
        None => None,
    }
}

/// What a name and a value say of a field: an attribute, or nothing for
/// a name that is none of an attribute (the inner error), or that the
/// value cannot be read (no result at all).
pub open spec fn spec_field_attribute(name: Seq<char>, val: Seq<char>) -> Option<
    Result<PackFieldAttribute, ()>,
> {
    if name == PackFieldAttributeKind::IntEndiannes.spec_attr_name() {
        match spec_integer_endianness(spec_to_lowercase(val)) {
            Some(e) => Some(Ok(PackFieldAttribute::IntEndiannes(e))),
            None => None,
        }
    } else if name == PackFieldAttributeKind::BitPosition.spec_attr_name() {
        match spec_parse_position_val(val, 1) {
            Some(b) => Some(Ok(PackFieldAttribute::BitPosition(b))),
            None => None,
        }
    } else if name == PackFieldAttributeKind::BytePosition.spec_attr_name() {
        match spec_parse_position_val(val, 8) {
            Some(b) => Some(Ok(PackFieldAttribute::BytePosition(b))),
            None => None,
        }
    } else if name == PackFieldAttributeKind::SizeBytes.spec_attr_name() {
        match spec_times_eight(spec_parse_num(val)) {
            Some(b) => Some(Ok(PackFieldAttribute::SizeBits(b))),
            None => None,
        }
    } else if name == PackFieldAttributeKind::SizeBits.spec_attr_name() {
        match spec_parse_num(val) {
            Some(b) => Some(Ok(PackFieldAttribute::SizeBits(b))),
            None => None,
        }
    } else if name == PackFieldAttributeKind::ElementSizeBytes.spec_attr_name() {
        match spec_times_eight(spec_parse_num(val)) {
            Some(b) => Some(Ok(PackFieldAttribute::ElementSizeBits(b))),
            None => None,
        }
    } else if name == PackFieldAttributeKind::ElementSizeBits.spec_attr_name() {
        match spec_parse_num(val) {
            Some(b) => Some(Ok(PackFieldAttribute::ElementSizeBits(b))),
            None => None,
        }
    } else if name == PackFieldAttributeKind::Ty.spec_attr_name() && val == "enum"@ {
        Some(Ok(PackFieldAttribute::Ty(TyKind::Enum)))
    } else {
        Some(Err(()))
    }
}

/// The attributes that the first `n` pairs of name and value give.
pub open spec fn spec_field_attributes(attributes: Seq<(String, String)>, n: nat) -> Seq<
    PackFieldAttribute,
>
    decreases n,
{
    if n == 0 {
        Seq::<PackFieldAttribute>::empty()
    } else {
        let rest = spec_field_attributes(attributes, (n - 1) as nat);
        match spec_field_attribute(attributes[n - 1].0@, attributes[n - 1].1@) {
            Some(Ok(a)) => rest.push(a),
            _ => rest,
        }
    }
}

/// `n * 8`, where that is a number of the machine.
fn times_eight(n: Option<usize>) -> (r: Option<usize>)
    ensures
        r == spec_times_eight(n),
{
    match n {
        Some(n) => n.checked_mul(8),
        None => None,
    }
}

impl PackStructAttribute {
    /// What a name and a value say of a structure.
    pub fn try_parse(name: &str, val: &str) -> (r: Option<Result<Self, ()>>)
        ensures
            r == spec_struct_attribute(name@, val@),
    {
        let n = chars_of(name);
        if chars_are(&n, PackStructAttributeKind::DefaultIntEndianness.get_attr_name()) {
            return match IntegerEndianness::from_str(val) {
                Some(e) => Some(Ok(PackStructAttribute::DefaultIntEndianness(e))),
                None => None,
            };
        }
        if chars_are(&n, PackStructAttributeKind::BitNumbering.get_attr_name()) {
            return match BitNumbering::from_str(val) {
                Some(b) => Some(Ok(PackStructAttribute::BitNumbering(b))),
                None => None,
            };
        }
        if chars_are(&n, PackStructAttributeKind::SizeBytes.get_attr_name()) {
            return match try_parse_num(val) {
                Some(b) => Some(Ok(PackStructAttribute::SizeBytes(b))),
                None => None,
            };
        }
        Some(Err(()))
    }

    /// The attribute of a structure that a name and a value give, or an
    /// error for a name that is none of an attribute. The value of an
    /// attribute must be one that can be read.
    pub fn parse(name: &str, val: &str) -> (r: Result<Self, ()>)
        requires
            spec_struct_attribute(name@, val@) is Some,
        ensures
            Some(r) == spec_struct_attribute(name@, val@),
    {
        match Self::try_parse(name, val) {
            Some(r) => r,
            None => Err(()),
        }
    }

    /// The attributes of a structure that the pairs of name and value
    /// give. Pairs whose name is none of an attribute are left out.
    pub fn parse_all(attributes: &Vec<(String, String)>) -> (r: Vec<Self>)
        requires
            forall|i: int|
                0 <= i < attributes@.len() ==> spec_struct_attribute(
                    (#[trigger] attributes@[i]).0@,
                    attributes@[i].1@,
                ) is Some,
        ensures
            r@ == spec_struct_attributes(attributes@, attributes@.len()),
    {
        let mut r: Vec<Self> = Vec::new();
        let mut i: usize = 0;
        while i < attributes.len()
            invariant
                i <= attributes@.len(),
                r@ == spec_struct_attributes(attributes@, i as nat),
                forall|i: int|
                    0 <= i < attributes@.len() ==> spec_struct_attribute(
                        (#[trigger] attributes@[i]).0@,
                        attributes@[i].1@,
                    ) is Some,
            decreases attributes@.len() - i,
        {
            if let Ok(attr) = Self::parse(attributes[i].0.as_str(), attributes[i].1.as_str()) {
                r.push(attr)
            }
            i += 1;
        }
        r
    }

    /// The attributes of a structure that the pairs of name and value give,
    /// or nothing where the value of an attribute cannot be read. Pairs
    /// whose name is none of an attribute are left out.
    pub fn try_parse_all(attributes: &Vec<(String, String)>) -> (r: Option<Vec<Self>>)
        ensures
            r is Some <==> forall|i: int|
                0 <= i < attributes@.len() ==> spec_struct_attribute(
                    (#[trigger] attributes@[i]).0@,
                    attributes@[i].1@,
                ) is Some,
            r matches Some(v) ==> v@ == spec_struct_attributes(attributes@, attributes@.len()),
    {
        let mut i: usize = 0;
        while i < attributes.len()
            invariant
                i <= attributes@.len(),
                forall|j: int|
                    0 <= j < i ==> spec_struct_attribute(
                        (#[trigger] attributes@[j]).0@,
                        attributes@[j].1@,
                    ) is Some,
            decreases attributes@.len() - i,
        {
            if Self::try_parse(attributes[i].0.as_str(), attributes[i].1.as_str()).is_none() {
                return None;
            }
            i += 1;
        }
        Some(Self::parse_all(attributes))
    }
}

impl PackFieldAttribute {
    /// What a name and a value say of a field.
    pub fn try_parse(name: &str, val: &str) -> (r: Option<Result<Self, ()>>)
        ensures
            r == spec_field_attribute(name@, val@),
    {
        let n = chars_of(name);
        if chars_are(&n, PackFieldAttributeKind::IntEndiannes.get_attr_name()) {
            return match IntegerEndianness::from_str(val) {
                Some(e) => Some(Ok(PackFieldAttribute::IntEndiannes(e))),
                None => None,
            };
        }
        if chars_are(&n, PackFieldAttributeKind::BitPosition.get_attr_name()) {
            return match try_parse_position_val(val, 1) {
                Some(b) => Some(Ok(PackFieldAttribute::BitPosition(b))),
                None => None,
            };
        }
        if chars_are(&n, PackFieldAttributeKind::BytePosition.get_attr_name()) {
            return match try_parse_position_val(val, 8) {
                Some(b) => Some(Ok(PackFieldAttribute::BytePosition(b))),
                None => None,
            };
        }
        if chars_are(&n, PackFieldAttributeKind::SizeBytes.get_attr_name()) {
            return match times_eight(try_parse_num(val)) {
                Some(b) => Some(Ok(PackFieldAttribute::SizeBits(b))),
                None => None,
            };
        }
        if chars_are(&n, PackFieldAttributeKind::SizeBits.get_attr_name()) {
            return match try_parse_num(val) {
                Some(b) => Some(Ok(PackFieldAttribute::SizeBits(b))),
                None => None,
            };
        }
        if chars_are(&n, PackFieldAttributeKind::ElementSizeBytes.get_attr_name()) {
            return match times_eight(try_parse_num(val)) {
                Some(b) => Some(Ok(PackFieldAttribute::ElementSizeBits(b))),
                None => None,
            };
        }
        if chars_are(&n, PackFieldAttributeKind::ElementSizeBits.get_attr_name()) {
            return match try_parse_num(val) {
                Some(b) => Some(Ok(PackFieldAttribute::ElementSizeBits(b))),
                None => None,
            };
        }
        if chars_are(&n, PackFieldAttributeKind::Ty.get_attr_name()) {
            let v = chars_of(val);
            if chars_are(&v, "enum") {
                return Some(Ok(PackFieldAttribute::Ty(TyKind::Enum)));
            }
        }
        Some(Err(()))
    }

    /// The attribute of a field that a name and a value give, or an
    /// error for a name that is none of an attribute. The value of an
    /// attribute must be one that can be read.
    pub fn parse(name: &str, val: &str) -> (r: Result<Self, ()>)
        requires
            spec_field_attribute(name@, val@) is Some,
        ensures
            Some(r) == spec_field_attribute(name@, val@),
    {
        match Self::try_parse(name, val) {
            Some(r) => r,
            None => Err(()),
        }
    }

    /// The attributes of a field that the pairs of name and value give.
    /// Pairs whose name is none of an attribute are left out.
    pub fn parse_all(attributes: &Vec<(String, String)>) -> (r: Vec<Self>)
        requires
            forall|i: int|
                0 <= i < attributes@.len() ==> spec_field_attribute(
                    (#[trigger] attributes@[i]).0@,
                    attributes@[i].1@,
                ) is Some,
        ensures
            r@ == spec_field_attributes(attributes@, attributes@.len()),
    {
        let mut r: Vec<Self> = Vec::new();
        let mut i: usize = 0;
        while i < attributes.len()
            invariant
                i <= attributes@.len(),
                r@ == spec_field_attributes(attributes@, i as nat),
                forall|i: int|
                    0 <= i < attributes@.len() ==> spec_field_attribute(
                        (#[trigger] attributes@[i]).0@,
                        attributes@[i].1@,
                    ) is Some,
            decreases attributes@.len() - i,
        {
            if let Ok(attr) = Self::parse(attributes[i].0.as_str(), attributes[i].1.as_str()) {
                r.push(attr)
            }
            i += 1;
        }
        r
    }

    /// The attributes of a field that the pairs of name and value give,
    /// or nothing where the value of an attribute cannot be read. Pairs
    /// whose name is none of an attribute are left out.
    pub fn try_parse_all(attributes: &Vec<(String, String)>) -> (r: Option<Vec<Self>>)
        ensures
            r is Some <==> forall|i: int|
                0 <= i < attributes@.len() ==> spec_field_attribute(
                    (#[trigger] attributes@[i]).0@,
                    attributes@[i].1@,
                ) is Some,
            r matches Some(v) ==> v@ == spec_field_attributes(attributes@, attributes@.len()),
    {
        let mut i: usize = 0;
        while i < attributes.len()
            invariant
                i <= attributes@.len(),
                forall|j: int|
                    0 <= j < i ==> spec_field_attribute(
                        (#[trigger] attributes@[j]).0@,
                        attributes@[j].1@,
                    ) is Some,
            decreases attributes@.len() - i,
        {
            if Self::try_parse(attributes[i].0.as_str(), attributes[i].1.as_str()).is_none() {
                return None;
            }
            i += 1;
        }
        Some(Self::parse_all(attributes))
    }
}

} // verus!
