//! Unit bit sizes, used as a type parameter to concrete types to signify
//! their intended size.

use vstd::prelude::*;
use crate::bits::{bytes_required_for_bits, spec_bytes_required_for_bits};

verus! {

/// Number of bits that the generic type should occupy.
pub trait NumberOfBits: Copy {
    /// Minimal number of bytes that this bit width requires.
    type Bytes: NumberOfBytes;

    /// The number of bits.
    spec fn spec_number_of_bits() -> nat;

    /// The bytes are as many as the bits require.
    proof fn lemma_number_of_bytes()
        ensures
            <Self::Bytes as NumberOfBytes>::spec_number_of_bytes() == spec_bytes_required_for_bits(
                Self::spec_number_of_bits(),
            ),
    ;

    /// The numerical number of bits.
    fn number_of_bits() -> (n: usize)
        ensures
            n == Self::spec_number_of_bits(),
    ;

    /// Minimal number of bytes that this bit width requires.
    fn byte_array_len() -> (n: usize)
        ensures
            n == spec_bytes_required_for_bits(Self::spec_number_of_bits()),
    {
        bytes_required_for_bits(Self::number_of_bits())
    }
}

/// These bits are a multiple of 8.
pub trait BitsFullBytes: NumberOfBits {
    proof fn lemma_full_bytes()
        ensures
            Self::spec_number_of_bits() % 8 == 0,
    ;
}

/// These bits are not a multiple of 8.
pub trait BitsPartialBytes: NumberOfBits {
    proof fn lemma_partial_bytes()
        ensures
            Self::spec_number_of_bits() % 8 != 0,
    ;
}

/// Number of bytes that the generic type should occupy.
pub trait NumberOfBytes: Copy {
    /// The byte array type that holds these bytes, for instance `[u8; 2]`.
    type AsBytes: ByteArray;

    /// The number of bytes.
    spec fn spec_number_of_bytes() -> nat;

    /// The byte array holds this number of bytes.
    proof fn lemma_as_bytes_len()
        ensures
            <Self::AsBytes as ByteArray>::spec_len() == Self::spec_number_of_bytes(),
    ;

    /// The numerical number of bytes.
    fn number_of_bytes() -> (n: usize)
        ensures
            n == Self::spec_number_of_bytes(),
    ;
}

/// Helper that allows us to cast a fixed size array into a byte slice.
pub trait ByteArray: Clone {
    /// The number of bytes of every value of the type.
    spec fn spec_len() -> nat;

    /// The bytes of the value.
    spec fn bytes(&self) -> Seq<u8>;

    /// Every value holds `spec_len` bytes.
    proof fn lemma_bytes_len(&self)
        ensures
            self.bytes().len() == Self::spec_len(),
    ;

    fn len() -> (n: usize)
        ensures
            n == Self::spec_len(),
    ;

    fn as_bytes_slice(&self) -> (r: &[u8])
        ensures
            r@ == self.bytes(),
    ;

    fn as_mut_bytes_slice(&mut self) -> (r: &mut [u8])
        ensures
            r@ == old(self).bytes(),
            final(self).bytes() == final(r)@,
    ;

    /// Moves the bytes `bytes` places towards the end and fills the places
    /// that become free with zeroes.
    fn rotate_right(&mut self, bytes: usize)
        requires
            bytes < Self::spec_len(),
        ensures
            final(self).bytes() == spec_rotate_right(old(self).bytes(), bytes as nat),
    ;

    /// The value with every byte equal to `value`.
    fn new(value: u8) -> (r: Self)
        ensures
            r.bytes() == Seq::new(Self::spec_len(), |i: int| value),
    ;
}

/// `s` moved `bytes` places towards the end, with zeroes in front.
pub open spec fn spec_rotate_right(s: Seq<u8>, bytes: nat) -> Seq<u8> {
    Seq::new(
        s.len(),
        |i: int|
            if i < bytes {
                0u8
            } else {
                s[i - bytes]
            },
    )
}

impl<const N: usize> ByteArray for [u8; N] {
    open spec fn spec_len() -> nat {
        N as nat
    }

    open spec fn bytes(&self) -> Seq<u8> {
        self@
    }

    proof fn lemma_bytes_len(&self) {
    }

    #[inline]
    fn len() -> (n: usize) {
        N
    }

    #[inline]
    fn as_bytes_slice(&self) -> (r: &[u8]) {
        self.as_slice()
    }

    #[inline]
    fn as_mut_bytes_slice(&mut self) -> (r: &mut [u8]) {
        self
    }

    #[inline]
    fn rotate_right(&mut self, bytes: usize) {
        let s: &mut [u8] = self;
        bytes_rotate_right(s, bytes)
    }

    fn new(value: u8) -> (r: Self) {
        [value;N]
    }
}

#[derive(Default, Debug, Copy, Clone, PartialEq)]
pub struct Bytes<const N: usize>;

impl<const N: usize> NumberOfBytes for Bytes<N> {
    type AsBytes = [u8; N];

    open spec fn spec_number_of_bytes() -> nat {
        N as nat
    }

    proof fn lemma_as_bytes_len() {
    }

    #[inline]
    fn number_of_bytes() -> (n: usize) {
        N
    }
}

#[derive(Default, Debug, Copy, Clone, PartialEq)]
pub struct Bits<const N: usize>;

impl NumberOfBits for Bits<1> {
    type Bytes = Bytes<1>;

    open spec fn spec_number_of_bits() -> nat {
        1
    }

    proof fn lemma_number_of_bytes() {
    }

    #[inline]
    fn number_of_bits() -> (n: usize) {
        1
    }
}

impl NumberOfBits for Bits<2> {
    type Bytes = Bytes<1>;

    open spec fn spec_number_of_bits() -> nat {
        2
    }

    proof fn lemma_number_of_bytes() {
    }

    #[inline]
    fn number_of_bits() -> (n: usize) {
        2
    }
}

impl NumberOfBits for Bits<3> {
    type Bytes = Bytes<1>;

    open spec fn spec_number_of_bits() -> nat {
        3
    }

    proof fn lemma_number_of_bytes() {
    }

    #[inline]
    fn number_of_bits() -> (n: usize) {
        3
    }
}

impl NumberOfBits for Bits<4> {
    type Bytes = Bytes<1>;

    open spec fn spec_number_of_bits() -> nat {
        4
    }

    proof fn lemma_number_of_bytes() {
    }

    #[inline]
    fn number_of_bits() -> (n: usize) {
        4
    }
}

impl NumberOfBits for Bits<5> {
    type Bytes = Bytes<1>;

    open spec fn spec_number_of_bits() -> nat {
        5
    }

    proof fn lemma_number_of_bytes() {
    }

    #[inline]
    fn number_of_bits() -> (n: usize) {
        5
    }
}

impl NumberOfBits for Bits<6> {
    type Bytes = Bytes<1>;

    open spec fn spec_number_of_bits() -> nat {
        6
    }

    proof fn lemma_number_of_bytes() {
    }

    #[inline]
    fn number_of_bits() -> (n: usize) {
        6
    }
}

impl NumberOfBits for Bits<7> {
    type Bytes = Bytes<1>;

    open spec fn spec_number_of_bits() -> nat {
        7
    }

    proof fn lemma_number_of_bytes() {
    }

    #[inline]
    fn number_of_bits() -> (n: usize) {
        7
    }
}

impl NumberOfBits for Bits<8> {
    type Bytes = Bytes<1>;

    open spec fn spec_number_of_bits() -> nat {
        8
    }

    proof fn lemma_number_of_bytes() {
    }

    #[inline]
    fn number_of_bits() -> (n: usize) {
        8
    }
}

impl NumberOfBits for Bits<9> {
    type Bytes = Bytes<2>;

    open spec fn spec_number_of_bits() -> nat {
        9
    }

    proof fn lemma_number_of_bytes() {
    }

    #[inline]
    fn number_of_bits() -> (n: usize) {
        9
    }
}

impl NumberOfBits for Bits<10> {
    type Bytes = Bytes<2>;

    open spec fn spec_number_of_bits() -> nat {
        10
    }

    proof fn lemma_number_of_bytes() {
    }

    #[inline]
    fn number_of_bits() -> (n: usize) {
        10
    }
}

impl NumberOfBits for Bits<11> {
    type Bytes = Bytes<2>;

    open spec fn spec_number_of_bits() -> nat {
        11
    }

    proof fn lemma_number_of_bytes() {
    }

    #[inline]
    fn number_of_bits() -> (n: usize) {
        11
    }
}

impl NumberOfBits for Bits<12> {
    type Bytes = Bytes<2>;

    open spec fn spec_number_of_bits() -> nat {
        12
    }

    proof fn lemma_number_of_bytes() {
    }

    #[inline]
    fn number_of_bits() -> (n: usize) {
        12
    }
}

impl NumberOfBits for Bits<13> {
    type Bytes = Bytes<2>;

    open spec fn spec_number_of_bits() -> nat {
        13
    }

    proof fn lemma_number_of_bytes() {
    }

    #[inline]
    fn number_of_bits() -> (n: usize) {
        13
    }
}

impl NumberOfBits for Bits<14> {
    type Bytes = Bytes<2>;

    open spec fn spec_number_of_bits() -> nat {
        14
    }

    proof fn lemma_number_of_bytes() {
    }

    #[inline]
    fn number_of_bits() -> (n: usize) {
        14
    }
}

impl NumberOfBits for Bits<15> {
    type Bytes = Bytes<2>;

    open spec fn spec_number_of_bits() -> nat {
        15
    }

    proof fn lemma_number_of_bytes() {
    }

    #[inline]
    fn number_of_bits() -> (n: usize) {
        15
    }
}

impl NumberOfBits for Bits<16> {
    type Bytes = Bytes<2>;

    open spec fn spec_number_of_bits() -> nat {
        16
    }

    proof fn lemma_number_of_bytes() {
    }

    #[inline]
    fn number_of_bits() -> (n: usize) {
        16
    }
}

impl NumberOfBits for Bits<17> {
    type Bytes = Bytes<3>;

    open spec fn spec_number_of_bits() -> nat {
        17
    }

    proof fn lemma_number_of_bytes() {
    }

    #[inline]
    fn number_of_bits() -> (n: usize) {
        17
    }
}

impl NumberOfBits for Bits<18> {
    type Bytes = Bytes<3>;

    open spec fn spec_number_of_bits() -> nat {
        18
    }

    proof fn lemma_number_of_bytes() {
    }

    #[inline]
    fn number_of_bits() -> (n: usize) {
        18
    }
}

impl NumberOfBits for Bits<19> {
    type Bytes = Bytes<3>;

    open spec fn spec_number_of_bits() -> nat {
        19
    }

    proof fn lemma_number_of_bytes() {
    }

    #[inline]
    fn number_of_bits() -> (n: usize) {
        19
    }
}

impl NumberOfBits for Bits<20> {
    type Bytes = Bytes<3>;

    open spec fn spec_number_of_bits() -> nat {
        20
    }

    proof fn lemma_number_of_bytes() {
    }

    #[inline]
    fn number_of_bits() -> (n: usize) {
        20
    }
}

impl NumberOfBits for Bits<21> {
    type Bytes = Bytes<3>;

    open spec fn spec_number_of_bits() -> nat {
        21
    }

    proof fn lemma_number_of_bytes() {
    }

    #[inline]
    fn number_of_bits() -> (n: usize) {
        21
    }
}

impl NumberOfBits for Bits<22> {
    type Bytes = Bytes<3>;

    open spec fn spec_number_of_bits() -> nat {
        22
    }

    proof fn lemma_number_of_bytes() {
    }

    #[inline]
    fn number_of_bits() -> (n: usize) {
        22
    }
}

impl NumberOfBits for Bits<23> {
    type Bytes = Bytes<3>;

    open spec fn spec_number_of_bits() -> nat {
        23
    }

    proof fn lemma_number_of_bytes() {
    }

    #[inline]
    fn number_of_bits() -> (n: usize) {
        23
    }
}

impl NumberOfBits for Bits<24> {
    type Bytes = Bytes<3>;

    open spec fn spec_number_of_bits() -> nat {
        24
    }

    proof fn lemma_number_of_bytes() {
    }

    #[inline]
    fn number_of_bits() -> (n: usize) {
        24
    }
}

impl NumberOfBits for Bits<25> {
    type Bytes = Bytes<4>;

    open spec fn spec_number_of_bits() -> nat {
        25
    }

    proof fn lemma_number_of_bytes() {
    }

    #[inline]
    fn number_of_bits() -> (n: usize) {
        25
    }
}

impl NumberOfBits for Bits<26> {
    type Bytes = Bytes<4>;

    open spec fn spec_number_of_bits() -> nat {
        26
    }

    proof fn lemma_number_of_bytes() {
    }

    #[inline]
    fn number_of_bits() -> (n: usize) {
        26
    }
}

impl NumberOfBits for Bits<27> {
    type Bytes = Bytes<4>;

    open spec fn spec_number_of_bits() -> nat {
        27
    }

    proof fn lemma_number_of_bytes() {
    }

    #[inline]
    fn number_of_bits() -> (n: usize) {
        27
    }
}

impl NumberOfBits for Bits<28> {
    type Bytes = Bytes<4>;

    open spec fn spec_number_of_bits() -> nat {
        28
    }

    proof fn lemma_number_of_bytes() {
    }

    #[inline]
    fn number_of_bits() -> (n: usize) {
        28
    }
}

impl NumberOfBits for Bits<29> {
    type Bytes = Bytes<4>;

    open spec fn spec_number_of_bits() -> nat {
        29
    }

    proof fn lemma_number_of_bytes() {
    }

    #[inline]
    fn number_of_bits() -> (n: usize) {
        29
    }
}

impl NumberOfBits for Bits<30> {
    type Bytes = Bytes<4>;

    open spec fn spec_number_of_bits() -> nat {
        30
    }

    proof fn lemma_number_of_bytes() {
    }

    #[inline]
    fn number_of_bits() -> (n: usize) {
        30
    }
}

impl NumberOfBits for Bits<31> {
    type Bytes = Bytes<4>;

    open spec fn spec_number_of_bits() -> nat {
        31
    }

    proof fn lemma_number_of_bytes() {
    }

    #[inline]
    fn number_of_bits() -> (n: usize) {
        31
    }
}

impl NumberOfBits for Bits<32> {
    type Bytes = Bytes<4>;

    open spec fn spec_number_of_bits() -> nat {
        32
    }

    proof fn lemma_number_of_bytes() {
    }

    #[inline]
    fn number_of_bits() -> (n: usize) {
        32
    }
}

impl NumberOfBits for Bits<33> {
    type Bytes = Bytes<5>;

    open spec fn spec_number_of_bits() -> nat {
        33
    }

    proof fn lemma_number_of_bytes() {
    }

    #[inline]
    fn number_of_bits() -> (n: usize) {
        33
    }
}

impl NumberOfBits for Bits<34> {
    type Bytes = Bytes<5>;

    open spec fn spec_number_of_bits() -> nat {
        34
    }

    proof fn lemma_number_of_bytes() {
    }

    #[inline]
    fn number_of_bits() -> (n: usize) {
        34
    }
}

impl NumberOfBits for Bits<35> {
    type Bytes = Bytes<5>;

    open spec fn spec_number_of_bits() -> nat {
        35
    }

    proof fn lemma_number_of_bytes() {
    }

    #[inline]
    fn number_of_bits() -> (n: usize) {
        35
    }
}

impl NumberOfBits for Bits<36> {
    type Bytes = Bytes<5>;

    open spec fn spec_number_of_bits() -> nat {
        36
    }

    proof fn lemma_number_of_bytes() {
    }

    #[inline]
    fn number_of_bits() -> (n: usize) {
        36
    }
}

impl NumberOfBits for Bits<37> {
    type Bytes = Bytes<5>;

    open spec fn spec_number_of_bits() -> nat {
        37
    }

    proof fn lemma_number_of_bytes() {
    }

    #[inline]
    fn number_of_bits() -> (n: usize) {
        37
    }
}

impl NumberOfBits for Bits<38> {
    type Bytes = Bytes<5>;

    open spec fn spec_number_of_bits() -> nat {
        38
    }

    proof fn lemma_number_of_bytes() {
    }

    #[inline]
    fn number_of_bits() -> (n: usize) {
        38
    }
}

impl NumberOfBits for Bits<39> {
    type Bytes = Bytes<5>;

    open spec fn spec_number_of_bits() -> nat {
        39
    }

    proof fn lemma_number_of_bytes() {
    }

    #[inline]
    fn number_of_bits() -> (n: usize) {
        39
    }
}

impl NumberOfBits for Bits<40> {
    type Bytes = Bytes<5>;

    open spec fn spec_number_of_bits() -> nat {
        40
    }

    proof fn lemma_number_of_bytes() {
    }

    #[inline]
    fn number_of_bits() -> (n: usize) {
        40
    }
}

impl NumberOfBits for Bits<41> {
    type Bytes = Bytes<6>;

    open spec fn spec_number_of_bits() -> nat {
        41
    }

    proof fn lemma_number_of_bytes() {
    }

    #[inline]
    fn number_of_bits() -> (n: usize) {
        41
    }
}

impl NumberOfBits for Bits<42> {
    type Bytes = Bytes<6>;

    open spec fn spec_number_of_bits() -> nat {
        42
    }

    proof fn lemma_number_of_bytes() {
    }

    #[inline]
    fn number_of_bits() -> (n: usize) {
        42
    }
}

impl NumberOfBits for Bits<43> {
    type Bytes = Bytes<6>;

    open spec fn spec_number_of_bits() -> nat {
        43
    }

    proof fn lemma_number_of_bytes() {
    }

    #[inline]
    fn number_of_bits() -> (n: usize) {
        43
    }
}

impl NumberOfBits for Bits<44> {
    type Bytes = Bytes<6>;

    open spec fn spec_number_of_bits() -> nat {
        44
    }

    proof fn lemma_number_of_bytes() {
    }

    #[inline]
    fn number_of_bits() -> (n: usize) {
        44
    }
}

impl NumberOfBits for Bits<45> {
    type Bytes = Bytes<6>;

    open spec fn spec_number_of_bits() -> nat {
        45
    }

    proof fn lemma_number_of_bytes() {
    }

    #[inline]
    fn number_of_bits() -> (n: usize) {
        45
    }
}

impl NumberOfBits for Bits<46> {
    type Bytes = Bytes<6>;

    open spec fn spec_number_of_bits() -> nat {
        46
    }

    proof fn lemma_number_of_bytes() {
    }

    #[inline]
    fn number_of_bits() -> (n: usize) {
        46
    }
}

impl NumberOfBits for Bits<47> {
    type Bytes = Bytes<6>;

    open spec fn spec_number_of_bits() -> nat {
        47
    }

    proof fn lemma_number_of_bytes() {
    }

    #[inline]
    fn number_of_bits() -> (n: usize) {
        47
    }
}

impl NumberOfBits for Bits<48> {
    type Bytes = Bytes<6>;

    open spec fn spec_number_of_bits() -> nat {
        48
    }

    proof fn lemma_number_of_bytes() {
    }

    #[inline]
    fn number_of_bits() -> (n: usize) {
        48
    }
}

impl NumberOfBits for Bits<49> {
    type Bytes = Bytes<7>;

    open spec fn spec_number_of_bits() -> nat {
        49
    }

    proof fn lemma_number_of_bytes() {
    }

    #[inline]
    fn number_of_bits() -> (n: usize) {
        49
    }
}

impl NumberOfBits for Bits<50> {
    type Bytes = Bytes<7>;

    open spec fn spec_number_of_bits() -> nat {
        50
    }

    proof fn lemma_number_of_bytes() {
    }

    #[inline]
    fn number_of_bits() -> (n: usize) {
        50
    }
}

impl NumberOfBits for Bits<51> {
    type Bytes = Bytes<7>;

    open spec fn spec_number_of_bits() -> nat {
        51
    }

    proof fn lemma_number_of_bytes() {
    }

    #[inline]
    fn number_of_bits() -> (n: usize) {
        51
    }
}

impl NumberOfBits for Bits<52> {
    type Bytes = Bytes<7>;

    open spec fn spec_number_of_bits() -> nat {
        52
    }

    proof fn lemma_number_of_bytes() {
    }

    #[inline]
    fn number_of_bits() -> (n: usize) {
        52
    }
}

impl NumberOfBits for Bits<53> {
    type Bytes = Bytes<7>;

    open spec fn spec_number_of_bits() -> nat {
        53
    }

    proof fn lemma_number_of_bytes() {
    }

    #[inline]
    fn number_of_bits() -> (n: usize) {
        53
    }
}

impl NumberOfBits for Bits<54> {
    type Bytes = Bytes<7>;

    open spec fn spec_number_of_bits() -> nat {
        54
    }

    proof fn lemma_number_of_bytes() {
    }

    #[inline]
    fn number_of_bits() -> (n: usize) {
        54
    }
}

impl NumberOfBits for Bits<55> {
    type Bytes = Bytes<7>;

    open spec fn spec_number_of_bits() -> nat {
        55
    }

    proof fn lemma_number_of_bytes() {
    }

    #[inline]
    fn number_of_bits() -> (n: usize) {
        55
    }
}

impl NumberOfBits for Bits<56> {
    type Bytes = Bytes<7>;

    open spec fn spec_number_of_bits() -> nat {
        56
    }

    proof fn lemma_number_of_bytes() {
    }

    #[inline]
    fn number_of_bits() -> (n: usize) {
        56
    }
}

impl NumberOfBits for Bits<57> {
    type Bytes = Bytes<8>;

    open spec fn spec_number_of_bits() -> nat {
        57
    }

    proof fn lemma_number_of_bytes() {
    }

    #[inline]
    fn number_of_bits() -> (n: usize) {
        57
    }
}

impl NumberOfBits for Bits<58> {
    type Bytes = Bytes<8>;

    open spec fn spec_number_of_bits() -> nat {
        58
    }

    proof fn lemma_number_of_bytes() {
    }

    #[inline]
    fn number_of_bits() -> (n: usize) {
        58
    }
}

impl NumberOfBits for Bits<59> {
    type Bytes = Bytes<8>;

    open spec fn spec_number_of_bits() -> nat {
        59
    }

    proof fn lemma_number_of_bytes() {
    }

    #[inline]
    fn number_of_bits() -> (n: usize) {
        59
    }
}

impl NumberOfBits for Bits<60> {
    type Bytes = Bytes<8>;

    open spec fn spec_number_of_bits() -> nat {
        60
    }

    proof fn lemma_number_of_bytes() {
    }

    #[inline]
    fn number_of_bits() -> (n: usize) {
        60
    }
}

impl NumberOfBits for Bits<61> {
    type Bytes = Bytes<8>;

    open spec fn spec_number_of_bits() -> nat {
        61
    }

    proof fn lemma_number_of_bytes() {
    }

    #[inline]
    fn number_of_bits() -> (n: usize) {
        61
    }
}

impl NumberOfBits for Bits<62> {
    type Bytes = Bytes<8>;

    open spec fn spec_number_of_bits() -> nat {
        62
    }

    proof fn lemma_number_of_bytes() {
    }

    #[inline]
    fn number_of_bits() -> (n: usize) {
        62
    }
}

impl NumberOfBits for Bits<63> {
    type Bytes = Bytes<8>;

    open spec fn spec_number_of_bits() -> nat {
        63
    }

    proof fn lemma_number_of_bytes() {
    }

    #[inline]
    fn number_of_bits() -> (n: usize) {
        63
    }
}

impl NumberOfBits for Bits<64> {
    type Bytes = Bytes<8>;

    open spec fn spec_number_of_bits() -> nat {
        64
    }

    proof fn lemma_number_of_bytes() {
    }

    #[inline]
    fn number_of_bits() -> (n: usize) {
        64
    }
}

impl BitsPartialBytes for Bits<1> {
    proof fn lemma_partial_bytes() {
    }
}

impl BitsPartialBytes for Bits<2> {
    proof fn lemma_partial_bytes() {
    }
}

impl BitsPartialBytes for Bits<3> {
    proof fn lemma_partial_bytes() {
    }
}

impl BitsPartialBytes for Bits<4> {
    proof fn lemma_partial_bytes() {
    }
}

impl BitsPartialBytes for Bits<5> {
    proof fn lemma_partial_bytes() {
    }
}

impl BitsPartialBytes for Bits<6> {
    proof fn lemma_partial_bytes() {
    }
}

impl BitsPartialBytes for Bits<7> {
    proof fn lemma_partial_bytes() {
    }
}

impl BitsFullBytes for Bits<8> {
    proof fn lemma_full_bytes() {
    }
}

impl BitsPartialBytes for Bits<9> {
    proof fn lemma_partial_bytes() {
    }
}

impl BitsPartialBytes for Bits<10> {
    proof fn lemma_partial_bytes() {
    }
}

impl BitsPartialBytes for Bits<11> {
    proof fn lemma_partial_bytes() {
    }
}

impl BitsPartialBytes for Bits<12> {
    proof fn lemma_partial_bytes() {
    }
}

impl BitsPartialBytes for Bits<13> {
    proof fn lemma_partial_bytes() {
    }
}

impl BitsPartialBytes for Bits<14> {
    proof fn lemma_partial_bytes() {
    }
}

impl BitsPartialBytes for Bits<15> {
    proof fn lemma_partial_bytes() {
    }
}

impl BitsFullBytes for Bits<16> {
    proof fn lemma_full_bytes() {
    }
}

impl BitsPartialBytes for Bits<17> {
    proof fn lemma_partial_bytes() {
    }
}

impl BitsPartialBytes for Bits<18> {
    proof fn lemma_partial_bytes() {
    }
}

impl BitsPartialBytes for Bits<19> {
    proof fn lemma_partial_bytes() {
    }
}

impl BitsPartialBytes for Bits<20> {
    proof fn lemma_partial_bytes() {
    }
}

impl BitsPartialBytes for Bits<21> {
    proof fn lemma_partial_bytes() {
    }
}

impl BitsPartialBytes for Bits<22> {
    proof fn lemma_partial_bytes() {
    }
}

impl BitsPartialBytes for Bits<23> {
    proof fn lemma_partial_bytes() {
    }
}

impl BitsFullBytes for Bits<24> {
    proof fn lemma_full_bytes() {
    }
}

impl BitsPartialBytes for Bits<25> {
    proof fn lemma_partial_bytes() {
    }
}

impl BitsPartialBytes for Bits<26> {
    proof fn lemma_partial_bytes() {
    }
}

impl BitsPartialBytes for Bits<27> {
    proof fn lemma_partial_bytes() {
    }
}

impl BitsPartialBytes for Bits<28> {
    proof fn lemma_partial_bytes() {
    }
}

impl BitsPartialBytes for Bits<29> {
    proof fn lemma_partial_bytes() {
    }
}

impl BitsPartialBytes for Bits<30> {
    proof fn lemma_partial_bytes() {
    }
}

impl BitsPartialBytes for Bits<31> {
    proof fn lemma_partial_bytes() {
    }
}

impl BitsFullBytes for Bits<32> {
    proof fn lemma_full_bytes() {
    }
}

impl BitsPartialBytes for Bits<33> {
    proof fn lemma_partial_bytes() {
    }
}

impl BitsPartialBytes for Bits<34> {
    proof fn lemma_partial_bytes() {
    }
}

impl BitsPartialBytes for Bits<35> {
    proof fn lemma_partial_bytes() {
    }
}

impl BitsPartialBytes for Bits<36> {
    proof fn lemma_partial_bytes() {
    }
}

impl BitsPartialBytes for Bits<37> {
    proof fn lemma_partial_bytes() {
    }
}

impl BitsPartialBytes for Bits<38> {
    proof fn lemma_partial_bytes() {
    }
}

impl BitsPartialBytes for Bits<39> {
    proof fn lemma_partial_bytes() {
    }
}

impl BitsFullBytes for Bits<40> {
    proof fn lemma_full_bytes() {
    }
}

impl BitsPartialBytes for Bits<41> {
    proof fn lemma_partial_bytes() {
    }
}

impl BitsPartialBytes for Bits<42> {
    proof fn lemma_partial_bytes() {
    }
}

impl BitsPartialBytes for Bits<43> {
    proof fn lemma_partial_bytes() {
    }
}

impl BitsPartialBytes for Bits<44> {
    proof fn lemma_partial_bytes() {
    }
}

impl BitsPartialBytes for Bits<45> {
    proof fn lemma_partial_bytes() {
    }
}

impl BitsPartialBytes for Bits<46> {
    proof fn lemma_partial_bytes() {
    }
}

impl BitsPartialBytes for Bits<47> {
    proof fn lemma_partial_bytes() {
    }
}

impl BitsFullBytes for Bits<48> {
    proof fn lemma_full_bytes() {
    }
}

impl BitsPartialBytes for Bits<49> {
    proof fn lemma_partial_bytes() {
    }
}

impl BitsPartialBytes for Bits<50> {
    proof fn lemma_partial_bytes() {
    }
}

impl BitsPartialBytes for Bits<51> {
    proof fn lemma_partial_bytes() {
    }
}

impl BitsPartialBytes for Bits<52> {
    proof fn lemma_partial_bytes() {
    }
}

impl BitsPartialBytes for Bits<53> {
    proof fn lemma_partial_bytes() {
    }
}

impl BitsPartialBytes for Bits<54> {
    proof fn lemma_partial_bytes() {
    }
}

impl BitsPartialBytes for Bits<55> {
    proof fn lemma_partial_bytes() {
    }
}

impl BitsFullBytes for Bits<56> {
    proof fn lemma_full_bytes() {
    }
}

impl BitsPartialBytes for Bits<57> {
    proof fn lemma_partial_bytes() {
    }
}

impl BitsPartialBytes for Bits<58> {
    proof fn lemma_partial_bytes() {
    }
}

impl BitsPartialBytes for Bits<59> {
    proof fn lemma_partial_bytes() {
    }
}

impl BitsPartialBytes for Bits<60> {
    proof fn lemma_partial_bytes() {
    }
}

impl BitsPartialBytes for Bits<61> {
    proof fn lemma_partial_bytes() {
    }
}

impl BitsPartialBytes for Bits<62> {
    proof fn lemma_partial_bytes() {
    }
}

impl BitsPartialBytes for Bits<63> {
    proof fn lemma_partial_bytes() {
    }
}

impl BitsFullBytes for Bits<64> {
    proof fn lemma_full_bytes() {
    }
}

/// Moves the bytes of `s` by `bytes` places towards the end and fills the
/// places that become free with zeroes.
pub fn bytes_rotate_right(s: &mut [u8], bytes: usize)
    requires
        bytes < old(s)@.len(),
    ensures
        final(s)@ == spec_rotate_right(old(s)@, bytes as nat),
{
    let n = s.len();
    let mut i: usize = n - bytes - 1;
    loop
        invariant_except_break
            i < n - bytes,
            forall|k: int| 0 <= k <= i + bytes ==> #[trigger] s@[k] == old(s)@[k],
            forall|k: int|
                i + bytes < k < n ==> #[trigger] s@[k] == old(s)@[k - bytes],
        invariant
            s@.len() == n,
            n == old(s)@.len(),
            bytes < n,
        ensures
            forall|k: int| 0 <= k < bytes ==> #[trigger] s@[k] == old(s)@[k],
            forall|k: int| bytes <= k < n ==> #[trigger] s@[k] == old(s)@[k - bytes],
        decreases i,
    {
        s[i + bytes] = s[i];
        if i == 0 {
            break ;
        }
        i -= 1;
    }
    let mut j: usize = 0;
    while j < bytes
        invariant
            j <= bytes < n,
            s@.len() == n,
            n == old(s)@.len(),
            forall|k: int| 0 <= k < j ==> #[trigger] s@[k] == 0u8,
            forall|k: int| bytes <= k < n ==> #[trigger] s@[k] == old(s)@[k - bytes],
        decreases bytes - j,
    {
        s[j] = 0;
        j += 1;
    }
    assert(s@ =~= spec_rotate_right(old(s)@, bytes as nat));
}

} // verus!
