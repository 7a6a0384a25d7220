use vstd::prelude::*;

verus! {

/// An address expressed as an offset into a loaded module.
#[derive(Debug)]
pub struct RelativeAddress {
    pub base: u64,
    pub displacement: u32,
}

/// A raw value read from the debuggee, kept as its bytes.
#[derive(Debug)]
pub struct Value {
    data: Vec<u8>,
}

/// True when every byte of `bytes` is zero.
pub open spec fn all_zero(bytes: Seq<u8>) -> bool {
    forall|i: int| 0 <= i < bytes.len() ==> bytes[i] == 0
}

/// The eight bytes of `x`, least significant first.
pub open spec fn le_bytes_u64(x: u64) -> Seq<u8> {
    seq![
        (x & 0xff) as u8,
        ((x >> 8u64) & 0xff) as u8,
        ((x >> 16u64) & 0xff) as u8,
        ((x >> 24u64) & 0xff) as u8,
        ((x >> 32u64) & 0xff) as u8,
        ((x >> 40u64) & 0xff) as u8,
        ((x >> 48u64) & 0xff) as u8,
        ((x >> 56u64) & 0xff) as u8,
    ]
}

/// The number whose bytes, least significant first, are the first eight of `b`.
pub open spec fn u64_from_le_bytes(b: Seq<u8>) -> u64
    recommends
        b.len() == 8,
{
    (b[0] as u64) | ((b[1] as u64) << 8u64) | ((b[2] as u64) << 16u64) | ((b[3] as u64) << 24u64)
        | ((b[4] as u64) << 32u64) | ((b[5] as u64) << 40u64) | ((b[6] as u64) << 48u64) | ((
    b[7] as u64) << 56u64)
}

impl View for Value {
    type V = Seq<u8>;

    closed spec fn view(&self) -> Seq<u8> {
        self.data@
    }
}

impl Value {
    /// A value holding a copy of `data`.
    pub fn new(data: &[u8]) -> (v: Self)
        ensures
            v@ == data@,
    {
        let mut copy: Vec<u8> = Vec::new();
        let mut i: usize = 0;
        while i < data.len()
            invariant
                i <= data@.len(),
                copy@ == data@.subrange(0, i as int),
            decreases data@.len() - i,
        {
            copy.push(data[i]);
            i = i + 1;
            assert(copy@ == data@.subrange(0, i as int));
        }
        Value { data: copy }
    }

    /// The bytes of the value.
    pub fn data(&self) -> (d: &[u8])
        ensures
            d@ == self@,
    {
        self.data.as_slice()
    }

    /// Whether no byte of the value is non-zero.
    pub fn is_zeroed(&self) -> (z: bool)
        ensures
            z == all_zero(self@),
            z <==> forall|i: int| 0 <= i < self@.len() ==> self@[i] == 0,
    {
        let mut i: usize = 0;
        while i < self.data.len()
            invariant
                i <= self.data@.len(),
                forall|j: int| 0 <= j < i ==> self.data@[j] == 0,
            decreases self.data@.len() - i,
        {
            if self.data[i] != 0 {
                return false;
            }
            i = i + 1;
        }
        true
    }
}

impl vstd::std_specs::convert::FromSpecImpl<u64> for Value {
    /// Values with the same bytes cannot be told apart in specifications, so
    /// `from` is described by its own `ensures` over the view, not by `from_spec`.
    open spec fn obeys_from_spec() -> bool {
        false
    }

    open spec fn from_spec(v: u64) -> Self {
        choose|r: Value| r@ == le_bytes_u64(v)
    }
}

impl From<u64> for Value {
    /// The eight bytes of `wrapped`, least significant first.
    fn from(wrapped: u64) -> (v: Self)
        ensures
            v@ == le_bytes_u64(wrapped),
    {
        let mut data: Vec<u8> = Vec::new();
        data.push((wrapped & 0xff) as u8);
        data.push(((wrapped >> 8u64) & 0xff) as u8);
        data.push(((wrapped >> 16u64) & 0xff) as u8);
        data.push(((wrapped >> 24u64) & 0xff) as u8);
        data.push(((wrapped >> 32u64) & 0xff) as u8);
        data.push(((wrapped >> 40u64) & 0xff) as u8);
        data.push(((wrapped >> 48u64) & 0xff) as u8);
        data.push(((wrapped >> 56u64) & 0xff) as u8);
        let v = Value { data };
        assert(v@ =~= le_bytes_u64(wrapped));
        v
    }
}

/// A run of bytes is all zero exactly when none of its bytes, at any
/// position, is non-zero; the length of the run does not matter.
pub proof fn lemma_all_zero_means_no_nonzero_byte(bytes: Seq<u8>)
    ensures
        all_zero(bytes) <==> !(exists|i: int| 0 <= i < bytes.len() && bytes[i] != 0),
{
}

/// The bytes of a number are its base-256 digits, least significant first.
pub proof fn lemma_le_bytes_u64_digits(x: u64)
    ensures
        le_bytes_u64(x).len() == 8,
        le_bytes_u64(x)[0] == x % 0x100,
        le_bytes_u64(x)[1] == (x / 0x100) % 0x100,
        le_bytes_u64(x)[2] == (x / 0x1_0000) % 0x100,
        le_bytes_u64(x)[3] == (x / 0x100_0000) % 0x100,
        le_bytes_u64(x)[4] == (x / 0x1_0000_0000) % 0x100,
        le_bytes_u64(x)[5] == (x / 0x100_0000_0000) % 0x100,
        le_bytes_u64(x)[6] == (x / 0x1_0000_0000_0000) % 0x100,
        le_bytes_u64(x)[7] == (x / 0x100_0000_0000_0000) % 0x100,
{
    assert((x & 0xff) as u8 == x % 0x100) by (bit_vector);
    assert(((x >> 8u64) & 0xff) as u8 == (x / 0x100) % 0x100) by (bit_vector);
    assert(((x >> 16u64) & 0xff) as u8 == (x / 0x1_0000) % 0x100) by (bit_vector);
    assert(((x >> 24u64) & 0xff) as u8 == (x / 0x100_0000) % 0x100) by (bit_vector);
    assert(((x >> 32u64) & 0xff) as u8 == (x / 0x1_0000_0000) % 0x100) by (bit_vector);
    assert(((x >> 40u64) & 0xff) as u8 == (x / 0x100_0000_0000) % 0x100) by (bit_vector);
    assert(((x >> 48u64) & 0xff) as u8 == (x / 0x1_0000_0000_0000) % 0x100) by (bit_vector);
    assert(((x >> 56u64) & 0xff) as u8 == (x / 0x100_0000_0000_0000) % 0x100) by (bit_vector);
}

/// The bytes that a number converts to read back as that number.
pub proof fn lemma_value_from_u64_round_trip(x: u64)
    ensures
        le_bytes_u64(x).len() == 8,
        u64_from_le_bytes(le_bytes_u64(x)) == x,
{
    let b = le_bytes_u64(x);
    assert(b[0] == (x & 0xff) as u8);
    assert(b[7] == ((x >> 56u64) & 0xff) as u8);
    assert(((((x & 0xff) as u8) as u64) | (((((x >> 8u64) & 0xff) as u8) as u64) << 8u64) | (((((x
        >> 16u64) & 0xff) as u8) as u64) << 16u64) | (((((x >> 24u64) & 0xff) as u8) as u64)
        << 24u64) | (((((x >> 32u64) & 0xff) as u8) as u64) << 32u64) | (((((x >> 40u64) & 0xff)
        as u8) as u64) << 40u64) | (((((x >> 48u64) & 0xff) as u8) as u64) << 48u64) | (((((x
        >> 56u64) & 0xff) as u8) as u64) << 56u64)) == x) by (bit_vector);
}

/// A number converts to a zeroed value exactly when it is zero.
pub proof fn lemma_value_from_u64_zeroed(x: u64)
    ensures
        all_zero(le_bytes_u64(x)) <==> x == 0,
{
    let b = le_bytes_u64(x);
    assert(((x & 0xff) as u8 == 0 && ((x >> 8u64) & 0xff) as u8 == 0 && ((x >> 16u64) & 0xff)
        as u8 == 0 && ((x >> 24u64) & 0xff) as u8 == 0 && ((x >> 32u64) & 0xff) as u8 == 0 && ((x
        >> 40u64) & 0xff) as u8 == 0 && ((x >> 48u64) & 0xff) as u8 == 0 && ((x >> 56u64) & 0xff)
        as u8 == 0) <==> x == 0) by (bit_vector);
    if x == 0 {
        assert(all_zero(b));
    } else {
        if all_zero(b) {
            assert(b[0] == 0 && b[1] == 0 && b[2] == 0 && b[3] == 0);
            assert(b[4] == 0 && b[5] == 0 && b[6] == 0 && b[7] == 0);
        }
    }
}

} // verus!
