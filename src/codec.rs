//! Register words to and from big-endian bytes; coils to and from bits
//! packed eight to a byte, least significant bit first.
use vstd::prelude::*;
use bytes::Bytes;
use crate::buffer::{be_bytes, be_word, frozen_contents, frozen_slice, get_u16};
use crate::error::{Error, Reason};

verus! {

/// The bytes of a word sequence, two per word, high byte first.
pub open spec fn words_to_bytes(w: Seq<u16>) -> Seq<u8>
    decreases w.len(),
{
    if w.len() == 0 {
        Seq::empty()
    } else {
        be_bytes(w[0]) + words_to_bytes(w.skip(1))
    }
}

/// The words of a byte sequence read pairwise big-endian; a trailing odd
/// byte is left out.
pub open spec fn bytes_to_words(b: Seq<u8>) -> Seq<u16>
    decreases b.len(),
{
    if b.len() < 2 {
        Seq::empty()
    } else {
        seq![be_word(b[0], b[1])] + bytes_to_words(b.skip(2))
    }
}

proof fn lemma_words_to_bytes_len(w: Seq<u16>)
    ensures
        words_to_bytes(w).len() == 2 * w.len(),
    decreases w.len(),
{
    if w.len() > 0 {
        lemma_words_to_bytes_len(w.skip(1));
    }
}

/// Reading back the bytes of a word sequence gives the words again.
pub proof fn lemma_words_round_trip(w: Seq<u16>)
    ensures
        words_to_bytes(w).len() % 2 == 0,
        bytes_to_words(words_to_bytes(w)) == w,
    decreases w.len(),
{
    lemma_words_to_bytes_len(w);
    if w.len() > 0 {
        lemma_words_round_trip(w.skip(1));
        let b = words_to_bytes(w);
        assert(b.skip(2) =~= words_to_bytes(w.skip(1)));
        assert(be_word(b[0], b[1]) == w[0]);
        assert(bytes_to_words(b) =~= w);
    } else {
        assert(bytes_to_words(words_to_bytes(w)) =~= w);
    }
}

/// Groups bytes pairwise into big-endian words; an odd number of bytes is
/// refused.
pub fn pack_bytes(bytes: Bytes) -> (r: Result<Vec<u16>, Error>)
    ensures
        frozen_contents(bytes).len() % 2 == 0 <==> r is Ok,
        r matches Ok(w) ==> w@ == bytes_to_words(frozen_contents(bytes)),
        r matches Err(e) ==> e == Error::InvalidData(Reason::BytecountNotEven),
{
    let mut bytes = bytes;
    let ghost orig = frozen_contents(bytes);
    let size = frozen_slice(&bytes).len();
    if size % 2 != 0 {
        return Err(Error::InvalidData(Reason::BytecountNotEven));
    }
    let mut res: Vec<u16> = Vec::with_capacity(size / 2 + 1);
    let mut i: usize = 0;
    assert(res@ + bytes_to_words(orig) =~= bytes_to_words(orig));
    while i < size / 2
        invariant
            size == orig.len(),
            size % 2 == 0,
            i <= size / 2,
            frozen_contents(bytes).len() == size - 2 * i,
            res@ + bytes_to_words(frozen_contents(bytes)) == bytes_to_words(orig),
        decreases size / 2 - i,
    {
        let ghost before = frozen_contents(bytes);
        let w = get_u16(&mut bytes);
        assert(bytes_to_words(before) == seq![w] + bytes_to_words(frozen_contents(bytes)));
        assert(res@.push(w) + bytes_to_words(frozen_contents(bytes)) =~= res@ + bytes_to_words(before));
        res.push(w);
        i = i + 1;
    }
    assert(bytes_to_words(frozen_contents(bytes)) =~= Seq::<u16>::empty());
    assert(res@ + Seq::<u16>::empty() =~= res@);
    Ok(res)
}

/// Writes each word as two bytes, high byte first.
pub fn unpack_bytes(data: &[u16]) -> (r: Vec<u8>)
    requires
        2 * data@.len() <= usize::MAX,
    ensures
        r@ == words_to_bytes(data@),
{
    let size = data.len();
    let mut res: Vec<u8> = Vec::with_capacity(size * 2);
    let mut i: usize = 0;
    assert(data@.skip(0) =~= data@);
    assert(res@ + words_to_bytes(data@) =~= words_to_bytes(data@));
    while i < size
        invariant
            size == data@.len(),
            i <= size,
            res@ + words_to_bytes(data@.skip(i as int)) == words_to_bytes(data@),
        decreases size - i,
    {
        let b = data[i];
        let ghost rest = data@.skip(i as int);
        assert(rest.skip(1) =~= data@.skip(i + 1));
        let hi = (b / 256) as u8;
        let lo = (b % 256) as u8;
        assert(res@.push(hi).push(lo) + words_to_bytes(data@.skip(i + 1)) =~= res@ + words_to_bytes(rest));
        res.push(hi);
        res.push(lo);
        i = i + 1;
    }
    assert(data@.skip(size as int) =~= Seq::<u16>::empty());
    assert(res@ + Seq::<u8>::empty() =~= res@);
    res
}

} // verus!

verus! {

/// Single bit status values, used in read or write coil functions.
#[derive(Debug, Clone, Copy, PartialEq, Eq, Structural)]
pub enum Coil {
    On,
    Off,
}

/// The value that a coil write sends for each state.
pub open spec fn coil_code(c: Coil) -> u16 {
    match c {
        Coil::On => 0xff00,
        Coil::Off => 0x0000,
    }
}

/// The opposite state.
pub open spec fn coil_not(c: Coil) -> Coil {
    match c {
        Coil::On => Coil::Off,
        Coil::Off => Coil::On,
    }
}

/// The state that a flag stands for.
pub open spec fn coil_of(b: bool) -> Coil {
    if b {
        Coil::On
    } else {
        Coil::Off
    }
}

impl Coil {
    /// The value that a coil write sends for this state.
    pub fn code(self) -> (r: u16)
        ensures
            r == coil_code(self),
    {
        match self {
            Coil::On => 0xff00,
            Coil::Off => 0x0000,
        }
    }
}

impl From<bool> for Coil {
    fn from(b: bool) -> (r: Coil)
        ensures
            r == coil_of(b),
    {
        if b {
            Coil::On
        } else {
            Coil::Off
        }
    }
}

impl vstd::std_specs::convert::FromSpecImpl<bool> for Coil {
    open spec fn obeys_from_spec() -> bool {
        true
    }

    open spec fn from_spec(b: bool) -> Coil {
        coil_of(b)
    }
}

impl std::ops::Not for Coil {
    type Output = Coil;

    fn not(self) -> (r: Coil)
        ensures
            r == coil_not(self),
    {
        match self {
            Coil::On => Coil::Off,
            Coil::Off => Coil::On,
        }
    }
}

impl std::str::FromStr for Coil {
    type Err = Error;

    fn from_str(s: &str) -> (r: Result<Coil, Error>)
        ensures
            s@ == "On"@ ==> r == Ok::<Coil, Error>(Coil::On),
            s@ == "Off"@ ==> r == Ok::<Coil, Error>(Coil::Off),
            s@ != "On"@ && s@ != "Off"@ ==> r == Err::<Coil, Error>(Error::ParseCoilError),
    {
        proof {
            reveal_strlit("On");
            reveal_strlit("Off");
            assert("On"@.len() != "Off"@.len());
        }
        let owned = s.to_owned();
        if owned == "On".to_owned() {
            Ok(Coil::On)
        } else if owned == "Off".to_owned() {
            Ok(Coil::Off)
        } else {
            Err(Error::ParseCoilError)
        }
    }
}

impl vstd::std_specs::ops::NotSpecImpl for Coil {
    open spec fn obeys_not_spec() -> bool {
        true
    }

    open spec fn not_req(self) -> bool {
        true
    }

    open spec fn not_spec(self) -> Coil {
        coil_not(self)
    }
}

/// Bit `k` of a byte, counting from the least significant.
pub open spec fn bit_of(b: u8, k: u8) -> bool {
    (b >> k) & 1 == 1
}

/// Bit `j` of a packed byte sequence: bit `j % 8` of byte `j / 8`.
pub open spec fn packed_bit(b: Seq<u8>, j: int) -> bool {
    bit_of(b[j / 8], (j % 8) as u8)
}

/// `b` is the packing of `c`: one bit per coil, set for `On`, in
/// `ceil(len / 8)` bytes whose bits past the last coil are clear.
pub open spec fn packs_coils(c: Seq<Coil>, b: Seq<u8>) -> bool {
    &&& b.len() == (c.len() + 7) / 8
    &&& forall|j: int|
        0 <= j < 8 * b.len() ==> #[trigger] packed_bit(b, j) == (j < c.len() && c[j] == Coil::On)
}

/// The first `n` coils that a packed byte sequence holds.
pub open spec fn unpacked_coils(b: Seq<u8>, n: nat) -> Seq<Coil> {
    Seq::new(n, |j: int| coil_of(packed_bit(b, j)))
}

proof fn lemma_zero_bits(k: u8)
    requires
        k < 8,
    ensures
        !bit_of(0u8, k),
{
    assert((0u8 >> k) & 1 != 1) by (bit_vector)
        requires
            k < 8,
    ;
}

proof fn lemma_set_bit(b: u8, v: u8, k: u8, m: u8)
    requires
        k < 8,
        m < 8,
        v <= 1,
        !bit_of(b, k),
    ensures
        bit_of(b | (v << k), m) == if m == k {
            v == 1
        } else {
            bit_of(b, m)
        },
{
    assert(((b | (v << k)) >> m) & 1 == 1 <==> if m == k {
        v == 1
    } else {
        (b >> m) & 1 == 1
    }) by (bit_vector)
        requires
            k < 8,
            m < 8,
            v <= 1,
            (b >> k) & 1 != 1,
    ;
}

/// Packs coils eight to a byte, least significant bit first.
pub fn pack_bits(bits: &[Coil]) -> (r: Vec<u8>)
    ensures
        packs_coils(bits@, r@),
{
    let bitcount = bits.len();
    let packed_size = bitcount / 8 + if bitcount % 8 > 0 {
        1
    } else {
        0
    };
    let mut res: Vec<u8> = vec![0; packed_size];
    assert forall|j: int| 0 <= j < 8 * res@.len() implies !#[trigger] packed_bit(res@, j) by {
        lemma_zero_bits((j % 8) as u8);
    }
    let mut i: usize = 0;
    while i < bitcount
        invariant
            bitcount == bits@.len(),
            i <= bitcount,
            res@.len() == packed_size,
            packed_size == (bitcount + 7) / 8,
            forall|j: int| 0 <= j < i ==> #[trigger] packed_bit(res@, j) == (bits@[j] == Coil::On),
            forall|j: int| i <= j < 8 * packed_size ==> !#[trigger] packed_bit(res@, j),
        decreases bitcount - i,
    {
        let v: u8 = match bits[i] {
            Coil::On => 1u8,
            Coil::Off => 0u8,
        };
        let idx = i / 8;
        let k = (i % 8) as u8;
        let ghost prev = res@;
        let byte = res[idx];
        assert(!bit_of(byte, k)) by {
            assert(!packed_bit(prev, i as int));
        }
        res.set(idx, byte | (v << k));
        assert forall|j: int| 0 <= j < 8 * packed_size implies #[trigger] packed_bit(res@, j) == if j == i {
            v == 1
        } else {
            packed_bit(prev, j)
        } by {
            if j / 8 == idx {
                lemma_set_bit(byte, v, k, (j % 8) as u8);
            }
        }
        i = i + 1;
    }
    res
}

/// Reads `count` coils from packed bytes, least significant bit first;
/// bytes too few for `count` coils are refused.
pub fn unpack_bits(bytes: &[u8], count: u16) -> (r: Result<Vec<Coil>, Error>)
    ensures
        r is Ok <==> 8 * bytes@.len() >= count,
        r matches Ok(c) ==> c@ == unpacked_coils(bytes@, count as nat),
        r matches Err(e) ==> e == Error::InvalidData(Reason::UnexpectedReplySize),
{
    if bytes.len() < (count as usize + 7) / 8 {
        return Err(Error::InvalidData(Reason::UnexpectedReplySize));
    }
    let mut res: Vec<Coil> = Vec::with_capacity(count as usize);
    let mut i: u16 = 0;
    while i < count
        invariant
            i <= count,
            8 * bytes@.len() >= count,
            res@ =~= unpacked_coils(bytes@, i as nat),
        decreases count - i,
    {
        let byte = bytes[(i / 8) as usize];
        let k = (i % 8) as u8;
        if (byte >> k) & 1 > 0 {
            assert(packed_bit(bytes@, i as int)) by {
                assert((byte >> k) & 1 > 0 ==> (byte >> k) & 1 == 1) by (bit_vector);
            }
            res.push(Coil::On);
        } else {
            res.push(Coil::Off);
        }
        i = i + 1;
    }
    Ok(res)
}

/// Reading back `c.len()` coils from their packing gives the coils again.
pub proof fn lemma_coils_round_trip(c: Seq<Coil>, b: Seq<u8>)
    requires
        packs_coils(c, b),
    ensures
        8 * b.len() >= c.len(),
        unpacked_coils(b, c.len()) == c,
{
    assert forall|j: int| 0 <= j < c.len() implies #[trigger] unpacked_coils(b, c.len())[j] == c[j] by {
        assert(packed_bit(b, j) == (c[j] == Coil::On));
    }
    assert(unpacked_coils(b, c.len()) =~= c);
}

} // verus!
