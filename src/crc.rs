//! The Modbus CRC-16 (polynomial 0xA001 reflected, seed 0xFFFF).
use vstd::prelude::*;

verus! {

/// One shift of the CRC register: shift right, and xor in the polynomial
/// when the bit shifted out was set.
pub open spec fn crc_shift(c: u16) -> u16 {
    if c & 1 == 1 {
        (c >> 1) ^ 0xA001
    } else {
        c >> 1
    }
}

/// `n` successive shifts of the CRC register.
pub open spec fn crc_shifts(c: u16, n: nat) -> u16
    decreases n,
{
    if n == 0 {
        c
    } else {
        crc_shift(crc_shifts(c, (n - 1) as nat))
    }
}

/// The CRC register after feeding every byte of `data`, before the final swap.
pub open spec fn crc_register(data: Seq<u8>) -> u16
    decreases data.len(),
{
    if data.len() == 0 {
        0xFFFF
    } else {
        crc_shifts(crc_register(data.drop_last()) ^ (data.last() as u16), 8)
    }
}

/// The two bytes of a word exchanged.
pub open spec fn swap_bytes(c: u16) -> u16 {
    (c << 8) | (c >> 8)
}

/// The checksum of `data` in the form that `calc_crc` returns: the register
/// with its bytes swapped, so that writing it big-endian puts the low byte
/// of the register first on the wire.
pub open spec fn crc16(data: Seq<u8>) -> u16 {
    swap_bytes(crc_register(data))
}

/// Computes the Modbus CRC-16 of `data`, byte-swapped.
pub fn calc_crc(data: &[u8]) -> (r: u16)
    ensures
        r == crc16(data@),
{
    let mut crc: u16 = 0xFFFF;
    let mut i: usize = 0;
    while i < data.len()
        invariant
            0 <= i <= data@.len(),
            crc == crc_register(data@.take(i as int)),
        decreases data@.len() - i,
    {
        assert(data@.take(i + 1).drop_last() =~= data@.take(i as int));
        crc = crc ^ (data[i] as u16);
        let ghost start = crc;
        let mut k: u32 = 0;
        while k < 8
            invariant
                0 <= k <= 8,
                crc == crc_shifts(start, k as nat),
            decreases 8 - k,
        {
            let odd = (crc & 0x0001) != 0;
            crc = crc >> 1;
            if odd {
                crc = crc ^ 0xA001;
            }
            assert(crc == crc_shift(crc_shifts(start, k as nat))) by {
                let prev = crc_shifts(start, k as nat);
                assert((prev & 1 != 0) == (prev & 1 == 1)) by (bit_vector);
            }
            k = k + 1;
        }
        i = i + 1;
    }
    assert(data@.take(data@.len() as int) =~= data@);
    crc << 8 | crc >> 8
}

} // verus!
