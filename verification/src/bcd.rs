//! Packed binary-coded decimal, as the clock chip's registers hold it: the
//! tens digit in the high nibble, the units digit in the low nibble.

use vstd::prelude::*;

verus! {

/// The number a packed register byte stands for: ten times the high nibble
/// plus the low nibble. Defined for every byte, also for nibbles above 9.
pub open spec fn bcd_value(bcd: u8) -> int {
    (bcd as int / 16) * 10 + (bcd as int % 16)
}

/// The packed byte of a number: its tens digit (the low four bits of it) in
/// the high nibble, its units digit in the low nibble.
pub open spec fn bcd_encoding(dec: u8) -> int {
    ((dec as int / 10) % 16) * 16 + (dec as int % 10)
}

/// Both nibbles of the byte are decimal digits.
pub open spec fn is_packed_decimal(bcd: u8) -> bool {
    bcd as int / 16 <= 9 && bcd as int % 16 <= 9
}

/// Unpacks a register byte into the number it stands for.
pub fn bcd_to_dec(bcd: u8) -> (dec: u8)
    ensures
        dec as int == bcd_value(bcd),
        is_packed_decimal(bcd) ==> dec <= 99,
{
    let tens: u8 = bcd >> 4;
    let units: u8 = bcd & 0x0F;
    assert(tens == bcd / 16 && tens <= 15) by (bit_vector)
        requires
            tens == bcd >> 4,
    ;
    assert(units == bcd % 16 && units <= 15) by (bit_vector)
        requires
            units == bcd & 0x0F,
    ;
    tens * 10 + units
}

/// Packs a number into a register byte.
pub fn dec_to_bcd(dec: u8) -> (bcd: u8)
    ensures
        bcd as int == bcd_encoding(dec),
        dec <= 99 ==> is_packed_decimal(bcd) && bcd_value(bcd) == dec,
{
    let tens: u8 = dec / 10;
    let units: u8 = dec % 10;
    let bcd: u8 = (tens << 4) | units;
    assert(bcd == (tens % 16) * 16 + units) by (bit_vector)
        requires
            bcd == (tens << 4) | units,
            units <= 9,
    ;
    bcd
}

/// Packing a number below one hundred and unpacking it again gives the number
/// back; in particular for every second, minute and hour.
pub proof fn lemma_bcd_round_trip(dec: u8)
    requires
        dec <= 99,
    ensures
        is_packed_decimal(bcd_encoding(dec) as u8),
        bcd_value(bcd_encoding(dec) as u8) == dec,
{
}

/// Unpacking a byte of two decimal digits and packing it again gives the byte
/// back.
pub proof fn lemma_bcd_pack_unpack(bcd: u8)
    requires
        is_packed_decimal(bcd),
    ensures
        bcd_value(bcd) <= 99,
        bcd_encoding(bcd_value(bcd) as u8) == bcd,
{
}

} // verus!
