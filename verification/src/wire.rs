//! The three-wire transport: what a transaction looks like on the clock, data
//! and reset lines, as a sequence of pin operations for the caller to execute
//! in order.

use crate::bus::{
    is_transaction, lemma_burst_read_is_transaction, lemma_write_is_transaction, samples_taken,
};
use vstd::arithmetic::power2::{lemma2_to64, lemma_pow2_unfold, pow2};
use vstd::prelude::*;

verus! {

/// Microseconds held on each half of a clock period while sending.
pub const GUARD_DELAY_US: u32 = 1;

/// Command byte: write the seconds register.
pub const CMD_WRITE_SECONDS: u8 = 0x80;

/// Command byte: write the minutes register.
pub const CMD_WRITE_MINUTES: u8 = 0x82;

/// Command byte: write the hours register.
pub const CMD_WRITE_HOURS: u8 = 0x84;

/// Command byte: write the control register, which holds the write-protect bit.
pub const CMD_WRITE_CONTROL: u8 = 0x8E;

/// Command byte: read all clock registers in one burst.
pub const CMD_BURST_READ: u8 = 0xBF;

/// Bits that a burst read clocks in: seven registers of eight bits.
pub const BURST_BITS: usize = 56;

/// One step on the bus.
#[derive(Clone, Copy, Debug, PartialEq, Eq, Structural)]
pub enum WireOp {
    /// Drive the serial clock low.
    ClockLow,
    /// Drive the serial clock high.
    ClockHigh,
    /// Drive the data line low.
    DataLow,
    /// Drive the data line high.
    DataHigh,
    /// Drive reset low: no transaction is active.
    ResetLow,
    /// Drive reset high: a transaction is active.
    ResetHigh,
    /// Hold the lines for one guard delay.
    Delay,
    /// Switch the data line to input.
    DataInput,
    /// Switch the data line back to output.
    DataOutput,
    /// Sample the data line and record the level.
    Sample,
}

/// Bit `i` of `byte`, bit 0 being the least significant.
pub open spec fn bit_of(byte: u8, i: u8) -> bool {
    (byte >> i) & 1u8 == 1u8
}

/// The operations that clock one bit out.
pub open spec fn send_bit_ops(bit: bool) -> Seq<WireOp> {
    seq![
        WireOp::ClockLow,
        if bit { WireOp::DataHigh } else { WireOp::DataLow },
        WireOp::Delay,
        WireOp::ClockHigh,
        WireOp::Delay,
    ]
}

/// The operations that clock out the `n` lowest bits of `byte`, lowest first.
pub open spec fn send_bits_ops(byte: u8, n: nat) -> Seq<WireOp>
    decreases n,
{
    if n == 0 {
        Seq::empty()
    } else {
        send_bits_ops(byte, (n - 1) as nat) + send_bit_ops(bit_of(byte, (n - 1) as u8))
    }
}

/// The operations that clock a whole byte out, least significant bit first.
pub open spec fn send_byte_ops(byte: u8) -> Seq<WireOp> {
    send_bits_ops(byte, 8)
}

/// The operations that clock one bit in.
pub open spec fn receive_bit_ops() -> Seq<WireOp> {
    seq![WireOp::ClockLow, WireOp::Sample, WireOp::ClockHigh]
}

/// The operations that clock `n` bits in.
pub open spec fn receive_bits_ops(n: nat) -> Seq<WireOp>
    decreases n,
{
    if n == 0 {
        Seq::empty()
    } else {
        receive_bits_ops((n - 1) as nat) + receive_bit_ops()
    }
}

/// A write transaction: open the frame, send the command byte, send the data
/// byte, close the frame.
pub open spec fn write_ops(command: u8, data: u8) -> Seq<WireOp> {
    seq![WireOp::ResetLow, WireOp::ClockLow, WireOp::ResetHigh, WireOp::DataLow]
        + send_byte_ops(command) + send_byte_ops(data) + seq![WireOp::ResetLow]
}

/// A burst read transaction: open the frame, send the burst-read command,
/// turn the data line round, clock in all seven registers, close the frame
/// and turn the data line back.
pub open spec fn burst_read_ops() -> Seq<WireOp> {
    seq![WireOp::DataLow, WireOp::ClockLow, WireOp::ResetHigh, WireOp::Delay]
        + send_byte_ops(CMD_BURST_READ) + seq![WireOp::DataInput] + receive_bits_ops(
        BURST_BITS as nat,
    ) + seq![WireOp::ResetLow, WireOp::DataOutput]
}

/// Appends the operations that send `byte`, least significant bit first.
pub fn push_send_byte(ops: &mut Vec<WireOp>, byte: u8)
    ensures
        final(ops)@ == old(ops)@ + send_byte_ops(byte),
{
    let mut i: u8 = 0;
    while i < 8
        invariant
            i <= 8,
            ops@ == old(ops)@ + send_bits_ops(byte, i as nat),
        decreases 8 - i,
    {
        let bit: bool = (byte >> i) & 1u8 == 1u8;
        ops.push(WireOp::ClockLow);
        if bit {
            ops.push(WireOp::DataHigh);
        } else {
            ops.push(WireOp::DataLow);
        }
        ops.push(WireOp::Delay);
        ops.push(WireOp::ClockHigh);
        ops.push(WireOp::Delay);
        assert(ops@ =~= old(ops)@ + send_bits_ops(byte, (i + 1) as nat));
        i = i + 1;
    }
}

/// Appends the operations that clock `n` bits in.
pub fn push_receive_bits(ops: &mut Vec<WireOp>, n: usize)
    ensures
        final(ops)@ == old(ops)@ + receive_bits_ops(n as nat),
{
    let mut i: usize = 0;
    while i < n
        invariant
            i <= n,
            ops@ == old(ops)@ + receive_bits_ops(i as nat),
        decreases n - i,
    {
        ops.push(WireOp::ClockLow);
        ops.push(WireOp::Sample);
        ops.push(WireOp::ClockHigh);
        assert(ops@ =~= old(ops)@ + receive_bits_ops((i + 1) as nat));
        i = i + 1;
    }
}

/// Plans a write transaction of one command byte and one data byte.
pub fn write_transaction(command: u8, data: u8) -> (ops: Vec<WireOp>)
    ensures
        ops@ == write_ops(command, data),
        is_transaction(ops@),
        samples_taken(ops@) == 0,
{
    proof {
        lemma_write_is_transaction(command, data);
    }
    let mut ops: Vec<WireOp> = Vec::new();
    ops.push(WireOp::ResetLow);
    ops.push(WireOp::ClockLow);
    ops.push(WireOp::ResetHigh);
    ops.push(WireOp::DataLow);
    assert(ops@ =~= seq![
        WireOp::ResetLow,
        WireOp::ClockLow,
        WireOp::ResetHigh,
        WireOp::DataLow,
    ]);
    push_send_byte(&mut ops, command);
    push_send_byte(&mut ops, data);
    ops.push(WireOp::ResetLow);
    assert(ops@ =~= write_ops(command, data));
    ops
}

/// Plans the transaction that switches the chip's write protection off.
pub fn write_protect_disable_transaction() -> (ops: Vec<WireOp>)
    ensures
        ops@ == write_ops(CMD_WRITE_CONTROL, 0x00),
        is_transaction(ops@),
        samples_taken(ops@) == 0,
{
    write_transaction(CMD_WRITE_CONTROL, 0x00)
}

/// Plans a burst read of all clock registers.
pub fn burst_read_transaction() -> (ops: Vec<WireOp>)
    ensures
        ops@ == burst_read_ops(),
        is_transaction(ops@),
        samples_taken(ops@) == BURST_BITS,
{
    proof {
        lemma_burst_read_is_transaction();
    }
    let mut ops: Vec<WireOp> = Vec::new();
    ops.push(WireOp::DataLow);
    ops.push(WireOp::ClockLow);
    ops.push(WireOp::ResetHigh);
    ops.push(WireOp::Delay);
    assert(ops@ =~= seq![WireOp::DataLow, WireOp::ClockLow, WireOp::ResetHigh, WireOp::Delay]);
    push_send_byte(&mut ops, CMD_BURST_READ);
    ops.push(WireOp::DataInput);
    push_receive_bits(&mut ops, BURST_BITS);
    ops.push(WireOp::ResetLow);
    ops.push(WireOp::DataOutput);
    assert(ops@ =~= burst_read_ops());
    ops
}

/// The number that sampled bits stand for, the first bit being the least
/// significant.
pub open spec fn bits_value(bits: Seq<bool>) -> nat
    decreases bits.len(),
{
    if bits.len() == 0 {
        0
    } else {
        (if bits[0] { 1nat } else { 0nat }) + 2 * bits_value(bits.skip(1))
    }
}

/// The bits of `byte` in the order in which they travel: lowest first.
pub open spec fn bits_of_byte(byte: u8) -> Seq<bool> {
    Seq::new(8, |i: int| bit_of(byte, i as u8))
}

/// The eight samples of register `register` within a burst frame.
pub open spec fn frame_bits(samples: Seq<bool>, register: int) -> Seq<bool> {
    samples.subrange(8 * register, 8 * register + 8)
}

/// Sampled bits stand for a number below two to the power of their count.
pub proof fn lemma_bits_value_bound(bits: Seq<bool>)
    ensures
        bits_value(bits) < pow2(bits.len()),
    decreases bits.len(),
{
    if bits.len() == 0 {
        lemma2_to64();
    } else {
        lemma_bits_value_bound(bits.skip(1));
        lemma_pow2_unfold(bits.len());
    }
}

/// Assembles register `register` of a burst frame from its eight samples,
/// the first sample being the least significant bit.
pub fn frame_byte(samples: &[bool; 56], register: usize) -> (byte: u8)
    requires
        register < 7,
    ensures
        byte as nat == bits_value(frame_bits(samples@, register as int)),
{
    let start: usize = 8 * register;
    let ghost bits: Seq<bool> = frame_bits(samples@, register as int);
    let mut byte: u8 = 0;
    let mut k: usize = 8;
    assert(bits.subrange(8, 8) =~= Seq::<bool>::empty());
    while k > 0
        invariant
            k <= 8,
            start == 8 * register,
            register < 7,
            bits == frame_bits(samples@, register as int),
            byte as nat == bits_value(bits.subrange(k as int, 8)),
        decreases k,
    {
        k = k - 1;
        let bit: bool = samples[start + k];
        proof {
            let rest: Seq<bool> = bits.subrange(k as int, 8);
            assert(rest.skip(1) =~= bits.subrange(k as int + 1, 8));
            assert(rest[0] == bit);
            lemma_bits_value_bound(rest);
            lemma_pow2_bound_byte(rest.len());
        }
        byte = byte * 2 + (if bit { 1u8 } else { 0u8 });
    }
    assert(bits.subrange(0, 8) =~= bits);
    byte
}

/// Powers of two up to the eighth are at most 256.
proof fn lemma_pow2_bound_byte(n: nat)
    requires
        n <= 8,
    ensures
        pow2(n) <= 256,
    decreases 8 - n,
{
    lemma2_to64();
    if n < 8 {
        lemma_pow2_bound_byte(n + 1);
        lemma_pow2_unfold(n + 1);
    }
}

/// What is sent is what is received: the bits of a byte, read back lowest
/// first, stand for the byte.
pub proof fn lemma_wire_round_trip(byte: u8)
    ensures
        bits_value(bits_of_byte(byte)) == byte,
{
    let bits: Seq<bool> = bits_of_byte(byte);
    reveal_with_fuel(bits_value, 10);
    assert(bits.skip(1).skip(1).skip(1).skip(1).skip(1).skip(1).skip(1).skip(1).len() == 0);
    let b0: nat = if bit_of(byte, 0) { 1 } else { 0 };
    let b1: nat = if bit_of(byte, 1) { 1 } else { 0 };
    let b2: nat = if bit_of(byte, 2) { 1 } else { 0 };
    let b3: nat = if bit_of(byte, 3) { 1 } else { 0 };
    let b4: nat = if bit_of(byte, 4) { 1 } else { 0 };
    let b5: nat = if bit_of(byte, 5) { 1 } else { 0 };
    let b6: nat = if bit_of(byte, 6) { 1 } else { 0 };
    let b7: nat = if bit_of(byte, 7) { 1 } else { 0 };
    assert(bits_value(bits) == b0 + 2 * (b1 + 2 * (b2 + 2 * (b3 + 2 * (b4 + 2 * (b5 + 2 * (b6 + 2
        * b7)))))));
    assert(byte == ((byte >> 0u8) & 1u8) + 2 * (((byte >> 1u8) & 1u8) + 2 * (((byte >> 2u8) & 1u8)
        + 2 * (((byte >> 3u8) & 1u8) + 2 * (((byte >> 4u8) & 1u8) + 2 * (((byte >> 5u8) & 1u8) + 2
        * (((byte >> 6u8) & 1u8) + 2 * ((byte >> 7u8) & 1u8)))))))) by (bit_vector);
    assert(forall|i: u8| i < 8 ==> ((byte >> i) & 1u8 == 0u8 || (byte >> i) & 1u8 == 1u8))
        by (bit_vector);
}

} // verus!
