//! The clock resource: the cached time of day, how a burst frame is decoded
//! into it, and how one field is advanced and written back.
//!
//! A caller that shares the clock between workers holds it behind one lock and
//! keeps the lock from the first wire operation of a transaction to the last.

use crate::bcd::{bcd_encoding, bcd_to_dec, bcd_value, dec_to_bcd, is_packed_decimal};
use crate::bus::is_transaction;
use crate::wire::{
    bits_value, frame_bits, frame_byte, write_ops, write_transaction, WireOp, CMD_WRITE_HOURS,
    CMD_WRITE_MINUTES, CMD_WRITE_SECONDS,
};
use vstd::prelude::*;

verus! {

/// A time of day in decimal.
#[derive(Clone, Copy, Debug, PartialEq, Eq, Structural)]
pub struct ClockFields {
    pub hour: u8,
    pub minute: u8,
    pub second: u8,
}

impl ClockFields {
    /// The fields name a time of day on a 24-hour clock.
    pub open spec fn is_valid(self) -> bool {
        self.hour <= 23 && self.minute <= 59 && self.second <= 59
    }
}

/// One of the three fields that setup can advance.
#[derive(Clone, Copy, Debug, PartialEq, Eq, Structural)]
pub enum TimeField {
    Hours,
    Minutes,
    Seconds,
}

impl TimeField {
    /// The number of values the field runs through before it wraps.
    pub open spec fn modulus(self) -> int {
        match self {
            TimeField::Hours => 24,
            TimeField::Minutes => 60,
            TimeField::Seconds => 60,
        }
    }

    /// The command byte that writes the field's register.
    pub open spec fn write_command(self) -> u8 {
        match self {
            TimeField::Hours => CMD_WRITE_HOURS,
            TimeField::Minutes => CMD_WRITE_MINUTES,
            TimeField::Seconds => CMD_WRITE_SECONDS,
        }
    }

    /// The register bits that hold the field's value: the seconds register
    /// keeps the clock-halt flag in bit 7, the hours register the 12/24-hour
    /// flag in bit 7 and nothing in bit 6.
    pub open spec fn value_mask(self) -> u8 {
        match self {
            TimeField::Hours => 0x3F,
            TimeField::Minutes => 0x7F,
            TimeField::Seconds => 0x7F,
        }
    }

    /// The flag bits that a write forces to zero: clock-halt for seconds, so
    /// that the clock runs; the hour-mode bits for hours, so that it counts
    /// to 24. The minutes register is written as packed.
    pub open spec fn write_mask(self) -> u8 {
        match self {
            TimeField::Hours => 0x3F,
            TimeField::Minutes => 0xFF,
            TimeField::Seconds => 0x7F,
        }
    }

    /// The field's value as a register byte holds it.
    pub open spec fn value_of_register(self, register: u8) -> int {
        bcd_value(register & self.value_mask())
    }

    /// The register byte written for a value of the field.
    pub open spec fn register_of_value(self, value: u8) -> u8 {
        (bcd_encoding(value) as u8) & self.write_mask()
    }

    /// The value that follows `value`: one more, wrapping to zero at the
    /// field's modulus.
    pub open spec fn successor(self, value: u8) -> int {
        (value as int + 1) % self.modulus()
    }
}

/// The time of day that a burst frame holds: seconds, minutes and hours in its
/// first three registers; the other four are not looked at.
pub open spec fn frame_fields(samples: Seq<bool>) -> ClockFields {
    ClockFields {
        second: TimeField::Seconds.value_of_register(
            bits_value(frame_bits(samples, 0)) as u8,
        ) as u8,
        minute: TimeField::Minutes.value_of_register(
            bits_value(frame_bits(samples, 1)) as u8,
        ) as u8,
        hour: TimeField::Hours.value_of_register(bits_value(frame_bits(samples, 2)) as u8) as u8,
    }
}

/// Decodes the time of day from the samples of a burst read.
pub fn decode_burst(samples: &[bool; 56]) -> (fields: ClockFields)
    ensures
        fields == frame_fields(samples@),
{
    let second: u8 = bcd_to_dec(frame_byte(samples, 0) & 0x7F);
    let minute: u8 = bcd_to_dec(frame_byte(samples, 1) & 0x7F);
    let hour: u8 = bcd_to_dec(frame_byte(samples, 2) & 0x3F);
    ClockFields { hour, minute, second }
}

/// The clock as this node knows it: the time of day last read from the chip
/// or last written to it.
#[derive(Clone, Copy, Debug, PartialEq, Eq, Structural)]
pub struct RtcInterface {
    pub hours: u8,
    pub minutes: u8,
    pub seconds: u8,
}

impl RtcInterface {
    /// The cached time of day.
    pub open spec fn fields(self) -> ClockFields {
        ClockFields { hour: self.hours, minute: self.minutes, second: self.seconds }
    }

    /// The cache after `field` has been set to `value`.
    pub open spec fn with_field(self, field: TimeField, value: u8) -> RtcInterface {
        match field {
            TimeField::Hours => RtcInterface { hours: value, ..self },
            TimeField::Minutes => RtcInterface { minutes: value, ..self },
            TimeField::Seconds => RtcInterface { seconds: value, ..self },
        }
    }

    /// The cached value of `field`.
    pub open spec fn field(self, field: TimeField) -> u8 {
        match field {
            TimeField::Hours => self.hours,
            TimeField::Minutes => self.minutes,
            TimeField::Seconds => self.seconds,
        }
    }

    /// A clock that has not been read yet; it shows 14:50:00 until then.
    pub fn new() -> (rtc: RtcInterface)
        ensures
            rtc.fields() == (ClockFields { hour: 14, minute: 50, second: 0 }),
            rtc.fields().is_valid(),
    {
        RtcInterface { hours: 14, minutes: 50, seconds: 0 }
    }

    /// The cached time of day.
    pub fn time(&self) -> (fields: ClockFields)
        ensures
            fields == self.fields(),
    {
        ClockFields { hour: self.hours, minute: self.minutes, second: self.seconds }
    }

    /// Takes in the samples of a burst read: decodes the three fields, caches
    /// them and returns them.
    pub fn read(&mut self, samples: &[bool; 56]) -> (fields: ClockFields)
        ensures
            fields == frame_fields(samples@),
            final(self).fields() == fields,
    {
        let fields: ClockFields = decode_burst(samples);
        self.seconds = fields.second;
        self.minutes = fields.minute;
        self.hours = fields.hour;
        fields
    }

    /// Advances the seconds by one, from what the burst read just taken
    /// shows: caches the frame, steps the seconds (59 wraps to 0) and plans the
    /// write of the seconds register, clock-halt flag cleared.
    pub fn iterate_second(&mut self, samples: &[bool; 56]) -> (out: (ClockFields, Vec<WireOp>))
        ensures
            final(self).fields() == out.0,
            is_transaction(out.1@),
            out.0.second == TimeField::Seconds.successor(frame_fields(samples@).second),
            out.0.minute == frame_fields(samples@).minute,
            out.0.hour == frame_fields(samples@).hour,
            out.0.second <= 59,
            out.1@ == write_ops(
                CMD_WRITE_SECONDS,
                TimeField::Seconds.register_of_value(out.0.second),
            ),
    {
        let current: ClockFields = self.read(samples);
        let next: u8 = (current.second + 1) % 60;
        self.seconds = next;
        let register: u8 = dec_to_bcd(next) & 0x7F;
        (self.time(), write_transaction(CMD_WRITE_SECONDS, register))
    }

    /// Advances the minutes by one, from what the burst read just taken
    /// shows: caches the frame, steps the minutes (59 wraps to 0) and plans the
    /// write of the minutes register.
    pub fn iterate_minute(&mut self, samples: &[bool; 56]) -> (out: (ClockFields, Vec<WireOp>))
        ensures
            final(self).fields() == out.0,
            is_transaction(out.1@),
            out.0.minute == TimeField::Minutes.successor(frame_fields(samples@).minute),
            out.0.second == frame_fields(samples@).second,
            out.0.hour == frame_fields(samples@).hour,
            out.0.minute <= 59,
            out.1@ == write_ops(
                CMD_WRITE_MINUTES,
                TimeField::Minutes.register_of_value(out.0.minute),
            ),
    {
        let current: ClockFields = self.read(samples);
        let next: u8 = (current.minute + 1) % 60;
        self.minutes = next;
        let register: u8 = dec_to_bcd(next);
        assert(register & 0xFF == register) by (bit_vector);
        (self.time(), write_transaction(CMD_WRITE_MINUTES, register))
    }

    /// Advances the hours by one, from what the burst read just taken shows:
    /// caches the frame, steps the hours (23 wraps to 0) and plans the write of
    /// the hours register, in 24-hour mode.
    pub fn iterate_hour(&mut self, samples: &[bool; 56]) -> (out: (ClockFields, Vec<WireOp>))
        ensures
            final(self).fields() == out.0,
            is_transaction(out.1@),
            out.0.hour == TimeField::Hours.successor(frame_fields(samples@).hour),
            out.0.second == frame_fields(samples@).second,
            out.0.minute == frame_fields(samples@).minute,
            out.0.hour <= 23,
            out.1@ == write_ops(CMD_WRITE_HOURS, TimeField::Hours.register_of_value(out.0.hour)),
    {
        let current: ClockFields = self.read(samples);
        let next: u8 = (current.hour + 1) % 24;
        self.hours = next;
        let register: u8 = dec_to_bcd(next) & 0x3F;
        (self.time(), write_transaction(CMD_WRITE_HOURS, register))
    }

    /// Advances `field` by one, from what the burst read just taken shows.
    pub fn increment_field(&mut self, field: TimeField, samples: &[bool; 56]) -> (out: (
        ClockFields,
        Vec<WireOp>,
    ))
        ensures
            final(self).fields() == out.0,
            is_transaction(out.1@),
            out.0 == RtcInterface::incremented(frame_fields(samples@), field),
            out.1@ == write_ops(
                field.write_command(),
                field.register_of_value(final(self).field(field)),
            ),
    {
        match field {
            TimeField::Hours => self.iterate_hour(samples),
            TimeField::Minutes => self.iterate_minute(samples),
            TimeField::Seconds => self.iterate_second(samples),
        }
    }

    /// The time of day `current` with `field` advanced by one.
    pub open spec fn incremented(current: ClockFields, field: TimeField) -> ClockFields {
        match field {
            TimeField::Hours => ClockFields {
                hour: field.successor(current.hour) as u8,
                ..current
            },
            TimeField::Minutes => ClockFields {
                minute: field.successor(current.minute) as u8,
                ..current
            },
            TimeField::Seconds => ClockFields {
                second: field.successor(current.second) as u8,
                ..current
            },
        }
    }
}

/// Advancing a field wraps its last value to zero and adds one to every
/// value below that.
pub proof fn lemma_successor_wraps(field: TimeField, value: u8)
    ensures
        value == field.modulus() - 1 ==> field.successor(value) == 0,
        value < field.modulus() - 1 ==> field.successor(value) == value + 1,
        0 <= field.successor(value) < field.modulus(),
{
}

/// Advancing a field of a time of day gives a time of day, with the other
/// two fields as they were.
pub proof fn lemma_increment_keeps_valid(current: ClockFields, field: TimeField)
    requires
        current.is_valid(),
    ensures
        RtcInterface::incremented(current, field).is_valid(),
        field != TimeField::Hours ==> RtcInterface::incremented(current, field).hour
            == current.hour,
        field != TimeField::Minutes ==> RtcInterface::incremented(current, field).minute
            == current.minute,
        field != TimeField::Seconds ==> RtcInterface::incremented(current, field).second
            == current.second,
{
}

/// A value within the field's range, written to its register and read back,
/// is the value: the flag bits that a write clears hold none of its digits.
pub proof fn lemma_register_round_trip(field: TimeField, value: u8)
    requires
        value < field.modulus(),
    ensures
        field.register_of_value(value) == bcd_encoding(value),
        is_packed_decimal(field.register_of_value(value)),
        field.value_of_register(field.register_of_value(value)) == value,
{
    let packed: u8 = bcd_encoding(value) as u8;
    assert(packed <= 0x59);
    assert(packed & 0x7F == packed && packed & 0xFF == packed) by (bit_vector)
        requires
            packed <= 0x59,
    ;
    if field == TimeField::Hours {
        assert(packed <= 0x23);
        assert(packed & 0x3F == packed) by (bit_vector)
            requires
                packed <= 0x23,
        ;
    }
}

} // verus!
