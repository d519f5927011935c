//! The framing rules of the bus, as a small state machine over the wire
//! operations: when a frame may be opened, when the data line may be
//! driven and when it may be sampled. Every transaction this crate plans
//! obeys them, and transactions executed one after the other never overlap.

use crate::wire::{
    bit_of, burst_read_ops, receive_bit_ops, receive_bits_ops, send_bit_ops, send_bits_ops,
    send_byte_ops, write_ops, WireOp, BURST_BITS, CMD_BURST_READ,
};
use vstd::prelude::*;

verus! {

/// The lines, as far as the framing rules look at them.
#[derive(Clone, Copy, Debug, PartialEq, Eq, Structural)]
pub struct BusState {
    /// Reset is high: a frame is open.
    pub active: bool,
    /// The serial clock is high.
    pub clock_high: bool,
    /// The data line is switched to input.
    pub data_input: bool,
}

impl BusState {
    /// Between transactions: no frame open, the data line an output.
    pub open spec fn is_idle(self) -> bool {
        !self.active && !self.data_input
    }

    /// Whether the rules permit `op` in this state. A frame is opened only
    /// with the clock low and no frame open; the clock is raised only inside
    /// a frame; the data line is driven only as an output, turned round only
    /// inside a frame, and sampled only as an input, inside a frame, with the
    /// clock low.
    pub open spec fn allows(self, op: WireOp) -> bool {
        match op {
            WireOp::ClockLow => true,
            WireOp::ClockHigh => self.active,
            WireOp::DataLow => !self.data_input,
            WireOp::DataHigh => !self.data_input,
            WireOp::ResetLow => true,
            WireOp::ResetHigh => !self.active && !self.clock_high,
            WireOp::Delay => true,
            WireOp::DataInput => self.active && !self.data_input,
            WireOp::DataOutput => self.data_input,
            WireOp::Sample => self.active && self.data_input && !self.clock_high,
        }
    }

    /// The state that `op` leaves.
    pub open spec fn after(self, op: WireOp) -> BusState {
        match op {
            WireOp::ClockLow => BusState { clock_high: false, ..self },
            WireOp::ClockHigh => BusState { clock_high: true, ..self },
            WireOp::ResetLow => BusState { active: false, ..self },
            WireOp::ResetHigh => BusState { active: true, ..self },
            WireOp::DataInput => BusState { data_input: true, ..self },
            WireOp::DataOutput => BusState { data_input: false, ..self },
            WireOp::DataLow => self,
            WireOp::DataHigh => self,
            WireOp::Delay => self,
            WireOp::Sample => self,
        }
    }

    /// The state after `ops`, or none where one of them is not permitted at
    /// its turn.
    pub open spec fn run(self, ops: Seq<WireOp>) -> Option<BusState>
        decreases ops.len(),
    {
        if ops.len() == 0 {
            Some(self)
        } else {
            match self.run(ops.drop_last()) {
                Some(state) => if state.allows(ops.last()) {
                    Some(state.after(ops.last()))
                } else {
                    None
                },
                None => None,
            }
        }
    }

    /// A bus between transactions, the clock low.
    pub fn new() -> (state: BusState)
        ensures
            state.is_idle(),
            !state.clock_high,
    {
        BusState { active: false, clock_high: false, data_input: false }
    }

    /// Applies one operation, where the rules permit it.
    pub fn step(self, op: WireOp) -> (next: Option<BusState>)
        ensures
            next == if self.allows(op) {
                Some(self.after(op))
            } else {
                None::<BusState>
            },
    {
        let allowed: bool = match op {
            WireOp::ClockLow => true,
            WireOp::ClockHigh => self.active,
            WireOp::DataLow => !self.data_input,
            WireOp::DataHigh => !self.data_input,
            WireOp::ResetLow => true,
            WireOp::ResetHigh => !self.active && !self.clock_high,
            WireOp::Delay => true,
            WireOp::DataInput => self.active && !self.data_input,
            WireOp::DataOutput => self.data_input,
            WireOp::Sample => self.active && self.data_input && !self.clock_high,
        };
        if !allowed {
            return None;
        }
        let next: BusState = match op {
            WireOp::ClockLow => BusState { clock_high: false, ..self },
            WireOp::ClockHigh => BusState { clock_high: true, ..self },
            WireOp::ResetLow => BusState { active: false, ..self },
            WireOp::ResetHigh => BusState { active: true, ..self },
            WireOp::DataInput => BusState { data_input: true, ..self },
            WireOp::DataOutput => BusState { data_input: false, ..self },
            _ => self,
        };
        Some(next)
    }

    /// Applies a run of operations; none where one of them is not permitted
    /// at its turn.
    pub fn execute(self, ops: &Vec<WireOp>) -> (end: Option<BusState>)
        ensures
            end == self.run(ops@),
    {
        let mut state: BusState = self;
        let mut i: usize = 0;
        while i < ops.len()
            invariant
                i <= ops.len(),
                self.run(ops@.take(i as int)) == Some(state),
            decreases ops.len() - i,
        {
            assert(ops@.take(i + 1).drop_last() =~= ops@.take(i as int));
            match state.step(ops[i]) {
                Some(next) => {
                    state = next;
                },
                None => {
                    proof {
                        lemma_run_prefix(self, ops@, i + 1);
                    }
                    return None;
                },
            }
            i = i + 1;
        }
        assert(ops@.take(i as int) =~= ops@);
        Some(state)
    }
}

/// How often `op` occurs in `ops`.
pub open spec fn occurrences(ops: Seq<WireOp>, op: WireOp) -> nat
    decreases ops.len(),
{
    if ops.len() == 0 {
        0
    } else {
        occurrences(ops.drop_last(), op) + if ops.last() == op {
            1nat
        } else {
            0nat
        }
    }
}

/// The number of frames that `ops` opens.
pub open spec fn frames_opened(ops: Seq<WireOp>) -> nat {
    occurrences(ops, WireOp::ResetHigh)
}

/// The number of samples that `ops` takes.
pub open spec fn samples_taken(ops: Seq<WireOp>) -> nat {
    occurrences(ops, WireOp::Sample)
}

/// `ops` is one whole transaction: from any bus between transactions it is
/// permitted step by step, opens exactly one frame, and leaves the bus
/// between transactions again.
pub open spec fn is_transaction(ops: Seq<WireOp>) -> bool {
    &&& frames_opened(ops) == 1
    &&& forall|start: BusState|
        start.is_idle() ==> (#[trigger] start.run(ops)) is Some && start.run(ops).unwrap().is_idle()
}

/// Transactions executed one after the other, none begun before the one
/// before it has ended.
pub open spec fn in_series(transactions: Seq<Seq<WireOp>>) -> Seq<WireOp>
    decreases transactions.len(),
{
    if transactions.len() == 0 {
        Seq::empty()
    } else {
        in_series(transactions.drop_last()) + transactions.last()
    }
}

/// Where a run of operations is permitted, so is each of its beginnings.
pub proof fn lemma_run_prefix(start: BusState, ops: Seq<WireOp>, n: int)
    requires
        0 <= n <= ops.len(),
        start.run(ops.take(n)) is None,
    ensures
        start.run(ops) is None,
    decreases ops.len() - n,
{
    if n < ops.len() {
        assert(ops.take(n + 1).drop_last() =~= ops.take(n));
        lemma_run_prefix(start, ops, n + 1);
    } else {
        assert(ops.take(n) =~= ops);
    }
}

/// Running two runs of operations on end is running the first and then, from
/// where it ends, the second.
pub proof fn lemma_run_concat(start: BusState, first: Seq<WireOp>, second: Seq<WireOp>)
    ensures
        start.run(first + second) == match start.run(first) {
            Some(middle) => middle.run(second),
            None => None,
        },
    decreases second.len(),
{
    if second.len() == 0 {
        assert(first + second =~= first);
    } else {
        assert((first + second).drop_last() =~= first + second.drop_last());
        lemma_run_concat(start, first, second.drop_last());
    }
}

/// Two runs of operations on end hold an operation as often as both
/// together.
pub proof fn lemma_occurrences_concat(first: Seq<WireOp>, second: Seq<WireOp>, op: WireOp)
    ensures
        occurrences(first + second, op) == occurrences(first, op) + occurrences(second, op),
    decreases second.len(),
{
    if second.len() == 0 {
        assert(first + second =~= first);
    } else {
        assert((first + second).drop_last() =~= first + second.drop_last());
        lemma_occurrences_concat(first, second.drop_last(), op);
    }
}

/// One more operation at the end of a run: permitted or not in the state the
/// run has led to, and counted where it is the one looked for.
proof fn lemma_push(start: BusState, ops: Seq<WireOp>, last: WireOp, op: WireOp)
    ensures
        start.run(ops.push(last)) == match start.run(ops) {
            Some(state) => if state.allows(last) {
                Some(state.after(last))
            } else {
                None
            },
            None => None,
        },
        occurrences(ops.push(last), op) == occurrences(ops, op) + if last == op {
            1nat
        } else {
            0nat
        },
{
    assert(ops.push(last).drop_last() =~= ops);
}

/// Sending a bit inside a frame is permitted, leaves the clock high, and
/// neither opens a frame nor takes a sample.
proof fn lemma_send_bit(start: BusState, bit: bool)
    requires
        start.active,
        !start.data_input,
    ensures
        start.run(send_bit_ops(bit)) == Some(BusState { clock_high: true, ..start }),
        frames_opened(send_bit_ops(bit)) == 0,
        samples_taken(send_bit_ops(bit)) == 0,
{
    let level = if bit { WireOp::DataHigh } else { WireOp::DataLow };
    let s0 = Seq::<WireOp>::empty();
    let s1 = s0.push(WireOp::ClockLow);
    let s2 = s1.push(level);
    let s3 = s2.push(WireOp::Delay);
    let s4 = s3.push(WireOp::ClockHigh);
    let s5 = s4.push(WireOp::Delay);
    assert(s5 =~= send_bit_ops(bit));
    lemma_push(start, s0, WireOp::ClockLow, WireOp::ResetHigh);
    lemma_push(start, s1, level, WireOp::ResetHigh);
    lemma_push(start, s2, WireOp::Delay, WireOp::ResetHigh);
    lemma_push(start, s3, WireOp::ClockHigh, WireOp::ResetHigh);
    lemma_push(start, s4, WireOp::Delay, WireOp::ResetHigh);
    lemma_push(start, s0, WireOp::ClockLow, WireOp::Sample);
    lemma_push(start, s1, level, WireOp::Sample);
    lemma_push(start, s2, WireOp::Delay, WireOp::Sample);
    lemma_push(start, s3, WireOp::ClockHigh, WireOp::Sample);
    lemma_push(start, s4, WireOp::Delay, WireOp::Sample);
}

/// Sending bits inside a frame is permitted, leaves the clock high once a
/// bit has gone, and neither opens a frame nor takes a sample.
proof fn lemma_send_bits(start: BusState, byte: u8, n: nat)
    requires
        start.active,
        !start.data_input,
    ensures
        start.run(send_bits_ops(byte, n)) == Some(
            if n == 0 {
                start
            } else {
                BusState { clock_high: true, ..start }
            },
        ),
        frames_opened(send_bits_ops(byte, n)) == 0,
        samples_taken(send_bits_ops(byte, n)) == 0,
    decreases n,
{
    if n > 0 {
        let before = send_bits_ops(byte, (n - 1) as nat);
        let bit = send_bit_ops(bit_of(byte, (n - 1) as u8));
        lemma_send_bits(start, byte, (n - 1) as nat);
        let middle = start.run(before).unwrap();
        lemma_send_bit(middle, bit_of(byte, (n - 1) as u8));
        lemma_run_concat(start, before, bit);
        lemma_occurrences_concat(before, bit, WireOp::ResetHigh);
        lemma_occurrences_concat(before, bit, WireOp::Sample);
    }
}

/// Receiving a bit inside a frame, the data line an input, is permitted,
/// leaves the clock high, opens no frame and takes one sample.
proof fn lemma_receive_bit(start: BusState)
    requires
        start.active,
        start.data_input,
    ensures
        start.run(receive_bit_ops()) == Some(BusState { clock_high: true, ..start }),
        frames_opened(receive_bit_ops()) == 0,
        samples_taken(receive_bit_ops()) == 1,
{
    let s0 = Seq::<WireOp>::empty();
    let s1 = s0.push(WireOp::ClockLow);
    let s2 = s1.push(WireOp::Sample);
    let s3 = s2.push(WireOp::ClockHigh);
    assert(s3 =~= receive_bit_ops());
    lemma_push(start, s0, WireOp::ClockLow, WireOp::ResetHigh);
    lemma_push(start, s1, WireOp::Sample, WireOp::ResetHigh);
    lemma_push(start, s2, WireOp::ClockHigh, WireOp::ResetHigh);
    lemma_push(start, s0, WireOp::ClockLow, WireOp::Sample);
    lemma_push(start, s1, WireOp::Sample, WireOp::Sample);
    lemma_push(start, s2, WireOp::ClockHigh, WireOp::Sample);
}

/// Receiving `n` bits inside a frame, the data line an input, is permitted,
/// opens no frame and takes `n` samples.
proof fn lemma_receive_bits(start: BusState, n: nat)
    requires
        start.active,
        start.data_input,
    ensures
        start.run(receive_bits_ops(n)) == Some(
            if n == 0 {
                start
            } else {
                BusState { clock_high: true, ..start }
            },
        ),
        frames_opened(receive_bits_ops(n)) == 0,
        samples_taken(receive_bits_ops(n)) == n,
    decreases n,
{
    if n > 0 {
        let before = receive_bits_ops((n - 1) as nat);
        lemma_receive_bits(start, (n - 1) as nat);
        let middle = start.run(before).unwrap();
        lemma_receive_bit(middle);
        lemma_run_concat(start, before, receive_bit_ops());
        lemma_occurrences_concat(before, receive_bit_ops(), WireOp::ResetHigh);
        lemma_occurrences_concat(before, receive_bit_ops(), WireOp::Sample);
    }
}

/// Every write is one whole transaction, and takes no sample.
pub proof fn lemma_write_is_transaction(command: u8, data: u8)
    ensures
        is_transaction(write_ops(command, data)),
        samples_taken(write_ops(command, data)) == 0,
{
    let s0 = Seq::<WireOp>::empty();
    let s1 = s0.push(WireOp::ResetLow);
    let s2 = s1.push(WireOp::ClockLow);
    let s3 = s2.push(WireOp::ResetHigh);
    let head = s3.push(WireOp::DataLow);
    let with_command = head + send_byte_ops(command);
    let with_data = with_command + send_byte_ops(data);
    let all = with_data.push(WireOp::ResetLow);
    assert(head =~= seq![
        WireOp::ResetLow,
        WireOp::ClockLow,
        WireOp::ResetHigh,
        WireOp::DataLow,
    ]);
    assert(all =~= write_ops(command, data));
    lemma_occurrences_concat(head, send_byte_ops(command), WireOp::ResetHigh);
    lemma_occurrences_concat(with_command, send_byte_ops(data), WireOp::ResetHigh);
    lemma_occurrences_concat(head, send_byte_ops(command), WireOp::Sample);
    lemma_occurrences_concat(with_command, send_byte_ops(data), WireOp::Sample);
    assert forall|start: BusState| start.is_idle() implies (#[trigger] start.run(all)) is Some
        && start.run(all).unwrap().is_idle() && frames_opened(all) == 1 && samples_taken(all)
        == 0 by {
        lemma_push(start, s0, WireOp::ResetLow, WireOp::ResetHigh);
        lemma_push(start, s1, WireOp::ClockLow, WireOp::ResetHigh);
        lemma_push(start, s2, WireOp::ResetHigh, WireOp::ResetHigh);
        lemma_push(start, s3, WireOp::DataLow, WireOp::ResetHigh);
        lemma_push(start, s0, WireOp::ResetLow, WireOp::Sample);
        lemma_push(start, s1, WireOp::ClockLow, WireOp::Sample);
        lemma_push(start, s2, WireOp::ResetHigh, WireOp::Sample);
        lemma_push(start, s3, WireOp::DataLow, WireOp::Sample);
        let opened = start.run(head).unwrap();
        lemma_send_bits(opened, command, 8);
        lemma_run_concat(start, head, send_byte_ops(command));
        let sent = start.run(with_command).unwrap();
        lemma_send_bits(sent, data, 8);
        lemma_run_concat(start, with_command, send_byte_ops(data));
        lemma_push(start, with_data, WireOp::ResetLow, WireOp::ResetHigh);
        lemma_push(start, with_data, WireOp::ResetLow, WireOp::Sample);
    }
    let witness = BusState { active: false, clock_high: false, data_input: false };
    assert(witness.is_idle());
    assert(witness.run(all) is Some);
}

/// The burst read is one whole transaction, and takes as many samples as a
/// burst frame has bits.
pub proof fn lemma_burst_read_is_transaction()
    ensures
        is_transaction(burst_read_ops()),
        samples_taken(burst_read_ops()) == BURST_BITS,
{
    let s0 = Seq::<WireOp>::empty();
    let s1 = s0.push(WireOp::DataLow);
    let s2 = s1.push(WireOp::ClockLow);
    let s3 = s2.push(WireOp::ResetHigh);
    let head = s3.push(WireOp::Delay);
    let with_command = head + send_byte_ops(CMD_BURST_READ);
    let turned = with_command.push(WireOp::DataInput);
    let received = turned + receive_bits_ops(BURST_BITS as nat);
    let closed = received.push(WireOp::ResetLow);
    let all = closed.push(WireOp::DataOutput);
    assert(head =~= seq![WireOp::DataLow, WireOp::ClockLow, WireOp::ResetHigh, WireOp::Delay]);
    assert(all =~= burst_read_ops());
    lemma_occurrences_concat(head, send_byte_ops(CMD_BURST_READ), WireOp::ResetHigh);
    lemma_occurrences_concat(head, send_byte_ops(CMD_BURST_READ), WireOp::Sample);
    lemma_occurrences_concat(turned, receive_bits_ops(BURST_BITS as nat), WireOp::ResetHigh);
    lemma_occurrences_concat(turned, receive_bits_ops(BURST_BITS as nat), WireOp::Sample);
    assert forall|start: BusState| start.is_idle() implies (#[trigger] start.run(all)) is Some
        && start.run(all).unwrap().is_idle() && frames_opened(all) == 1 && samples_taken(all)
        == BURST_BITS by {
        lemma_push(start, s0, WireOp::DataLow, WireOp::ResetHigh);
        lemma_push(start, s1, WireOp::ClockLow, WireOp::ResetHigh);
        lemma_push(start, s2, WireOp::ResetHigh, WireOp::ResetHigh);
        lemma_push(start, s3, WireOp::Delay, WireOp::ResetHigh);
        lemma_push(start, s0, WireOp::DataLow, WireOp::Sample);
        lemma_push(start, s1, WireOp::ClockLow, WireOp::Sample);
        lemma_push(start, s2, WireOp::ResetHigh, WireOp::Sample);
        lemma_push(start, s3, WireOp::Delay, WireOp::Sample);
        let opened = start.run(head).unwrap();
        lemma_send_bits(opened, CMD_BURST_READ, 8);
        lemma_run_concat(start, head, send_byte_ops(CMD_BURST_READ));
        lemma_push(start, with_command, WireOp::DataInput, WireOp::ResetHigh);
        lemma_push(start, with_command, WireOp::DataInput, WireOp::Sample);
        let listening = start.run(turned).unwrap();
        lemma_receive_bits(listening, BURST_BITS as nat);
        lemma_run_concat(start, turned, receive_bits_ops(BURST_BITS as nat));
        lemma_push(start, received, WireOp::ResetLow, WireOp::ResetHigh);
        lemma_push(start, received, WireOp::ResetLow, WireOp::Sample);
        lemma_push(start, closed, WireOp::DataOutput, WireOp::ResetHigh);
        lemma_push(start, closed, WireOp::DataOutput, WireOp::Sample);
    }
    let witness = BusState { active: false, clock_high: false, data_input: false };
    assert(witness.is_idle());
    assert(witness.run(all) is Some);
}

/// Transactions executed one after the other stay apart: from a bus between
/// transactions every operation is permitted at its turn, so no frame is
/// opened inside another; as many frames are opened as there are
/// transactions; and the bus is left between transactions.
pub proof fn lemma_series_stays_apart(start: BusState, transactions: Seq<Seq<WireOp>>)
    requires
        start.is_idle(),
        forall|i: int| 0 <= i < transactions.len() ==> is_transaction(#[trigger] transactions[i]),
    ensures
        start.run(in_series(transactions)) is Some,
        start.run(in_series(transactions)).unwrap().is_idle(),
        frames_opened(in_series(transactions)) == transactions.len(),
    decreases transactions.len(),
{
    if transactions.len() > 0 {
        let before = transactions.drop_last();
        let last = transactions.last();
        lemma_series_stays_apart(start, before);
        assert(is_transaction(last));
        let middle = start.run(in_series(before)).unwrap();
        assert(middle.run(last) is Some);
        lemma_run_concat(start, in_series(before), last);
        lemma_occurrences_concat(in_series(before), last, WireOp::ResetHigh);
    }
}

} // verus!
