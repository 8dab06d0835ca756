//! Bus operations and the 4-bit framing of controller bytes.
use vstd::prelude::*;

verus! {

/// Bit of the expander's output byte that drives the controller's enable line.
pub const ENABLE: u8 = 0x04;

/// Register-select value for command bytes.
pub const MODE_CMD: u8 = 0x00;

/// Register-select value for data bytes.
pub const MODE_DATA: u8 = 0x01;

/// Wait after raising the enable line, in milliseconds.
pub const PULSE_MS: u32 = 1;

/// Wait after lowering the enable line, in milliseconds.
pub const SETTLE_MS: u32 = 5;

/// One primitive action on the bus.
#[derive(Clone, Copy, Debug, PartialEq, Eq, Structural)]
pub enum BusOp {
    /// Write a single byte to the device at the 7-bit address `addr`.
    Write { addr: u8, byte: u8 },
    /// Wait the given number of milliseconds.
    DelayMs(u32),
}

/// Upper four bits of `b`, in place.
pub open spec fn high_nibble(b: u8) -> u8 {
    ((b as int / 16) * 16) as u8
}

/// Lower four bits of `b`, moved to the upper half.
pub open spec fn low_nibble(b: u8) -> u8 {
    ((b as int % 16) * 16) as u8
}

/// Two-phase write of one output byte: enable raised, then the same byte
/// with enable lowered, each followed by its delay.
pub open spec fn pulse(addr: u8, backlight: u8, bits: u8) -> Seq<BusOp> {
    seq![
        BusOp::Write { addr, byte: bits | ENABLE | backlight },
        BusOp::DelayMs(PULSE_MS),
        BusOp::Write { addr, byte: bits | backlight },
        BusOp::DelayMs(SETTLE_MS),
    ]
}

/// One controller byte in 4-bit mode: the high nibble, then the low nibble,
/// each tagged with the register-select `mode`.
pub open spec fn frame(addr: u8, backlight: u8, byte: u8, mode: u8) -> Seq<BusOp> {
    pulse(addr, backlight, high_nibble(byte) | mode) + pulse(addr, backlight, low_nibble(byte) | mode)
}

/// The frames of `bytes`, in order.
pub open spec fn frames(addr: u8, backlight: u8, bytes: Seq<u8>, mode: u8) -> Seq<BusOp>
    decreases bytes.len(),
{
    if bytes.len() == 0 {
        seq![]
    } else {
        frames(addr, backlight, bytes.drop_last(), mode) + frame(
            addr,
            backlight,
            bytes.last(),
            mode,
        )
    }
}

/// Appends the two-phase write of `bits` to `ops`.
pub fn push_pulse(ops: &mut Vec<BusOp>, addr: u8, backlight: u8, bits: u8)
    ensures
        final(ops)@ == old(ops)@ + pulse(addr, backlight, bits),
{
    ops.push(BusOp::Write { addr, byte: bits | ENABLE | backlight });
    ops.push(BusOp::DelayMs(PULSE_MS));
    ops.push(BusOp::Write { addr, byte: bits | backlight });
    ops.push(BusOp::DelayMs(SETTLE_MS));
    assert(final(ops)@ =~= old(ops)@ + pulse(addr, backlight, bits));
}

/// Appends the 4-bit frame of `byte` to `ops`.
pub fn push_frame(ops: &mut Vec<BusOp>, addr: u8, backlight: u8, byte: u8, mode: u8)
    ensures
        final(ops)@ == old(ops)@ + frame(addr, backlight, byte, mode),
{
    let high: u8 = byte & 0xf0;
    let low: u8 = (byte << 4) & 0xf0;
    assert(high == high_nibble(byte)) by (bit_vector)
        requires
            high == byte & 0xf0,
    ;
    assert(low == low_nibble(byte)) by (bit_vector)
        requires
            low == (byte << 4) & 0xf0,
    ;
    push_pulse(ops, addr, backlight, high | mode);
    push_pulse(ops, addr, backlight, low | mode);
    assert(final(ops)@ =~= old(ops)@ + frame(addr, backlight, byte, mode));
}

/// Appends the frames of every byte of `bytes`, in order.
pub fn push_frames(ops: &mut Vec<BusOp>, addr: u8, backlight: u8, bytes: &[u8], mode: u8)
    ensures
        final(ops)@ == old(ops)@ + frames(addr, backlight, bytes@, mode),
{
    let ghost start = ops@;
    let mut i: usize = 0;
    while i < bytes.len()
        invariant
            i <= bytes@.len(),
            ops@ == start + frames(addr, backlight, bytes@.subrange(0, i as int), mode),
        decreases bytes@.len() - i,
    {
        let ghost before = ops@;
        push_frame(ops, addr, backlight, bytes[i], mode);
        proof {
            let next = bytes@.subrange(0, i + 1);
            assert(next.drop_last() =~= bytes@.subrange(0, i as int));
            assert(ops@ =~= start + frames(addr, backlight, next, mode));
        }
        i = i + 1;
    }
    assert(bytes@.subrange(0, bytes@.len() as int) =~= bytes@);
}

/// What the performer of a plan does next.
#[derive(Clone, Copy, Debug, PartialEq, Eq, Structural)]
pub enum Step {
    /// Perform this operation, then report whether it succeeded.
    Perform(BusOp),
    /// Every operation of the plan succeeded.
    Done,
    /// A write failed; nothing more is performed.
    Aborted,
}

/// A plan of bus operations being performed in order, stopping at the first
/// failure.
pub struct Transfer {
    ops: Vec<BusOp>,
    pos: usize,
    aborted: bool,
}

impl Transfer {
    /// The operations to perform.
    pub closed spec fn plan(&self) -> Seq<BusOp> {
        self.ops@
    }

    /// How many operations have succeeded so far.
    pub closed spec fn position(&self) -> nat {
        self.pos as nat
    }

    /// Whether an operation has failed.
    pub closed spec fn is_aborted(&self) -> bool {
        self.aborted
    }

    pub open spec fn wf(&self) -> bool {
        self.position() <= self.plan().len()
    }

    /// Whether the whole plan has been performed without a failure.
    pub open spec fn completed(&self) -> bool {
        !self.is_aborted() && self.position() == self.plan().len()
    }

    /// The step that follows the operations reported so far.
    pub open spec fn step(&self) -> Step {
        if self.is_aborted() {
            Step::Aborted
        } else if self.position() == self.plan().len() {
            Step::Done
        } else {
            Step::Perform(self.plan()[self.position() as int])
        }
    }

    pub fn new(ops: Vec<BusOp>) -> (t: Transfer)
        ensures
            t.plan() == ops@,
            t.position() == 0,
            !t.is_aborted(),
            t.wf(),
    {
        Transfer { ops, pos: 0, aborted: false }
    }

    pub fn next_step(&self) -> (s: Step)
        requires
            self.wf(),
        ensures
            s == self.step(),
    {
        if self.aborted {
            Step::Aborted
        } else if self.pos == self.ops.len() {
            Step::Done
        } else {
            Step::Perform(self.ops[self.pos])
        }
    }

    /// Records the outcome of the operation that `next_step` handed out.
    pub fn report(&mut self, ok: bool)
        requires
            old(self).wf(),
            old(self).step() is Perform,
        ensures
            final(self).wf(),
            final(self).plan() == old(self).plan(),
            ok ==> final(self).position() == old(self).position() + 1 && !final(self).is_aborted(),
            !ok ==> final(self).position() == old(self).position() && final(self).is_aborted(),
    {
        if ok {
            let n: usize = self.ops.len();
            assert(self.pos < n);
            self.pos = self.pos + 1;
        } else {
            self.aborted = true;
        }
    }

    pub fn is_complete(&self) -> (r: bool)
        requires
            self.wf(),
        ensures
            r == self.completed(),
    {
        !self.aborted && self.pos == self.ops.len()
    }
}

} // verus!
