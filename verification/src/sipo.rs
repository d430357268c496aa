//! The shift register and its output pins.

use vstd::prelude::*;
use crate::line::{Call, Line, OutputPin};
use crate::protocol::{calls_made, commit_ops};

verus! {

/// The widths that registers are built in: 8 to 128 outputs, in steps of 8.
pub open spec fn supported_width(width: usize) -> bool {
    8 <= width <= 128 && width % 8 == 0
}

/// A shift register with `N` outputs, wired to a clock, a latch and a data
/// line. It keeps the pattern that its outputs were last asked to show and,
/// as ghost state, a record of every call that it has made on its lines.
pub struct ShiftRegisterCore<Pin1, Pin2, Pin3, const N: usize> where
    Pin1: OutputPin,
    Pin2: OutputPin,
    Pin3: OutputPin,
 {
    clock: Pin1,
    latch: Pin2,
    data: Pin3,
    output_state: [bool; N],
    inverted: bool,
    trace: Ghost<Seq<Call>>,
}

impl<Pin1, Pin2, Pin3, const N: usize> ShiftRegisterCore<Pin1, Pin2, Pin3, N> where
    Pin1: OutputPin,
    Pin2: OutputPin,
    Pin3: OutputPin,
 {
    /// The clock line.
    pub closed spec fn clock(self) -> Pin1 {
        self.clock
    }

    /// The latch line.
    pub closed spec fn latch(self) -> Pin2 {
        self.latch
    }

    /// The data line.
    pub closed spec fn data(self) -> Pin3 {
        self.data
    }

    /// The cached pattern: one level for each output, position 0 first.
    pub closed spec fn pattern(self) -> Seq<bool> {
        self.output_state@
    }

    /// The pattern holds one level for each output, no more and no fewer,
    /// for as long as the register lives.
    pub proof fn lemma_pattern_width(self)
        ensures
            self.pattern().len() == N,
    {
    }

    /// Whether the latch and data levels are flipped.
    pub closed spec fn is_inverted(self) -> bool {
        self.inverted
    }

    /// Every call that this register has made on its lines, oldest first.
    pub closed spec fn trace(self) -> Seq<Call> {
        self.trace@
    }

    /// A register on the three lines given, with every output low and the
    /// levels not flipped. Nothing is driven.
    pub fn new(clock: Pin1, latch: Pin2, data: Pin3) -> (register: Self)
        requires
            supported_width(N),
        ensures
            register.clock() == clock,
            register.latch() == latch,
            register.data() == data,
            register.pattern() == Seq::new(N as nat, |i: int| false),
            !register.is_inverted(),
            register.trace() == Seq::<Call>::empty(),
    {
        let register = ShiftRegisterCore {
            clock,
            latch,
            data,
            output_state: [false;N],
            inverted: false,
            trace: Ghost(Seq::empty()),
        };
        assert(register.output_state@ =~= Seq::new(N as nat, |i: int| false));
        register
    }

    /// `after` is this register once it has replayed its pattern: its record
    /// has grown by the calls of the commit sequence of `after`'s pattern,
    /// from the first step up to the last call made. With `ok` that is the
    /// whole sequence; without it the last call made is the one that failed.
    pub open spec fn replayed(self, after: Self, ok: bool) -> bool {
        let ops = commit_ops(after.pattern(), after.is_inverted());
        let made = after.trace().len() - self.trace().len();
        &&& 1 <= made <= ops.len()
        &&& ok ==> made == ops.len()
        &&& after.trace() == self.trace() + calls_made(ops, made as nat, ok)
    }

    /// Makes one call on one line and records it. A line's own error is
    /// reduced to the plain failure that the register reports.
    fn drive(&mut self, line: Line, high: bool) -> (r: Result<(), ()>)
        ensures
            final(self).trace() == old(self).trace().push((Call { line, high, ok: r.is_ok() })),
            final(self).pattern() == old(self).pattern(),
            final(self).is_inverted() == old(self).is_inverted(),
    {
        let ok = match line {
            Line::Clock => if high {
                self.clock.set_high().is_ok()
            } else {
                self.clock.set_low().is_ok()
            },
            Line::Latch => if high {
                self.latch.set_high().is_ok()
            } else {
                self.latch.set_low().is_ok()
            },
            Line::Data => if high {
                self.data.set_high().is_ok()
            } else {
                self.data.set_low().is_ok()
            },
        };
        self.trace = Ghost(self.trace@.push(Call { line, high, ok }));
        if ok {
            Ok(())
        } else {
            Err(())
        }
    }

    /// Sets output `index` to `command` in the cached pattern, then replays
    /// the whole pattern onto the lines: the commit sequence of the new
    /// pattern, step by step, until it is complete or a call fails. The
    /// cache is written first and keeps the new level whether or not the
    /// lines could be driven. The result is `Ok` when every step was made
    /// and succeeded; otherwise the last call made is the one that failed.
    pub fn update(&mut self, index: usize, command: bool) -> (r: Result<(), ()>)
        requires
            index < N,
        ensures
            final(self).pattern() == old(self).pattern().update(index as int, command),
            final(self).is_inverted() == old(self).is_inverted(),
            old(self).replayed(*final(self), r.is_ok()),
    {
        self.output_state[index] = command;
        let ghost ops = commit_ops(self.output_state@, self.inverted);
        let ghost start = self.trace@;
        assert(start + calls_made(ops, 0, true) =~= start);
        if self.drive(Line::Latch, self.inverted).is_err() {
            assert(self.trace@ =~= start + calls_made(ops, 1, false));
            return Err(());
        }
        assert(self.trace@ =~= start + calls_made(ops, 1, true));
        let mut i: usize = 0;
        while i < N
            invariant
                i <= N,
                self.output_state@ == old(self).output_state@.update(index as int, command),
                self.inverted == old(self).inverted,
                ops == commit_ops(self.output_state@, self.inverted),
                start == old(self).trace@,
                self.trace@ == start + calls_made(ops, (1 + 3 * i) as nat, true),
            decreases N - i,
        {
            let bit = self.output_state[N - 1 - i];
            if self.drive(Line::Data, bit != self.inverted).is_err() {
                assert(self.trace@ =~= start + calls_made(ops, (2 + 3 * i) as nat, false));
                return Err(());
            }
            assert(self.trace@ =~= start + calls_made(ops, (2 + 3 * i) as nat, true));
            if self.drive(Line::Clock, true).is_err() {
                assert(self.trace@ =~= start + calls_made(ops, (3 + 3 * i) as nat, false));
                return Err(());
            }
            assert(self.trace@ =~= start + calls_made(ops, (3 + 3 * i) as nat, true));
            if self.drive(Line::Clock, false).is_err() {
                assert(self.trace@ =~= start + calls_made(ops, (4 + 3 * i) as nat, false));
                return Err(());
            }
            assert(self.trace@ =~= start + calls_made(ops, (4 + 3 * i) as nat, true));
            i += 1;
        }
        let closed = self.drive(Line::Latch, !self.inverted);
        assert(self.trace@ =~= start + calls_made(ops, (2 + 3 * N) as nat, closed.is_ok()));
        closed
    }

    /// Chooses whether the latch and data levels are flipped, as some
    /// registers need. Nothing is driven: the choice shows at the next update.
    pub fn inverted(self, state: bool) -> (register: Self)
        ensures
            register.is_inverted() == state,
            register.pattern() == self.pattern(),
            register.clock() == self.clock(),
            register.latch() == self.latch(),
            register.data() == self.data(),
            register.trace() == self.trace(),
    {
        let mut register = self;
        register.inverted = state;
        register
    }

    /// One pin for each output, in ascending order of position. Nothing is
    /// driven and the register is left as it is.
    pub fn decompose(&self) -> (pins: [ShiftRegisterPin; N])
        ensures
            forall|i: int| 0 <= i < N ==> (#[trigger] pins[i]).index() == i,
    {
        let mut pins = [ShiftRegisterPin::new(0);N];
        let mut i: usize = 0;
        while i < N
            invariant
                i <= N,
                forall|j: int| 0 <= j < i ==> (#[trigger] pins[j]).index() == j,
            decreases N - i,
        {
            pins[i] = ShiftRegisterPin::new(i);
            i += 1;
        }
        pins
    }

    /// Gives the three lines back, in the order clock, latch, data. Nothing
    /// is driven; the cached pattern is dropped.
    pub fn release(self) -> (lines: (Pin1, Pin2, Pin3))
        ensures
            lines.0 == self.clock(),
            lines.1 == self.latch(),
            lines.2 == self.data(),
    {
        (self.clock, self.latch, self.data)
    }
}

/// One output of a shift register, named by its position. A pin holds no
/// level of its own: it acts on the register that it is handed.
#[derive(Clone, Copy, Debug)]
pub struct ShiftRegisterPin {
    index: usize,
}

impl ShiftRegisterPin {
    /// The position of the output that this pin stands for.
    pub closed spec fn index(self) -> usize {
        self.index
    }

    /// The pin for the output at position `index`.
    pub fn new(index: usize) -> (pin: Self)
        ensures
            pin.index() == index,
    {
        ShiftRegisterPin { index }
    }

    /// Sets this output low: `register.update` with this pin's position and
    /// `false`.
    pub fn set_low<Pin1, Pin2, Pin3, const N: usize>(
        &self,
        register: &mut ShiftRegisterCore<Pin1, Pin2, Pin3, N>,
    ) -> (r: Result<(), ()>) where Pin1: OutputPin, Pin2: OutputPin, Pin3: OutputPin
        requires
            self.index() < N,
        ensures
            final(register).pattern() == old(register).pattern().update(self.index() as int, false),
            final(register).is_inverted() == old(register).is_inverted(),
            old(register).replayed(*final(register), r.is_ok()),
    {
        register.update(self.index, false)
    }

    /// Sets this output high: `register.update` with this pin's position and
    /// `true`.
    pub fn set_high<Pin1, Pin2, Pin3, const N: usize>(
        &self,
        register: &mut ShiftRegisterCore<Pin1, Pin2, Pin3, N>,
    ) -> (r: Result<(), ()>) where Pin1: OutputPin, Pin2: OutputPin, Pin3: OutputPin
        requires
            self.index() < N,
        ensures
            final(register).pattern() == old(register).pattern().update(self.index() as int, true),
            final(register).is_inverted() == old(register).is_inverted(),
            old(register).replayed(*final(register), r.is_ok()),
    {
        register.update(self.index, true)
    }
}

/// A register with 8 outputs.
pub type ShiftRegister8<Pin1, Pin2, Pin3> = ShiftRegisterCore<Pin1, Pin2, Pin3, 8>;

/// A register with 16 outputs.
pub type ShiftRegister16<Pin1, Pin2, Pin3> = ShiftRegisterCore<Pin1, Pin2, Pin3, 16>;

/// A register with 24 outputs.
pub type ShiftRegister24<Pin1, Pin2, Pin3> = ShiftRegisterCore<Pin1, Pin2, Pin3, 24>;

/// A register with 32 outputs.
pub type ShiftRegister32<Pin1, Pin2, Pin3> = ShiftRegisterCore<Pin1, Pin2, Pin3, 32>;

/// A register with 40 outputs.
pub type ShiftRegister40<Pin1, Pin2, Pin3> = ShiftRegisterCore<Pin1, Pin2, Pin3, 40>;

/// A register with 48 outputs.
pub type ShiftRegister48<Pin1, Pin2, Pin3> = ShiftRegisterCore<Pin1, Pin2, Pin3, 48>;

/// A register with 56 outputs.
pub type ShiftRegister56<Pin1, Pin2, Pin3> = ShiftRegisterCore<Pin1, Pin2, Pin3, 56>;

/// A register with 64 outputs.
pub type ShiftRegister64<Pin1, Pin2, Pin3> = ShiftRegisterCore<Pin1, Pin2, Pin3, 64>;

/// A register with 72 outputs.
pub type ShiftRegister72<Pin1, Pin2, Pin3> = ShiftRegisterCore<Pin1, Pin2, Pin3, 72>;

/// A register with 80 outputs.
pub type ShiftRegister80<Pin1, Pin2, Pin3> = ShiftRegisterCore<Pin1, Pin2, Pin3, 80>;

/// A register with 88 outputs.
pub type ShiftRegister88<Pin1, Pin2, Pin3> = ShiftRegisterCore<Pin1, Pin2, Pin3, 88>;

/// A register with 96 outputs.
pub type ShiftRegister96<Pin1, Pin2, Pin3> = ShiftRegisterCore<Pin1, Pin2, Pin3, 96>;

/// A register with 104 outputs.
pub type ShiftRegister104<Pin1, Pin2, Pin3> = ShiftRegisterCore<Pin1, Pin2, Pin3, 104>;

/// A register with 112 outputs.
pub type ShiftRegister112<Pin1, Pin2, Pin3> = ShiftRegisterCore<Pin1, Pin2, Pin3, 112>;

/// A register with 120 outputs.
pub type ShiftRegister120<Pin1, Pin2, Pin3> = ShiftRegisterCore<Pin1, Pin2, Pin3, 120>;

/// A register with 128 outputs.
pub type ShiftRegister128<Pin1, Pin2, Pin3> = ShiftRegisterCore<Pin1, Pin2, Pin3, 128>;

/// A register with 8 outputs, the most common width.
pub type ShiftRegister<Pin1, Pin2, Pin3> = ShiftRegister8<Pin1, Pin2, Pin3>;

} // verus!
