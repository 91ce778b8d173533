//! The register block of the peripheral.
//!
//! [`RegisterBlock`] keeps the five 16-bit registers that the driver works
//! with, and a ghost journal of every write made to them. The journal lets a
//! contract speak of the order of writes, and of whether the peripheral was
//! enabled at the moment of each.

use vstd::prelude::*;

verus! {

/// Control register 1: peripheral enable.
pub const CR1_PE: u16 = 0x0001;

/// Control register 1: generate a start condition.
pub const CR1_START: u16 = 0x0100;

/// Control register 1: generate a stop condition.
pub const CR1_STOP: u16 = 0x0200;

/// Control register 1: hold the peripheral under software reset.
pub const CR1_SWRST: u16 = 0x8000;

/// Control register 2: the field of the input clock in megahertz.
pub const CR2_FREQ: u16 = 0x003f;

/// Clock control register: the field of the divisor.
pub const CCR_CCR: u16 = 0x0fff;

/// Clock control register: 16:9 duty cycle.
pub const CCR_DUTY: u16 = 0x4000;

/// Clock control register: fast mode.
pub const CCR_FS: u16 = 0x8000;

/// Rise time register: the field of the rise time.
pub const TRISE_TRISE: u16 = 0x003f;

/// What the rise time register holds after power-on.
pub const TRISE_POWER_ON: u16 = 0x0002;

/// Data register: the field of the byte.
pub const DR_DR: u16 = 0x00ff;

/// The registers of the peripheral.
#[derive(Clone, Copy, Debug, PartialEq, Eq, Structural)]
pub enum Register {
    /// Control register 1: enable, start, stop and software reset.
    Cr1,
    /// Control register 2: input clock.
    Cr2,
    /// Data register.
    Dr,
    /// Clock control register: divisor, duty cycle and mode.
    Ccr,
    /// Rise time register.
    Trise,
}

impl Register {
    /// Whether the register holds bus timing, which the peripheral takes only
    /// while it is disabled.
    pub open spec fn is_timing(self) -> bool {
        self == Register::Cr2 || self == Register::Ccr || self == Register::Trise
    }
}

/// One write to a register, as the journal records it.
pub struct Write {
    /// The register written to.
    pub register: Register,
    /// The word written.
    pub value: u16,
    /// Whether the peripheral was enabled when the write was made.
    pub enabled: bool,
}

/// The words held by the registers.
#[derive(Clone, Copy, Debug, PartialEq, Eq, Structural)]
pub struct RegisterFile {
    /// Control register 1.
    pub cr1: u16,
    /// Control register 2.
    pub cr2: u16,
    /// Data register.
    pub dr: u16,
    /// Clock control register.
    pub ccr: u16,
    /// Rise time register.
    pub trise: u16,
}

impl RegisterFile {
    /// The words after power-on, and after a reset of the peripheral.
    pub open spec fn power_on() -> RegisterFile {
        RegisterFile { cr1: 0, cr2: 0, dr: 0, ccr: 0, trise: TRISE_POWER_ON }
    }

    /// The word held by `register`.
    pub open spec fn get(self, register: Register) -> u16 {
        match register {
            Register::Cr1 => self.cr1,
            Register::Cr2 => self.cr2,
            Register::Dr => self.dr,
            Register::Ccr => self.ccr,
            Register::Trise => self.trise,
        }
    }

    /// Whether the peripheral is enabled.
    pub open spec fn enabled(self) -> bool {
        self.cr1 & CR1_PE != 0
    }

    /// Whether a start condition has been requested.
    pub open spec fn start_requested(self) -> bool {
        self.cr1 & CR1_START != 0
    }

    /// Whether a stop condition has been requested.
    pub open spec fn stop_requested(self) -> bool {
        self.cr1 & CR1_STOP != 0
    }

    /// Whether the peripheral is held under software reset.
    pub open spec fn under_reset(self) -> bool {
        self.cr1 & CR1_SWRST != 0
    }

    /// The words after `value` is written to `register`.
    ///
    /// A write that sets the software reset bit of control register 1 puts
    /// every other register back to its power-on word. Any other write changes
    /// the register written to and nothing else.
    pub open spec fn written(self, register: Register, value: u16) -> RegisterFile {
        match register {
            Register::Cr1 => if value & CR1_SWRST != 0 {
                RegisterFile { cr1: value, ..Self::power_on() }
            } else {
                RegisterFile { cr1: value, ..self }
            },
            Register::Cr2 => RegisterFile { cr2: value, ..self },
            Register::Dr => RegisterFile { dr: value, ..self },
            Register::Ccr => RegisterFile { ccr: value, ..self },
            Register::Trise => RegisterFile { trise: value, ..self },
        }
    }

    /// The words after the writes of `writes` are made, oldest first.
    pub open spec fn replay(self, writes: Seq<Write>) -> RegisterFile
        decreases writes.len(),
    {
        if writes.len() == 0 {
            self
        } else {
            self.replay(writes.drop_last()).written(writes.last().register, writes.last().value)
        }
    }

    /// Whether every write of `writes`, made in their order on the words
    /// `self`, records truly whether the peripheral was enabled at its moment.
    pub open spec fn records_truly(self, writes: Seq<Write>) -> bool {
        forall|i: int|
            0 <= i < writes.len() ==> (#[trigger] writes[i]).enabled == self.replay(
                writes.take(i),
            ).enabled()
    }

    /// Replaying two runs of writes one after the other is replaying their
    /// concatenation.
    pub proof fn lemma_replay_concat(self, first: Seq<Write>, second: Seq<Write>)
        ensures
            self.replay(first + second) == self.replay(first).replay(second),
        decreases second.len(),
    {
        if second.len() == 0 {
            assert(first + second =~= first);
        } else {
            self.lemma_replay_concat(first, second.drop_last());
            assert((first + second).drop_last() =~= first + second.drop_last());
            assert((first + second).last() == second.last());
        }
    }
}

/// The register block: the registers, and the history of writes to them since
/// power-on or the last reset of the peripheral.
///
/// The registers always hold what the journal, replayed on the power-on words,
/// gives, and the journal records truly whether the peripheral was enabled
/// at the moment of each write.
pub struct RegisterBlock {
    file: RegisterFile,
    journal: Ghost<Seq<Write>>,
}

impl View for RegisterBlock {
    type V = RegisterFile;

    /// The words that the registers hold.
    closed spec fn view(&self) -> RegisterFile {
        self.file
    }
}

impl RegisterBlock {
    #[verifier::type_invariant]
    spec fn replays(self) -> bool {
        &&& self.file == RegisterFile::power_on().replay(self.journal@)
        &&& RegisterFile::power_on().records_truly(self.journal@)
    }

    /// Every write made since power-on or the last reset of the peripheral,
    /// oldest first.
    pub closed spec fn journal(&self) -> Seq<Write> {
        self.journal@
    }

    /// A register block as it is after power-on, with nothing written yet.
    pub fn power_on() -> (block: RegisterBlock)
        ensures
            block@ == RegisterFile::power_on(),
            block.journal() == Seq::<Write>::empty(),
    {
        RegisterBlock {
            file: RegisterFile { cr1: 0, cr2: 0, dr: 0, ccr: 0, trise: TRISE_POWER_ON },
            journal: Ghost(Seq::empty()),
        }
    }

    /// Puts every register back to its power-on word, as a pulse on the
    /// peripheral's reset line does, and starts the journal anew.
    pub fn clear(&mut self)
        ensures
            final(self)@ == RegisterFile::power_on(),
            final(self).journal() == Seq::<Write>::empty(),
    {
        *self = RegisterBlock {
            file: RegisterFile { cr1: 0, cr2: 0, dr: 0, ccr: 0, trise: TRISE_POWER_ON },
            journal: Ghost(Seq::empty()),
        };
    }

    /// The word held by `register`.
    pub fn read(&self, register: Register) -> (value: u16)
        ensures
            value == self@.get(register),
    {
        match register {
            Register::Cr1 => self.file.cr1,
            Register::Cr2 => self.file.cr2,
            Register::Dr => self.file.dr,
            Register::Ccr => self.file.ccr,
            Register::Trise => self.file.trise,
        }
    }

    /// All five words at once. They are what the journal, replayed on the
    /// power-on words, gives, and the journal records truly whether the
    /// peripheral was enabled at the moment of each write.
    pub fn snapshot(&self) -> (file: RegisterFile)
        ensures
            file == self@,
            file == RegisterFile::power_on().replay(self.journal()),
            RegisterFile::power_on().records_truly(self.journal()),
    {
        proof {
            use_type_invariant(self);
        }
        self.file
    }

    /// Writes `value` to `register` and records the write.
    pub fn write(&mut self, register: Register, value: u16)
        ensures
            final(self)@ == old(self)@.written(register, value),
            final(self).journal() == old(self).journal().push(
                Write { register, value, enabled: old(self)@.enabled() },
            ),
    {
        proof {
            use_type_invariant(&*self);
        }
        let before: RegisterFile = self.file;
        let after: RegisterFile = match register {
            Register::Cr1 => if value & CR1_SWRST != 0 {
                RegisterFile { cr1: value, cr2: 0, dr: 0, ccr: 0, trise: TRISE_POWER_ON }
            } else {
                RegisterFile { cr1: value, ..before }
            },
            Register::Cr2 => RegisterFile { cr2: value, ..before },
            Register::Dr => RegisterFile { dr: value, ..before },
            Register::Ccr => RegisterFile { ccr: value, ..before },
            Register::Trise => RegisterFile { trise: value, ..before },
        };
        let ghost journal = self.journal@.push(
            Write { register, value, enabled: before.enabled() },
        );
        assert(journal.drop_last() =~= self.journal@);
        assert forall|i: int| 0 <= i < journal.len() implies (#[trigger] journal[i]).enabled
            == RegisterFile::power_on().replay(journal.take(i)).enabled() by {
            if i < self.journal@.len() {
                assert(journal.take(i) =~= self.journal@.take(i));
            } else {
                assert(journal.take(i) =~= self.journal@);
            }
        }
        *self = RegisterBlock { file: after, journal: Ghost(journal) };
    }

    /// Sets in `register` the bits that are set in `bits` and keeps the
    /// others: one read, then one write.
    pub fn set_bits(&mut self, register: Register, bits: u16)
        ensures
            final(self)@ == old(self)@.written(register, old(self)@.get(register) | bits),
            final(self).journal() == old(self).journal().push(
                Write {
                    register,
                    value: old(self)@.get(register) | bits,
                    enabled: old(self)@.enabled(),
                },
            ),
    {
        let value: u16 = self.read(register);
        self.write(register, value | bits);
    }
}

} // verus!
