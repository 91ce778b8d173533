//! The way of a peripheral from power-on to serving the bus, told over the
//! words of its registers and the writes that change them.

use crate::mode::Mode;
use crate::registers::{Register, RegisterFile, Write, CR1_PE, CR1_SWRST};
use crate::time::Hertz;
use crate::timing::Timing;
use vstd::prelude::*;

verus! {

/// The stages of a peripheral on its way from power-on to serving the bus.
#[derive(Clone, Copy, Debug, PartialEq, Eq, Structural)]
pub enum Lifecycle {
    /// Every register holds its power-on word.
    Unconfigured,
    /// The timing words are in place; the peripheral is disabled.
    Disabled,
    /// The timing words are in place; the peripheral is enabled.
    Enabled,
}

/// Whether the timing registers of `file` hold the words for the input clock
/// `pclk1` and `mode`.
pub open spec fn timed(file: RegisterFile, pclk1: Hertz, mode: Mode) -> bool {
    let timing = Timing::spec_compute(pclk1, mode);
    &&& file.cr2 == timing.spec_cr2_word()
    &&& file.ccr == timing.spec_ccr_word()
    &&& file.trise == timing.spec_trise_word()
}

/// Whether `file` is that of a peripheral at `stage` of being brought up for
/// the input clock `pclk1` and `mode`.
pub open spec fn at_stage(file: RegisterFile, pclk1: Hertz, mode: Mode, stage: Lifecycle) -> bool {
    match stage {
        Lifecycle::Unconfigured => file == RegisterFile::power_on(),
        Lifecycle::Disabled => timed(file, pclk1, mode) && !file.enabled() && !file.under_reset(),
        Lifecycle::Enabled => timed(file, pclk1, mode) && file.enabled() && !file.under_reset(),
    }
}

/// What the registers hold when a peripheral has been brought up from power-on
/// for the input clock `pclk1` and `mode`: the timing words in place, the
/// peripheral enabled, nothing else set.
pub open spec fn armed(pclk1: Hertz, mode: Mode) -> RegisterFile {
    let timing = Timing::spec_compute(pclk1, mode);
    RegisterFile {
        cr1: CR1_PE,
        cr2: timing.spec_cr2_word(),
        dr: 0,
        ccr: timing.spec_ccr_word(),
        trise: timing.spec_trise_word(),
    }
}

/// Whether `file` is that of a peripheral that serves the input clock `pclk1`
/// and `mode`: the timing words in place, the peripheral enabled and not held
/// under reset.
pub open spec fn configured(file: RegisterFile, pclk1: Hertz, mode: Mode) -> bool {
    at_stage(file, pclk1, mode, Lifecycle::Enabled)
}

/// The writes of one initialization, in their order: the peripheral is
/// disabled, the input clock, the rise time and the clock control word are
/// written, and the peripheral is enabled again. `enabled` tells whether the
/// peripheral was enabled before the first of them.
pub open spec fn init_writes(enabled: bool, timing: Timing) -> Seq<Write> {
    seq![
        Write { register: Register::Cr1, value: 0, enabled },
        Write { register: Register::Cr2, value: timing.spec_cr2_word(), enabled: false },
        Write { register: Register::Trise, value: timing.spec_trise_word(), enabled: false },
        Write { register: Register::Ccr, value: timing.spec_ccr_word(), enabled: false },
        Write { register: Register::Cr1, value: CR1_PE, enabled: false },
    ]
}

/// The writes of one software reset of an enabled peripheral, in their order:
/// enable and software reset are set together, control register 1 is put back
/// to its power-on word, and the peripheral is initialized.
pub open spec fn reset_writes(timing: Timing) -> Seq<Write> {
    seq![
        Write { register: Register::Cr1, value: CR1_PE | CR1_SWRST, enabled: true },
        Write { register: Register::Cr1, value: 0, enabled: true },
    ] + init_writes(false, timing)
}

/// In the writes of an initialization the peripheral is disabled by the first,
/// enabled by the last, and disabled at the moment of every write to a timing
/// register; each of the three timing registers is written in between.
pub proof fn lemma_init_order(enabled: bool, timing: Timing)
    ensures
        ({
            let writes = init_writes(enabled, timing);
            &&& writes.first().register == Register::Cr1
            &&& writes.first().value & CR1_PE == 0
            &&& writes.last().register == Register::Cr1
            &&& writes.last().value & CR1_PE != 0
            &&& forall|i: int|
                0 <= i < writes.len() && (#[trigger] writes[i]).register.is_timing()
                    ==> !writes[i].enabled
            &&& forall|i: int|
                0 < i < writes.len() - 1 ==> (#[trigger] writes[i]).register.is_timing()
            &&& exists|i: int| 0 < i < writes.len() - 1 && writes[i].register == Register::Cr2
            &&& exists|i: int| 0 < i < writes.len() - 1 && writes[i].register == Register::Trise
            &&& exists|i: int| 0 < i < writes.len() - 1 && writes[i].register == Register::Ccr
        }),
{
    let writes = init_writes(enabled, timing);
    assert(0u16 & CR1_PE == 0 && CR1_PE & CR1_PE != 0) by (bit_vector);
    assert(writes[1].register == Register::Cr2);
    assert(writes[2].register == Register::Trise);
    assert(writes[3].register == Register::Ccr);
}

/// The writes of an initialization, made on registers of which `enabled` tells
/// whether the peripheral is enabled, record truly whether it was enabled at
/// the moment of each: the flags of [`init_writes`] are those that the
/// registers show.
pub proof fn lemma_init_records_truly(file: RegisterFile, enabled: bool, timing: Timing)
    requires
        file.enabled() == enabled,
    ensures
        file.records_truly(init_writes(enabled, timing)),
{
    let writes = init_writes(enabled, timing);
    assert(0u16 & CR1_SWRST == 0 && 0u16 & CR1_PE == 0) by (bit_vector);
    let w0 = writes.take(0);
    let w1 = writes.take(1);
    let w2 = writes.take(2);
    let w3 = writes.take(3);
    let w4 = writes.take(4);
    assert(w0.len() == 0);
    assert(file.replay(w0) == file);
    assert(w1.drop_last() =~= w0);
    assert(file.replay(w1) == file.replay(w0).written(Register::Cr1, 0));
    assert(w2.drop_last() =~= w1);
    assert(file.replay(w2) == file.replay(w1).written(Register::Cr2, timing.spec_cr2_word()));
    assert(w3.drop_last() =~= w2);
    assert(file.replay(w3) == file.replay(w2).written(Register::Trise, timing.spec_trise_word()));
    assert(w4.drop_last() =~= w3);
    assert(file.replay(w4) == file.replay(w3).written(Register::Ccr, timing.spec_ccr_word()));
    assert forall|i: int| 0 <= i < writes.len() implies (#[trigger] writes[i]).enabled
        == file.replay(writes.take(i)).enabled() by {
        assert(i == 0 || i == 1 || i == 2 || i == 3 || i == 4);
    }
}

/// What the writes of an initialization make of any registers: before the
/// last of them, and after it.
proof fn lemma_init_steps(file: RegisterFile, enabled: bool, timing: Timing)
    ensures
        file.replay(init_writes(enabled, timing).drop_last()) == (RegisterFile {
            cr1: 0,
            cr2: timing.spec_cr2_word(),
            dr: file.dr,
            ccr: timing.spec_ccr_word(),
            trise: timing.spec_trise_word(),
        }),
        file.replay(init_writes(enabled, timing)) == (RegisterFile {
            cr1: CR1_PE,
            cr2: timing.spec_cr2_word(),
            dr: file.dr,
            ccr: timing.spec_ccr_word(),
            trise: timing.spec_trise_word(),
        }),
{
    let writes = init_writes(enabled, timing);
    assert(0u16 & CR1_SWRST == 0 && CR1_PE & CR1_SWRST == 0) by (bit_vector);
    let w4 = writes.drop_last();
    let w3 = w4.drop_last();
    let w2 = w3.drop_last();
    let w1 = w2.drop_last();
    let w0 = w1.drop_last();
    assert(w0.len() == 0);
    assert(file.replay(w0) == file);
    assert(file.replay(w1) == file.replay(w0).written(Register::Cr1, 0));
    assert(file.replay(w2) == file.replay(w1).written(Register::Cr2, timing.spec_cr2_word()));
    assert(file.replay(w3) == file.replay(w2).written(Register::Trise, timing.spec_trise_word()));
    assert(file.replay(w4) == file.replay(w3).written(Register::Ccr, timing.spec_ccr_word()));
    assert(file.replay(writes) == file.replay(w4).written(Register::Cr1, CR1_PE));
}

/// What the first two writes of a software reset make of any registers: every
/// register holds its power-on word.
proof fn lemma_reset_head(file: RegisterFile, timing: Timing)
    ensures
        file.replay(reset_writes(timing).take(2)) == RegisterFile::power_on(),
        reset_writes(timing) == reset_writes(timing).take(2) + init_writes(false, timing),
{
    let head = reset_writes(timing).take(2);
    assert((CR1_PE | CR1_SWRST) & CR1_SWRST != 0 && 0u16 & CR1_SWRST == 0) by (bit_vector);
    let h1 = head.drop_last();
    let h0 = h1.drop_last();
    assert(h0.len() == 0);
    assert(file.replay(h0) == file);
    assert(file.replay(h1) == file.replay(h0).written(Register::Cr1, CR1_PE | CR1_SWRST));
    assert(file.replay(head) == file.replay(h1).written(Register::Cr1, 0));
    assert(reset_writes(timing) =~= head + init_writes(false, timing));
}

/// The writes of an initialization turn any registers into those of an armed
/// peripheral, but for the data register, which they keep.
pub proof fn lemma_init_arms(file: RegisterFile, enabled: bool, pclk1: Hertz, mode: Mode)
    ensures
        file.replay(init_writes(enabled, Timing::spec_compute(pclk1, mode))) == (RegisterFile {
            dr: file.dr,
            ..armed(pclk1, mode)
        }),
{
    lemma_init_steps(file, enabled, Timing::spec_compute(pclk1, mode));
}

/// A software reset leaves the registers as a fresh construction for the same
/// input clock and mode does, whatever they held before; so a second reset
/// changes nothing more.
pub proof fn lemma_reset_restores_armed(file: RegisterFile, pclk1: Hertz, mode: Mode)
    ensures
        file.replay(reset_writes(Timing::spec_compute(pclk1, mode))) == armed(pclk1, mode),
        RegisterFile::power_on().replay(init_writes(false, Timing::spec_compute(pclk1, mode)))
            == armed(pclk1, mode),
        file.replay(reset_writes(Timing::spec_compute(pclk1, mode))).replay(
            reset_writes(Timing::spec_compute(pclk1, mode)),
        ) == file.replay(reset_writes(Timing::spec_compute(pclk1, mode))),
{
    let timing = Timing::spec_compute(pclk1, mode);
    let head = reset_writes(timing).take(2);
    lemma_init_steps(RegisterFile::power_on(), false, timing);
    lemma_reset_head(file, timing);
    file.lemma_replay_concat(head, init_writes(false, timing));
    lemma_reset_head(armed(pclk1, mode), timing);
    armed(pclk1, mode).lemma_replay_concat(head, init_writes(false, timing));
}

/// An initialization takes a peripheral from power-on through the disabled to
/// the enabled stage: it is disabled, with the timing words in place, before
/// the last write, and enabled after it.
pub proof fn lemma_init_stages(pclk1: Hertz, mode: Mode)
    ensures
        ({
            let writes = init_writes(false, Timing::spec_compute(pclk1, mode));
            let start = RegisterFile::power_on();
            &&& at_stage(start, pclk1, mode, Lifecycle::Unconfigured)
            &&& at_stage(start.replay(writes.drop_last()), pclk1, mode, Lifecycle::Disabled)
            &&& at_stage(start.replay(writes), pclk1, mode, Lifecycle::Enabled)
        }),
{
    lemma_init_steps(RegisterFile::power_on(), false, Timing::spec_compute(pclk1, mode));
    assert(0u16 & CR1_SWRST == 0 && 0u16 & CR1_PE == 0 && CR1_PE & CR1_SWRST == 0 && CR1_PE
        & CR1_PE != 0) by (bit_vector);
}

/// A software reset takes a peripheral from any stage through the
/// unconfigured back to the enabled stage: after its first two writes every
/// register holds its power-on word, and after the last the peripheral is
/// enabled with the timing words in place.
pub proof fn lemma_reset_stages(file: RegisterFile, pclk1: Hertz, mode: Mode)
    ensures
        ({
            let writes = reset_writes(Timing::spec_compute(pclk1, mode));
            &&& at_stage(file.replay(writes.take(2)), pclk1, mode, Lifecycle::Unconfigured)
            &&& at_stage(file.replay(writes), pclk1, mode, Lifecycle::Enabled)
        }),
{
    let timing = Timing::spec_compute(pclk1, mode);
    lemma_reset_head(file, timing);
    file.lemma_replay_concat(reset_writes(timing).take(2), init_writes(false, timing));
    lemma_init_steps(RegisterFile::power_on(), false, timing);
    assert(CR1_PE & CR1_SWRST == 0 && CR1_PE & CR1_PE != 0) by (bit_vector);
}

} // verus!
