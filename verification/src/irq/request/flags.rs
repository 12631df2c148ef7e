//! The flags that can be used when registering an IRQ handler.

use vstd::prelude::*;

use super::Flags;

verus! {

/// Bit of "use the interrupt line as already configured".
pub const IRQF_TRIGGER_NONE: usize = 0x0;

/// Bit of "triggered when the signal goes from low to high".
pub const IRQF_TRIGGER_RISING: usize = 0x1;

/// Bit of "triggered when the signal goes from high to low".
pub const IRQF_TRIGGER_FALLING: usize = 0x2;

/// Bit of "triggered while the signal is held high".
pub const IRQF_TRIGGER_HIGH: usize = 0x4;

/// Bit of "triggered while the signal is held low".
pub const IRQF_TRIGGER_LOW: usize = 0x8;

/// Bit of "allow sharing the irq among several devices".
pub const IRQF_SHARED: usize = 0x80;

/// Bit of "callers expect sharing mismatches to occur".
pub const IRQF_PROBE_SHARED: usize = 0x100;

/// Bit that marks a timer interrupt, on its own.
pub const IRQF_TIMER_BIT: usize = 0x200;

/// Bit of "interrupt is per cpu".
pub const IRQF_PERCPU: usize = 0x400;

/// Bit of "exclude this interrupt from irq balancing".
pub const IRQF_NOBALANCING: usize = 0x800;

/// Bit of "interrupt is used for polling".
pub const IRQF_IRQPOLL: usize = 0x1000;

/// Bit of "interrupt is not reenabled after the hardirq handler finished".
pub const IRQF_ONESHOT: usize = 0x2000;

/// Bit of "do not disable this IRQ during suspend".
pub const IRQF_NO_SUSPEND: usize = 0x4000;

/// Bit of "force enable it on resume even if NO_SUSPEND is set".
pub const IRQF_FORCE_RESUME: usize = 0x8000;

/// Bit of "interrupt cannot be threaded".
pub const IRQF_NO_THREAD: usize = 0x10000;

/// Bit of "resume IRQ early during syscore".
pub const IRQF_EARLY_RESUME: usize = 0x20000;

/// Bit of "run after suspending interrupts when shared with a NO_SUSPEND user".
pub const IRQF_COND_SUSPEND: usize = 0x40000;

/// Bit of "don't enable the IRQ automatically when users request it".
pub const IRQF_NO_AUTOEN: usize = 0x80000;

/// Bit of "exclude from runaway detection".
pub const IRQF_NO_DEBUG: usize = 0x100000;

/// Bits of a timer interrupt: the timer bit, never suspended, never threaded.
pub const IRQF_TIMER: usize = IRQF_TIMER_BIT | IRQF_NO_SUSPEND | IRQF_NO_THREAD;

/// Use the interrupt line as already configured.
pub fn trigger_none() -> (r: Flags)
    ensures
        r@ == IRQF_TRIGGER_NONE,
{
    Flags(IRQF_TRIGGER_NONE)
}

/// The interrupt is triggered when the signal goes from low to high.
pub fn trigger_rising() -> (r: Flags)
    ensures
        r@ == IRQF_TRIGGER_RISING,
{
    Flags(IRQF_TRIGGER_RISING)
}

/// The interrupt is triggered when the signal goes from high to low.
pub fn trigger_falling() -> (r: Flags)
    ensures
        r@ == IRQF_TRIGGER_FALLING,
{
    Flags(IRQF_TRIGGER_FALLING)
}

/// The interrupt is triggered while the signal is held high.
pub fn trigger_high() -> (r: Flags)
    ensures
        r@ == IRQF_TRIGGER_HIGH,
{
    Flags(IRQF_TRIGGER_HIGH)
}

/// The interrupt is triggered while the signal is held low.
pub fn trigger_low() -> (r: Flags)
    ensures
        r@ == IRQF_TRIGGER_LOW,
{
    Flags(IRQF_TRIGGER_LOW)
}

/// Allow sharing the irq among several devices.
pub fn shared() -> (r: Flags)
    ensures
        r@ == IRQF_SHARED,
{
    Flags(IRQF_SHARED)
}

/// Set by callers when they expect sharing mismatches to occur.
pub fn probe_shared() -> (r: Flags)
    ensures
        r@ == IRQF_PROBE_SHARED,
{
    Flags(IRQF_PROBE_SHARED)
}

/// Flag to mark this interrupt as timer interrupt.
pub fn timer() -> (r: Flags)
    ensures
        r@ == IRQF_TIMER,
{
    Flags(IRQF_TIMER)
}

/// Interrupt is per cpu.
pub fn percpu() -> (r: Flags)
    ensures
        r@ == IRQF_PERCPU,
{
    Flags(IRQF_PERCPU)
}

/// Flag to exclude this interrupt from irq balancing.
pub fn nobalancing() -> (r: Flags)
    ensures
        r@ == IRQF_NOBALANCING,
{
    Flags(IRQF_NOBALANCING)
}

/// Interrupt is used for polling (only the interrupt that is registered
/// first in a shared interrupt is considered for performance reasons).
pub fn irqpoll() -> (r: Flags)
    ensures
        r@ == IRQF_IRQPOLL,
{
    Flags(IRQF_IRQPOLL)
}

/// Interrupt is not reenabled after the hardirq handler finished. Used by
/// threaded interrupts which need to keep the irq line disabled until the
/// threaded handler has been run.
pub fn oneshot() -> (r: Flags)
    ensures
        r@ == IRQF_ONESHOT,
{
    Flags(IRQF_ONESHOT)
}

/// Do not disable this IRQ during suspend. Does not guarantee that this
/// interrupt will wake the system from a suspended state.
pub fn no_suspend() -> (r: Flags)
    ensures
        r@ == IRQF_NO_SUSPEND,
{
    Flags(IRQF_NO_SUSPEND)
}

/// Force enable it on resume even if `NO_SUSPEND` is set.
pub fn force_resume() -> (r: Flags)
    ensures
        r@ == IRQF_FORCE_RESUME,
{
    Flags(IRQF_FORCE_RESUME)
}

/// Interrupt cannot be threaded.
pub fn no_thread() -> (r: Flags)
    ensures
        r@ == IRQF_NO_THREAD,
{
    Flags(IRQF_NO_THREAD)
}

/// Resume IRQ early during syscore instead of at device resume time.
pub fn early_resume() -> (r: Flags)
    ensures
        r@ == IRQF_EARLY_RESUME,
{
    Flags(IRQF_EARLY_RESUME)
}

/// If the IRQ is shared with a NO_SUSPEND user, execute this interrupt
/// handler after suspending interrupts.
pub fn cond_suspend() -> (r: Flags)
    ensures
        r@ == IRQF_COND_SUSPEND,
{
    Flags(IRQF_COND_SUSPEND)
}

/// Don't enable IRQ or NMI automatically when users request it.
pub fn no_autoen() -> (r: Flags)
    ensures
        r@ == IRQF_NO_AUTOEN,
{
    Flags(IRQF_NO_AUTOEN)
}

/// Exclude from runaway detection for IPI and similar handlers, depends on
/// `PERCPU`.
pub fn no_debug() -> (r: Flags)
    ensures
        r@ == IRQF_NO_DEBUG,
{
    Flags(IRQF_NO_DEBUG)
}

/// A timer interrupt is never suspended and never threaded, and the trigger
/// flags are bits of their own, apart from the sharing and timer bits.
pub proof fn lemma_flag_bits()
    ensures
        IRQF_TIMER & IRQF_NO_SUSPEND == IRQF_NO_SUSPEND,
        IRQF_TIMER & IRQF_NO_THREAD == IRQF_NO_THREAD,
        IRQF_TIMER & IRQF_SHARED == 0,
        (IRQF_TRIGGER_RISING | IRQF_TRIGGER_FALLING | IRQF_TRIGGER_HIGH | IRQF_TRIGGER_LOW) & (
        IRQF_SHARED | IRQF_TIMER) == 0,
{
    assert(0x14200usize & 0x4000usize == 0x4000usize) by (bit_vector);
    assert(0x14200usize & 0x10000usize == 0x10000usize) by (bit_vector);
    assert(0x14200usize & 0x80usize == 0usize) by (bit_vector);
    assert((0x1usize | 0x2usize | 0x4usize | 0x8usize) & (0x80usize | 0x14200usize) == 0usize)
        by (bit_vector);
    assert(IRQF_TIMER == 0x14200usize) by (bit_vector);
}

} // verus!
