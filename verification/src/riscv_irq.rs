//! Cause-register backend: interrupt vectors are not read from a controller
//! register but decoded from a trap cause code whose top bit marks an
//! interrupt. Three cause classes are recognized — timer, software
//! (inter-processor) and external — and the inter-processor primitive is a
//! platform call that raises the peer core's software-interrupt line.
use vstd::prelude::*;

use crate::irq::HandlerTable;
use crate::irq::dispatch_irq_common;
use crate::irq::handler_invoked;
use crate::irq::register_handler_common;

verus! {

/// The reserved top bit that marks a cause code as an interrupt.
pub const INTC_IRQ_BASE: u64 = 0x8000_0000_0000_0000;

/// Supervisor software interrupt cause.
pub const S_SOFT: u64 = INTC_IRQ_BASE + 1;

/// Supervisor timer interrupt cause.
pub const S_TIMER: u64 = INTC_IRQ_BASE + 5;

/// Supervisor external interrupt cause.
pub const S_EXT: u64 = INTC_IRQ_BASE + 9;

/// The timer interrupt number on this backend.
pub const TIMER_IRQ_NUM: u64 = S_TIMER;

/// The inter-processor interrupt number on this backend.
pub const IPI_IRQ_NUM: u64 = S_SOFT;

/// The handlers of the two cause classes that are delivered directly,
/// without an external interrupt controller: the timer and the software
/// (inter-processor) interrupt. Each slot is filled at most once, at
/// subsystem initialization.
pub struct CauseHandlers<H> {
    /// The timer-class handler, if registered.
    pub timer: Option<H>,
    /// The software-interrupt-class handler, if registered.
    pub ipi: Option<H>,
}

impl<H: Fn()> CauseHandlers<H> {
    /// Every installed handler may be invoked at any time.
    pub open spec fn wf(&self) -> bool {
        &&& (self.timer is Some ==> call_requires(self.timer->0, ()))
        &&& (self.ipi is Some ==> call_requires(self.ipi->0, ()))
    }

    /// No handler registered yet.
    pub fn new() -> (r: Self)
        ensures
            r.timer is None,
            r.ipi is None,
            r.wf(),
    {
        CauseHandlers { timer: None, ipi: None }
    }
}

/// Enables or disables the given IRQ at the external interrupt controller.
///
/// This backend has no external-controller driver yet, so the request is
/// accepted and ignored; external-class events all resolve to vector 0
/// until one exists.
pub fn set_enable(_irq_num: usize, _enabled: bool) {
}

/// Registers a handler for the given cause code.
///
/// Timer and software causes each hold one handler, installed at most once:
/// a second registration fails and changes nothing. An external cause is
/// handed to the platform-independent table under the cause code with its
/// interrupt bit cleared. Any other cause code is outside this backend's
/// contract.
pub fn register_handler<H: Fn()>(
    ch: &mut CauseHandlers<H>,
    table: &mut HandlerTable<H>,
    scause: u64,
    handler: H,
) -> (r: bool)
    requires
        scause == S_TIMER || scause == S_SOFT || scause == S_EXT,
        old(ch).wf(),
        old(table).wf(),
        call_requires(handler, ()),
    ensures
        final(ch).wf(),
        final(table).wf(),
        scause == S_TIMER ==> {
            &&& r == (old(ch).timer is None)
            &&& final(ch).ipi == old(ch).ipi
            &&& final(table)@ == old(table)@
            &&& (r ==> final(ch).timer == Some(handler))
            &&& (!r ==> final(ch).timer == old(ch).timer)
        },
        scause == S_SOFT ==> {
            &&& r == (old(ch).ipi is None)
            &&& final(ch).timer == old(ch).timer
            &&& final(table)@ == old(table)@
            &&& (r ==> final(ch).ipi == Some(handler))
            &&& (!r ==> final(ch).ipi == old(ch).ipi)
        },
        scause == S_EXT ==> {
            &&& final(ch).timer == old(ch).timer && final(ch).ipi == old(ch).ipi
            &&& r == (9 < old(table)@.len() && old(table)@[9] is None)
            &&& (r ==> final(table)@ == old(table)@.update(9, Some(handler)))
            &&& (!r ==> final(table)@ == old(table)@)
        },
{
    if scause == S_TIMER {
        if ch.timer.is_none() {
            ch.timer = Some(handler);
            true
        } else {
            false
        }
    } else if scause == S_SOFT {
        if ch.ipi.is_none() {
            ch.ipi = Some(handler);
            true
        } else {
            false
        }
    } else {
        register_handler_common(table, (scause - INTC_IRQ_BASE) as usize, handler)
    }
}

/// Dispatches the IRQ for the given cause code.
///
/// A timer or software cause runs its registered handler, which must have
/// been installed: a trap of either class before registration is outside
/// this backend's contract. An external cause resolves to vector 0 of the
/// platform-independent table until an external-controller driver exists.
pub fn dispatch_irq<H: Fn()>(ch: &CauseHandlers<H>, table: &HandlerTable<H>, scause: u64)
    requires
        scause == S_TIMER || scause == S_SOFT || scause == S_EXT,
        ch.wf(),
        table.wf(),
        scause == S_TIMER ==> ch.timer is Some,
        scause == S_SOFT ==> ch.ipi is Some,
    ensures
        scause == S_TIMER ==> call_ensures(ch.timer->0, (), ()),
        scause == S_SOFT ==> call_ensures(ch.ipi->0, (), ()),
        scause == S_EXT ==> handler_invoked(table@, 0),
{
    if scause == S_TIMER {
        match &ch.timer {
            Some(h) => h(),
            None => {
                proof {
                    assert(false);
                }
            },
        }
    } else if scause == S_SOFT {
        match &ch.ipi {
            Some(h) => h(),
            None => {
                proof {
                    assert(false);
                }
            },
        }
    } else {
        dispatch_irq_common(table, 0);
    }
}

/// The per-core software-interrupt lines that carry inter-processor
/// interrupts on this backend: the platform send primitive raises the
/// destination core's line, where it stays pending until that core takes
/// the software-interrupt trap.
pub struct SoftIrqLines {
    pending: Vec<bool>,
}

impl View for SoftIrqLines {
    type V = Seq<bool>;

    closed spec fn view(&self) -> Seq<bool> {
        self.pending@
    }
}

impl SoftIrqLines {
    /// One quiet line per core.
    pub fn new(num_cpus: usize) -> (r: Self)
        ensures
            r@.len() == num_cpus,
            forall|i: int| 0 <= i < num_cpus ==> !r@[i],
    {
        let mut pending: Vec<bool> = Vec::new();
        let mut k: usize = 0;
        while k < num_cpus
            invariant
                k <= num_cpus,
                pending@.len() == k,
                forall|i: int| 0 <= i < k ==> !pending@[i],
            decreases num_cpus - k,
        {
            pending.push(false);
            k = k + 1;
        }
        SoftIrqLines { pending }
    }

    /// Whether the given core's line is raised.
    pub fn is_pending(&self, cpu_id: usize) -> (r: bool)
        requires
            cpu_id < self@.len(),
        ensures
            r == self@[cpu_id as int],
    {
        self.pending[cpu_id]
    }

    /// Lowers the given core's line, modelling that core taking the
    /// software-interrupt trap.
    pub fn clear(&mut self, cpu_id: usize)
        requires
            cpu_id < old(self)@.len(),
        ensures
            final(self)@ == old(self)@.update(cpu_id as int, false),
    {
        self.pending.set(cpu_id, false);
    }
}

/// Sends a software-generated interrupt to the given core by raising its
/// software-interrupt line.
///
/// A destination outside the platform's cores is a failed platform call:
/// non-fatal, nothing changes, and the sender is not told — at-most-once,
/// unacknowledged delivery is the contract.
pub fn send_sgi_one(lines: &mut SoftIrqLines, dest_cpu_id: usize, _irq_num: usize)
    ensures
        dest_cpu_id < old(lines)@.len() ==> final(lines)@ == old(lines)@.update(
            dest_cpu_id as int,
            true,
        ),
        dest_cpu_id >= old(lines)@.len() ==> final(lines)@ == old(lines)@,
{
    if dest_cpu_id < lines.pending.len() {
        lines.pending.set(dest_cpu_id, true);
    }
}

/// Sends a broadcast inter-processor interrupt: raises the line of every
/// core but the sending one.
pub fn send_sgi_all(lines: &mut SoftIrqLines, current_cpu: usize, _irq_num: usize)
    ensures
        final(lines)@.len() == old(lines)@.len(),
        forall|i: int|
            0 <= i < old(lines)@.len() ==> final(lines)@[i] == (if i == current_cpu {
                old(lines)@[i]
            } else {
                true
            }),
{
    let n = lines.pending.len();
    let mut i: usize = 0;
    while i < n
        invariant
            i <= n,
            n == old(lines)@.len(),
            lines@.len() == n,
            forall|k: int|
                0 <= k < i ==> lines@[k] == (if k == current_cpu {
                    old(lines)@[k]
                } else {
                    true
                }),
            forall|k: int| i <= k < n ==> lines@[k] == old(lines)@[k],
        decreases n - i,
    {
        if i != current_cpu {
            lines.pending.set(i, true);
        }
        i = i + 1;
    }
}

} // verus!
