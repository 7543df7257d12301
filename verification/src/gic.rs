//! GICv2-backed platform layer: glue between the platform-independent
//! dispatch table and the distributor and CPU-interface drivers, plus the
//! bundle of per-core register blocks the hypervisor layer borrows from.
use vstd::prelude::*;

use crate::GIC_MAX_IRQ;
use crate::MAX_IRQ_COUNT;
use crate::SPURIOUS_IRQ;
use crate::gic_v2::GicCpuInterface;
use crate::gic_v2::GicDistributor;
use crate::gic_v2::GicError;
use crate::gic_v2::GicHypervisorInterface;
use crate::gic_v2::GiccView;
use crate::gic_v2::distributor_init_effect;
use crate::irq::HandlerTable;
use crate::irq::dispatch_irq_common;
use crate::irq::handler_invoked;
use crate::irq::register_handler_common;

verus! {

/// The timer interrupt vector: private-peripheral interrupt 14.
pub const TIMER_IRQ_NUM: usize = 16 + 14;

/// The UART interrupt vector: shared-peripheral interrupt 1 on this
/// platform.
pub const UART_IRQ_NUM: usize = 32 + 1;

/// The software-generated interrupt reserved for inter-processor messages.
pub const IPI_IRQ_NUM: usize = 1;

/// Enables or disables the given IRQ at the distributor.
pub fn set_enable(gicd: &mut GicDistributor, irq_num: usize, enabled: bool)
    requires
        old(gicd)@.wf(),
        irq_num < GIC_MAX_IRQ,
    ensures
        final(gicd)@.wf(),
        final(gicd)@.enabled(irq_num as int) == enabled,
        forall|w: int|
            0 <= w < GIC_MAX_IRQ && w != irq_num ==> final(gicd)@.enabled(w) == old(
                gicd,
            )@.enabled(w),
        final(gicd)@ == (crate::gic_v2::GicdView {
            isenabler: final(gicd)@.isenabler,
            ..old(gicd)@
        }),
{
    gicd.set_enable(irq_num, enabled);
}

/// Registers a handler for the given IRQ and, if the registration succeeds,
/// enables the vector at the distributor. On failure the table and the
/// vector's enable state are left unchanged.
pub fn register_handler<H: Fn()>(
    gicd: &mut GicDistributor,
    table: &mut HandlerTable<H>,
    irq_num: usize,
    handler: H,
) -> (r: bool)
    requires
        old(gicd)@.wf(),
        old(table).wf(),
        call_requires(handler, ()),
    ensures
        final(gicd)@.wf(),
        final(table).wf(),
        r == (irq_num < MAX_IRQ_COUNT && irq_num < old(table)@.len() && old(table)@[irq_num as int]
            is None),
        r ==> final(table)@ == old(table)@.update(irq_num as int, Some(handler)),
        r ==> final(gicd)@.enabled(irq_num as int),
        r ==> forall|w: int|
            0 <= w < GIC_MAX_IRQ && w != irq_num ==> final(gicd)@.enabled(w) == old(
                gicd,
            )@.enabled(w),
        !r ==> final(table)@ == old(table)@ && final(gicd)@ == old(gicd)@,
{
    if register_handler_common(table, irq_num, handler) {
        gicd.set_enable(irq_num, true);
        true
    } else {
        false
    }
}

/// Reads the next pending vector from the CPU interface's acknowledge
/// register.
pub fn fetch_irq(gicc: &GicCpuInterface) -> (r: usize)
    ensures
        r == gicc@.iar as usize,
{
    gicc.iar() as usize
}

/// Dispatches an IRQ.
///
/// Called with 0, it runs the CPU interface's acknowledge-dispatch-complete
/// unit, looking the acknowledged vector up in the table. Called with a
/// vector already fetched from the acknowledge register, it dispatches that
/// vector and then performs the split completion sequence: an
/// end-of-interrupt write followed by a deactivate write, both carrying the
/// acknowledged token.
pub fn dispatch_irq<H: Fn()>(gicc: &mut GicCpuInterface, table: &HandlerTable<H>, irq_no: usize)
    requires
        table.wf(),
        irq_no != 0 ==> irq_no == old(gicc)@.iar as usize,
    ensures
        irq_no == 0 ==> ({
            let vector = old(gicc)@.iar & 0x3ff;
            if vector < SPURIOUS_IRQ {
                &&& final(gicc)@ == (GiccView {
                    eoir: old(gicc)@.eoir.push(old(gicc)@.iar),
                    ..old(gicc)@
                })
                &&& handler_invoked(table@, vector as int)
            } else {
                final(gicc)@ == old(gicc)@
            }
        }),
        irq_no != 0 ==> ({
            &&& final(gicc)@ == (GiccView {
                eoir: old(gicc)@.eoir.push(old(gicc)@.iar),
                dir: old(gicc)@.dir.push(old(gicc)@.iar),
                ..old(gicc)@
            })
            &&& handler_invoked(table@, irq_no as int)
        }),
{
    if irq_no == 0 {
        let deliver = (|irq_num: u32|
            requires
                table.wf(),
            ensures
                handler_invoked(table@, irq_num as int),
            {
                dispatch_irq_common(table, irq_num as usize);
            });
        gicc.handle_irq(deliver);
    } else {
        dispatch_irq_common(table, irq_no);
        let token = gicc.iar();
        gicc.set_eoi(token);
        gicc.dir(token);
    }
}

/// Initializes the distributor and this core's physical and virtual CPU
/// interfaces on the primary core, and touches the hypervisor control
/// register so virtual-interrupt state is observable from boot. Fails,
/// changing nothing, when the distributor reports more vectors than the
/// compiled ceiling.
pub fn init_primary(
    gicd: &mut GicDistributor,
    gicc: &mut GicCpuInterface,
    gicv: &mut GicCpuInterface,
    gich: &GicHypervisorInterface,
) -> (r: Result<(), GicError>)
    requires
        old(gicd)@.wf(),
    ensures
        final(gicd)@.wf(),
        r is Err <==> old(gicd)@.max_irqs() > GIC_MAX_IRQ,
        r is Err ==> final(gicd)@ == old(gicd)@ && final(gicc)@ == old(gicc)@ && final(gicv)@
            == old(gicv)@,
        r is Ok ==> distributor_init_effect(old(gicd)@, final(gicd)@),
        r is Ok ==> final(gicc)@ == (GiccView { ctlr: 1u32, pmr: 0xffu32, ..old(gicc)@ }),
        r is Ok ==> final(gicv)@ == (GiccView { ctlr: 1u32, pmr: 0xffu32, ..old(gicv)@ }),
{
    match gicd.init() {
        Ok(()) => {
            gicc.init();
            gicv.init();
            let _ = gich.get_hcr();
            Ok(())
        },
        Err(e) => Err(e),
    }
}

/// Initializes this core's CPU interface on a secondary core.
pub fn init_secondary(gicc: &mut GicCpuInterface)
    ensures
        final(gicc)@ == (GiccView { ctlr: 1u32, pmr: 0xffu32, ..old(gicc)@ }),
{
    gicc.init();
}

/// The per-core bundle of GIC register blocks the virtual-interrupt layer
/// works with: the shared distributor and this core's physical, virtual and
/// hypervisor interfaces.
pub struct MyVgic {
    /// The shared distributor.
    pub gicd: GicDistributor,
    /// This core's physical CPU interface.
    pub gicc: GicCpuInterface,
    /// This core's virtual CPU interface.
    pub gicv: GicCpuInterface,
    /// This core's hypervisor interface.
    pub gich: GicHypervisorInterface,
}

impl MyVgic {
    /// Bundles the four register blocks of one core.
    pub fn new(
        gicd: GicDistributor,
        gicc: GicCpuInterface,
        gicv: GicCpuInterface,
        gich: GicHypervisorInterface,
    ) -> (r: Self)
        ensures
            r.gicd == gicd,
            r.gicc == gicc,
            r.gicv == gicv,
            r.gich == gich,
    {
        MyVgic { gicd, gicc, gicv, gich }
    }

    /// The hypervisor interface.
    pub fn get_gich(&self) -> (r: &GicHypervisorInterface)
        ensures
            r == &self.gich,
    {
        &self.gich
    }

    /// The distributor.
    pub fn get_gicd(&self) -> (r: &GicDistributor)
        ensures
            r == &self.gicd,
    {
        &self.gicd
    }

    /// The physical CPU interface.
    pub fn get_gicc(&self) -> (r: &GicCpuInterface)
        ensures
            r == &self.gicc,
    {
        &self.gicc
    }

    /// The virtual CPU interface.
    pub fn get_gicv(&self) -> (r: &GicCpuInterface)
        ensures
            r == &self.gicv,
    {
        &self.gicv
    }
}

} // verus!
