//! Platform-independent interrupt-controller core: a bit-exact register model
//! of a GICv2 distributor and CPU interface, a vector-to-handler dispatch
//! table, an inter-processor message layer, and a cause-register backend.
use vstd::prelude::*;

pub mod gic;
pub mod gic_v2;
pub mod ipi;
pub mod irq;
pub mod riscv_irq;

verus! {

/// The largest vector count any supported distributor may report.
pub const GIC_MAX_IRQ: usize = 1024;

/// Capacity of the platform-independent dispatch table.
pub const MAX_IRQ_COUNT: usize = 1024;

/// First software-generated interrupt vector.
pub const SGI_RANGE_START: usize = 0;

/// First private-peripheral interrupt vector.
pub const PPI_RANGE_START: usize = 16;

/// First shared-peripheral (routable) interrupt vector.
pub const SPI_RANGE_START: usize = 32;

/// Acknowledge-register values at or above this denote a spurious read.
pub const SPURIOUS_IRQ: u32 = 1020;

/// Trigger behaviour of a routable interrupt line.
#[derive(Clone, Copy)]
pub enum TriggerMode {
    /// Fire on a signal edge.
    Edge,
    /// Fire while the signal is held.
    Level,
}

/// The three architectural vector classes.
#[derive(Clone, Copy)]
pub enum InterruptType {
    /// Software-generated interrupt, vectors 0 to 15.
    SGI,
    /// Private peripheral interrupt, vectors 16 to 31.
    PPI,
    /// Shared peripheral interrupt, vectors 32 and up.
    SPI,
}

/// Translates a class-relative interrupt id to an absolute vector number.
///
/// Software-generated and private-peripheral ids are offsets into their
/// 16-entry banks; shared-peripheral ids are offset past both banks.
pub fn translate_irq(id: usize, int_type: InterruptType) -> (r: Option<usize>)
    ensures
        match int_type {
            InterruptType::SGI => r == if id < PPI_RANGE_START {
                Some(id)
            } else {
                None::<usize>
            },
            InterruptType::PPI => r == if id + PPI_RANGE_START < SPI_RANGE_START {
                Some((id + PPI_RANGE_START) as usize)
            } else {
                None::<usize>
            },
            InterruptType::SPI => r == if id + SPI_RANGE_START < GIC_MAX_IRQ {
                Some((id + SPI_RANGE_START) as usize)
            } else {
                None::<usize>
            },
        },
{
    match int_type {
        InterruptType::SGI => {
            if id < PPI_RANGE_START {
                Some(id)
            } else {
                None
            }
        },
        InterruptType::PPI => {
            if id < SPI_RANGE_START - PPI_RANGE_START {
                Some(id + PPI_RANGE_START)
            } else {
                None
            }
        },
        InterruptType::SPI => {
            if id < GIC_MAX_IRQ - SPI_RANGE_START {
                Some(id + SPI_RANGE_START)
            } else {
                None
            }
        },
    }
}

} // verus!
