//! Bit-exact model of the GICv2 distributor, CPU interface, and hypervisor
//! interface register blocks, together with the driver operations over them.
//!
//! Every register is a 32-bit word held as plain state. Write-only "set" and
//! "clear" registers (enable, pending, active) are modelled by their effect on
//! the state they control; write-only command registers (end-of-interrupt,
//! deactivate, software-generated-interrupt) are modelled as logs of the words
//! written, so a driver's completion sequence is fully observable.
use vstd::prelude::*;

use crate::GIC_MAX_IRQ;
use crate::SPI_RANGE_START;
use crate::SPURIOUS_IRQ;
use crate::TriggerMode;

verus! {

/// Whether bit `bit` of `word` is set.
pub open spec fn bit_is_set(word: u32, bit: u32) -> bool
    recommends
        bit < 32,
{
    word & (1u32 << bit) != 0
}

/// The 8-bit field at byte position `slot` of `word`.
pub open spec fn byte_at(word: u32, slot: u32) -> u32
    recommends
        slot < 4,
{
    (word >> ((8 * slot) as u32)) & 0xff
}

/// Setting or clearing one bit changes exactly that bit.
pub proof fn lemma_bit_update(w: u32, b: u32, k: u32)
    by (bit_vector)
    requires
        b < 32,
        k < 32,
    ensures
        bit_is_set(w | (1u32 << b), k) == (k == b || bit_is_set(w, k)),
        bit_is_set(w & !(1u32 << b), k) == (k != b && bit_is_set(w, k)),
{
}

/// Replacing one byte field changes exactly that field.
pub proof fn lemma_byte_update(w: u32, s: u32, j: u32, p: u32)
    by (bit_vector)
    requires
        s < 4,
        j < 4,
        p <= 0xff,
    ensures
        byte_at((w & !(0xffu32 << ((8 * s) as u32))) | (p << ((8 * s) as u32)), j) == (if j == s {
            p
        } else {
            byte_at(w, j)
        }),
{
}

/// A byte field fits in 8 bits.
pub proof fn lemma_byte_at_bound(w: u32, s: u32)
    by (bit_vector)
    requires
        s < 4,
    ensures
        byte_at(w, s) <= 0xff,
{
}

/// Bits of an all-zero or all-one word.
pub proof fn lemma_constant_word_bits(b: u32)
    by (bit_vector)
    requires
        b < 32,
    ensures
        !bit_is_set(0u32, b),
        bit_is_set(0xffffffffu32, b),
{
}

/// Byte fields of the words the distributor reset loop writes.
pub proof fn lemma_constant_word_bytes(s: u32)
    by (bit_vector)
    requires
        s < 4,
    ensures
        byte_at(0x01010101u32, s) == 1,
        byte_at(0xffffffffu32, s) == 0xff,
{
}

/// Mathematical image of the distributor register block.
#[verifier::ext_equal]
pub ghost struct GicdView {
    /// Distributor control register.
    pub ctlr: u32,
    /// Interrupt controller type register.
    pub typer: u32,
    /// Interrupt group registers.
    pub igroupr: Seq<u32>,
    /// Enable state, one bit per vector.
    pub isenabler: Seq<u32>,
    /// Pending state, one bit per vector.
    pub ispendr: Seq<u32>,
    /// Active state, one bit per vector.
    pub isactiver: Seq<u32>,
    /// Priority fields, one byte per vector.
    pub ipriorityr: Seq<u32>,
    /// Target-processor fields, one byte per vector.
    pub itargetsr: Seq<u32>,
    /// Trigger configuration, two bits per vector.
    pub icfgr: Seq<u32>,
    /// Log of words written to the software-generated-interrupt register.
    pub sgir: Seq<u32>,
}

impl GicdView {
    /// The register arrays have their architectural sizes.
    pub open spec fn wf(self) -> bool {
        &&& self.igroupr.len() == 32
        &&& self.isenabler.len() == 32
        &&& self.ispendr.len() == 32
        &&& self.isactiver.len() == 32
        &&& self.ipriorityr.len() == 256
        &&& self.itargetsr.len() == 256
        &&& self.icfgr.len() == 64
    }

    /// Supported vector count: the type register's line-count field, plus one,
    /// times 32.
    pub open spec fn max_irqs(self) -> int {
        (((self.typer & 0x1f) as int) + 1) * 32
    }

    /// Implemented CPU interface count, from the type register.
    pub open spec fn cpu_num(self) -> int {
        ((((self.typer >> 5) & 0b111) as int) + 1)
    }

    /// Whether vector `v` is enabled.
    pub open spec fn enabled(self, v: int) -> bool
        recommends
            0 <= v < 1024,
    {
        bit_is_set(self.isenabler[v / 32], (v % 32) as u32)
    }

    /// Whether vector `v` is pending.
    pub open spec fn irq_pending(self, v: int) -> bool
        recommends
            0 <= v < 1024,
    {
        bit_is_set(self.ispendr[v / 32], (v % 32) as u32)
    }

    /// Whether vector `v` is active.
    pub open spec fn irq_active(self, v: int) -> bool
        recommends
            0 <= v < 1024,
    {
        bit_is_set(self.isactiver[v / 32], (v % 32) as u32)
    }

    /// The priority byte of vector `v`.
    pub open spec fn priority(self, v: int) -> u32
        recommends
            0 <= v < 1024,
    {
        byte_at(self.ipriorityr[v / 4], (v % 4) as u32)
    }

    /// The target-processor byte of vector `v`.
    pub open spec fn target_mask(self, v: int) -> u32
        recommends
            0 <= v < 1024,
    {
        byte_at(self.itargetsr[v / 4], (v % 4) as u32)
    }

    /// Whether vector `v` is configured edge-triggered: the upper bit of its
    /// two-bit configuration field.
    pub open spec fn edge_triggered(self, v: int) -> bool
        recommends
            0 <= v < 1024,
    {
        bit_is_set(self.icfgr[v / 16], ((v % 16) * 2 + 1) as u32)
    }

    /// The lower, adjacent bit of vector `v`'s configuration field, which the
    /// trigger-mode operation must never alter.
    pub open spec fn cfg_model_bit(self, v: int) -> bool
        recommends
            0 <= v < 1024,
    {
        bit_is_set(self.icfgr[v / 16], ((v % 16) * 2) as u32)
    }
}

/// The distributor after an enable (or disable) request for vector `v`: the
/// one-bit set-enable (or clear-enable) write it performs.
pub open spec fn spec_set_enable(d: GicdView, v: int, enable: bool) -> GicdView
    recommends
        d.wf(),
        0 <= v < 1024,
{
    GicdView {
        isenabler: d.isenabler.update(
            v / 32,
            (if enable {
                d.isenabler[v / 32] | (1u32 << ((v % 32) as u32))
            } else {
                d.isenabler[v / 32] & !(1u32 << ((v % 32) as u32))
            }),
        ),
        ..d
    }
}

/// The distributor after a trigger-mode request for vector `v`: unchanged
/// for a private vector, otherwise the read-modify-write of the upper bit of
/// the vector's two-bit configuration field.
pub open spec fn spec_configure(d: GicdView, v: int, edge: bool) -> GicdView
    recommends
        d.wf(),
        0 <= v < 1024,
{
    if v < SPI_RANGE_START {
        d
    } else {
        GicdView {
            icfgr: d.icfgr.update(
                v / 16,
                (if edge {
                    d.icfgr[v / 16] | (1u32 << (((v % 16) * 2 + 1) as u32))
                } else {
                    d.icfgr[v / 16] & !(1u32 << (((v % 16) * 2 + 1) as u32))
                }),
            ),
            ..d
        }
    }
}

/// The distributor after a priority write for vector `v`: the
/// read-modify-write that replaces one byte of a priority word.
pub open spec fn spec_set_priority(d: GicdView, v: int, p: u8) -> GicdView
    recommends
        d.wf(),
        0 <= v < 1024,
{
    GicdView {
        ipriorityr: d.ipriorityr.update(
            v / 4,
            ((d.ipriorityr[v / 4] & !(0xffu32 << ((8 * (v % 4)) as u32))) | ((p as u32) << ((8 * (v
                % 4)) as u32))),
        ),
        ..d
    }
}

/// Reported vector counts never exceed the compiled ceiling: the line-count
/// field is five bits wide.
pub proof fn lemma_max_irqs_bounded(d: GicdView)
    ensures
        32 <= d.max_irqs() <= 1024,
{
    let t = d.typer;
    assert(t & 0x1f <= 0x1f) by (bit_vector);
}

/// What a successful one-time distributor initialization establishes:
/// every supported vector disabled, not pending and not active; with more
/// than one core, all routable vectors routed to the first core at the
/// lowest priority; all routable vectors edge-triggered with their adjacent
/// configuration bits untouched; and the distributor globally enabled.
pub open spec fn distributor_init_effect(pre: GicdView, post: GicdView) -> bool {
    &&& post.ctlr == 1u32
    &&& post.typer == pre.typer
    &&& post.igroupr == pre.igroupr
    &&& post.sgir == pre.sgir
    &&& forall|i: int|
        0 <= i < pre.max_irqs() / 32 ==> post.isenabler[i] == 0u32 && post.ispendr[i] == 0u32
            && post.isactiver[i] == 0u32
    &&& forall|v: int|
        0 <= v < pre.max_irqs() ==> !post.enabled(v) && !(post.irq_pending(v)) && !(
        post.irq_active(v))
    &&& (pre.cpu_num() > 1 ==> forall|i: int|
        8 <= i < pre.max_irqs() / 4 ==> post.itargetsr[i] == 0x01010101u32 && post.ipriorityr[i]
            == 0xffffffffu32)
    &&& (pre.cpu_num() > 1 ==> forall|v: int|
        SPI_RANGE_START <= v < pre.max_irqs() ==> post.target_mask(v) == 1u32 && post.priority(v)
            == 0xffu32)
    &&& (pre.cpu_num() <= 1 ==> post.itargetsr == pre.itargetsr && post.ipriorityr
        == pre.ipriorityr)
    &&& forall|v: int| SPI_RANGE_START <= v < pre.max_irqs() ==> post.edge_triggered(v)
    &&& forall|v: int| 0 <= v < GIC_MAX_IRQ ==> post.cfg_model_bit(v) == pre.cfg_model_bit(v)
}

/// Failure of the one-time distributor initialization.
#[derive(Clone, Copy, PartialEq, Eq, Debug)]
pub enum GicError {
    /// The distributor reports more vectors than the compiled ceiling.
    TooManyInterrupts,
}

/// The GIC distributor: the shared block that prioritizes interrupts and
/// routes them to the per-core CPU interfaces.
pub struct GicDistributor {
    ctlr: u32,
    typer: u32,
    igroupr: Vec<u32>,
    isenabler: Vec<u32>,
    ispendr: Vec<u32>,
    isactiver: Vec<u32>,
    ipriorityr: Vec<u32>,
    itargetsr: Vec<u32>,
    icfgr: Vec<u32>,
    sgir: Vec<u32>,
}

impl View for GicDistributor {
    type V = GicdView;

    closed spec fn view(&self) -> GicdView {
        GicdView {
            ctlr: self.ctlr,
            typer: self.typer,
            igroupr: self.igroupr@,
            isenabler: self.isenabler@,
            ispendr: self.ispendr@,
            isactiver: self.isactiver@,
            ipriorityr: self.ipriorityr@,
            itargetsr: self.itargetsr@,
            icfgr: self.icfgr@,
            sgir: self.sgir@,
        }
    }
}

/// A vector of `n` zeroed 32-bit registers.
fn zeroed_regs(n: usize) -> (r: Vec<u32>)
    ensures
        r@.len() == n,
        forall|i: int| 0 <= i < n ==> r@[i] == 0u32,
{
    let mut v: Vec<u32> = Vec::new();
    let mut k: usize = 0;
    while k < n
        invariant
            k <= n,
            v@.len() == k,
            forall|i: int| 0 <= i < k ==> v@[i] == 0u32,
        decreases n - k,
    {
        v.push(0u32);
        k = k + 1;
    }
    v
}

impl GicDistributor {
    /// A distributor whose read-only type register reports `typer` and whose
    /// writable registers are in their zeroed reset state.
    pub fn new(typer: u32) -> (r: Self)
        ensures
            r@.wf(),
            r@.ctlr == 0u32,
            r@.typer == typer,
            forall|i: int| 0 <= i < 32 ==> r@.igroupr[i] == 0u32,
            forall|i: int|
                0 <= i < 32 ==> r@.isenabler[i] == 0u32 && r@.ispendr[i] == 0u32
                    && r@.isactiver[i] == 0u32,
            forall|i: int| 0 <= i < 256 ==> r@.ipriorityr[i] == 0u32 && r@.itargetsr[i] == 0u32,
            forall|i: int| 0 <= i < 64 ==> r@.icfgr[i] == 0u32,
            r@.sgir == Seq::<u32>::empty(),
    {
        GicDistributor {
            ctlr: 0,
            typer,
            igroupr: zeroed_regs(32),
            isenabler: zeroed_regs(32),
            ispendr: zeroed_regs(32),
            isactiver: zeroed_regs(32),
            ipriorityr: zeroed_regs(256),
            itargetsr: zeroed_regs(256),
            icfgr: zeroed_regs(64),
            sgir: Vec::new(),
        }
    }

    /// The number of implemented CPU interfaces.
    pub fn cpu_num(&self) -> (r: usize)
        ensures
            r == self@.cpu_num(),
            1 <= r <= 8,
    {
        let t = self.typer;
        let field = (t >> 5) & 0b111;
        assert((t >> 5) & 0b111 <= 0b111) by (bit_vector);
        field as usize + 1
    }

    /// The maximum number of vectors the distributor supports, always a
    /// multiple of 32.
    pub fn max_irqs(&self) -> (r: usize)
        ensures
            r == self@.max_irqs(),
            32 <= r <= 1024,
    {
        let t = self.typer;
        let field = t & 0x1f;
        assert(t & 0x1f <= 0x1f) by (bit_vector);
        (field as usize + 1) * 32
    }

    /// Enables or disables the given vector.
    ///
    /// A request to enable is a one-bit write to the set-enable register, a
    /// request to disable one to the clear-enable register; both leave every
    /// other vector's enable state untouched.
    pub fn set_enable(&mut self, vector: usize, enable: bool)
        requires
            old(self)@.wf(),
            vector < GIC_MAX_IRQ,
        ensures
            final(self)@.wf(),
            final(self)@ == (GicdView { isenabler: final(self)@.isenabler, ..old(self)@ }),
            final(self)@.isenabler == old(self)@.isenabler.update(
                vector as int / 32,
                (if enable {
                    old(self)@.isenabler[vector as int / 32] | (1u32 << ((vector as int % 32) as u32))
                } else {
                    old(self)@.isenabler[vector as int / 32] & !(1u32 << ((vector as int % 32) as u32))
                }),
            ),
            final(self)@.enabled(vector as int) == enable,
            forall|w: int|
                0 <= w < GIC_MAX_IRQ && w != vector ==> final(self)@.enabled(w) == old(
                    self,
                )@.enabled(w),
            final(self)@ == spec_set_enable(old(self)@, vector as int, enable),
    {
        let reg = vector / 32;
        let shift = (vector % 32) as u32;
        let word = self.isenabler[reg];
        let new_word = if enable {
            word | (1u32 << shift)
        } else {
            word & !(1u32 << shift)
        };
        self.isenabler.set(reg, new_word);
        proof {
            assert(self@ =~= spec_set_enable(old(self)@, vector as int, enable));
            assert forall|w: int| 0 <= w < GIC_MAX_IRQ implies (if w == vector {
                self@.enabled(w) == enable
            } else {
                self@.enabled(w) == old(self)@.enabled(w)
            }) by {
                if w / 32 == vector as int / 32 {
                    lemma_bit_update(word, shift, (w % 32) as u32);
                }
            }
        }
    }

    /// Configures the trigger mode of the given vector.
    ///
    /// Only shared-peripheral (routable) vectors are configurable; for private
    /// vectors the request is ignored. The write touches only the upper bit of
    /// the vector's two-bit configuration field: the adjacent lower bit, and
    /// every other vector's field, keep their values.
    pub fn configure_interrupt(&mut self, vector: usize, tm: TriggerMode)
        requires
            old(self)@.wf(),
            vector < GIC_MAX_IRQ,
        ensures
            final(self)@.wf(),
            vector < SPI_RANGE_START ==> final(self)@ == old(self)@,
            vector >= SPI_RANGE_START ==> {
                &&& final(self)@ == (GicdView { icfgr: final(self)@.icfgr, ..old(self)@ })
                &&& final(self)@.icfgr == old(self)@.icfgr.update(
                    vector as int / 16,
                    (if tm is Edge {
                        old(self)@.icfgr[vector as int / 16] | (1u32 << (((vector as int % 16) * 2
                            + 1) as u32))
                    } else {
                        old(self)@.icfgr[vector as int / 16] & !(1u32 << (((vector as int % 16) * 2
                            + 1) as u32))
                    }),
                )
                &&& final(self)@.edge_triggered(vector as int) == (tm is Edge)
                &&& forall|w: int|
                    0 <= w < GIC_MAX_IRQ && w != vector ==> final(self)@.edge_triggered(w) == old(
                        self,
                    )@.edge_triggered(w)
                &&& forall|w: int|
                    0 <= w < GIC_MAX_IRQ ==> final(self)@.cfg_model_bit(w) == old(
                        self,
                    )@.cfg_model_bit(w)
            },
            final(self)@ == spec_configure(old(self)@, vector as int, tm is Edge),
    {
        if vector < SPI_RANGE_START {
            return ;
        }
        let reg_idx = vector / 16;
        let shift = ((vector % 16) * 2 + 1) as u32;
        let word = self.icfgr[reg_idx];
        let new_word = match tm {
            TriggerMode::Edge => word | (1u32 << shift),
            TriggerMode::Level => word & !(1u32 << shift),
        };
        self.icfgr.set(reg_idx, new_word);
        proof {
            assert(self@ =~= spec_configure(old(self)@, vector as int, tm is Edge));
            lemma_bit_update(word, shift, shift);
            assert(self@.edge_triggered(vector as int) == (tm is Edge));
            assert forall|w: int| 0 <= w < GIC_MAX_IRQ implies {
                &&& (w != vector ==> self@.edge_triggered(w) == old(self)@.edge_triggered(w))
                &&& self@.cfg_model_bit(w) == old(self)@.cfg_model_bit(w)
            } by {
                if w / 16 == vector as int / 16 {
                    lemma_bit_update(word, shift, ((w % 16) * 2 + 1) as u32);
                    lemma_bit_update(word, shift, ((w % 16) * 2) as u32);
                }
            }
        }
    }

    /// Reads the priority byte of the given vector.
    pub fn get_priority(&self, int_id: usize) -> (r: usize)
        requires
            self@.wf(),
            int_id < GIC_MAX_IRQ,
        ensures
            r == self@.priority(int_id as int) as usize,
            r <= 0xff,
    {
        let idx = int_id / 4;
        let off = ((int_id % 4) as u32) * 8;
        let word = self.ipriorityr[idx];
        proof {
            lemma_byte_at_bound(word, (int_id as int % 4) as u32);
        }
        ((word >> off) & 0xff) as usize
    }

    /// Writes the priority byte of the given vector, preserving the three
    /// other priority bytes packed in the same register word.
    pub fn set_priority(&mut self, int_id: usize, priority: u8)
        requires
            old(self)@.wf(),
            int_id < GIC_MAX_IRQ,
        ensures
            final(self)@.wf(),
            final(self)@ == (GicdView { ipriorityr: final(self)@.ipriorityr, ..old(self)@ }),
            final(self)@.ipriorityr == old(self)@.ipriorityr.update(
                int_id as int / 4,
                ((old(self)@.ipriorityr[int_id as int / 4] & !(0xffu32 << ((8 * (int_id as int % 4)) as u32)))
                    | ((priority as u32) << ((8 * (int_id as int % 4)) as u32))),
            ),
            final(self)@.priority(int_id as int) == priority as u32,
            forall|w: int|
                0 <= w < GIC_MAX_IRQ && w != int_id ==> final(self)@.priority(w) == old(
                    self,
                )@.priority(w),
            final(self)@ == spec_set_priority(old(self)@, int_id as int, priority),
    {
        let idx = int_id / 4;
        let off = ((int_id % 4) as u32) * 8;
        let mask = 0xffu32 << off;
        let prev = self.ipriorityr[idx];
        let reg_val = (prev & !mask) | ((priority as u32) << off);
        self.ipriorityr.set(idx, reg_val);
        proof {
            assert(self@ =~= spec_set_priority(old(self)@, int_id as int, priority));
            assert forall|w: int| 0 <= w < GIC_MAX_IRQ implies (if w == int_id {
                self@.priority(w) == priority as u32
            } else {
                self@.priority(w) == old(self)@.priority(w)
            }) by {
                if w / 4 == int_id as int / 4 {
                    lemma_byte_update(
                        prev,
                        (int_id as int % 4) as u32,
                        (w % 4) as u32,
                        priority as u32,
                    );
                }
            }
        }
    }

    /// Forwards a software-generated interrupt: one word written to the
    /// software-generated-interrupt register, encoding the target core and
    /// the SGI number.
    pub fn send_sgi(&mut self, dest_cpu_id: usize, sgi_num: usize)
        requires
            dest_cpu_id < 8,
            sgi_num < 16,
        ensures
            final(self)@ == (GicdView {
                sgir: old(self)@.sgir.push(
                    ((1u32 << ((16 + dest_cpu_id as int) as u32)) | (sgi_num as u32)),
                ),
                ..old(self)@
            }),
    {
        let word = (1u32 << ((16 + dest_cpu_id) as u32)) | (sgi_num as u32);
        self.sgir.push(word);
    }

    /// One-time distributor initialization.
    ///
    /// Fails, changing nothing, if the distributor reports more vectors than
    /// the compiled ceiling: such a configuration mismatch cannot safely be
    /// truncated. Otherwise it disables, clears-pending and clears-active
    /// every supported vector, routes all routable vectors to the first core
    /// at the lowest priority when more than one core is present, forces all
    /// routable vectors to edge-triggered, and finally enables the
    /// distributor.
    #[verifier::loop_isolation(false)]
    pub fn init(&mut self) -> (r: Result<(), GicError>)
        requires
            old(self)@.wf(),
        ensures
            final(self)@.wf(),
            r is Err <==> old(self)@.max_irqs() > GIC_MAX_IRQ,
            r is Err ==> final(self)@ == old(self)@,
            r is Ok ==> distributor_init_effect(old(self)@, final(self)@),
    {
        let max_irqs = self.max_irqs();
        if max_irqs > GIC_MAX_IRQ {
            return Err(GicError::TooManyInterrupts);
        }
        let ghost g = old(self)@;
        let n_words = max_irqs / 32;

        // Disable, clear-pending and clear-active every supported vector: an
        // all-ones write to each clear register zeroes the backing state.
        let mut w: usize = 0;
        while w < n_words
            invariant
                self@.wf(),
                w <= n_words,
                n_words == g.max_irqs() / 32,
                n_words <= 32,
                self@ == (GicdView {
                    isenabler: self@.isenabler,
                    ispendr: self@.ispendr,
                    isactiver: self@.isactiver,
                    ..g
                }),
                forall|i: int|
                    0 <= i < w ==> self@.isenabler[i] == 0u32 && self@.ispendr[i] == 0u32
                        && self@.isactiver[i] == 0u32,
                forall|i: int|
                    w <= i < 32 ==> self@.isenabler[i] == g.isenabler[i] && self@.ispendr[i]
                        == g.ispendr[i] && self@.isactiver[i] == g.isactiver[i],
            decreases n_words - w,
        {
            self.isenabler.set(w, 0u32);
            self.ispendr.set(w, 0u32);
            self.isactiver.set(w, 0u32);
            w = w + 1;
            proof {
                assert(self@ =~= (GicdView {
                    isenabler: self@.isenabler,
                    ispendr: self@.ispendr,
                    isactiver: self@.isactiver,
                    ..g
                }));
            }
        }

        // With more than one core, route every routable vector to the first
        // core and give it the lowest priority.
        if self.cpu_num() > 1 {
            let n_bytes = max_irqs / 4;
            let mut i: usize = SPI_RANGE_START / 4;
            while i < n_bytes
                invariant
                    self@.wf(),
                    8 <= i <= n_bytes,
                    n_bytes == g.max_irqs() / 4,
                    n_bytes <= 256,
                    self@ == (GicdView {
                        isenabler: self@.isenabler,
                        ispendr: self@.ispendr,
                        isactiver: self@.isactiver,
                        itargetsr: self@.itargetsr,
                        ipriorityr: self@.ipriorityr,
                        ..g
                    }),
                    forall|k: int|
                        0 <= k < g.max_irqs() / 32 ==> self@.isenabler[k] == 0u32 && self@.ispendr[k]
                            == 0u32 && self@.isactiver[k] == 0u32,
                    forall|k: int|
                        8 <= k < i ==> self@.itargetsr[k] == 0x01010101u32 && self@.ipriorityr[k]
                            == 0xffffffffu32,
                    forall|k: int|
                        0 <= k < 8 || i <= k < 256 ==> self@.itargetsr[k] == g.itargetsr[k]
                            && self@.ipriorityr[k] == g.ipriorityr[k],
                decreases n_bytes - i,
            {
                self.itargetsr.set(i, 0x01010101u32);
                self.ipriorityr.set(i, 0xffffffffu32);
                i = i + 1;
                proof {
                    assert(self@ =~= (GicdView {
                        isenabler: self@.isenabler,
                        ispendr: self@.ispendr,
                        isactiver: self@.isactiver,
                        itargetsr: self@.itargetsr,
                        ipriorityr: self@.ipriorityr,
                        ..g
                    }));
                }
            }
        }

        // Force every routable vector to edge-triggered.
        let ghost mid = self@;
        let mut v: usize = SPI_RANGE_START;
        while v < max_irqs
            invariant
                self@.wf(),
                SPI_RANGE_START <= v <= max_irqs,
                max_irqs == g.max_irqs(),
                max_irqs <= 1024,
                mid.wf(),
                self@ == (GicdView { icfgr: self@.icfgr, ..mid }),
                forall|u: int| SPI_RANGE_START <= u < v ==> self@.edge_triggered(u),
                forall|u: int|
                    0 <= u < GIC_MAX_IRQ && !(SPI_RANGE_START <= u < v) ==> self@.edge_triggered(u)
                        == mid.edge_triggered(u),
                forall|u: int|
                    0 <= u < GIC_MAX_IRQ ==> self@.cfg_model_bit(u) == mid.cfg_model_bit(u),
            decreases max_irqs - v,
        {
            self.configure_interrupt(v, TriggerMode::Edge);
            v = v + 1;
            proof {
                assert(self@ =~= (GicdView { icfgr: self@.icfgr, ..mid }));
            }
        }

        // Enable the distributor.
        let ghost done = self@;
        self.ctlr = 1;
        proof {
            assert(self@ =~= (GicdView { ctlr: 1u32, ..done }));
            assert forall|u: int|
                SPI_RANGE_START <= u < g.max_irqs() implies self@.edge_triggered(u) by {
                assert(done.edge_triggered(u));
            }
            assert forall|u: int|
                0 <= u < GIC_MAX_IRQ implies self@.cfg_model_bit(u) == g.cfg_model_bit(u) by {
                assert(done.cfg_model_bit(u) == mid.cfg_model_bit(u));
                assert(mid.icfgr == g.icfgr);
            }
            assert forall|u: int| 0 <= u < g.max_irqs() implies !self@.enabled(u)
                && !self@.irq_pending(u) && !self@.irq_active(u) by {
                lemma_constant_word_bits((u % 32) as u32);
            }
            if g.cpu_num() > 1 {
                assert forall|u: int|
                    SPI_RANGE_START <= u < g.max_irqs() implies self@.target_mask(u) == 1u32
                    && self@.priority(u) == 0xffu32 by {
                    lemma_constant_word_bytes((u % 4) as u32);
                }
            }
        }
        Ok(())
    }

    /// Reads the distributor control register.
    pub fn read_ctlr(&self) -> (r: u32)
        ensures
            r == self@.ctlr,
    {
        self.ctlr
    }

    /// Reads the interrupt controller type register.
    pub fn read_typer(&self) -> (r: u32)
        ensures
            r == self@.typer,
    {
        self.typer
    }

    /// Reads one word of the set-enable register array.
    pub fn read_isenabler(&self, idx: usize) -> (r: u32)
        requires
            self@.wf(),
            idx < 32,
        ensures
            r == self@.isenabler[idx as int],
    {
        self.isenabler[idx]
    }

    /// Reads one word of the set-pending register array.
    pub fn read_ispendr(&self, idx: usize) -> (r: u32)
        requires
            self@.wf(),
            idx < 32,
        ensures
            r == self@.ispendr[idx as int],
    {
        self.ispendr[idx]
    }

    /// Reads one word of the set-active register array.
    pub fn read_isactiver(&self, idx: usize) -> (r: u32)
        requires
            self@.wf(),
            idx < 32,
        ensures
            r == self@.isactiver[idx as int],
    {
        self.isactiver[idx]
    }

    /// Reads one word of the priority register array.
    pub fn read_ipriorityr(&self, idx: usize) -> (r: u32)
        requires
            self@.wf(),
            idx < 256,
        ensures
            r == self@.ipriorityr[idx as int],
    {
        self.ipriorityr[idx]
    }

    /// Reads one word of the target-processor register array.
    pub fn read_itargetsr(&self, idx: usize) -> (r: u32)
        requires
            self@.wf(),
            idx < 256,
        ensures
            r == self@.itargetsr[idx as int],
    {
        self.itargetsr[idx]
    }

    /// Reads one word of the trigger-configuration register array.
    pub fn read_icfgr(&self, idx: usize) -> (r: u32)
        requires
            self@.wf(),
            idx < 64,
        ensures
            r == self@.icfgr[idx as int],
    {
        self.icfgr[idx]
    }

    /// The words written to the software-generated-interrupt register so far,
    /// oldest first.
    pub fn sgir_log(&self) -> (r: &Vec<u32>)
        ensures
            r@ == self@.sgir,
    {
        &self.sgir
    }

    /// Whether the given vector is currently enabled.
    pub fn is_enabled(&self, vector: usize) -> (r: bool)
        requires
            self@.wf(),
            vector < GIC_MAX_IRQ,
        ensures
            r == self@.enabled(vector as int),
    {
        let word = self.isenabler[vector / 32];
        word & (1u32 << ((vector % 32) as u32)) != 0
    }

    /// Whether the given vector is currently configured edge-triggered.
    pub fn is_edge_triggered(&self, vector: usize) -> (r: bool)
        requires
            self@.wf(),
            vector < GIC_MAX_IRQ,
        ensures
            r == self@.edge_triggered(vector as int),
    {
        let word = self.icfgr[vector / 16];
        word & (1u32 << (((vector % 16) * 2 + 1) as u32)) != 0
    }
}

/// Mathematical image of one CPU interface register block.
#[verifier::ext_equal]
pub ghost struct GiccView {
    /// CPU interface control register.
    pub ctlr: u32,
    /// Interrupt priority mask register.
    pub pmr: u32,
    /// Binary point register.
    pub bpr: u32,
    /// The value the next acknowledge-register read returns.
    pub iar: u32,
    /// Log of words written to the end-of-interrupt register.
    pub eoir: Seq<u32>,
    /// Log of words written to the deactivate register.
    pub dir: Seq<u32>,
}

/// A per-core GIC CPU interface: the block a core uses to acknowledge, mask,
/// and complete its own interrupts. No lock guards it, because each core
/// exclusively owns its interface.
///
/// The environment that presents interrupts (hardware, or a test bench)
/// latches the value an acknowledge read will return; end-of-interrupt and
/// deactivate writes are logged, so the completion sequence of a dispatch
/// path is fully observable.
pub struct GicCpuInterface {
    ctlr: u32,
    pmr: u32,
    bpr: u32,
    iar: u32,
    eoir: Vec<u32>,
    dir: Vec<u32>,
}

impl View for GicCpuInterface {
    type V = GiccView;

    closed spec fn view(&self) -> GiccView {
        GiccView {
            ctlr: self.ctlr,
            pmr: self.pmr,
            bpr: self.bpr,
            iar: self.iar,
            eoir: self.eoir@,
            dir: self.dir@,
        }
    }
}

impl GicCpuInterface {
    /// A CPU interface in its reset state whose acknowledge register presents
    /// `pending`. Pass the spurious value to model a quiet interface.
    pub fn new(pending: u32) -> (r: Self)
        ensures
            r@.ctlr == 0u32,
            r@.pmr == 0u32,
            r@.bpr == 0u32,
            r@.iar == pending,
            r@.eoir == Seq::<u32>::empty(),
            r@.dir == Seq::<u32>::empty(),
    {
        GicCpuInterface { ctlr: 0, pmr: 0, bpr: 0, iar: pending, eoir: Vec::new(), dir: Vec::new() }
    }

    /// Latches the value the next acknowledge read returns, modelling the
    /// hardware presenting (or withdrawing) a pending interrupt.
    pub fn set_pending(&mut self, iar: u32)
        ensures
            final(self)@ == (GiccView { iar, ..old(self)@ }),
    {
        self.iar = iar;
    }

    /// Reads the interrupt acknowledge register: the vector of the highest
    /// priority pending interrupt, or a spurious value of 1023 when the
    /// distributor or this interface is disabled or nothing is pending.
    pub fn iar(&self) -> (r: u32)
        ensures
            r == self@.iar,
    {
        self.iar
    }

    /// Writes the end-of-interrupt register, completing the processing of
    /// one interrupt.
    ///
    /// The hardware contract leaves any other value undefined, so the word
    /// written must be exactly the value the acknowledge read returned;
    /// callers thread that token through.
    pub fn set_eoi(&mut self, iar: u32)
        requires
            iar == old(self)@.iar,
        ensures
            final(self)@ == (GiccView { eoir: old(self)@.eoir.push(iar), ..old(self)@ }),
    {
        self.eoir.push(iar);
    }

    /// Writes the deactivate register, releasing one interrupt when the
    /// interface runs in split priority-drop/deactivate mode.
    ///
    /// As with end-of-interrupt, the token must be the acknowledged value.
    pub fn dir(&mut self, iar: u32)
        requires
            iar == old(self)@.iar,
        ensures
            final(self)@ == (GiccView { dir: old(self)@.dir.push(iar), ..old(self)@ }),
    {
        self.dir.push(iar);
    }

    /// The single acknowledge-dispatch-complete unit.
    ///
    /// Reads the acknowledge register; on a spurious value it does nothing at
    /// all. Otherwise it invokes `handler` with the vector and then writes
    /// the acknowledged token back to the end-of-interrupt register. Callers
    /// must not decompose this sequence: acknowledging without completing
    /// would leave the line masked forever.
    pub fn handle_irq<F: FnOnce(u32)>(&mut self, handler: F)
        requires
            ({
                let vector = old(self)@.iar & 0x3ff;
                vector < SPURIOUS_IRQ ==> call_requires(handler, (vector,))
            }),
        ensures
            ({
                let vector = old(self)@.iar & 0x3ff;
                if vector < SPURIOUS_IRQ {
                    &&& final(self)@ == (GiccView {
                        eoir: old(self)@.eoir.push(old(self)@.iar),
                        ..old(self)@
                    })
                    &&& call_ensures(handler, (vector,), ())
                } else {
                    final(self)@ == old(self)@
                }
            }),
    {
        let iar = self.iar();
        let vector = iar & 0x3ff;
        if vector < SPURIOUS_IRQ {
            handler(vector);
            self.set_eoi(iar);
        } else {
            // spurious read: no handler call, no completion write
        }
    }

    /// One-time per-core interface initialization: unmask every priority
    /// level and enable the interface.
    pub fn init(&mut self)
        ensures
            final(self)@ == (GiccView { ctlr: 1u32, pmr: 0xffu32, ..old(self)@ }),
    {
        self.ctlr = 1;
        self.pmr = 0xff;
    }

    /// The words written to the end-of-interrupt register so far, oldest
    /// first.
    pub fn eoir_log(&self) -> (r: &Vec<u32>)
        ensures
            r@ == self@.eoir,
    {
        &self.eoir
    }

    /// The words written to the deactivate register so far, oldest first.
    pub fn dir_log(&self) -> (r: &Vec<u32>)
        ensures
            r@ == self@.dir,
    {
        &self.dir
    }

    /// Reads the interface control register.
    pub fn read_ctlr(&self) -> (r: u32)
        ensures
            r == self@.ctlr,
    {
        self.ctlr
    }

    /// Reads the priority mask register.
    pub fn read_pmr(&self) -> (r: u32)
        ensures
            r == self@.pmr,
    {
        self.pmr
    }
}

/// Mathematical image of the hypervisor interface register block.
#[verifier::ext_equal]
pub ghost struct GichView {
    /// Hypervisor control register.
    pub hcr: u32,
    /// List registers: one slot per virtual interrupt presented to a guest.
    pub lr: Seq<u32>,
}

/// A per-core GIC hypervisor interface: list registers through which the
/// VM-exit layer presents or withdraws virtual interrupts, plus the
/// hypervisor control register.
///
/// This layer is a narrow, typed conduit: it does not validate the encoding
/// of the words written, which is the virtual-machine layer's concern.
pub struct GicHypervisorInterface {
    hcr: u32,
    lr: Vec<u32>,
}

impl View for GicHypervisorInterface {
    type V = GichView;

    closed spec fn view(&self) -> GichView {
        GichView { hcr: self.hcr, lr: self.lr@ }
    }
}

impl GicHypervisorInterface {
    /// A hypervisor interface with `lr_count` zeroed list registers.
    pub fn new(lr_count: usize) -> (r: Self)
        requires
            lr_count <= 64,
        ensures
            r@.hcr == 0u32,
            r@.lr.len() == lr_count,
            forall|i: int| 0 <= i < lr_count ==> r@.lr[i] == 0u32,
    {
        GicHypervisorInterface { hcr: 0, lr: zeroed_regs(lr_count) }
    }

    /// Reads the hypervisor control register.
    pub fn get_hcr(&self) -> (r: u32)
        ensures
            r == self@.hcr,
    {
        self.hcr
    }

    /// Writes the hypervisor control register.
    pub fn set_hcr(&mut self, hcr: u32)
        ensures
            final(self)@ == (GichView { hcr, ..old(self)@ }),
    {
        self.hcr = hcr;
    }

    /// Reads one list register.
    pub fn get_lr(&self, idx: usize) -> (r: u32)
        requires
            idx < self@.lr.len(),
        ensures
            r == self@.lr[idx as int],
    {
        self.lr[idx]
    }

    /// Writes one list register, leaving every other slot untouched.
    pub fn set_lr(&mut self, idx: usize, value: u32)
        requires
            idx < old(self)@.lr.len(),
        ensures
            final(self)@.hcr == old(self)@.hcr,
            final(self)@.lr == old(self)@.lr.update(idx as int, value),
    {
        self.lr.set(idx, value);
    }

    /// The number of list registers this interface implements.
    pub fn lr_count(&self) -> (r: usize)
        ensures
            r == self@.lr.len(),
    {
        self.lr.len()
    }
}

/// For every routable vector, a trigger-mode write to edge shows the
/// trigger bit set on a read-back and a write to level shows it cleared,
/// and neither write alters the adjacent configuration bit of any vector.
pub proof fn lemma_trigger_config_round_trip(d: GicdView, v: int)
    requires
        d.wf(),
        SPI_RANGE_START <= v < GIC_MAX_IRQ,
    ensures
        spec_configure(d, v, true).edge_triggered(v),
        !(spec_configure(d, v, false).edge_triggered(v)),
        forall|w: int|
            0 <= w < GIC_MAX_IRQ ==> spec_configure(d, v, true).cfg_model_bit(w)
                == d.cfg_model_bit(w),
        forall|w: int|
            0 <= w < GIC_MAX_IRQ ==> spec_configure(d, v, false).cfg_model_bit(w)
                == d.cfg_model_bit(w),
{
    let word = d.icfgr[v / 16];
    let shift = ((v % 16) * 2 + 1) as u32;
    lemma_bit_update(word, shift, shift);
    assert forall|w: int|
        0 <= w < GIC_MAX_IRQ implies spec_configure(d, v, true).cfg_model_bit(w)
        == d.cfg_model_bit(w) && spec_configure(d, v, false).cfg_model_bit(w) == d.cfg_model_bit(
        w,
    ) by {
        if w / 16 == v / 16 {
            lemma_bit_update(word, shift, ((w % 16) * 2) as u32);
        }
    }
}

/// For every vector, enabling and then disabling it leaves its enable-state
/// bit cleared: the set-enable and clear-enable writes are a correct no-op
/// pair.
pub proof fn lemma_enable_disable_round_trip(d: GicdView, v: int)
    requires
        d.wf(),
        0 <= v < GIC_MAX_IRQ,
    ensures
        !(spec_set_enable(spec_set_enable(d, v, true), v, false).enabled(v)),
{
    let shift = (v % 32) as u32;
    let word = d.isenabler[v / 32];
    lemma_bit_update((word | (1u32 << shift)), shift, shift);
}

/// A priority write reads back exactly, and the priorities of every other
/// vector — the three sharing its register word included — are unchanged.
pub proof fn lemma_priority_round_trip(d: GicdView, v: int, p: u8)
    requires
        d.wf(),
        0 <= v < GIC_MAX_IRQ,
    ensures
        spec_set_priority(d, v, p).priority(v) == p as u32,
        forall|w: int|
            0 <= w < GIC_MAX_IRQ && w != v ==> spec_set_priority(d, v, p).priority(w)
                == d.priority(w),
{
    let word = d.ipriorityr[v / 4];
    lemma_byte_update(word, (v % 4) as u32, (v % 4) as u32, p as u32);
    assert(spec_set_priority(d, v, p).priority(v) == p as u32);
    assert forall|w: int| 0 <= w < GIC_MAX_IRQ implies (if w == v {
        spec_set_priority(d, v, p).priority(w) == p as u32
    } else {
        spec_set_priority(d, v, p).priority(w) == d.priority(w)
    }) by {
        if w / 4 == v / 4 {
            lemma_byte_update(word, (v % 4) as u32, (w % 4) as u32, p as u32);
        }
    }
}

} // verus!
