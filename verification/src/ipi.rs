//! Inter-processor messaging: a tagged cross-core message type, per-core
//! bounded FIFO mailboxes, and delivery through a kind-indexed handler list,
//! layered on the distributor's software-generated-interrupt primitive.
use vstd::prelude::*;

use crate::gic::IPI_IRQ_NUM;
use crate::gic_v2::GicDistributor;
use crate::gic_v2::GicdView;

verus! {

/// The number of message kinds.
pub const IPI_KIND_COUNT: usize = 1;

/// The kind of an inter-processor message.
#[derive(Clone, Copy)]
pub enum IpiType {
    /// Power control: bringing a core up or down.
    Power,
}

/// The dense index of a message kind, used to look its handler up.
pub open spec fn spec_kind_index(t: IpiType) -> int {
    match t {
        IpiType::Power => 0,
    }
}

/// The dense index of a message kind.
pub fn kind_index(t: IpiType) -> (r: usize)
    ensures
        r == spec_kind_index(t),
        r < IPI_KIND_COUNT,
{
    match t {
        IpiType::Power => 0,
    }
}

/// A power-control event.
#[derive(Clone, Copy)]
pub enum PowerEvent {
    /// Bring a core up.
    PsciIpiCpuOn,
    /// Take a core down.
    PsciIpiCpuOff,
    /// Reset a core.
    PsciIpiCpuReset,
}

/// The payload of a power-control message.
#[derive(Clone, Copy)]
pub struct IpiPowerMessage {
    /// The sending core.
    pub src: usize,
    /// The requested event.
    pub event: PowerEvent,
    /// Entry address for a core being brought up.
    pub entry: usize,
    /// Opaque context word handed to the target.
    pub context: usize,
}

/// The kind-specific payload of a message.
#[derive(Clone, Copy)]
pub enum IpiInnerMsg {
    /// A power-control payload.
    Power(IpiPowerMessage),
}

/// One inter-processor message: a kind tag plus its payload. A message is
/// created by the sender and consumed by the receiving core's delivery path.
#[derive(Clone, Copy)]
pub struct IpiMessage {
    /// The message kind.
    pub ipi_type: IpiType,
    /// The kind-specific payload.
    pub ipi_message: IpiInnerMsg,
}

/// The kind-indexed list of message handlers, built once at initialization.
/// Adding a new message kind means adding one entry.
pub struct IpiHandlerList<PH> {
    handlers: Vec<Option<PH>>,
}

impl<PH> View for IpiHandlerList<PH> {
    type V = Seq<Option<PH>>;

    closed spec fn view(&self) -> Seq<Option<PH>> {
        self.handlers@
    }
}

impl<PH: Fn(IpiMessage)> IpiHandlerList<PH> {
    /// One slot per message kind, and every installed handler accepts every
    /// message.
    pub open spec fn wf(&self) -> bool {
        &&& self@.len() == IPI_KIND_COUNT
        &&& forall|i: int|
            0 <= i < self@.len() && self@[i] is Some ==> forall|m: IpiMessage|
                call_requires(self@[i]->0, (m,))
    }

    /// An empty handler list.
    pub fn new() -> (r: Self)
        ensures
            r.wf(),
            forall|i: int| 0 <= i < IPI_KIND_COUNT ==> r@[i] is None,
    {
        let mut handlers: Vec<Option<PH>> = Vec::new();
        let mut k: usize = 0;
        while k < IPI_KIND_COUNT
            invariant
                k <= IPI_KIND_COUNT,
                handlers@.len() == k,
                forall|i: int| 0 <= i < k ==> handlers@[i] is None,
            decreases IPI_KIND_COUNT - k,
        {
            handlers.push(None);
            k = k + 1;
        }
        IpiHandlerList { handlers }
    }

    /// Installs the handler for one message kind; fails without any change
    /// if the kind already has one.
    pub fn register(&mut self, t: IpiType, handler: PH) -> (r: bool)
        requires
            old(self).wf(),
            forall|m: IpiMessage| call_requires(handler, (m,)),
        ensures
            final(self).wf(),
            r == (old(self)@[spec_kind_index(t)] is None),
            r ==> final(self)@ == old(self)@.update(spec_kind_index(t), Some(handler)),
            !r ==> final(self)@ == old(self)@,
    {
        let idx = kind_index(t);
        if self.handlers[idx].is_none() {
            self.handlers.set(idx, Some(handler));
            true
        } else {
            false
        }
    }
}

/// What delivering `msg` against the handler list `hl` guarantees: if the
/// message's kind has a handler, a call of it on the message has completed.
/// A kind without a handler has its message dropped, which is not a fault.
pub open spec fn ipi_delivered<PH: Fn(IpiMessage)>(hl: Seq<Option<PH>>, msg: IpiMessage) -> bool {
    (0 <= spec_kind_index(msg.ipi_type) < hl.len() && hl[spec_kind_index(msg.ipi_type)] is Some)
        ==> call_ensures(hl[spec_kind_index(msg.ipi_type)]->0, (msg,), ())
}

/// Per-core bounded mailboxes: one FIFO queue of messages per core.
/// Ownership of a message transfers to the receiving core's queue on send
/// and to its delivery path on drain.
pub struct IpiMailboxes {
    queues: Vec<Vec<IpiMessage>>,
    capacity: usize,
}

impl IpiMailboxes {
    /// The queue of each core, oldest message first.
    pub closed spec fn spec_queues(&self) -> Seq<Seq<IpiMessage>> {
        self.queues@.map_values(|q: Vec<IpiMessage>| q@)
    }

    /// The bound every queue respects.
    pub closed spec fn spec_capacity(&self) -> int {
        self.capacity as int
    }

    /// The number of cores.
    pub open spec fn num_cpus(&self) -> int {
        self.spec_queues().len() as int
    }

    /// At most eight cores (the distributor's target limit), a positive
    /// bound, and every queue within it.
    pub open spec fn wf(&self) -> bool {
        &&& self.num_cpus() <= 8
        &&& self.spec_capacity() >= 1
        &&& forall|c: int|
            0 <= c < self.num_cpus() ==> #[trigger] self.spec_queues()[c].len()
                <= self.spec_capacity()
    }

    /// Empty mailboxes for `num_cpus` cores, each bounded by `capacity`.
    pub fn new(num_cpus: usize, capacity: usize) -> (r: Self)
        requires
            num_cpus <= 8,
            capacity >= 1,
        ensures
            r.wf(),
            r.num_cpus() == num_cpus,
            r.spec_capacity() == capacity,
            forall|c: int| 0 <= c < num_cpus ==> #[trigger] r.spec_queues()[c].len() == 0,
    {
        let mut queues: Vec<Vec<IpiMessage>> = Vec::new();
        let mut k: usize = 0;
        while k < num_cpus
            invariant
                k <= num_cpus,
                queues@.len() == k,
                forall|c: int| 0 <= c < k ==> #[trigger] queues@[c]@.len() == 0,
            decreases num_cpus - k,
        {
            queues.push(Vec::new());
            k = k + 1;
        }
        IpiMailboxes { queues, capacity }
    }

    /// The number of messages waiting for the given core.
    pub fn queue_len(&self, cpu_id: usize) -> (r: usize)
        requires
            cpu_id < self.num_cpus(),
        ensures
            r == self.spec_queues()[cpu_id as int].len(),
    {
        self.queues[cpu_id].len()
    }
}

/// Sends a message to `target_id`'s mailbox and raises that core's
/// software-interrupt line through the distributor's software-generated-
/// interrupt register.
///
/// Sending is fire-and-forget and at-most-once: the sender learns whether
/// the message was accepted, never whether it was delivered. It is refused,
/// changing nothing, when the target does not exist or its mailbox is full.
pub fn ipi_send(
    mb: &mut IpiMailboxes,
    gicd: &mut GicDistributor,
    target_id: usize,
    msg: IpiMessage,
) -> (r: bool)
    requires
        old(mb).wf(),
    ensures
        final(mb).wf(),
        r == (target_id < old(mb).num_cpus() && old(mb).spec_queues()[target_id as int].len() < old(
            mb,
        ).spec_capacity()),
        r ==> final(mb).spec_queues() == old(mb).spec_queues().update(
            target_id as int,
            old(mb).spec_queues()[target_id as int].push(msg),
        ),
        r ==> final(gicd)@ == (GicdView {
            sgir: old(gicd)@.sgir.push(
                ((1u32 << ((16 + target_id as int) as u32)) | (IPI_IRQ_NUM as u32)),
            ),
            ..old(gicd)@
        }),
        final(mb).spec_capacity() == old(mb).spec_capacity(),
        final(mb).num_cpus() == old(mb).num_cpus(),
        !r ==> final(mb).spec_queues() == old(mb).spec_queues() && final(gicd)@ == old(gicd)@,
{
    if target_id < mb.queues.len() {
        let qlen = mb.queues[target_id].len();
        if qlen < mb.capacity {
            let ghost pre = mb.spec_queues();
            let mut q = mb.queues.remove(target_id);
            q.push(msg);
            mb.queues.insert(target_id, q);
            gicd.send_sgi(target_id, IPI_IRQ_NUM);
            proof {
                assert(mb.spec_queues() =~= pre.update(
                    target_id as int,
                    pre[target_id as int].push(msg),
                ));
            }
            true
        } else {
            false
        }
    } else {
        false
    }
}

/// Builds a message of the given kind and payload and sends it to
/// `target_id` as `ipi_send` does.
pub fn ipi_send_msg(
    mb: &mut IpiMailboxes,
    gicd: &mut GicDistributor,
    target_id: usize,
    ipi_type: IpiType,
    ipi_message: IpiInnerMsg,
) -> (r: bool)
    requires
        old(mb).wf(),
    ensures
        final(mb).wf(),
        r == (target_id < old(mb).num_cpus() && old(mb).spec_queues()[target_id as int].len() < old(
            mb,
        ).spec_capacity()),
        r ==> final(mb).spec_queues() == old(mb).spec_queues().update(
            target_id as int,
            old(mb).spec_queues()[target_id as int].push(
                (IpiMessage { ipi_type, ipi_message }),
            ),
        ),
        r ==> final(gicd)@ == (GicdView {
            sgir: old(gicd)@.sgir.push(
                ((1u32 << ((16 + target_id as int) as u32)) | (IPI_IRQ_NUM as u32)),
            ),
            ..old(gicd)@
        }),
        final(mb).spec_capacity() == old(mb).spec_capacity(),
        final(mb).num_cpus() == old(mb).num_cpus(),
        !r ==> final(mb).spec_queues() == old(mb).spec_queues() && final(gicd)@ == old(gicd)@,
{
    let msg = IpiMessage { ipi_type, ipi_message };
    ipi_send(mb, gicd, target_id, msg)
}

/// Takes the oldest waiting message out of the given core's mailbox.
pub fn ipi_pop_message(mb: &mut IpiMailboxes, cpu_id: usize) -> (r: Option<IpiMessage>)
    requires
        old(mb).wf(),
        cpu_id < old(mb).num_cpus(),
    ensures
        final(mb).wf(),
        final(mb).num_cpus() == old(mb).num_cpus(),
        final(mb).spec_capacity() == old(mb).spec_capacity(),
        old(mb).spec_queues()[cpu_id as int].len() == 0 ==> r is None && final(mb).spec_queues()
            == old(mb).spec_queues(),
        old(mb).spec_queues()[cpu_id as int].len() > 0 ==> r == Some(
            old(mb).spec_queues()[cpu_id as int][0],
        ) && final(mb).spec_queues() == old(mb).spec_queues().update(
            cpu_id as int,
            old(mb).spec_queues()[cpu_id as int].drop_first(),
        ),
{
    let ghost pre = mb.spec_queues();
    if mb.queues[cpu_id].len() == 0 {
        None
    } else {
        let mut q = mb.queues.remove(cpu_id);
        let msg = q.remove(0);
        mb.queues.insert(cpu_id, q);
        proof {
            assert(pre[cpu_id as int].remove(0) =~= pre[cpu_id as int].drop_first());
            assert(mb.spec_queues() =~= pre.update(
                cpu_id as int,
                pre[cpu_id as int].drop_first(),
            ));
        }
        Some(msg)
    }
}

/// Drains the given core's mailbox in arrival order, delivering each
/// message to the handler registered for its kind; a message whose kind has
/// no handler is dropped, which is not a fault. The mailbox is empty
/// afterwards.
#[verifier::loop_isolation(false)]
pub fn ipi_irq_handler<PH: Fn(IpiMessage)>(
    mb: &mut IpiMailboxes,
    cpu_id: usize,
    handlers: &IpiHandlerList<PH>,
)
    requires
        old(mb).wf(),
        cpu_id < old(mb).num_cpus(),
        handlers.wf(),
    ensures
        final(mb).wf(),
        final(mb).num_cpus() == old(mb).num_cpus(),
        final(mb).spec_capacity() == old(mb).spec_capacity(),
        final(mb).spec_queues() == old(mb).spec_queues().update(
            cpu_id as int,
            Seq::<IpiMessage>::empty(),
        ),
        forall|i: int|
            0 <= i < old(mb).spec_queues()[cpu_id as int].len() ==> ipi_delivered(
                handlers@,
                old(mb).spec_queues()[cpu_id as int][i],
            ),
{
    let ghost initial = mb.spec_queues();
    let ghost total = initial[cpu_id as int].len() as int;
    proof {
        assert(initial[cpu_id as int].skip(0) =~= initial[cpu_id as int]);
        assert(initial.update(cpu_id as int, initial[cpu_id as int]) =~= initial);
    }
    while mb.queue_len(cpu_id) > 0
        invariant
            mb.wf(),
            mb.num_cpus() == initial.len(),
            mb.spec_capacity() == old(mb).spec_capacity(),
            mb.spec_queues()[cpu_id as int].len() <= total,
            mb.spec_queues() == initial.update(
                cpu_id as int,
                initial[cpu_id as int].skip(total - mb.spec_queues()[cpu_id as int].len()),
            ),
            forall|i: int|
                0 <= i < total - mb.spec_queues()[cpu_id as int].len() ==> ipi_delivered(
                    handlers@,
                    initial[cpu_id as int][i],
                ),
        decreases mb.spec_queues()[cpu_id as int].len(),
    {
        let ghost processed = total - mb.spec_queues()[cpu_id as int].len();
        let next = ipi_pop_message(mb, cpu_id);
        proof {
            assert(initial[cpu_id as int].skip(processed).drop_first() =~= initial[
                cpu_id as int
            ].skip(processed + 1));
            assert(mb.spec_queues() =~= initial.update(
                cpu_id as int,
                initial[cpu_id as int].skip(processed + 1),
            ));
        }
        match next {
            None => {
                // cannot happen: the queue was not empty
            },
            Some(ipi_msg) => {
                proof {
                    assert(ipi_msg == initial[cpu_id as int][processed]);
                }
                let idx = kind_index(ipi_msg.ipi_type);
                match &handlers.handlers[idx] {
                    Some(handler) => {
                        handler(ipi_msg);
                    },
                    None => {
                        // unrecognized kind: drop the message, not fatal
                    },
                }
            },
        }
    }
    proof {
        assert(mb.spec_queues()[cpu_id as int] =~= Seq::<IpiMessage>::empty());
        assert(mb.spec_queues() =~= initial.update(cpu_id as int, Seq::<IpiMessage>::empty()));
    }
}

} // verus!
