//! Platform-independent IRQ dispatch: a fixed-capacity table from vector
//! number to handler, with at-most-one handler per vector and monotonic
//! registration.
use vstd::prelude::*;

use crate::MAX_IRQ_COUNT;

verus! {

/// The capability contract of an interrupt-controller backend: clear,
/// fetch, finish, enable, register, inject, and send an inter-processor
/// interrupt. Interchangeable backends implement it; callers above never
/// branch on which backend is present.
pub trait IrqController {
    /// Clears the currently active interrupt.
    fn clear_current_irq(&mut self, for_hypervisor: bool);

    /// Clears all pending interrupts.
    fn clear_irq(&mut self);

    /// Gets the next pending interrupt vector, if any.
    fn fetch_irq(&mut self) -> Option<usize>;

    /// Completes handling of the current interrupt.
    fn finish_irq(&mut self);

    /// Enables or disables a specific vector.
    fn enable_irq(&mut self, irq_num: usize, enable: bool);

    /// Registers a vector for handling.
    fn register_irq(&mut self, irq_num: usize) -> bool;

    /// Injects a specific vector.
    fn inject_irq(&mut self, irq_num: usize);

    /// Sends an inter-processor interrupt to the given core.
    fn send_ipi(&mut self, cpu_id: usize, ipi_id: usize);
}

/// Mapping from interrupt vector to handler.
///
/// A slot, once filled, is never emptied: registration is monotonic for the
/// table's lifetime. Handlers take no arguments, as the vector is fixed at
/// registration time.
pub struct HandlerTable<H> {
    slots: Vec<Option<H>>,
}

impl<H> View for HandlerTable<H> {
    type V = Seq<Option<H>>;

    closed spec fn view(&self) -> Seq<Option<H>> {
        self.slots@
    }
}

/// The slots after a registration request, and whether it succeeded: a
/// request for a free, in-range slot installs the handler; any other
/// request changes nothing and fails.
pub open spec fn spec_register<H>(t: Seq<Option<H>>, v: int, h: H) -> (Seq<Option<H>>, bool) {
    if 0 <= v < t.len() && t[v] is None {
        (t.update(v, Some(h)), true)
    } else {
        (t, false)
    }
}

/// Registering a vector twice: the first request succeeds, the second
/// fails, and the slot still holds the handler registered first — so the
/// originally registered handler is the one every later dispatch invokes.
pub proof fn lemma_register_occupied_keeps_first<H>(t: Seq<Option<H>>, v: int, h1: H, h2: H)
    requires
        0 <= v < t.len(),
        t[v] is None,
    ensures
        spec_register(t, v, h1).1,
        !(spec_register(spec_register(t, v, h1).0, v, h2).1),
        spec_register(spec_register(t, v, h1).0, v, h2).0 == spec_register(t, v, h1).0,
        spec_register(t, v, h1).0[v] == Some(h1),
{
}

impl<H: Fn()> HandlerTable<H> {
    /// Every installed handler may be invoked at any time.
    pub open spec fn wf(&self) -> bool {
        forall|i: int|
            0 <= i < self@.len() && self@[i] is Some ==> call_requires(self@[i]->0, ())
    }

    /// An empty table with the given number of vector slots.
    pub fn new(capacity: usize) -> (r: Self)
        ensures
            r@.len() == capacity,
            forall|i: int| 0 <= i < capacity ==> r@[i] is None,
            r.wf(),
    {
        let mut slots: Vec<Option<H>> = Vec::new();
        let mut k: usize = 0;
        while k < capacity
            invariant
                k <= capacity,
                slots@.len() == k,
                forall|i: int| 0 <= i < k ==> slots@[i] is None,
            decreases capacity - k,
        {
            slots.push(None);
            k = k + 1;
        }
        HandlerTable { slots }
    }

    /// Installs `handler` at `vector`; fails without any change if the vector
    /// is out of range or already occupied.
    pub fn register_handler(&mut self, vector: usize, handler: H) -> (r: bool)
        requires
            old(self).wf(),
            call_requires(handler, ()),
        ensures
            final(self).wf(),
            r == (vector < old(self)@.len() && old(self)@[vector as int] is None),
            r ==> final(self)@ == old(self)@.update(vector as int, Some(handler)),
            !r ==> final(self)@ == old(self)@,
            final(self)@ == spec_register(old(self)@, vector as int, handler).0,
            r == spec_register(old(self)@, vector as int, handler).1,
    {
        if vector < self.slots.len() {
            if self.slots[vector].is_none() {
                self.slots.set(vector, Some(handler));
                return true;
            }
        }
        false
    }

    /// Looks up and invokes the handler for `vector`; reports whether one was
    /// installed. An absent handler is not a fault: the event is merely
    /// unhandled.
    pub fn handle(&self, vector: usize) -> (r: bool)
        requires
            self.wf(),
        ensures
            r == (vector < self@.len() && self@[vector as int] is Some),
            r ==> call_ensures(self@[vector as int]->0, (), ()),
    {
        if vector < self.slots.len() {
            match &self.slots[vector] {
                Some(h) => {
                    h();
                    true
                },
                None => false,
            }
        } else {
            false
        }
    }
}

/// What one dispatch of vector `v` against the slots `t` guarantees: if a
/// handler is installed there, a call of it has completed.
pub open spec fn handler_invoked<H: Fn()>(t: Seq<Option<H>>, v: int) -> bool {
    (0 <= v < t.len() && t[v] is Some) ==> call_ensures(t[v]->0, (), ())
}

/// Platform-independent IRQ dispatching: looks up `irq_num` in the table and
/// invokes its handler. Reports whether one was installed; an unhandled
/// vector is not a fault, merely an event the caller may log.
pub fn dispatch_irq_common<H: Fn()>(table: &HandlerTable<H>, irq_num: usize) -> (r: bool)
    requires
        table.wf(),
    ensures
        r == (irq_num < table@.len() && table@[irq_num as int] is Some),
        r ==> call_ensures(table@[irq_num as int]->0, (), ()),
{
    table.handle(irq_num)
}

/// Platform-independent half of handler registration: checks the vector
/// against the table capacity and installs the handler. It fails, changing
/// nothing, if the vector is out of range or already occupied; the platform
/// wrapper additionally enables the vector on success.
pub fn register_handler_common<H: Fn()>(
    table: &mut HandlerTable<H>,
    irq_num: usize,
    handler: H,
) -> (r: bool)
    requires
        old(table).wf(),
        call_requires(handler, ()),
    ensures
        final(table).wf(),
        r == (irq_num < MAX_IRQ_COUNT && irq_num < old(table)@.len() && old(table)@[irq_num as int]
            is None),
        r ==> final(table)@ == old(table)@.update(irq_num as int, Some(handler)),
        !r ==> final(table)@ == old(table)@,
{
    if irq_num < MAX_IRQ_COUNT {
        table.register_handler(irq_num, handler)
    } else {
        false
    }
}

} // verus!
