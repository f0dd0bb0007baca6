//! Handlers of the legacy interrupt lines that drivers may claim.

use vstd::prelude::*;

verus! {

/// Error number of an invalid request.
pub const EINVAL: i32 = -22;

/// Whether a driver may claim interrupt line `irq`: one of the sixteen
/// legacy lines but the timer, keyboard, cascade and mouse lines.
pub open spec fn claimable(irq: u8) -> bool {
    irq < 16 && irq != 0 && irq != 1 && irq != 2 && irq != 12
}

/// A handler for each of the sixteen legacy interrupt lines.
pub struct IrqHandlers<H> {
    handlers: Vec<Option<H>>,
}

impl<H: Fn(u8)> IrqHandlers<H> {
    pub closed spec fn table(&self) -> Seq<Option<H>> {
        self.handlers@
    }

    pub fn new() -> (t: Self)
        ensures
            t.table().len() == 16,
            forall|i: int| 0 <= i < 16 ==> #[trigger] t.table()[i] is None,
    {
        let mut handlers: Vec<Option<H>> = Vec::new();
        let mut i: usize = 0;
        while i < 16
            invariant
                i <= 16,
                handlers@.len() == i,
                forall|j: int| 0 <= j < i ==> #[trigger] handlers@[j] is None,
            decreases 16 - i,
        {
            handlers.push(None);
            i = i + 1;
        }
        IrqHandlers { handlers }
    }

    /// Installs `handler` for `irq` and unmasks the line with `unmask`; a
    /// line drivers may not claim is refused and nothing changes. The
    /// handler stays installed even when unmasking fails.
    pub fn register_handler(&mut self, irq: u8, handler: H, unmask: impl FnOnce(u8) -> bool) -> (r: i32)
        requires
            old(self).table().len() == 16,
            claimable(irq) ==> call_requires(unmask, (irq,)),
        ensures
            final(self).table().len() == 16,
            !claimable(irq) ==> r == EINVAL && final(self).table() == old(self).table(),
            claimable(irq) ==> final(self).table() == old(self).table().update(irq as int, Some(handler))
                && (r == 0 || r == EINVAL)
                && (r == 0 ==> call_ensures(unmask, (irq,), true))
                && (r == EINVAL ==> call_ensures(unmask, (irq,), false)),
    {
        if irq >= 16 || irq == 0 || irq == 1 || irq == 2 || irq == 12 {
            return EINVAL;
        }
        self.handlers.set(irq as usize, Some(handler));
        let unmasked = unmask(irq);
        if unmasked {
            0
        } else {
            EINVAL
        }
    }

    /// Runs the handler installed for `irq`, if any.
    pub fn dispatch(&self, irq: u8)
        requires
            irq < 16,
            self.table().len() == 16,
            self.table()[irq as int] matches Some(h) ==> call_requires(h, (irq,)),
    {
        match &self.handlers[irq as usize] {
            Some(handler) => handler(irq),
            None => {},
        }
    }
}

} // verus!
