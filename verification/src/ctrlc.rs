//! The stack of those who want to hear of an interrupt. The interrupt goes
//! to the one on top; whoever has left in the meantime is taken off first.

use vstd::prelude::*;

verus! {

/// Whether `id` is among `gone`.
pub open spec fn spec_is_gone(gone: Seq<u64>, id: u64) -> bool {
    gone.contains(id)
}

/// What is left of the stack once the handlers on top of it that are gone
/// are taken off.
pub open spec fn spec_settle(stack: Seq<u64>, gone: Seq<u64>) -> Seq<u64>
    decreases stack.len(),
{
    if stack.len() > 0 && spec_is_gone(gone, stack.last()) {
        spec_settle(stack.drop_last(), gone)
    } else {
        stack
    }
}

/// Whether `id` is among `gone`.
fn is_gone(gone: &Vec<u64>, id: u64) -> (b: bool)
    ensures
        b == spec_is_gone(gone@, id),
{
    let mut i: usize = 0;
    while i < gone.len()
        invariant
            i <= gone@.len(),
            forall|k: int| 0 <= k < i ==> gone@[k] != id,
        decreases gone@.len() - i,
    {
        if gone[i] == id {
            return true;
        }
        i += 1;
    }
    false
}

/// The handlers, by number. The top of the stack is its end.
#[derive(Debug)]
pub struct CtrlC {
    stack: Vec<u64>,
}

impl CtrlC {
    /// The handlers, the one added last at the end.
    pub closed spec fn handlers(&self) -> Seq<u64> {
        self.stack@
    }

    pub fn new() -> (c: Self)
        ensures
            c.handlers() == Seq::<u64>::empty(),
    {
        Self { stack: Vec::new() }
    }

    /// Puts the handler `id` on top.
    pub fn add_handler(&mut self, id: u64)
        ensures
            final(self).handlers() == old(self).handlers().push(id),
    {
        self.stack.push(id);
    }

    /// Decides who hears of an interrupt. The handlers on top that are
    /// among `gone` are taken off; the one then on top hears of it and
    /// stays. `None` where no handler is left.
    pub fn handle_ctrlc(&mut self, gone: &Vec<u64>) -> (notify: Option<u64>)
        ensures
            final(self).handlers() == spec_settle(old(self).handlers(), gone@),
            notify == if final(self).handlers().len() > 0 {
                Some(final(self).handlers().last())
            } else {
                None
            },
            notify is Some ==> !spec_is_gone(gone@, notify.unwrap()),
    {
        while self.stack.len() > 0 && is_gone(gone, self.stack[self.stack.len() - 1])
            invariant
                spec_settle(self.stack@, gone@) == spec_settle(old(self).handlers(), gone@),
            decreases self.stack@.len(),
        {
            let ghost before = self.stack@;
            self.stack.pop();
            assert(self.stack@ =~= before.drop_last());
        }
        if self.stack.len() > 0 {
            Some(self.stack[self.stack.len() - 1])
        } else {
            None
        }
    }
}

} // verus!
