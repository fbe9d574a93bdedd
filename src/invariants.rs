//! Laws of the scheduler model that span several states or operations.
use vstd::prelude::*;
use crate::scheduler::KernelModel;

verus! {

/// In a well-formed kernel each live task id is held in exactly one place:
/// either by the current slot and by no queue entry, or by a single entry of
/// the ready queue.
pub proof fn lemma_live_id_held_once(m: KernelModel, id: u32)
    requires
        m.wf(),
    ensures
        m.current is Some && m.current->0.id == id ==> forall|i: int|
            0 <= i < m.ready.len() ==> #[trigger] m.ready[i].id != id,
        forall|i: int, j: int|
            0 <= i < m.ready.len() && 0 <= j < m.ready.len() && #[trigger] m.ready[i].id == id
                && #[trigger] m.ready[j].id == id ==> i == j,
{
    assert forall|i: int, j: int|
        0 <= i < m.ready.len() && 0 <= j < m.ready.len() && #[trigger] m.ready[i].id == id
            && #[trigger] m.ready[j].id == id implies i == j by {
        if i < j {
            assert(m.ready[i].id != m.ready[j].id);
        } else if j < i {
            assert(m.ready[j].id != m.ready[i].id);
        }
    }
}

/// A task that has left both the current slot and the ready queue (it exited
/// or blocked) stays out of both over any run of operations: each operation
/// keeps retired ids retired, and so does any chain of them.
pub proof fn lemma_retired_stays_retired(a: KernelModel, b: KernelModel, c: KernelModel)
    requires
        a.keeps_retired(b),
        b.keeps_retired(c),
    ensures
        a.keeps_retired(c),
{
    assert forall|id: u32| #[trigger] a.retired(id) implies c.retired(id) by {
        assert(b.retired(id));
    }
}

} // verus!
