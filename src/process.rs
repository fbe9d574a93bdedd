//! Task records, the kernel calls a running task can make, and the trace
//! events that the scheduler emits.
use vstd::prelude::*;

verus! {

/// Lifecycle state of a task.
#[derive(Debug, Clone, Copy, PartialEq, Eq, Structural)]
pub enum ProcessState {
    /// Waiting in the ready queue.
    Ready,
    /// Holding the current slot.
    Running,
    /// Waiting for an event that this model never delivers (terminal).
    Blocked,
    /// Finished (terminal).
    Exited,
}

/// One schedulable unit.
#[derive(Debug, Clone, PartialEq, Eq)]
pub struct Process {
    pub id: u32,
    pub name: String,
    pub state: ProcessState,
    /// Execution progress; grows by one on each tick the task runs.
    pub program_counter: u32,
    /// Recorded but not used by the round-robin policy.
    pub priority: u8,
}

impl Process {
    /// The same record with its state replaced.
    pub open spec fn with_state(self, s: ProcessState) -> Process {
        Process { state: s, ..self }
    }

    /// A fresh record in state `Ready` with a zero program counter.
    pub fn new(id: u32, name: &str, priority: u8) -> (p: Process)
        ensures
            p.id == id,
            p.name@ == name@,
            p.state == ProcessState::Ready,
            p.program_counter == 0,
            p.priority == priority,
    {
        Process {
            id,
            name: name.to_owned(),
            state: ProcessState::Ready,
            program_counter: 0,
            priority,
        }
    }
}

/// A service requested by the running task.
#[derive(Debug, PartialEq, Eq)]
pub enum KernelCall {
    /// Give up the processor to the next ready task.
    Yield,
    /// Emit a message attributed to the running task.
    Print(String),
    /// Terminate the running task.
    Exit,
    /// Put the running task into the blocked state.
    Block,
}

/// A structured notification of what the scheduler did, in order.
#[derive(Debug, PartialEq, Eq)]
pub enum TraceEvent {
    /// A task with this id entered the ready queue at spawn time.
    Spawned(u32),
    /// The running task with this id was put back at the tail of the queue.
    Requeued(u32),
    /// The task with this id and program counter took the current slot.
    Dispatched(u32, u32),
    /// The ready queue was empty when a task was to be dispatched.
    Idle,
    /// A tick with this number began.
    TickStarted(u32),
    /// The task with this id ran and reached this program counter.
    Ran(u32, u32),
    /// The running task asked to yield.
    YieldRequested,
    /// The task with this id exited.
    Exited(u32),
    /// The task with this id blocked.
    Blocked(u32),
    /// The task with this id printed this message.
    Said(u32, String),
    /// Nothing is left to run.
    ShutDown,
}

} // verus!
