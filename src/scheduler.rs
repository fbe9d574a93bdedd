//! The kernel: a current slot, a FIFO ready queue, the scheduler, the
//! kernel-call dispatcher and the tick step, with an abstract model that
//! states each operation exactly.
use std::collections::VecDeque;
use vstd::prelude::*;
use crate::process::{KernelCall, Process, ProcessState, TraceEvent};

verus! {

/// Abstract state of a kernel.
pub struct KernelModel {
    pub next_pid: u32,
    pub current: Option<Process>,
    pub ready: Seq<Process>,
    pub ticks: u32,
}

impl KernelModel {
    /// `id` is held by the current slot or by some entry of the ready queue.
    pub open spec fn is_live(self, id: u32) -> bool {
        (self.current is Some && self.current->0.id == id)
        || exists|i: int| 0 <= i < self.ready.len() && #[trigger] self.ready[i].id == id
    }

    /// `id` was handed out by a spawn and is held nowhere any more: its task
    /// exited or blocked.
    pub open spec fn retired(self, id: u32) -> bool {
        1 <= id < self.next_pid && !self.is_live(id)
    }

    /// No id appears twice across the current slot and the ready queue.
    pub open spec fn ids_unique(self) -> bool {
        &&& forall|i: int, j: int|
            0 <= i < j < self.ready.len() ==> #[trigger] self.ready[i].id != #[trigger] self.ready[j].id
        &&& self.current is Some ==> forall|i: int|
            0 <= i < self.ready.len() ==> #[trigger] self.ready[i].id != self.current->0.id
    }

    /// Every queued task is `Ready`.
    pub open spec fn queue_ready(self) -> bool {
        forall|i: int| 0 <= i < self.ready.len() ==> #[trigger] self.ready[i].state == ProcessState::Ready
    }

    /// The current task is `Running` and every queued task is `Ready`.
    pub open spec fn states_match(self) -> bool {
        &&& self.current is Some ==> self.current->0.state == ProcessState::Running
        &&& self.queue_ready()
    }

    /// Every tracked task was spawned earlier and has not run more often than
    /// the clock has ticked.
    pub open spec fn tasks_bounded(self) -> bool {
        &&& self.current is Some ==> {
            &&& 1 <= self.current->0.id < self.next_pid
            &&& self.current->0.program_counter <= self.ticks
        }
        &&& forall|i: int| 0 <= i < self.ready.len() ==> {
            &&& 1 <= #[trigger] self.ready[i].id < self.next_pid
            &&& self.ready[i].program_counter <= self.ticks
        }
    }

    /// The kernel's invariant, established by `Kernel::new` and kept by every
    /// operation: ids are unique, states match where tasks are held, and ids
    /// and program counters stay within the counters that bound them.
    pub open spec fn wf(self) -> bool {
        &&& self.wf_any_current()
        &&& self.states_match()
    }

    /// The invariant without its demand on the current task's state: what
    /// holds while a task that has just exited or blocked still sits in the
    /// current slot.
    pub open spec fn wf_any_current(self) -> bool {
        &&& 1 <= self.next_pid
        &&& self.ids_unique()
        &&& self.queue_ready()
        &&& self.tasks_bounded()
    }

    /// The ready queue once a still-running current task has been put back.
    pub open spec fn pending(self) -> Seq<Process> {
        match self.current {
            Some(t) => if t.state == ProcessState::Running {
                self.ready.push(t.with_state(ProcessState::Ready))
            } else {
                self.ready
            },
            None => self.ready,
        }
    }

    /// The state after one scheduling decision.
    pub open spec fn scheduled(self) -> KernelModel {
        let p = self.pending();
        if p.len() == 0 {
            KernelModel { current: None, ready: p, ..self }
        } else {
            KernelModel {
                current: Some(p[0].with_state(ProcessState::Running)),
                ready: p.drop_first(),
                ..self
            }
        }
    }

    /// The events that one scheduling decision emits.
    pub open spec fn schedule_events(self) -> Seq<TraceEvent> {
        let requeued = match self.current {
            Some(t) => if t.state == ProcessState::Running {
                seq![TraceEvent::Requeued(t.id)]
            } else {
                Seq::empty()
            },
            None => Seq::empty(),
        };
        let p = self.pending();
        if p.len() == 0 {
            requeued.push(TraceEvent::Idle)
        } else {
            requeued.push(TraceEvent::Dispatched(p[0].id, p[0].program_counter))
        }
    }

    /// Every task retired in `self` is still retired in `next`.
    pub open spec fn keeps_retired(self, next: KernelModel) -> bool {
        forall|id: u32| #[trigger] self.retired(id) ==> next.retired(id)
    }

    /// Ready tasks keep their relative order across one scheduling decision,
    /// and only the head of the queue can be dispatched.
    pub open spec fn fifo_kept(self, next: KernelModel) -> bool {
        forall|i: int, j: int| 0 <= i < j < self.ready.len() ==> if i == 0 {
            &&& next.current == Some(#[trigger] self.ready[i].with_state(ProcessState::Running))
            &&& next.ready[j - 1] == #[trigger] self.ready[j]
        } else {
            &&& next.ready[i - 1] == self.ready[i]
            &&& next.ready[j - 1] == self.ready[j]
        }
    }

    /// The state with the current slot emptied.
    pub open spec fn detached(self) -> KernelModel {
        KernelModel { current: None, ..self }
    }

    /// The state after the dispatcher handles `call`.
    pub open spec fn handled(self, call: KernelCall) -> KernelModel {
        match call {
            KernelCall::Yield => self.scheduled(),
            KernelCall::Print(_) => self,
            KernelCall::Exit => self.detached(),
            KernelCall::Block => if self.current is Some {
                self.detached().scheduled()
            } else {
                self
            },
        }
    }

    /// The events that the dispatcher emits while handling `call`.
    pub open spec fn call_events(self, call: KernelCall) -> Seq<TraceEvent> {
        match call {
            KernelCall::Yield => seq![TraceEvent::YieldRequested] + self.schedule_events(),
            KernelCall::Print(msg) => match self.current {
                Some(t) => seq![TraceEvent::Said(t.id, msg)],
                None => Seq::empty(),
            },
            KernelCall::Exit => match self.current {
                Some(t) => seq![TraceEvent::Exited(t.id)],
                None => Seq::empty(),
            },
            KernelCall::Block => match self.current {
                Some(t) => seq![TraceEvent::Blocked(t.id)] + self.detached().schedule_events(),
                None => Seq::empty(),
            },
        }
    }

    /// The clock advanced by one, with the timer's preemption applied when
    /// the new tick count is a multiple of three.
    pub open spec fn preempted(self) -> KernelModel {
        let m = KernelModel { ticks: (self.ticks + 1) as u32, ..self };
        if m.ticks % 3 == 0 {
            m.scheduled()
        } else {
            m
        }
    }

    /// The id and new program counter of the task that runs on the next tick,
    /// if one does.
    pub open spec fn tick_query(self) -> Option<(u32, u32)> {
        match self.preempted().current {
            Some(t) => Some((t.id, (t.program_counter + 1) as u32)),
            None => None,
        }
    }

    /// `call` is what the task script answers on the next tick (nothing when
    /// no task runs).
    pub open spec fn tick_answer(self, call: Option<KernelCall>) -> bool {
        match self.tick_query() {
            Some((id, pc)) => scripted(id, pc, call),
            None => call is None,
        }
    }

    /// The state after one tick in which the running task's script answered
    /// `call`.
    pub open spec fn ticked(self, call: Option<KernelCall>) -> KernelModel {
        let m = self.preempted();
        match m.current {
            Some(t) => {
                let ran = KernelModel {
                    current: Some(Process { program_counter: (t.program_counter + 1) as u32, ..t }),
                    ..m
                };
                match call {
                    Some(c) => ran.handled(c),
                    None => ran,
                }
            },
            None => if m.ready.len() == 0 {
                m
            } else {
                m.scheduled()
            },
        }
    }

    /// The events of one tick in which the running task's script answered
    /// `call`.
    pub open spec fn tick_events(self, call: Option<KernelCall>) -> Seq<TraceEvent> {
        let m0 = KernelModel { ticks: (self.ticks + 1) as u32, ..self };
        let started = seq![TraceEvent::TickStarted(m0.ticks)];
        let opening = if m0.ticks % 3 == 0 {
            started + m0.schedule_events()
        } else {
            started
        };
        let m = self.preempted();
        match m.current {
            Some(t) => {
                let pc = (t.program_counter + 1) as u32;
                let ran = KernelModel { current: Some(Process { program_counter: pc, ..t }), ..m };
                let after_run = opening.push(TraceEvent::Ran(t.id, pc));
                match call {
                    Some(c) => after_run + ran.call_events(c),
                    None => after_run,
                }
            },
            None => if m.ready.len() == 0 {
                opening.push(TraceEvent::ShutDown)
            } else {
                opening + m.schedule_events()
            },
        }
    }

    /// Whether the next tick finds work: a running task or a ready one.
    pub open spec fn tick_continues(self) -> bool {
        let m = self.preempted();
        m.current is Some || m.ready.len() > 0
    }
}

/// The built-in task script: `r` is the call that the task `id` makes when
/// its program counter reaches `pc`.
pub open spec fn scripted(id: u32, pc: u32, r: Option<KernelCall>) -> bool {
    if id == 1 && pc == 5 {
        match r {
            Some(KernelCall::Print(m)) => m@ == "Task 1 is halfway!"@,
            _ => false,
        }
    } else if (id == 1 && pc == 10) || (id == 2 && pc == 12) {
        r == Some(KernelCall::Exit)
    } else if id == 2 && pc == 3 {
        r == Some(KernelCall::Yield)
    } else if id == 2 && pc == 8 {
        match r {
            Some(KernelCall::Print(m)) => m@ == "Task 2 is doing work."@,
            _ => false,
        }
    } else if id == 3 && pc == 4 {
        r == Some(KernelCall::Block)
    } else {
        r is None
    }
}

/// The kernel: id counter, ready queue, current slot and clock.
pub struct Kernel {
    pub next_pid: u32,
    pub ready_queue: VecDeque<Process>,
    pub running_task: Option<Process>,
    pub ticks: u32,
}

impl View for Kernel {
    type V = KernelModel;

    open spec fn view(&self) -> KernelModel {
        KernelModel {
            next_pid: self.next_pid,
            current: self.running_task,
            ready: self.ready_queue@,
            ticks: self.ticks,
        }
    }
}

impl Kernel {
    /// A kernel with no tasks, a zero clock, and ids starting at 1.
    pub fn new() -> (k: Kernel)
        ensures
            k@.wf(),
            k@.next_pid == 1,
            k@.current is None,
            k@.ready.len() == 0,
            k@.ticks == 0,
    {
        Kernel { next_pid: 1, ready_queue: VecDeque::new(), running_task: None, ticks: 0 }
    }

    /// Round-robin decision: a still-running current task goes to the tail of
    /// the ready queue, then the head of the queue takes the current slot (or
    /// the slot stays empty when the queue is empty). A current task that is
    /// no longer `Running` is dropped rather than requeued.
    pub fn schedule(&mut self, trace: &mut Vec<TraceEvent>)
        requires
            old(self)@.wf_any_current(),
        ensures
            final(self)@ == old(self)@.scheduled(),
            final(trace)@ == old(trace)@ + old(self)@.schedule_events(),
            final(self)@.wf(),
            old(self)@.keeps_retired(final(self)@),
            old(self)@.fifo_kept(final(self)@),
            old(self)@.current is None && old(self)@.ready.len() == 0 ==> {
                &&& final(self)@ == old(self)@
                &&& final(trace)@ == old(trace)@.push(TraceEvent::Idle)
            },
    {
        if let Some(mut current_task) = self.running_task.take() {
            if current_task.state == ProcessState::Running {
                current_task.state = ProcessState::Ready;
                trace.push(TraceEvent::Requeued(current_task.id));
                self.ready_queue.push_back(current_task);
            }
        }
        if let Some(mut next_task) = self.ready_queue.pop_front() {
            next_task.state = ProcessState::Running;
            trace.push(TraceEvent::Dispatched(next_task.id, next_task.program_counter));
            self.running_task = Some(next_task);
        } else {
            trace.push(TraceEvent::Idle);
        }
    }

    /// Creates a task with the next id and appends it to the ready queue.
    pub fn spawn_task(&mut self, name: &str, priority: u8, trace: &mut Vec<TraceEvent>)
        requires
            old(self)@.wf(),
            old(self).next_pid < u32::MAX,
        ensures
            final(self)@.wf(),
            final(self).next_pid == old(self).next_pid + 1,
            final(self)@.current == old(self)@.current,
            final(self)@.ticks == old(self)@.ticks,
            final(self)@.ready.len() == old(self)@.ready.len() + 1,
            final(self)@.ready.drop_last() == old(self)@.ready,
            final(self)@.ready.last().id == old(self).next_pid,
            final(self)@.ready.last().name@ == name@,
            final(self)@.ready.last().state == ProcessState::Ready,
            final(self)@.ready.last().program_counter == 0,
            final(self)@.ready.last().priority == priority,
            final(trace)@ == old(trace)@.push(TraceEvent::Spawned(old(self).next_pid)),
            old(self)@.keeps_retired(final(self)@),
    {
        let task = Process::new(self.next_pid, name, priority);
        trace.push(TraceEvent::Spawned(task.id));
        self.ready_queue.push_back(task);
        self.next_pid = self.next_pid + 1;
        assert(self@.ready.drop_last() =~= old(self)@.ready);
    }

    /// Interprets a call of the task in the current slot. With the slot empty,
    /// `Exit`, `Print` and `Block` change nothing, and `Yield` still schedules.
    pub fn handle_kernel_call(&mut self, call: KernelCall, trace: &mut Vec<TraceEvent>)
        requires
            old(self)@.wf(),
        ensures
            final(self)@ == old(self)@.handled(call),
            final(trace)@ == old(trace)@ + old(self)@.call_events(call),
            final(self)@.wf(),
            old(self)@.keeps_retired(final(self)@),
            old(self)@.current is Some && (call is Exit || call is Block) ==> final(self)@.retired(
                old(self)@.current->0.id,
            ),
    {
        match call {
            KernelCall::Yield => {
                trace.push(TraceEvent::YieldRequested);
                self.schedule(trace);
            },
            KernelCall::Exit => {
                if let Some(mut task) = self.running_task.take() {
                    task.state = ProcessState::Exited;
                    trace.push(TraceEvent::Exited(task.id));
                }
            },
            KernelCall::Print(msg) => {
                if let Some(task) = &self.running_task {
                    trace.push(TraceEvent::Said(task.id, msg));
                }
            },
            KernelCall::Block => {
                if let Some(mut task) = self.running_task.take() {
                    task.state = ProcessState::Blocked;
                    trace.push(TraceEvent::Blocked(task.id));
                    self.schedule(trace);
                }
            },
        }
    }

    /// The built-in task script: the call that task `task_id` makes when its
    /// program counter reaches `pc`, if any.
    pub fn simulate_task_logic(&self, task_id: u32, pc: u32) -> (r: Option<KernelCall>)
        ensures
            scripted(task_id, pc, r),
    {
        builtin_script(task_id, pc)
    }

    /// Advances the simulation by one tick: the clock moves, every third tick
    /// preempts the current task, then the current task runs one step and
    /// `task_logic`'s answer for its id and new program counter is
    /// dispatched; with the slot empty the queue's head is dispatched instead.
    /// Returns `false` when no task is left to run.
    pub fn tick_with<F: Fn(u32, u32) -> Option<KernelCall>>(
        &mut self,
        task_logic: &F,
        trace: &mut Vec<TraceEvent>,
    ) -> (r: bool)
        requires
            old(self)@.wf(),
            old(self).ticks < u32::MAX,
            forall|id: u32, pc: u32| task_logic.requires((id, pc)),
        ensures
            r == old(self)@.tick_continues(),
            exists|c: Option<KernelCall>|
                final(self)@ == #[trigger] old(self)@.ticked(c)
                && final(trace)@ == old(trace)@ + old(self)@.tick_events(c)
                && match old(self)@.tick_query() {
                    Some((id, pc)) => task_logic.ensures((id, pc), c),
                    None => c is None,
                },
            final(self)@.wf(),
            old(self)@.keeps_retired(final(self)@),
    {
        let now: u32 = self.ticks + 1;
        trace.push(TraceEvent::TickStarted(now));
        if now % 3 == 0 {
            self.schedule(trace);
        }
        self.ticks = now;
        match self.running_task.take() {
            Some(mut task) => {
                task.program_counter = task.program_counter + 1;
                let id = task.id;
                let pc = task.program_counter;
                trace.push(TraceEvent::Ran(id, pc));
                self.running_task = Some(task);
                let call = task_logic(id, pc);
                let ghost answer = call;
                if let Some(c) = call {
                    self.handle_kernel_call(c, trace);
                }
                assert(self@ == old(self)@.ticked(answer));
                assert(trace@ =~= old(trace)@ + old(self)@.tick_events(answer));
                true
            },
            None => {
                if self.ready_queue.len() == 0 {
                    trace.push(TraceEvent::ShutDown);
                    assert(self@ == old(self)@.ticked(None));
                    assert(trace@ =~= old(trace)@ + old(self)@.tick_events(None));
                    false
                } else {
                    self.schedule(trace);
                    assert(self@ == old(self)@.ticked(None));
                    assert(trace@ =~= old(trace)@ + old(self)@.tick_events(None));
                    true
                }
            },
        }
    }

    /// One tick driven by the built-in task script (see `tick_with`).
    pub fn tick(&mut self, trace: &mut Vec<TraceEvent>) -> (r: bool)
        requires
            old(self)@.wf(),
            old(self).ticks < u32::MAX,
        ensures
            r == old(self)@.tick_continues(),
            exists|c: Option<KernelCall>|
                #[trigger] old(self)@.tick_answer(c)
                && final(self)@ == old(self)@.ticked(c)
                && final(trace)@ == old(trace)@ + old(self)@.tick_events(c),
            final(self)@.wf(),
            old(self)@.keeps_retired(final(self)@),
    {
        let script = |id: u32, pc: u32| -> (a: Option<KernelCall>)
            ensures
                scripted(id, pc, a),
            { builtin_script(id, pc) };
        let r = self.tick_with(&script, trace);
        proof {
            let c = choose|c: Option<KernelCall>|
                self@ == #[trigger] old(self)@.ticked(c)
                && trace@ == old(trace)@ + old(self)@.tick_events(c)
                && match old(self)@.tick_query() {
                    Some((id, pc)) => script.ensures((id, pc), c),
                    None => c is None,
                };
            assert(old(self)@.tick_answer(c));
        }
        r
    }
}

/// The call of the built-in script for task `task_id` at program counter `pc`.
fn builtin_script(task_id: u32, pc: u32) -> (r: Option<KernelCall>)
    ensures
        scripted(task_id, pc, r),
{
    if task_id == 1 {
        if pc == 5 {
            Some(KernelCall::Print("Task 1 is halfway!".to_owned()))
        } else if pc == 10 {
            Some(KernelCall::Exit)
        } else {
            None
        }
    } else if task_id == 2 {
        if pc == 3 {
            Some(KernelCall::Yield)
        } else if pc == 8 {
            Some(KernelCall::Print("Task 2 is doing work.".to_owned()))
        } else if pc == 12 {
            Some(KernelCall::Exit)
        } else {
            None
        }
    } else if task_id == 3 && pc == 4 {
        Some(KernelCall::Block)
    } else {
        None
    }
}

} // verus!
