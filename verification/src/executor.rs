//! The cooperative executor: owns every spawned, not-yet-completed task and a
//! FIFO ready queue of task identities due for resumption.
//!
//! Wakes populate the ready queue (coalescing duplicates), the scheduling
//! loop drains it. A resumed task either completes and leaves the task set,
//! or suspends and is re-queued only by a later wake; a cooperative yield is
//! a suspension that wakes itself at once.

use vstd::prelude::*;

use crate::queue::ScancodeQueue;
use crate::task::Task;
use crate::task::TaskId;
use crate::task::TaskKind;
use crate::task::task_weight;

verus! {

/// Mathematical model of the executor.
#[verifier::ext_equal]
pub struct ExecutorModel {
    /// Every owned, not-yet-completed task.
    pub tasks: Seq<Task>,
    /// Identities due for resumption, first to run first.
    pub ready: Seq<TaskId>,
    /// The identity the next spawn hands out.
    pub next_id: nat,
    /// Completions in the order they happened, each with the task's value.
    pub finished: Seq<(TaskId, u32)>,
}

/// Whether the task set owns a task with this identity.
pub open spec fn owns(tasks: Seq<Task>, id: TaskId) -> bool {
    exists|j: int| 0 <= j < tasks.len() && (#[trigger] tasks[j]).id == id
}

/// Total poll budget of a task set: how many resumptions can still happen in
/// one scheduling run with no outside wake arriving.
pub open spec fn exec_work(tasks: Seq<Task>) -> nat
    decreases tasks.len(),
{
    if tasks.len() == 0 {
        0
    } else {
        task_weight(tasks[0]) + exec_work(tasks.skip(1))
    }
}

/// All tasks are counting tasks (none touches the scancode queue).
pub open spec fn all_counting(tasks: Seq<Task>) -> bool {
    forall|j: int| 0 <= j < tasks.len() ==> (#[trigger] tasks[j]).kind is CountYields
}

/// Every owned task is on the ready queue, as right after spawning.
pub open spec fn all_ready(m: ExecutorModel) -> bool {
    forall|j: int| 0 <= j < m.tasks.len() ==> m.ready.contains((#[trigger] m.tasks[j]).id)
}

/// `s2` begins with exactly the elements of `s1`.
pub open spec fn extends<T>(s2: Seq<T>, s1: Seq<T>) -> bool {
    s1.len() <= s2.len() && forall|i: int| 0 <= i < s1.len() ==> s1[i] == s2[i]
}

/// `t` descends from a task of `orig`: same identity and variant, and a
/// counting task keeps its value and never gains yields back.
pub open spec fn task_from(orig: Seq<Task>, t: Task) -> bool {
    exists|i: int|
        0 <= i < orig.len() && (#[trigger] orig[i]).id == t.id && (orig[i].kind is CountYields
            <==> t.kind is CountYields) && (t.kind is CountYields
            ==> orig[i].kind->value == t.kind->value && t.kind->remaining
                <= orig[i].kind->remaining)
}

/// The record books a real completion: a counting task `orig` owned, with
/// this identity and this value.
pub open spec fn completion_of(orig: Seq<Task>, rec: (TaskId, u32)) -> bool {
    exists|j: int|
        0 <= j < orig.len() && (#[trigger] orig[j]).id == rec.0 && orig[j].kind is CountYields
            && orig[j].kind->value == rec.1
}

/// Some ready identity belongs to an owned queue drainer.
pub open spec fn ready_drainer(m: ExecutorModel) -> bool {
    exists|j: int|
        0 <= j < m.tasks.len() && (#[trigger] m.tasks[j]).kind is DrainQueue && m.ready.contains(
            m.tasks[j].id,
        )
}

/// The registered interest belongs to an owned queue drainer.
pub open spec fn drainer_waker(m: ExecutorModel, w: Option<TaskId>) -> bool {
    w matches Some(id) && exists|j: int|
        0 <= j < m.tasks.len() && (#[trigger] m.tasks[j]).id == id && m.tasks[j].kind
            is DrainQueue
}

/// Appending never disturbs an extension.
pub proof fn lemma_extends_push<T>(s: Seq<T>, x: T)
    ensures
        extends(s.push(x), s),
{
}

/// Extension is transitive.
pub proof fn lemma_extends_trans<T>(s3: Seq<T>, s2: Seq<T>, s1: Seq<T>)
    requires
        extends(s3, s2),
        extends(s2, s1),
    ensures
        extends(s3, s1),
{
}

/// An extension keeps every element the shorter sequence contains.
pub proof fn lemma_extends_contains<T>(s2: Seq<T>, s1: Seq<T>, x: T)
    requires
        extends(s2, s1),
        s1.contains(x),
    ensures
        s2.contains(x),
{
    let i = choose|i: int| 0 <= i < s1.len() && s1[i] == x;
    assert(s2[i] == x);
}

impl ExecutorModel {
    /// Well-formedness, kept by every operation:
    /// - task identities are unique;
    /// - the ready queue holds only identities the task set owns — never a
    ///   dangling identity for a completed or never-spawned task;
    /// - the ready queue holds each identity at most once (wakes coalesce);
    /// - every owned identity is below the next one to hand out.
    pub open spec fn inv(self) -> bool {
        &&& forall|i: int, j: int|
            0 <= i < j < self.tasks.len() ==> (#[trigger] self.tasks[i]).id != (
            #[trigger] self.tasks[j]).id
        &&& forall|i: int| 0 <= i < self.ready.len() ==> owns(self.tasks, #[trigger] self.ready[i])
        &&& forall|i: int, j: int|
            0 <= i < j < self.ready.len() ==> #[trigger] self.ready[i] != #[trigger] self.ready[j]
        &&& forall|i: int|
            0 <= i < self.tasks.len() ==> (#[trigger] self.tasks[i]).id.id < self.next_id
    }
}

/// The executor as created at boot: no tasks, nothing ready, nothing finished.
pub open spec fn empty_executor() -> ExecutorModel {
    ExecutorModel { tasks: Seq::<Task>::empty(), ready: Seq::<TaskId>::empty(), next_id: 0, finished: Seq::<(TaskId, u32)>::empty() }
}

/// The identity a spawn on this executor hands out.
pub open spec fn spec_spawn_id(m: ExecutorModel) -> TaskId {
    TaskId { id: m.next_id as u64 }
}

/// The executor after a spawn: the new task is owned and immediately ready.
pub open spec fn spec_spawn(m: ExecutorModel, kind: TaskKind) -> ExecutorModel {
    ExecutorModel {
        tasks: m.tasks.push(Task { id: spec_spawn_id(m), kind: kind }),
        ready: m.ready.push(spec_spawn_id(m)),
        next_id: m.next_id + 1,
        finished: m.finished,
    }
}

/// The executor after a wake: an owned, not-yet-queued identity is appended
/// to the ready queue; a duplicate wake or one for an unowned identity is
/// absorbed without effect.
pub open spec fn spec_wake(m: ExecutorModel, id: TaskId) -> ExecutorModel {
    if owns(m.tasks, id) && !m.ready.contains(id) {
        ExecutorModel { tasks: m.tasks, ready: m.ready.push(id), next_id: m.next_id, finished: m.finished }
    } else {
        m
    }
}

/// Law: waking an owned task always leaves it on the ready queue, whether or
/// not it was queued already.
pub proof fn lemma_wake_marks_ready(m: ExecutorModel, id: TaskId)
    requires
        owns(m.tasks, id),
    ensures
        spec_wake(m, id).ready.contains(id),
{
    if !m.ready.contains(id) {
        assert(m.ready.push(id)[m.ready.len() as int] == id);
    }
}

/// After removing the task at `j`, every other task is still there, whole.
proof fn lemma_remove_keeps_task(tasks: Seq<Task>, j: int, jd: int)
    requires
        0 <= j < tasks.len(),
        0 <= jd < tasks.len(),
        jd != j,
    ensures
        exists|k: int| 0 <= k < tasks.remove(j).len() && #[trigger] tasks.remove(j)[k]
            == tasks[jd],
{
    assert(tasks.remove(j) =~= tasks.subrange(0, j) + tasks.subrange(j + 1, tasks.len() as int));
    if jd < j {
        assert(tasks.remove(j)[jd] == tasks[jd]);
    } else {
        assert(tasks.remove(j)[jd - 1] == tasks[jd]);
    }
}

/// Removing one task takes exactly its weight out of the poll budget.
pub proof fn lemma_exec_work_remove(tasks: Seq<Task>, j: int)
    requires
        0 <= j < tasks.len(),
    ensures
        exec_work(tasks.remove(j)) + task_weight(tasks[j]) == exec_work(tasks),
    decreases tasks.len(),
{
    if j == 0 {
        assert(tasks.remove(0) =~= tasks.skip(1));
    } else {
        assert(tasks.remove(j).skip(1) =~= tasks.skip(1).remove(j - 1));
        lemma_exec_work_remove(tasks.skip(1), j - 1);
    }
}

/// Replacing one task shifts the poll budget by the difference in weights.
pub proof fn lemma_exec_work_update(tasks: Seq<Task>, j: int, t: Task)
    requires
        0 <= j < tasks.len(),
    ensures
        exec_work(tasks.update(j, t)) + task_weight(tasks[j]) == exec_work(tasks) + task_weight(t),
    decreases tasks.len(),
{
    if j == 0 {
        assert(tasks.update(0, t).skip(1) =~= tasks.skip(1));
    } else {
        assert(tasks.update(j, t).skip(1) =~= tasks.skip(1).update(j - 1, t));
        assert(tasks.update(j, t)[0] == tasks[0]);
        lemma_exec_work_update(tasks.skip(1), j - 1, t);
    }
}

/// Appending a task adds exactly its weight to the poll budget.
pub proof fn lemma_exec_work_push(tasks: Seq<Task>, t: Task)
    ensures
        exec_work(tasks.push(t)) == exec_work(tasks) + task_weight(t),
    decreases tasks.len(),
{
    if tasks.len() == 0 {
        assert(tasks.push(t)[0] == t);
        assert(tasks.push(t).skip(1) =~= Seq::<Task>::empty());
        assert(exec_work(Seq::<Task>::empty()) == 0);
    } else {
        assert(tasks.push(t).skip(1) =~= tasks.skip(1).push(t));
        assert(tasks.push(t)[0] == tasks[0]);
        lemma_exec_work_push(tasks.skip(1), t);
    }
}

/// Law: with every owned task a counting task that has exactly `k` yields
/// left, the whole poll budget is one resumption per yield plus one that
/// observes each completion — `k + 1` for each of the tasks. Together with
/// the scheduling loop's contract: spawning `n` such tasks empties the task
/// set after exactly `n * (k + 1)` resumptions.
pub proof fn lemma_uniform_poll_budget(tasks: Seq<Task>, k: u64)
    requires
        forall|j: int|
            0 <= j < tasks.len() ==> ((#[trigger] tasks[j]).kind matches TaskKind::CountYields {
                remaining,
                ..
            } && remaining == k),
    ensures
        exec_work(tasks) == tasks.len() * (k + 1),
    decreases tasks.len(),
{
    if tasks.len() == 0 {
    } else {
        lemma_uniform_poll_budget(tasks.skip(1), k);
        assert(tasks.len() * (k + 1) == (tasks.len() - 1) * (k + 1) + (k + 1))
            by (nonlinear_arith);
    }
}

/// The cooperative scheduler.
pub struct Executor {
    tasks: Vec<Task>,
    ready: Vec<TaskId>,
    next_id: u64,
    finished: Vec<(TaskId, u32)>,
}

impl View for Executor {
    type V = ExecutorModel;

    closed spec fn view(&self) -> ExecutorModel {
        ExecutorModel {
            tasks: self.tasks@,
            ready: self.ready@,
            next_id: self.next_id as nat,
            finished: self.finished@,
        }
    }
}

impl Executor {
    /// Well-formedness of the running executor.
    pub open spec fn wf(&self) -> bool {
        self@.inv()
    }

    /// Creates an executor with no tasks.
    pub fn new() -> (e: Executor)
        ensures
            e.wf(),
            e@ == empty_executor(),
    {
        let e = Executor { tasks: Vec::new(), ready: Vec::new(), next_id: 0, finished: Vec::new() };
        proof {
            assert(e@ =~= empty_executor());
        }
        e
    }

    /// Registers a new task and queues it for an immediate first run.
    pub fn spawn(&mut self, kind: TaskKind) -> (id: TaskId)
        requires
            old(self).wf(),
            old(self)@.next_id < u64::MAX,
        ensures
            final(self).wf(),
            id == spec_spawn_id(old(self)@),
            final(self)@ == spec_spawn(old(self)@, kind),
    {
        let id = TaskId { id: self.next_id };
        self.next_id = self.next_id + 1;
        self.tasks.push(Task { id: id, kind: kind });
        self.ready.push(id);
        proof {
            assert(self@ =~= spec_spawn(old(self)@, kind));
            let m = old(self)@;
            assert forall|i: int| 0 <= i < m.ready.len() implies m.ready[i] != id by {
                let k = choose|k: int| 0 <= k < m.tasks.len() && (#[trigger] m.tasks[k]).id == m.ready[i];
                assert(m.tasks[k].id.id < m.next_id);
            }
            assert forall|i: int| 0 <= i < self@.ready.len() implies owns(
                self@.tasks,
                #[trigger] self@.ready[i],
            ) by {
                if i < m.ready.len() {
                    let k = choose|k: int| 0 <= k < m.tasks.len() && (#[trigger] m.tasks[k]).id == m.ready[i];
                    assert(self@.tasks[k].id == self@.ready[i]);
                } else {
                    assert(self@.tasks[m.tasks.len() as int].id == id);
                }
            }
        }
        id
    }

    /// Whether the task set owns a task with this identity.
    pub fn owns_task(&self, id: TaskId) -> (r: bool)
        ensures
            r == owns(self@.tasks, id),
    {
        let mut i: usize = 0;
        while i < self.tasks.len()
            invariant
                i <= self.tasks.len(),
                forall|k: int| 0 <= k < i ==> (#[trigger] self.tasks@[k]).id != id,
            decreases self.tasks.len() - i,
        {
            if self.tasks[i].id == id {
                return true;
            }
            i = i + 1;
        }
        false
    }

    /// Whether this identity is queued for resumption right now.
    pub fn ready_contains(&self, id: TaskId) -> (r: bool)
        ensures
            r == self@.ready.contains(id),
    {
        let mut i: usize = 0;
        while i < self.ready.len()
            invariant
                i <= self.ready.len(),
                forall|k: int| 0 <= k < i ==> self.ready@[k] != id,
            decreases self.ready.len() - i,
        {
            if self.ready[i] == id {
                return true;
            }
            i = i + 1;
        }
        false
    }

    /// Marks a task ready. Wakes for an identity already queued, or for one
    /// the task set does not own, are absorbed without effect.
    pub fn wake(&mut self, id: TaskId)
        requires
            old(self).wf(),
        ensures
            final(self).wf(),
            final(self)@ == spec_wake(old(self)@, id),
    {
        let owned = self.owns_task(id);
        let queued = self.ready_contains(id);
        if owned && !queued {
            self.ready.push(id);
        }
        proof {
            assert(self@ =~= spec_wake(old(self)@, id));
        }
    }

    /// The index of the owned task with this identity.
    fn find_task_index(&self, id: TaskId) -> (r: usize)
        requires
            owns(self@.tasks, id),
        ensures
            r < self@.tasks.len(),
            self@.tasks[r as int].id == id,
    {
        let mut i: usize = 0;
        while i < self.tasks.len()
            invariant
                i <= self.tasks.len(),
                forall|k: int| 0 <= k < i ==> (#[trigger] self.tasks@[k]).id != id,
            decreases self.tasks.len() - i,
        {
            if self.tasks[i].id == id {
                return i;
            }
            i = i + 1;
        }
        proof {
            let j = choose|j: int| 0 <= j < self@.tasks.len() && (#[trigger] self@.tasks[j]).id == id;
            assert(false);
        }
        0
    }

    /// The scheduling loop, run until no task is ready: pop the next ready
    /// identity, look its task up, resume it. A completing task leaves the
    /// task set and its value is recorded; a yielding task is re-queued at
    /// once; the queue drainer empties the scancode queue into `keypresses`,
    /// registers its interest, and suspends until the next wake.
    ///
    /// Returns how many resumptions ran. When every owned task is a counting
    /// task and all are ready — the state right after spawning — the task set
    /// returns to empty after exactly its poll budget many resumptions: one
    /// per yield plus one to complete, and the scancode queue is untouched.
    pub fn run_until_idle(&mut self, queue: &mut ScancodeQueue, keypresses: &mut Vec<u8>) -> (polls:
        u64)
        requires
            old(self).wf(),
            old(queue).wf(),
            exec_work(old(self)@.tasks) + old(self)@.ready.len() <= u64::MAX,
        ensures
            final(self).wf(),
            final(queue).wf(),
            final(self)@.ready.len() == 0,
            final(self)@.next_id == old(self)@.next_id,
            final(queue)@.capacity == old(queue)@.capacity,
            final(queue)@.dropped == old(queue)@.dropped,
            extends(final(self)@.finished, old(self)@.finished),
            extends(final(keypresses)@, old(keypresses)@),
            forall|j: int|
                0 <= j < final(self)@.tasks.len() ==> task_from(
                    old(self)@.tasks,
                    #[trigger] final(self)@.tasks[j],
                ),
            forall|j: int|
                0 <= j < old(self)@.tasks.len() && (#[trigger] old(self)@.tasks[j]).kind
                    is CountYields ==> owns(final(self)@.tasks, old(self)@.tasks[j].id)
                    || final(self)@.finished.contains(
                    (old(self)@.tasks[j].id, old(self)@.tasks[j].kind->value),
                ),
            polls <= exec_work(old(self)@.tasks) + old(self)@.ready.len(),
            forall|i: int|
                old(self)@.finished.len() <= i < final(self)@.finished.len() ==> completion_of(
                    old(self)@.tasks,
                    #[trigger] final(self)@.finished[i],
                ) && !owns(final(self)@.tasks, final(self)@.finished[i].0),
            ready_drainer(old(self)@) ==> final(queue)@.scancodes.len() == 0
                && final(keypresses)@ == old(keypresses)@ + old(queue)@.scancodes
                && drainer_waker(final(self)@, final(queue)@.waker),
            all_counting(old(self)@.tasks) && all_ready(old(self)@) ==> final(self)@.tasks.len()
                == 0 && polls == exec_work(old(self)@.tasks) && final(queue)@ == old(queue)@
                && final(keypresses)@ == old(keypresses)@,
    {
        let mut polls: u64 = 0;
        let ghost init = *self;
        let ghost initq = *queue;
        let ghost initk = *keypresses;
        let ghost h: bool = all_counting(init@.tasks) && all_ready(init@);
        while self.ready.len() != 0
            invariant
                self.wf(),
                queue.wf(),
                init@.inv(),
                h == (all_counting(init@.tasks) && all_ready(init@)),
                exec_work(init@.tasks) + init@.ready.len() <= u64::MAX,
                self@.next_id == init@.next_id,
                queue@.capacity == initq@.capacity,
                queue@.dropped == initq@.dropped,
                extends(self@.finished, init@.finished),
                extends(keypresses@, initk@),
                forall|j: int|
                    0 <= j < self@.tasks.len() ==> task_from(
                        init@.tasks,
                        #[trigger] self@.tasks[j],
                    ),
                forall|j: int|
                    0 <= j < init@.tasks.len() && (#[trigger] init@.tasks[j]).kind is CountYields
                        ==> owns(self@.tasks, init@.tasks[j].id) || self@.finished.contains(
                        (init@.tasks[j].id, init@.tasks[j].kind->value),
                    ),
                polls + exec_work(self@.tasks) + self@.ready.len() <= exec_work(init@.tasks)
                    + init@.ready.len(),
                forall|i: int|
                    init@.finished.len() <= i < self@.finished.len() ==> completion_of(
                        init@.tasks,
                        #[trigger] self@.finished[i],
                    ) && !owns(self@.tasks, self@.finished[i].0),
                ready_drainer(init@) ==> (ready_drainer(self@) && queue@ == initq@ && keypresses@
                    == initk@) || (queue@.scancodes.len() == 0 && keypresses@ == initk@
                    + initq@.scancodes && drainer_waker(self@, queue@.waker)),
                h ==> all_counting(self@.tasks),
                h ==> all_ready(self@),
                h ==> polls + exec_work(self@.tasks) == exec_work(init@.tasks),
                h ==> queue@ == initq@ && keypresses@ == initk@,
            decreases exec_work(self@.tasks) + self@.ready.len(),
        {
            let ghost pre = self@;
            let id = self.ready.remove(0);
            proof {
                assert(pre.ready[0] == id);
                assert(self.ready@ =~= pre.ready.skip(1));
                assert(owns(pre.tasks, id));
                assert forall|k: int| 0 <= k < self.ready@.len() implies self.ready@[k] != id by {
                    assert(pre.ready[k + 1] != pre.ready[0]);
                }
            }
            let j = self.find_task_index(id);
            let t = self.tasks[j];
            let ghost mid = self@;
            match t.kind {
                TaskKind::CountYields { remaining, value } => {
                    if remaining == 0 {
                        self.finished.push((id, value));
                        self.tasks.remove(j);
                        proof {
                            lemma_exec_work_remove(pre.tasks, j as int);
                            lemma_extends_push(mid.finished, (id, value));
                            lemma_extends_trans(self@.finished, mid.finished, init@.finished);
                            assert(self@.tasks =~= pre.tasks.subrange(0, j as int)
                                + pre.tasks.subrange(j as int + 1, pre.tasks.len() as int));
                            assert forall|a: int|
                                0 <= a < self@.tasks.len() implies #[trigger] self@.tasks[a]
                                == (if a < j { pre.tasks[a] } else { pre.tasks[a + 1] }) by {}
                            // task identities other than the completed one stay owned
                            assert forall|id2: TaskId|
                                owns(pre.tasks, id2) && id2 != t.id implies owns(
                                self@.tasks,
                                id2,
                            ) by {
                                let k = choose|k: int|
                                    0 <= k < pre.tasks.len() && (#[trigger] pre.tasks[k]).id
                                        == id2;
                                if k < j {
                                    assert(self@.tasks[k].id == id2);
                                } else {
                                    assert(k != j);
                                    assert(self@.tasks[k - 1].id == id2);
                                }
                            }
                            // the recorded completion covers every initial holder of this identity
                            assert forall|j2: int|
                                0 <= j2 < init@.tasks.len() && (#[trigger] init@.tasks[j2]).kind
                                    is CountYields implies owns(self@.tasks, init@.tasks[j2].id)
                                || self@.finished.contains(
                                (init@.tasks[j2].id, init@.tasks[j2].kind->value),
                            ) by {
                                let tid = init@.tasks[j2].id;
                                if owns(pre.tasks, tid) {
                                    if tid == t.id {
                                        let i = choose|i: int|
                                            0 <= i < init@.tasks.len() && (
                                            #[trigger] init@.tasks[i]).id == t.id && (
                                            init@.tasks[i].kind is CountYields <==> t.kind
                                                is CountYields) && (t.kind is CountYields
                                                ==> init@.tasks[i].kind->value == t.kind->value
                                                && t.kind->remaining
                                                <= init@.tasks[i].kind->remaining);
                                        assert(task_from(init@.tasks, t));
                                        assert(i == j2);
                                        assert(self@.finished[mid.finished.len() as int] == (
                                        tid,
                                        value,
                                        ));
                                        assert(self@.finished.contains((tid, value)));
                                    }
                                } else {
                                    lemma_extends_contains(
                                        self@.finished,
                                        mid.finished,
                                        (tid, init@.tasks[j2].kind->value),
                                    );
                                }
                            }
                            // well-formedness after the removal
                            assert forall|a: int, b: int|
                                0 <= a < b < self@.tasks.len() implies (
                                #[trigger] self@.tasks[a]).id != (#[trigger] self@.tasks[b]).id by {
                                assert(self@.tasks[a] == (if a < j {
                                    pre.tasks[a]
                                } else {
                                    pre.tasks[a + 1]
                                }));
                                assert(self@.tasks[b] == (if b < j {
                                    pre.tasks[b]
                                } else {
                                    pre.tasks[b + 1]
                                }));
                            }
                            assert forall|i: int|
                                0 <= i < self@.ready.len() implies owns(
                                self@.tasks,
                                #[trigger] self@.ready[i],
                            ) by {
                                assert(self@.ready[i] == pre.ready[i + 1]);
                                assert(owns(pre.tasks, self@.ready[i]));
                                assert(self@.ready[i] != id);
                            }
                            // ownership only shrinks, and the completed identity is gone
                            assert forall|id2: TaskId| owns(self@.tasks, id2) implies owns(
                                pre.tasks,
                                id2,
                            ) by {
                                let k = choose|k: int|
                                    0 <= k < self@.tasks.len() && (#[trigger] self@.tasks[k]).id
                                        == id2;
                                if k < j {
                                    assert(pre.tasks[k].id == id2);
                                } else {
                                    assert(pre.tasks[k + 1].id == id2);
                                }
                            }
                            assert(pre.tasks[j as int] == t);
                            assert forall|a: int|
                                0 <= a < self@.tasks.len() implies (#[trigger] self@.tasks[a]).id
                                != t.id by {
                                if a < j {
                                    assert(self@.tasks[a] == pre.tasks[a]);
                                    assert(pre.tasks[a].id != pre.tasks[j as int].id);
                                } else {
                                    assert(self@.tasks[a] == pre.tasks[a + 1]);
                                    assert(pre.tasks[a + 1].id != pre.tasks[j as int].id);
                                }
                            }
                            assert(!owns(self@.tasks, t.id)) by {
                                if owns(self@.tasks, t.id) {
                                    let k = choose|k: int|
                                        0 <= k < self@.tasks.len() && (
                                        #[trigger] self@.tasks[k]).id == t.id;
                                }
                            }
                            // every recorded completion books a counting task once
                            // owned, owned no more
                            assert forall|i2: int|
                                init@.finished.len() <= i2 < self@.finished.len() implies
                                completion_of(init@.tasks, #[trigger] self@.finished[i2]) && !owns(
                                self@.tasks,
                                self@.finished[i2].0,
                            ) by {
                                if i2 < pre.finished.len() {
                                    assert(self@.finished[i2] == pre.finished[i2]);
                                    assert(completion_of(init@.tasks, pre.finished[i2]));
                                    assert(!owns(pre.tasks, pre.finished[i2].0));
                                } else {
                                    assert(self@.finished[i2] == (id, value));
                                    assert(task_from(init@.tasks, t));
                                    let i0 = choose|i0: int|
                                        0 <= i0 < init@.tasks.len() && (
                                        #[trigger] init@.tasks[i0]).id == t.id && (
                                        init@.tasks[i0].kind is CountYields <==> t.kind
                                            is CountYields) && (t.kind is CountYields
                                            ==> init@.tasks[i0].kind->value == t.kind->value
                                            && t.kind->remaining
                                            <= init@.tasks[i0].kind->remaining);
                                    assert(init@.tasks[i0].id == self@.finished[i2].0);
                                    assert(completion_of(init@.tasks, self@.finished[i2]));
                                }
                            }
                            // a ready drainer is untouched by a counting task's exit
                            if ready_drainer(init@) {
                                if ready_drainer(pre) && queue@ == initq@ && keypresses@
                                    == initk@ {
                                    let jd = choose|jd: int|
                                        0 <= jd < pre.tasks.len() && (
                                        #[trigger] pre.tasks[jd]).kind is DrainQueue
                                            && pre.ready.contains(pre.tasks[jd].id);
                                    assert(jd != j);
                                    lemma_remove_keeps_task(pre.tasks, j as int, jd);
                                    let d = pre.tasks[jd].id;
                                    assert(pre.tasks[jd].id != pre.tasks[j as int].id);
                                    let kk = choose|kk: int|
                                        0 <= kk < pre.ready.len() && pre.ready[kk] == d;
                                    assert(kk != 0);
                                    assert(self@.ready[kk - 1] == d);
                                    assert(self@.ready.contains(d));
                                    assert(ready_drainer(self@));
                                } else {
                                    if let Some(wid) = queue@.waker {
                                        let jd = choose|jd: int|
                                            0 <= jd < pre.tasks.len() && (
                                            #[trigger] pre.tasks[jd]).id == wid
                                                && pre.tasks[jd].kind is DrainQueue;
                                        assert(jd != j);
                                        lemma_remove_keeps_task(pre.tasks, j as int, jd);
                                        assert(drainer_waker(self@, queue@.waker));
                                    }
                                }
                            }
                            if h {
                                assert forall|j2: int|
                                    0 <= j2 < self@.tasks.len() implies self@.ready.contains(
                                    (#[trigger] self@.tasks[j2]).id,
                                ) by {
                                    let tid2 = self@.tasks[j2].id;
                                    assert(tid2 != t.id);
                                    assert(owns(pre.tasks, tid2));
                                    assert(mid.ready.contains(tid2) || tid2 == id) by {
                                        let k = choose|k: int|
                                            0 <= k < pre.ready.len() && pre.ready[k] == tid2;
                                        if k > 0 {
                                            assert(mid.ready[k - 1] == tid2);
                                        }
                                    }
                                    assert(self@.ready == mid.ready);
                                }
                            }
                        }
                    } else {
                        let nt = Task {
                            id: id,
                            kind: TaskKind::CountYields { remaining: remaining - 1, value: value },
                        };
                        self.tasks[j] = nt;
                        self.ready.push(id);
                        proof {
                            lemma_exec_work_update(pre.tasks, j as int, nt);
                            assert forall|a: int|
                                0 <= a < self@.tasks.len() implies (#[trigger] self@.tasks[a]).id
                                == pre.tasks[a].id by {}
                            assert forall|id2: TaskId| owns(pre.tasks, id2) implies owns(
                                self@.tasks,
                                id2,
                            ) by {
                                let k = choose|k: int|
                                    0 <= k < pre.tasks.len() && (#[trigger] pre.tasks[k]).id
                                        == id2;
                                assert(self@.tasks[k].id == id2);
                            }
                            assert forall|a: int|
                                0 <= a < self@.tasks.len() implies task_from(
                                init@.tasks,
                                #[trigger] self@.tasks[a],
                            ) by {
                                assert(task_from(init@.tasks, pre.tasks[a]));
                                if a == j {
                                    let i = choose|i: int|
                                        0 <= i < init@.tasks.len() && (#[trigger] init@.tasks[i]).id
                                            == t.id && (init@.tasks[i].kind is CountYields <==> t.kind
                                            is CountYields) && (t.kind is CountYields
                                            ==> init@.tasks[i].kind->value == t.kind->value
                                            && t.kind->remaining
                                            <= init@.tasks[i].kind->remaining);
                                    assert(init@.tasks[i].id == nt.id);
                                }
                            }
                            // the popped identity is back on the queue exactly once
                            assert forall|i: int|
                                0 <= i < self@.ready.len() implies owns(
                                self@.tasks,
                                #[trigger] self@.ready[i],
                            ) by {
                                if i < mid.ready.len() {
                                    assert(self@.ready[i] == pre.ready[i + 1]);
                                    assert(owns(pre.tasks, self@.ready[i]));
                                } else {
                                    assert(self@.ready[i] == id);
                                    assert(self@.tasks[j as int].id == id);
                                }
                            }
                            // recorded completions stay exact: nothing was added,
                            // and no finished identity was re-owned
                            assert forall|i2: int|
                                init@.finished.len() <= i2 < self@.finished.len() implies
                                completion_of(init@.tasks, #[trigger] self@.finished[i2]) && !owns(
                                self@.tasks,
                                self@.finished[i2].0,
                            ) by {
                                assert(self@.finished[i2] == pre.finished[i2]);
                                if owns(self@.tasks, self@.finished[i2].0) {
                                    let k = choose|k: int|
                                        0 <= k < self@.tasks.len() && (
                                        #[trigger] self@.tasks[k]).id == self@.finished[i2].0;
                                    assert(pre.tasks[k].id == self@.finished[i2].0);
                                }
                            }
                            // a ready drainer is untouched by a counting task's yield
                            assert(pre.tasks[j as int] == t);
                            if ready_drainer(init@) {
                                if ready_drainer(pre) && queue@ == initq@ && keypresses@
                                    == initk@ {
                                    let jd = choose|jd: int|
                                        0 <= jd < pre.tasks.len() && (
                                        #[trigger] pre.tasks[jd]).kind is DrainQueue
                                            && pre.ready.contains(pre.tasks[jd].id);
                                    assert(jd != j);
                                    assert(self@.tasks[jd] == pre.tasks[jd]);
                                    let d = pre.tasks[jd].id;
                                    assert(pre.tasks[jd].id != pre.tasks[j as int].id);
                                    let kk = choose|kk: int|
                                        0 <= kk < pre.ready.len() && pre.ready[kk] == d;
                                    assert(kk != 0);
                                    assert(self@.ready[kk - 1] == d);
                                    assert(self@.ready.contains(d));
                                    assert(ready_drainer(self@));
                                } else {
                                    if let Some(wid) = queue@.waker {
                                        let jd = choose|jd: int|
                                            0 <= jd < pre.tasks.len() && (
                                            #[trigger] pre.tasks[jd]).id == wid
                                                && pre.tasks[jd].kind is DrainQueue;
                                        assert(jd != j);
                                        assert(self@.tasks[jd] == pre.tasks[jd]);
                                        assert(drainer_waker(self@, queue@.waker));
                                    }
                                }
                            }
                            if h {
                                assert forall|j2: int|
                                    0 <= j2 < self@.tasks.len() implies self@.ready.contains(
                                    (#[trigger] self@.tasks[j2]).id,
                                ) by {
                                    let tid2 = self@.tasks[j2].id;
                                    if tid2 == id {
                                        assert(self@.ready[mid.ready.len() as int] == id);
                                    } else {
                                        assert(pre.tasks[j2].id == tid2);
                                        assert(owns(pre.tasks, tid2));
                                        assert(pre.ready.contains(tid2));
                                        let k = choose|k: int|
                                            0 <= k < pre.ready.len() && pre.ready[k] == tid2;
                                        assert(k != 0);
                                        assert(self@.ready[k - 1] == tid2);
                                    }
                                }
                            }
                        }
                    }
                }
                TaskKind::DrainQueue => {
                    proof {
                        if all_counting(init@.tasks) {
                            assert(task_from(init@.tasks, t));
                            let i = choose|i: int|
                                0 <= i < init@.tasks.len() && (#[trigger] init@.tasks[i]).id
                                    == t.id && (init@.tasks[i].kind is CountYields <==> t.kind
                                    is CountYields);
                            assert(false);
                        }
                        assert(!h);
                    }
                    let ghost qentry = *queue;
                    let ghost kentry = *keypresses;
                    loop
                        invariant_except_break
                            queue.wf(),
                            queue@.capacity == qentry@.capacity,
                            queue@.dropped == qentry@.dropped,
                            queue@.waker == qentry@.waker,
                            keypresses@ + queue@.scancodes == kentry@ + qentry@.scancodes,
                            extends(keypresses@, kentry@),
                        ensures
                            queue.wf(),
                            queue@.capacity == qentry@.capacity,
                            queue@.dropped == qentry@.dropped,
                            queue@.scancodes.len() == 0,
                            queue@.waker == Some(id),
                            keypresses@ == kentry@ + qentry@.scancodes,
                            extends(keypresses@, kentry@),
                        decreases queue@.scancodes.len(),
                    {
                        let ghost qa = queue@;
                        let ghost ka = keypresses@;
                        let next = queue.poll_next(id);
                        match next {
                            Some(b) => {
                                keypresses.push(b);
                                proof {
                                    assert(b == qa.scancodes[0]);
                                    assert(queue@.scancodes == qa.scancodes.skip(1));
                                    assert(ka.push(b) + qa.scancodes.skip(1) =~= ka
                                        + qa.scancodes);
                                    lemma_extends_push(ka, b);
                                    lemma_extends_trans(keypresses@, ka, kentry@);
                                }
                            }
                            None => {
                                proof {
                                    assert(qa.scancodes.len() == 0);
                                    assert(keypresses@ + qa.scancodes =~= keypresses@);
                                }
                                break ;
                            }
                        }
                    }
                    proof {
                        lemma_extends_trans(keypresses@, kentry@, initk@);
                        assert forall|i: int|
                            0 <= i < self@.ready.len() implies owns(
                            self@.tasks,
                            #[trigger] self@.ready[i],
                        ) by {
                            assert(self@.ready[i] == pre.ready[i + 1]);
                            assert(owns(pre.tasks, self@.ready[i]));
                        }
                        // this poll produced, or found, the fully drained state
                        if ready_drainer(init@) {
                            assert(self@.tasks[j as int] == t);
                            assert(self@.tasks[j as int].id == id);
                            if ready_drainer(pre) && qentry@ == initq@ && kentry@ == initk@ {
                                assert(keypresses@ == initk@ + initq@.scancodes);
                            } else {
                                assert(qentry@.scancodes.len() == 0);
                                assert(kentry@ + qentry@.scancodes =~= kentry@);
                                assert(keypresses@ == initk@ + initq@.scancodes);
                            }
                            assert(drainer_waker(self@, queue@.waker));
                        }
                    }
                }
            }
            polls = polls + 1;
        }
        proof {
            if h {
                if self@.tasks.len() > 0 {
                    assert(self@.ready.contains(self@.tasks[0].id));
                    let k = choose|k: int|
                        0 <= k < self@.ready.len() && self@.ready[k] == self@.tasks[0].id;
                    assert(false);
                }
                assert(exec_work(self@.tasks) == 0);
            }
            // nothing is ready any more, so a drainer cannot still be queued:
            // the drained state is what remains
            if ready_drainer(init@) {
                if ready_drainer(self@) {
                    let jd = choose|jd: int|
                        0 <= jd < self@.tasks.len() && (#[trigger] self@.tasks[jd]).kind
                            is DrainQueue && self@.ready.contains(self@.tasks[jd].id);
                    let kk = choose|kk: int|
                        0 <= kk < self@.ready.len() && self@.ready[kk] == self@.tasks[jd].id;
                    assert(false);
                }
            }
        }
        polls
    }

    /// Whether the whole poll budget fits the scheduling loop's counter — a
    /// machine limit, not a scheduling one; an unverified caller checks it
    /// before entering the loop.
    pub fn budget_fits(&self) -> (r: bool)
        ensures
            r == (exec_work(self@.tasks) + self@.ready.len() <= u64::MAX),
    {
        let mut acc: u128 = 0;
        let mut i: usize = 0;
        while i < self.tasks.len()
            invariant
                i <= self.tasks.len(),
                acc == exec_work(self@.tasks.take(i as int)),
                acc <= i * 0x1_0000_0000_0000_0000u128,
            decreases self.tasks.len() - i,
        {
            let w: u128 = match self.tasks[i].kind {
                TaskKind::CountYields { remaining, .. } => remaining as u128 + 1,
                TaskKind::DrainQueue => 0,
            };
            proof {
                lemma_exec_work_push(self@.tasks.take(i as int), self@.tasks[i as int]);
                assert(self@.tasks.take(i + 1) =~= self@.tasks.take(i as int).push(
                    self@.tasks[i as int],
                ));
                assert(acc + w <= (i + 1) * 0x1_0000_0000_0000_0000u128) by (nonlinear_arith)
                    requires
                        acc <= i * 0x1_0000_0000_0000_0000u128,
                        w <= 0x1_0000_0000_0000_0000u128,
                ;
            }
            acc = acc + w;
            i = i + 1;
        }
        proof {
            assert(self@.tasks.take(i as int) =~= self@.tasks);
        }
        acc <= (u64::MAX as u128) - (self.ready.len() as u128)
    }

    /// How many tasks the executor owns.
    pub fn task_count(&self) -> (r: usize)
        ensures
            r == self@.tasks.len(),
    {
        self.tasks.len()
    }

    /// How many identities are queued for resumption.
    pub fn ready_count(&self) -> (r: usize)
        ensures
            r == self@.ready.len(),
    {
        self.ready.len()
    }

    /// Completions so far, in order, each with the completing task's value.
    pub fn finished(&self) -> (r: &Vec<(TaskId, u32)>)
        ensures
            r@ == self@.finished,
    {
        &self.finished
    }
}

} // verus!
