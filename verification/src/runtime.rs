use vstd::prelude::*;

verus! {

/// One slot of the task runtime.
///
/// A slot is `Empty` when it holds no task, `Pending` while its task waits to be
/// polled, and `Polling` while the task has been taken out to be polled.
pub enum FutureSlot<T> {
    Empty,
    Pending(T),
    Polling,
}

/// What `take` leaves behind in a slot and what it hands out, in that order.
pub open spec fn spec_slot_take<T>(slot: FutureSlot<T>) -> (FutureSlot<T>, FutureSlot<T>) {
    match slot {
        FutureSlot::Empty => (FutureSlot::Empty, FutureSlot::Empty),
        FutureSlot::Pending(task) => (FutureSlot::Polling, FutureSlot::Pending(task)),
        FutureSlot::Polling => (FutureSlot::Polling, FutureSlot::Polling),
    }
}

impl<T> FutureSlot<T> {
    pub fn is_empty(&self) -> (r: bool)
        ensures
            r == (*self is Empty),
    {
        match self {
            FutureSlot::Empty => true,
            _ => false,
        }
    }

    pub fn clear(&mut self)
        ensures
            *final(self) is Empty,
    {
        *self = FutureSlot::Empty;
    }

    /// Takes a pending task out of the slot, leaving the slot marked as polling.
    /// An empty or polling slot is left as it is and reported as such.
    pub fn take(&mut self) -> (r: Self)
        ensures
            (*final(self), r) == spec_slot_take(*old(self)),
    {
        match self {
            FutureSlot::Empty => FutureSlot::Empty,
            FutureSlot::Pending(_) => {
                let mut out = FutureSlot::Polling;
                std::mem::swap(self, &mut out);
                out
            },
            FutureSlot::Polling => FutureSlot::Polling,
        }
    }

    /// Puts a task back into a slot whose task is being polled.
    pub fn park(&mut self, value: T)
        requires
            *old(self) is Polling,
        ensures
            *final(self) == FutureSlot::Pending(value),
    {
        *self = FutureSlot::Pending(value);
    }
}


/// The result of polling a task once: still pending (the task is handed back to
/// be parked again), or finished.
pub enum TaskOutcome<T> {
    Pending(T),
    Ready,
}

/// Why a task could not be taken out for polling: its slot is empty (the task
/// is gone), or the task is already being polled (a waker called recursively).
pub enum ResumeError {
    Missing,
    Reentered,
}

/// Index of the first empty slot at or after `i`, or the length when there is none.
pub open spec fn first_empty_from<T>(slots: Seq<FutureSlot<T>>, i: int) -> int
    decreases slots.len() - i,
{
    if i < 0 || i >= slots.len() {
        slots.len() as int
    } else if slots[i] is Empty {
        i
    } else {
        first_empty_from(slots, i + 1)
    }
}

/// The slots after adding a task, and the index the task was given: the first
/// empty slot is reused; only when there is none does the runtime grow.
pub open spec fn spec_add_task<T>(slots: Seq<FutureSlot<T>>, task: T) -> (Seq<FutureSlot<T>>, int) {
    let i = first_empty_from(slots, 0);
    if i < slots.len() {
        (slots.update(i, FutureSlot::Pending(task)), i)
    } else {
        (slots.push(FutureSlot::Pending(task)), slots.len() as int)
    }
}

/// The slots after taking the task at `index` out for polling, and what was taken.
/// An index past the end yields `Empty` and changes nothing.
pub open spec fn spec_get_task<T>(slots: Seq<FutureSlot<T>>, index: int) -> (Seq<FutureSlot<T>>, FutureSlot<T>) {
    if 0 <= index < slots.len() {
        let (left, out) = spec_slot_take(slots[index]);
        (slots.update(index, left), out)
    } else {
        (slots, FutureSlot::Empty)
    }
}

/// The slots after `clear_task(index)`: for an index in range it is the first
/// slot that is emptied, whatever the index.
pub open spec fn spec_clear_task<T>(slots: Seq<FutureSlot<T>>, index: int) -> Seq<FutureSlot<T>> {
    if 0 <= index < slots.len() {
        slots.update(0, FutureSlot::Empty)
    } else {
        slots
    }
}

/// The slots after parking `task` back at `index`.
pub open spec fn spec_park_task<T>(slots: Seq<FutureSlot<T>>, index: int, task: T) -> Seq<FutureSlot<T>> {
    slots.update(index, FutureSlot::Pending(task))
}

/// The task runtime: a list of slots, each holding at most one task.
pub struct AsyncRuntime<T> {
    tasks: Vec<FutureSlot<T>>,
}

impl<T> View for AsyncRuntime<T> {
    type V = Seq<FutureSlot<T>>;

    closed spec fn view(&self) -> Seq<FutureSlot<T>> {
        self.tasks@
    }
}

impl<T> AsyncRuntime<T> {
    pub fn new() -> (rt: Self)
        ensures
            rt@ == Seq::<FutureSlot<T>>::empty(),
    {
        AsyncRuntime { tasks: Vec::with_capacity(10) }
    }

    pub fn len(&self) -> (n: usize)
        ensures
            n == self@.len(),
    {
        self.tasks.len()
    }

    /// Stores a task in the first empty slot, or in a new slot at the end when
    /// every slot is taken, and returns the slot's index.
    pub fn add_task(&mut self, future: T) -> (index: usize)
        ensures
            (final(self)@, index as int) == spec_add_task(old(self)@, future),
    {
        let len = self.tasks.len();
        let mut i: usize = 0;
        while i < len && !self.tasks[i].is_empty()
            invariant
                len == self.tasks@.len(),
                i <= len,
                self.tasks@ == old(self).tasks@,
                first_empty_from(self.tasks@, 0) == first_empty_from(self.tasks@, i as int),
            decreases len - i,
        {
            i = i + 1;
        }
        if i < len {
            self.tasks.set(i, FutureSlot::Pending(future));
            i
        } else {
            self.tasks.push(FutureSlot::Pending(future));
            len
        }
    }

    /// Takes the task at `index` out for polling (the slot is marked as polling).
    /// An empty or polling slot is reported as such; an index past the end
    /// reports `Empty`.
    pub fn get_task(&mut self, index: usize) -> (slot: FutureSlot<T>)
        ensures
            (final(self)@, slot) == spec_get_task(old(self)@, index as int),
    {
        if index < self.tasks.len() {
            self.tasks[index].take()
        } else {
            FutureSlot::Empty
        }
    }

    /// Whether the slot at `index` exists and its task is being polled.
    pub fn is_polling(&self, index: usize) -> (r: bool)
        ensures
            r == (index < self@.len() && self@[index as int] is Polling),
    {
        index < self.tasks.len() && match self.tasks[index] {
            FutureSlot::Polling => true,
            _ => false,
        }
    }

    /// Takes the task at `index` out for polling, on behalf of its waker. A slot
    /// that is empty or out of range means the task is gone; a slot already
    /// being polled means the waker was called recursively.
    pub fn resume_task(&mut self, index: usize) -> (r: Result<T, ResumeError>)
        ensures
            final(self)@ == spec_get_task(old(self)@, index as int).0,
            match spec_get_task(old(self)@, index as int).1 {
                FutureSlot::Pending(task) => r == Ok::<T, ResumeError>(task),
                FutureSlot::Empty => r == Err::<T, ResumeError>(ResumeError::Missing),
                FutureSlot::Polling => r == Err::<T, ResumeError>(ResumeError::Reentered),
            },
    {
        match self.get_task(index) {
            FutureSlot::Pending(task) => Ok(task),
            FutureSlot::Empty => Err(ResumeError::Missing),
            FutureSlot::Polling => Err(ResumeError::Reentered),
        }
    }

    /// Clears the first slot when `index` is in range; an index past the end
    /// changes nothing.
    pub fn clear_task(&mut self, index: usize)
        ensures
            final(self)@ == spec_clear_task(old(self)@, index as int),
    {
        if index >= self.tasks.len() {
            return ;
        }
        self.tasks[0].clear();
    }

    /// Puts a task that is being polled back into its slot.
    pub fn park_task(&mut self, index: usize, future: T)
        requires
            index < old(self)@.len(),
            old(self)@[index as int] is Polling,
        ensures
            final(self)@ == spec_park_task(old(self)@, index as int, future),
    {
        self.tasks[index].park(future);
    }

    /// Adds a task when called from the main thread. Tasks may only be spawned on
    /// the main thread: from any other thread nothing is added and `None` comes back.
    pub fn spawn_task(&mut self, caller_thread: u64, main_thread: u64, future: T) -> (index: Option<usize>)
        ensures
            caller_thread != main_thread ==> index is None && final(self)@ == old(self)@,
            caller_thread == main_thread ==> index is Some && (final(self)@, index->0 as int)
                == spec_add_task(old(self)@, future),
    {
        if caller_thread != main_thread {
            return None;
        }
        Some(self.add_task(future))
    }

    /// Records the outcome of polling the task at `index`: a task that is still
    /// pending is parked back in its slot, a finished one is cleared.
    pub fn settle_task(&mut self, index: usize, outcome: TaskOutcome<T>)
        requires
            outcome is Pending ==> index < old(self)@.len() && old(self)@[index as int] is Polling,
        ensures
            match outcome {
                TaskOutcome::Pending(task) => final(self)@ == spec_park_task(old(self)@, index as int, task),
                TaskOutcome::Ready => final(self)@ == spec_clear_task(old(self)@, index as int),
            },
    {
        match outcome {
            TaskOutcome::Pending(task) => self.park_task(index, task),
            TaskOutcome::Ready => self.clear_task(index),
        }
    }
}

/// The search for an empty slot from `i` ends at an empty slot or at the end,
/// and skips only occupied slots.
pub proof fn lemma_first_empty_from<T>(slots: Seq<FutureSlot<T>>, i: int)
    requires
        0 <= i <= slots.len(),
    ensures
        i <= first_empty_from(slots, i) <= slots.len(),
        first_empty_from(slots, i) < slots.len() ==> slots[first_empty_from(slots, i)] is Empty,
        forall|k: int| i <= k < first_empty_from(slots, i) ==> !(#[trigger] slots[k] is Empty),
    decreases slots.len() - i,
{
    if i < slots.len() && !(slots[i] is Empty) {
        lemma_first_empty_from(slots, i + 1);
    }
}

/// A task just added is found again at the index it was given: taking it out
/// for polling hands back that very task and marks its slot as polling.
pub proof fn lemma_add_then_get<T>(slots: Seq<FutureSlot<T>>, task: T)
    ensures
        ({
            let (added, index) = spec_add_task(slots, task);
            spec_get_task(added, index) == (added.update(index, FutureSlot::Polling), FutureSlot::Pending(task))
        }),
{
    lemma_first_empty_from(slots, 0);
}

/// Adding a task changes no other slot: the one it takes was empty (or is new at
/// the end), and every slot before it is occupied.
pub proof fn lemma_add_keeps_other_tasks<T>(slots: Seq<FutureSlot<T>>, task: T)
    ensures
        ({
            let (added, index) = spec_add_task(slots, task);
            &&& 0 <= index <= slots.len()
            &&& index < slots.len() ==> slots[index] is Empty && added.len() == slots.len()
            &&& index == slots.len() ==> added.len() == slots.len() + 1
            &&& added[index] == FutureSlot::Pending(task)
            &&& forall|k: int| 0 <= k < slots.len() && k != index ==> added[k] == slots[k]
            &&& forall|k: int| 0 <= k < index ==> !(#[trigger] slots[k] is Empty)
        }),
{
    lemma_first_empty_from(slots, 0);
}

/// The runtime grows only when it is full: with an empty slot at `j`, a new task
/// lands at `j` or before it, and the number of slots stays the same.
pub proof fn lemma_add_reuses_empty_slot<T>(slots: Seq<FutureSlot<T>>, task: T, j: int)
    requires
        0 <= j < slots.len(),
        slots[j] is Empty,
    ensures
        spec_add_task(slots, task).1 <= j,
        spec_add_task(slots, task).0.len() == slots.len(),
{
    lemma_first_empty_from(slots, 0);
}

/// Taking a pending task out and parking it back restores the runtime exactly.
pub proof fn lemma_get_then_park_restores<T>(slots: Seq<FutureSlot<T>>, index: int)
    requires
        0 <= index < slots.len(),
        slots[index] is Pending,
    ensures
        ({
            let (taken, slot) = spec_get_task(slots, index);
            &&& slot == slots[index]
            &&& taken[index] is Polling
            &&& spec_park_task(taken, index, slots[index]->Pending_0) == slots
        }),
{
    let (taken, slot) = spec_get_task(slots, index);
    assert(spec_park_task(taken, index, slots[index]->Pending_0) =~= slots);
}

/// The runtime never shrinks, so an index handed out by `add_task` stays a valid
/// slot index: adding grows or keeps the length, taking, clearing and parking keep it.
pub proof fn lemma_slots_never_shrink<T>(slots: Seq<FutureSlot<T>>, task: T, index: int)
    ensures
        spec_add_task(slots, task).0.len() >= slots.len(),
        spec_get_task(slots, index).0.len() == slots.len(),
        spec_clear_task(slots, index).len() == slots.len(),
        0 <= index < slots.len() ==> spec_park_task(slots, index, task).len() == slots.len(),
{
    lemma_first_empty_from(slots, 0);
}

/// Clearing the task in the first slot frees that slot for the next task.
pub proof fn lemma_cleared_first_slot_is_reused<T>(slots: Seq<FutureSlot<T>>, task: T)
    requires
        slots.len() > 0,
    ensures
        spec_add_task(spec_clear_task(slots, 0), task).1 == 0,
{
}

/// `clear_task` with an index in range empties the first slot and no other: the
/// length and every later slot stay as they were. An index past the end changes
/// nothing.
pub proof fn lemma_clear_task_touches_only_first_slot<T>(slots: Seq<FutureSlot<T>>, index: int)
    ensures
        0 <= index < slots.len() ==> {
            let cleared = spec_clear_task(slots, index);
            &&& cleared.len() == slots.len()
            &&& cleared[0] is Empty
            &&& forall|k: int| 0 < k < slots.len() ==> cleared[k] == slots[k]
        },
        !(0 <= index < slots.len()) ==> spec_clear_task(slots, index) == slots,
{
}

} // verus!
