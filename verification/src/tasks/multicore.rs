//! The two cores: which task runs where, the start-up of the second core,
//! and channel, signal and semaphore between the cores.

use vstd::prelude::*;
use vstd::arithmetic::power2::is_pow2;
use crate::sync::ringbuffer::RingBuffer;

verus! {

/// One of the two cores.
#[derive(Debug, Clone, Copy, PartialEq, Eq, Structural)]
pub enum CoreId {
    /// The core that starts the system.
    Core0,
    /// The second core.
    Core1,
}

impl CoreId {
    /// The other of the two cores.
    pub fn other(&self) -> (r: CoreId)
        ensures
            r != *self,
    {
        match self {
            CoreId::Core0 => CoreId::Core1,
            CoreId::Core1 => CoreId::Core0,
        }
    }
}

/// How a task is given a core.
#[derive(Debug, Clone, Copy, PartialEq, Eq, Structural)]
pub enum CoreAssignment {
    /// By the kind of task.
    Auto {
        /// Whether tasks that mostly wait for I/O go to the second core.
        io_on_core1: bool,
    },
    /// The named core.
    Manual(CoreId),
    /// The core that the caller runs on.
    Any,
}

impl Default for CoreAssignment {
    fn default() -> (r: Self)
        ensures
            r == (CoreAssignment::Auto { io_on_core1: true }),
    {
        CoreAssignment::Auto { io_on_core1: true }
    }
}

impl CoreAssignment {
    /// The core that a task is given: under `Auto` the second core for an
    /// I/O-bound task where the policy says so and the first otherwise,
    /// under `Manual` the named core, under `Any` the core `current` that
    /// the caller runs on.
    pub open spec fn spec_resolve(self, is_io_intensive: bool, current: CoreId) -> CoreId {
        match self {
            CoreAssignment::Auto { io_on_core1 } => if is_io_intensive && io_on_core1 {
                CoreId::Core1
            } else {
                CoreId::Core0
            },
            CoreAssignment::Manual(core) => core,
            CoreAssignment::Any => current,
        }
    }

    /// Assignment by kind of task, I/O-bound tasks on the second core.
    pub fn auto() -> (r: Self)
        ensures
            r == (CoreAssignment::Auto { io_on_core1: true }),
    {
        CoreAssignment::Auto { io_on_core1: true }
    }

    /// Assignment to `core`.
    pub fn manual(core: CoreId) -> (r: Self)
        ensures
            r == CoreAssignment::Manual(core),
    {
        CoreAssignment::Manual(core)
    }

    /// Assignment to the first core.
    pub fn core0() -> (r: Self)
        ensures
            r == CoreAssignment::Manual(CoreId::Core0),
    {
        CoreAssignment::Manual(CoreId::Core0)
    }

    /// Assignment to the second core.
    pub fn core1() -> (r: Self)
        ensures
            r == CoreAssignment::Manual(CoreId::Core1),
    {
        CoreAssignment::Manual(CoreId::Core1)
    }

    /// The core that a task is given. `current` is the core that the caller
    /// runs on.
    pub fn resolve(&self, is_io_intensive: bool, current: CoreId) -> (r: CoreId)
        ensures
            r == self.spec_resolve(is_io_intensive, current),
    {
        match self {
            CoreAssignment::Auto { io_on_core1 } => {
                if is_io_intensive && *io_on_core1 {
                    CoreId::Core1
                } else {
                    CoreId::Core0
                }
            },
            CoreAssignment::Manual(core) => *core,
            CoreAssignment::Any => current,
        }
    }
}

/// What a task mostly does.
#[derive(Debug, Clone, Copy, PartialEq, Eq, Structural)]
pub enum TaskType {
    /// Computes.
    CpuIntensive,
    /// Waits for sensors and peripherals.
    IoIntensive,
    /// Has to answer with low latency.
    Realtime,
    /// Runs when nothing else does.
    Background,
    /// None of the others.
    General,
}

impl TaskType {
    /// Whether the task mostly waits for I/O.
    pub fn is_io_intensive(&self) -> (r: bool)
        ensures
            r == (*self == TaskType::IoIntensive),
    {
        match self {
            TaskType::IoIntensive => true,
            _ => false,
        }
    }

    /// The core that suits the task: the first core for real-time and
    /// general tasks, the second for the others.
    pub fn recommended_core(&self) -> (r: CoreId)
        ensures
            r == if *self == TaskType::Realtime || *self == TaskType::General {
                CoreId::Core0
            } else {
                CoreId::Core1
            },
    {
        match self {
            TaskType::IoIntensive => CoreId::Core1,
            TaskType::CpuIntensive => CoreId::Core1,
            TaskType::Realtime => CoreId::Core0,
            TaskType::Background => CoreId::Core1,
            TaskType::General => CoreId::Core0,
        }
    }
}

/// Start-up state of the second core.
pub struct Core1 {
    started: bool,
    ready: bool,
}

impl Core1 {
    /// Whether the start of the second core has been asked for.
    pub closed spec fn spec_started(&self) -> bool {
        self.started
    }

    /// Whether the second core has reported that it runs.
    pub closed spec fn spec_ready(&self) -> bool {
        self.ready
    }

    /// The second core neither started nor ready.
    pub fn new() -> (r: Self)
        ensures
            !r.spec_started(),
            !r.spec_ready(),
    {
        Core1 { started: false, ready: false }
    }

    /// Whether the start of the second core has been asked for.
    pub fn is_started(&self) -> (r: bool)
        ensures
            r == self.spec_started(),
    {
        self.started
    }

    /// Whether the second core has reported that it runs.
    pub fn is_ready(&self) -> (r: bool)
        ensures
            r == self.spec_ready(),
    {
        self.ready
    }

    /// Records that the start of the second core is asked for, and returns
    /// whether the caller has to start it: only the first call has.
    pub fn begin_start(&mut self) -> (r: bool)
        ensures
            r == !old(self).spec_started(),
            final(self).spec_started(),
            final(self).spec_ready() == old(self).spec_ready(),
    {
        let first = !self.started;
        self.started = true;
        first
    }

    /// Records that the second core runs.
    pub fn mark_ready(&mut self)
        ensures
            final(self).spec_ready(),
            final(self).spec_started() == old(self).spec_started(),
    {
        self.ready = true;
    }

    /// One look of a waiter at the second core: returns whether it is
    /// ready, which ends the wait; until then the waiter looks again.
    pub fn wait_ready(&self) -> (r: bool)
        ensures
            r == self.spec_ready(),
    {
        self.ready
    }
}

/// A bounded queue from one core to the other.
pub struct IpcChannel<T, const N: usize> {
    queue: RingBuffer<T, N>,
}

impl<T, const N: usize> View for IpcChannel<T, N> {
    type V = Seq<T>;

    /// The messages that were sent and not yet received, oldest first.
    closed spec fn view(&self) -> Seq<T> {
        self.queue@
    }
}

impl<T: Copy, const N: usize> IpcChannel<T, N> {
    /// The channel is well formed: its queue is.
    pub closed spec fn wf(&self) -> bool {
        self.queue.wf()
    }

    /// An empty channel of `N` messages, `N` a power of two.
    pub fn new() -> (r: Self) where T: Default
        requires
            is_pow2(N as int),
        ensures
            r.wf(),
            r@ == Seq::<T>::empty(),
    {
        IpcChannel { queue: RingBuffer::new() }
    }

    /// An empty channel of `N` messages whose slots hold `fill` until they
    /// are written, for a message type without a default value. `N` has to
    /// be a power of two.
    pub fn with_fill(fill: T) -> (r: Self)
        requires
            is_pow2(N as int),
        ensures
            r.wf(),
            r@ == Seq::<T>::empty(),
    {
        IpcChannel { queue: RingBuffer::with_fill(fill) }
    }

    /// An empty channel of `N` messages, or `None` where `N` is no power of
    /// two.
    pub fn try_new() -> (r: Option<Self>) where T: Default
        ensures
            r is Some == is_pow2(N as int),
            r matches Some(channel) ==> channel.wf() && channel@ == Seq::<T>::empty(),
    {
        match RingBuffer::try_new() {
            Some(queue) => Some(IpcChannel { queue }),
            None => None,
        }
    }

    /// Sends `value`, or hands it back when the channel is full.
    pub fn try_send(&mut self, value: T) -> (r: Result<(), T>)
        requires
            old(self).wf(),
        ensures
            final(self).wf(),
            r is Ok <==> old(self)@.len() < N,
            r is Ok ==> final(self)@ == old(self)@.push(value),
            r matches Err(back) ==> back == value && final(self)@ == old(self)@,
    {
        if self.queue.try_push(value) {
            Ok(())
        } else {
            Err(value)
        }
    }

    /// Receives the oldest message, or `None` when the channel is empty.
    pub fn try_recv(&mut self) -> (r: Option<T>)
        requires
            old(self).wf(),
        ensures
            final(self).wf(),
            r is Some == (old(self)@.len() > 0),
            r matches Some(v) ==> v == old(self)@[0] && final(self)@ == old(self)@.subrange(
                1,
                old(self)@.len() as int,
            ),
            r is None ==> final(self)@ == old(self)@,
    {
        self.queue.try_pop()
    }

    /// Whether no message waits.
    pub fn is_empty(&self) -> (r: bool)
        requires
            self.wf(),
        ensures
            r == (self@.len() == 0),
    {
        self.queue.is_empty()
    }

    /// Whether `N` messages wait.
    pub fn is_full(&self) -> (r: bool)
        requires
            self.wf(),
        ensures
            r == (self@.len() == N),
    {
        self.queue.is_full()
    }

    /// Number of messages that wait.
    pub fn len(&self) -> (r: usize)
        requires
            self.wf(),
        ensures
            r == self@.len(),
            r <= N,
    {
        self.queue.len()
    }

    /// Number of messages that the channel holds at most.
    pub fn capacity(&self) -> (r: usize)
        ensures
            r == N,
    {
        N
    }
}

/// The slot of a signal after `value` was signalled: it holds that value,
/// whatever it held before.
pub open spec fn after_signal<T>(slot: Option<T>, value: T) -> Option<T> {
    Some(value)
}

/// What a waiter that looks at the slot gets, and the slot afterwards: the
/// value that was there, and an empty slot.
pub open spec fn after_take<T>(slot: Option<T>) -> (Option<T>, Option<T>) {
    (slot, None)
}

/// Two values signalled before anyone looks: the one waiter gets the second
/// value, never the first, and nothing is left for a further waiter.
pub proof fn lemma_latest_value_wins<T>(slot: Option<T>, first: T, second: T)
    ensures
        after_take(after_signal(after_signal(slot, first), second)).0 == Some(second),
        after_take(after_signal(after_signal(slot, first), second)).1 is None,
        after_take(after_take(after_signal(after_signal(slot, first), second)).1).0 is None,
{
}

/// A signal from one core to the other: one slot for a value. Signalling
/// overwrites a value that nobody took, so the latest value wins, and
/// taking the value empties the slot. A signal without a value to pass has
/// the unit type for `T`.
pub struct IpcSignal<T> {
    slot: Option<T>,
}

impl<T> View for IpcSignal<T> {
    type V = Option<T>;

    /// The value that waits to be taken, if any.
    closed spec fn view(&self) -> Option<T> {
        self.slot
    }
}

impl<T> IpcSignal<T> {
    /// A signal with an empty slot.
    pub fn new() -> (r: Self)
        ensures
            r@ is None,
    {
        IpcSignal { slot: None }
    }

    /// Puts `value` into the slot, over any value that waits there. The
    /// caller wakes the task that waits, if there is one.
    pub fn signal(&mut self, value: T)
        ensures
            final(self)@ == after_signal(old(self)@, value),
            final(self)@ == Some(value),
    {
        self.slot = Some(value);
    }

    /// Takes the value out of the slot without waiting: returns what was
    /// there, and leaves the slot empty.
    pub fn check_and_clear(&mut self) -> (r: Option<T>)
        ensures
            (r, final(self)@) == after_take(old(self)@),
            r == old(self)@,
            final(self)@ is None,
    {
        self.slot.take()
    }

    /// One look of a waiter at the slot: with a value there the wait is
    /// over, the waiter gets the value and the slot is empty; with none the
    /// waiter goes on waiting and looks again.
    pub fn wait(&mut self) -> (r: Option<T>)
        ensures
            (r, final(self)@) == after_take(old(self)@),
            r == old(self)@,
            final(self)@ is None,
    {
        self.check_and_clear()
    }

    /// Takes the value out of the slot without waiting.
    pub fn try_wait(&mut self) -> (r: Option<T>)
        ensures
            (r, final(self)@) == after_take(old(self)@),
            r == old(self)@,
            final(self)@ is None,
    {
        self.check_and_clear()
    }

    /// Whether a value waits to be taken.
    pub fn is_signaled(&self) -> (r: bool)
        ensures
            r == self@ is Some,
    {
        self.slot.is_some()
    }
}

/// The count after one release: one more, unless the maximum is reached.
pub open spec fn released(count: u8, max: u8) -> u8 {
    if count >= max {
        count
    } else {
        (count + 1) as u8
    }
}

/// The count after one acquisition, or `None` where the count is 0 and
/// nothing can be taken.
pub open spec fn acquired(count: u8) -> Option<u8> {
    if count == 0 {
        None
    } else {
        Some((count - 1) as u8)
    }
}

/// One acquisition on the count `count`: the count to store, or `None`
/// where nothing can be taken.
pub fn acquire_step(count: u8) -> (r: Option<u8>)
    ensures
        r == acquired(count),
{
    if count == 0 {
        None
    } else {
        Some(count - 1)
    }
}

/// One release on the count `count` with the largest count `max`: the
/// count to store, or `None` where the largest count is reached and
/// nothing is to be stored.
pub fn release_step(count: u8, max: u8) -> (r: Option<u8>)
    ensures
        r is Some == (count < max),
        r matches Some(next) ==> next == released(count, max),
        r is None ==> released(count, max) == count,
{
    if count >= max {
        None
    } else {
        Some(count + 1)
    }
}

/// The count after `times` releases in a row.
pub open spec fn released_times(count: u8, max: u8, times: nat) -> u8
    decreases times,
{
    if times == 0 {
        count
    } else {
        released(released_times(count, max, (times - 1) as nat), max)
    }
}

/// A counting semaphore between the cores, with a largest count.
pub struct IpcSemaphore {
    count: u8,
    max: u8,
}

impl IpcSemaphore {
    /// The count.
    pub closed spec fn spec_count(&self) -> u8 {
        self.count
    }

    /// The largest count that a release leads to.
    pub closed spec fn spec_max(&self) -> u8 {
        self.max
    }

    /// A semaphore with the count `initial` and the largest count `max`.
    pub fn new(initial: u8, max: u8) -> (r: Self)
        ensures
            r.spec_count() == initial,
            r.spec_max() == max,
    {
        IpcSemaphore { count: initial, max }
    }

    /// Takes one from the count, or returns `false` when the count is 0.
    pub fn try_acquire(&mut self) -> (r: bool)
        ensures
            r == (old(self).spec_count() > 0),
            final(self).spec_count() == match acquired(old(self).spec_count()) {
                Some(next) => next,
                None => old(self).spec_count(),
            },
            final(self).spec_max() == old(self).spec_max(),
    {
        match acquire_step(self.count) {
            Some(next) => {
                self.count = next;
                true
            },
            None => false,
        }
    }

    /// Adds one to the count, unless the largest count is reached: then the
    /// call changes nothing.
    pub fn release(&mut self)
        ensures
            final(self).spec_count() == released(old(self).spec_count(), old(self).spec_max()),
            final(self).spec_max() == old(self).spec_max(),
    {
        match release_step(self.count, self.max) {
            Some(next) => {
                self.count = next;
            },
            None => {},
        }
    }

    /// The count.
    pub fn count(&self) -> (r: u8)
        ensures
            r == self.spec_count(),
    {
        self.count
    }

    /// The largest count.
    pub fn max(&self) -> (r: u8)
        ensures
            r == self.spec_max(),
    {
        self.max
    }
}

/// However often a semaphore is released, a count that was at most the
/// maximum stays so, and once the maximum is reached it stays there.
pub proof fn lemma_release_bounded(count: u8, max: u8, times: nat)
    requires
        count <= max,
    ensures
        released_times(count, max, times) <= max,
        released_times(count, max, times) == if count + times >= max {
            max as int
        } else {
            count + times
        },
    decreases times,
{
    if times > 0 {
        lemma_release_bounded(count, max, (times - 1) as nat);
    }
}

/// State of both cores.
#[derive(Debug, Clone, Copy)]
pub struct MulticoreStats {
    /// Whether the first core runs.
    pub core0_active: bool,
    /// Whether the start of the second core has been asked for.
    pub core1_started: bool,
    /// Whether the second core runs.
    pub core1_ready: bool,
}

impl MulticoreStats {
    /// The state now. The first core always runs.
    pub fn current(core1: &Core1) -> (r: Self)
        ensures
            r.core0_active,
            r.core1_started == core1.spec_started(),
            r.core1_ready == core1.spec_ready(),
    {
        MulticoreStats {
            core0_active: true,
            core1_started: core1.is_started(),
            core1_ready: core1.is_ready(),
        }
    }
}

} // verus!
