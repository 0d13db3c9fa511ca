//! The fixed task set and the priority-ceiling discipline under which the tasks share the LED
//! ring and the serial transmitter.
use vstd::prelude::*;

verus! {

/// The execution contexts of the application.
#[derive(Clone, Copy, Debug, PartialEq, Eq, Structural)]
pub enum Task {
    /// Timer-scheduled task that advances the cycle animation.
    CycleLeds,
    /// Timer-scheduled task that samples the accelerometer.
    AccelLeds,
    /// Interrupt handler of the user button.
    ButtonPressed,
    /// Interrupt handler of a byte received on the serial line.
    HandleSerial,
}

/// A resource touched by more than one execution context.
#[derive(Clone, Copy, Debug, PartialEq, Eq, Structural)]
pub enum Resource {
    LedRing,
    SerialTx,
}

/// All tasks, in a fixed order.
pub open spec fn all_tasks() -> Seq<Task> {
    seq![Task::CycleLeds, Task::AccelLeds, Task::ButtonPressed, Task::HandleSerial]
}

/// The static priority of a task: a higher number preempts a lower one.
pub open spec fn priority_of(t: Task) -> u8 {
    match t {
        Task::CycleLeds => 1,
        Task::AccelLeds => 1,
        Task::ButtonPressed => 2,
        Task::HandleSerial => 3,
    }
}

/// Which tasks touch which shared resource.
pub open spec fn uses_spec(t: Task, r: Resource) -> bool {
    match r {
        Resource::LedRing => true,
        Resource::SerialTx => t != Task::CycleLeds,
    }
}

/// `c` is the ceiling of `r`: the highest priority among the tasks that touch it.
pub open spec fn is_ceiling(r: Resource, c: u8) -> bool {
    &&& forall|t: Task| uses_spec(t, r) ==> priority_of(t) <= c
    &&& exists|t: Task| uses_spec(t, r) && priority_of(t) == c
}

/// The effective priority of a task while it holds `r`.
pub open spec fn locked_priority(current: u8, ceiling: u8) -> u8 {
    if current < ceiling {
        ceiling
    } else {
        current
    }
}

/// Returns the static priority of a task.
pub fn priority(t: Task) -> (r: u8)
    ensures
        r == priority_of(t),
{
    match t {
        Task::CycleLeds => 1,
        Task::AccelLeds => 1,
        Task::ButtonPressed => 2,
        Task::HandleSerial => 3,
    }
}

/// Returns whether a task touches a shared resource.
pub fn uses(t: Task, r: Resource) -> (b: bool)
    ensures
        b == uses_spec(t, r),
{
    match r {
        Resource::LedRing => true,
        Resource::SerialTx => t != Task::CycleLeds,
    }
}

/// Computes the ceiling of a resource.
pub fn ceiling(r: Resource) -> (c: u8)
    ensures
        is_ceiling(r, c),
{
    let tasks: [Task; 4] = [Task::CycleLeds, Task::AccelLeds, Task::ButtonPressed, Task::HandleSerial];
    assert(tasks@ =~= all_tasks());
    let mut c: u8 = 0;
    let mut i: usize = 0;
    while i < 4
        invariant
            i <= 4,
            tasks@ == all_tasks(),
            forall|j: int| 0 <= j < i && uses_spec(all_tasks()[j], r) ==> priority_of(all_tasks()[j]) <= c,
            c == 0 || exists|j: int| 0 <= j < i && uses_spec(all_tasks()[j], r) && priority_of(all_tasks()[j]) == c,
        decreases 4 - i,
    {
        let t: Task = tasks[i];
        if uses(t, r) && priority(t) > c {
            c = priority(t);
        }
        i = i + 1;
    }
    assert(uses_spec(all_tasks()[2], r));
    assert forall|t: Task| uses_spec(t, r) implies priority_of(t) <= c by {
        match t {
            Task::CycleLeds => assert(all_tasks()[0] == t),
            Task::AccelLeds => assert(all_tasks()[1] == t),
            Task::ButtonPressed => assert(all_tasks()[2] == t),
            Task::HandleSerial => assert(all_tasks()[3] == t),
        }
    }
    c
}

/// Whether task `t` must take `r` inside a critical section: some task of higher priority also
/// touches it.
pub fn must_lock(t: Task, r: Resource) -> (b: bool)
    ensures
        b == (uses_spec(t, r) && exists|u: Task| uses_spec(u, r) && priority_of(u) > priority_of(t)),
{
    let c: u8 = ceiling(r);
    uses(t, r) && priority(t) < c
}

/// The effective priority while holding a resource of the given ceiling: raised to the ceiling,
/// never lowered.
pub fn lock_priority(current: u8, ceiling: u8) -> (p: u8)
    ensures
        p == locked_priority(current, ceiling),
        p >= current && p >= ceiling,
{
    if current < ceiling {
        ceiling
    } else {
        current
    }
}

/// Whether task `t` may preempt a context running at the given effective priority.
pub fn may_preempt(running: u8, t: Task) -> (b: bool)
    ensures
        b == (priority_of(t) > running),
{
    priority(t) > running
}

/// While a context holds a resource at its ceiling, no task that touches the resource can
/// preempt it: the accesses to a shared resource exclude one another.
pub proof fn lemma_lock_excludes(r: Resource, c: u8, current: u8, u: Task)
    requires
        is_ceiling(r, c),
        uses_spec(u, r),
    ensures
        !(priority_of(u) > locked_priority(current, c)),
{
}

} // verus!
