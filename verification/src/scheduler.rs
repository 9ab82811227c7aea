//! Scheduling placements over a bounded pool of accounts.
//!
//! Each placement task runs the same lifecycle: it waits for a free account,
//! issues one placement call with it, waits out the mandatory cooldown
//! whatever the call's outcome, and returns the account to the pool. The
//! account is the only serialization point: it is held exclusively for the
//! task's whole lifecycle, cooldown included, so each account's own
//! placements never overlap.
//!
//! The pool and the per-task state machine here are the scheduling rules; an
//! embedding runtime performs each [`TaskAction`] (issue the call, sleep the
//! cooldown) and feeds the resulting [`TaskEvent`] back into
//! [`task_step`].

use vstd::prelude::*;

use crate::palette::Color;

verus! {

/// The mandatory wait, in seconds, after every placement before the same
/// account may place again.
pub const COOLDOWN_SECS: u64 = 300;

/// A bounded pool of account identities `0 .. size`. An identity is either
/// free (available for checkout) or checked out by exactly one task.
pub struct AccountPool {
    free: Vec<usize>,
    size: usize,
}

impl AccountPool {
    /// The number of accounts the pool was created with.
    pub closed spec fn spec_size(&self) -> int {
        self.size as int
    }

    /// The identities currently free, in return order (most recently
    /// returned last).
    pub closed spec fn free_accounts(&self) -> Seq<usize> {
        self.free@
    }

    /// Well-formed: every free identity is one of the pool's, and no
    /// identity is free twice, so no account can be handed to two tasks.
    pub closed spec fn wf(&self) -> bool {
        &&& forall|i: int|
            0 <= i < self.free@.len() ==> (#[trigger] self.free@[i]) < self.size
        &&& self.free@.no_duplicates()
    }

    /// Creates a pool in which every one of the `size` accounts is free.
    pub fn new(size: usize) -> (r: AccountPool)
        ensures
            r.wf(),
            r.spec_size() == size,
            r.free_accounts().len() == size,
            forall|i: int| 0 <= i < size ==> #[trigger] r.free_accounts()[i] == i,
    {
        let mut free: Vec<usize> = Vec::new();
        let mut i: usize = 0;
        while i < size
            invariant
                i <= size,
                free@.len() == i,
                forall|j: int| 0 <= j < i ==> #[trigger] free@[j] == j,
            decreases size - i,
        {
            free.push(i);
            i = i + 1;
        }
        AccountPool { free, size }
    }

    /// Hands out a free account, if any: the most recently returned one
    /// leaves the free set and is no longer free, so it cannot be handed out
    /// again until it is given back.
    pub fn checkout(&mut self) -> (r: Option<usize>)
        requires
            old(self).wf(),
        ensures
            final(self).wf(),
            final(self).spec_size() == old(self).spec_size(),
            r is Some <==> old(self).free_accounts().len() > 0,
            r is None ==> final(self).free_accounts() == old(self).free_accounts(),
            r is Some ==> {
                &&& r->Some_0 < old(self).spec_size()
                &&& r->Some_0 == old(self).free_accounts().last()
                &&& final(self).free_accounts() == old(self).free_accounts().drop_last()
                &&& !final(self).free_accounts().contains(r->Some_0)
            },
    {
        let r = self.free.pop();
        proof {
            if old(self).free@.len() > 0 {
                let a = old(self).free@.last();
                assert forall|j: int| 0 <= j < self.free@.len() implies self.free@[j] != a by {
                    assert(old(self).free@[j] == self.free@[j]);
                    assert(old(self).free@[old(self).free@.len() - 1] == a);
                }
                assert(!self.free@.contains(a));
            }
        }
        r
    }

    /// Returns a checked-out account to the pool, making it free again.
    pub fn give_back(&mut self, account: usize)
        requires
            old(self).wf(),
            account < old(self).spec_size(),
            !old(self).free_accounts().contains(account),
        ensures
            final(self).wf(),
            final(self).spec_size() == old(self).spec_size(),
            final(self).free_accounts() == old(self).free_accounts().push(account),
    {
        proof {
            let pushed = old(self).free@.push(account);
            assert forall|i: int, j: int|
                0 <= i < pushed.len() && 0 <= j < pushed.len() && i != j implies pushed[i]
                != pushed[j] by {
                if i < pushed.len() - 1 && j < pushed.len() - 1 {
                    assert(pushed[i] == old(self).free@[i]);
                    assert(pushed[j] == old(self).free@[j]);
                } else if i == pushed.len() - 1 {
                    assert(old(self).free@.contains(old(self).free@[j]));
                } else {
                    assert(old(self).free@.contains(old(self).free@[i]));
                }
            }
        }
        self.free.push(account);
    }
}

/// A pool never hands out an account that is not free: while a task holds
/// `a`, every checkout from the pool yields some other account.
pub proof fn lemma_no_double_handout(pool: AccountPool, a: usize)
    requires
        pool.wf(),
        !pool.free_accounts().contains(a),
        pool.free_accounts().len() > 0,
    ensures
        pool.free_accounts().last() != a,
{
    assert(pool.free_accounts().contains(pool.free_accounts().last()));
}

/// The phase of one placement task's lifecycle. A task holds its account
/// exclusively from acquisition through the end of its cooldown.
#[derive(Clone, Copy, Debug, PartialEq, Eq, Structural)]
pub enum TaskPhase {
    /// Waiting for a free account.
    Pending,
    /// Holding `account`; the placement call is about to be issued.
    AccountAcquired { account: usize },
    /// Holding `account`; the placement call is outstanding.
    InFlight { account: usize },
    /// Holding `account`; waiting out the mandatory cooldown.
    Cooldown { account: usize },
    /// Finished; the account has been released. A task is never retried.
    Complete,
}

/// An event fed into the task state machine by the embedding runtime.
#[derive(Clone, Copy, Debug, PartialEq, Eq, Structural)]
pub enum TaskEvent {
    /// The pool handed the task the account `account`.
    AccountGranted { account: usize },
    /// The placement call has been sent.
    CallIssued,
    /// The placement call finished, successfully or not.
    CallFinished { ok: bool },
    /// The cooldown wait has elapsed.
    CooldownElapsed,
}

/// What the embedding runtime must do next for a task.
#[derive(Clone, Copy, Debug, PartialEq, Eq, Structural)]
pub enum TaskAction {
    /// Issue the task's placement call with `account`'s credential.
    IssueCall { account: usize },
    /// Await the outstanding call's outcome.
    AwaitCall { account: usize },
    /// Sleep `secs` seconds before `account` may be reused.
    WaitCooldown { account: usize, secs: u64 },
    /// Return `account` to the pool; the task is finished.
    ReleaseAccount { account: usize },
}

/// Whether `event` is the one the task in `phase` is waiting for.
pub open spec fn step_permitted(phase: TaskPhase, event: TaskEvent) -> bool {
    match (phase, event) {
        (TaskPhase::Pending, TaskEvent::AccountGranted { .. }) => true,
        (TaskPhase::AccountAcquired { .. }, TaskEvent::CallIssued) => true,
        (TaskPhase::InFlight { .. }, TaskEvent::CallFinished { .. }) => true,
        (TaskPhase::Cooldown { .. }, TaskEvent::CooldownElapsed) => true,
        _ => false,
    }
}

/// The transition relation of one placement task: the next phase and the
/// action the runtime must perform. `wait_secs` is the cooldown wait
/// (base cooldown plus jitter) to impose once the call finishes.
pub open spec fn step_spec(phase: TaskPhase, event: TaskEvent, wait_secs: u64) -> (
    TaskPhase,
    TaskAction,
) {
    match (phase, event) {
        (TaskPhase::Pending, TaskEvent::AccountGranted { account }) => (
            TaskPhase::AccountAcquired { account },
            TaskAction::IssueCall { account },
        ),
        (TaskPhase::AccountAcquired { account }, TaskEvent::CallIssued) => (
            TaskPhase::InFlight { account },
            TaskAction::AwaitCall { account },
        ),
        (TaskPhase::InFlight { account }, TaskEvent::CallFinished { .. }) => (
            TaskPhase::Cooldown { account },
            TaskAction::WaitCooldown { account, secs: wait_secs },
        ),
        (TaskPhase::Cooldown { account }, TaskEvent::CooldownElapsed) => (
            TaskPhase::Complete,
            TaskAction::ReleaseAccount { account },
        ),
        // Unreachable under `step_permitted`.
        _ => (phase, TaskAction::ReleaseAccount { account: 0 }),
    }
}

/// Advances one placement task by one event. The task keeps its account
/// through every transition until release, and a finished call always leads
/// into the cooldown, whatever its outcome.
pub fn task_step(phase: TaskPhase, event: TaskEvent, wait_secs: u64) -> (r: (
    TaskPhase,
    TaskAction,
))
    requires
        step_permitted(phase, event),
    ensures
        r == step_spec(phase, event, wait_secs),
{
    match (phase, event) {
        (TaskPhase::Pending, TaskEvent::AccountGranted { account }) => (
            TaskPhase::AccountAcquired { account },
            TaskAction::IssueCall { account },
        ),
        (TaskPhase::AccountAcquired { account }, TaskEvent::CallIssued) => (
            TaskPhase::InFlight { account },
            TaskAction::AwaitCall { account },
        ),
        (TaskPhase::InFlight { account }, TaskEvent::CallFinished { ok: _ }) => (
            TaskPhase::Cooldown { account },
            TaskAction::WaitCooldown { account, secs: wait_secs },
        ),
        (TaskPhase::Cooldown { account }, TaskEvent::CooldownElapsed) => (
            TaskPhase::Complete,
            TaskAction::ReleaseAccount { account },
        ),
        // Unreachable under the `step_permitted` precondition.
        _ => (phase, TaskAction::ReleaseAccount { account: 0 }),
    }
}

/// Failure is localized to its own task: a task whose call failed takes
/// exactly the same transition as one whose call succeeded - into the same
/// cooldown on the same account - and after the full cooldown the account is
/// released for the next task. A step depends only on the task's own phase
/// and event, so no outcome of one task enters a sibling's transition.
pub proof fn lemma_failure_is_localized(account: usize, wait_secs: u64)
    ensures
        step_spec(
            TaskPhase::InFlight { account },
            TaskEvent::CallFinished { ok: false },
            wait_secs,
        ) == step_spec(
            TaskPhase::InFlight { account },
            TaskEvent::CallFinished { ok: true },
            wait_secs,
        ),
        step_spec(
            TaskPhase::InFlight { account },
            TaskEvent::CallFinished { ok: false },
            wait_secs,
        ).0 == (TaskPhase::Cooldown { account }),
        step_spec(TaskPhase::Cooldown { account }, TaskEvent::CooldownElapsed, wait_secs).1 == (
        TaskAction::ReleaseAccount { account }),
{
}

/// One placement call per task: a step asks for the call to be issued
/// exactly when the task leaves `Pending`, and no step ever returns a task
/// to `Pending`, so one lifecycle issues exactly one call.
pub proof fn lemma_one_call_per_lifecycle(phase: TaskPhase, event: TaskEvent, wait_secs: u64)
    requires
        step_permitted(phase, event),
    ensures
        step_spec(phase, event, wait_secs).1 is IssueCall <==> phase is Pending,
        !(step_spec(phase, event, wait_secs).0 is Pending),
{
}

/// Relies on rand::random_range: a uniform draw from the inclusive range
/// `0..=max`.
#[verifier::external_body]
fn draw_jitter(max: u32) -> (r: u32)
    ensures
        r <= max,
{
    rand::random_range(0..=max)
}

/// The cooldown wait for one placement given the drawn jitter: the fixed
/// base cooldown plus the jitter, in seconds.
pub fn cooldown_secs(jitter: u32) -> (r: u64)
    ensures
        r == COOLDOWN_SECS + jitter as u64,
{
    COOLDOWN_SECS + jitter as u64
}

/// Draws one placement's cooldown wait: the fixed base cooldown plus an
/// independently drawn uniform jitter of at most `max_jitter` seconds.
/// Jitter only ever lengthens the wait; it never reorders intents.
pub fn placement_wait_secs(max_jitter: u32) -> (r: u64)
    ensures
        COOLDOWN_SECS <= r <= COOLDOWN_SECS + max_jitter as u64,
{
    let jitter = draw_jitter(max_jitter);
    cooldown_secs(jitter)
}

/// The intents of the first `n` template entries, shifted by the configured
/// origin; an intent whose shifted coordinates leave the 32-bit coordinate
/// range is dropped, the order of the rest preserved.
pub open spec fn offset_prefix(
    template: Seq<(i32, i32, Color)>,
    n: int,
    ox: int,
    oy: int,
) -> Seq<(i32, i32, Color)>
    decreases n,
{
    if n <= 0 {
        Seq::empty()
    } else {
        offset_prefix(template, n - 1, ox, oy) + ({
            let p = template[n - 1];
            if i32::MIN <= p.0 + ox <= i32::MAX && i32::MIN <= p.1 + oy <= i32::MAX {
                seq![(((p.0 + ox) as i32, (p.1 + oy) as i32, p.2))]
            } else {
                Seq::empty()
            }
        })
    }
}

/// The whole template shifted by the configured origin, in template order.
pub open spec fn offset_template_spec(
    template: Seq<(i32, i32, Color)>,
    ox: int,
    oy: int,
) -> Seq<(i32, i32, Color)> {
    offset_prefix(template, template.len() as int, ox, oy)
}

/// Shifts every intent of the template by the configured origin, preserving
/// template (raster) order. An intent whose shifted coordinates cannot be
/// carried in the wire's 32-bit range is dropped: it lies outside every
/// addressable coordinate.
pub fn offset_template(template: &Vec<(i32, i32, Color)>, ox: i32, oy: i32) -> (r: Vec<
    (i32, i32, Color),
>)
    ensures
        r@ == offset_template_spec(template@, ox as int, oy as int),
{
    let mut out: Vec<(i32, i32, Color)> = Vec::new();
    let mut i: usize = 0;
    while i < template.len()
        invariant
            i <= template@.len(),
            out@ == offset_prefix(template@, i as int, ox as int, oy as int),
        decreases template@.len() - i,
    {
        let p = template[i];
        let sx: i64 = p.0 as i64 + ox as i64;
        let sy: i64 = p.1 as i64 + oy as i64;
        if i32::MIN as i64 <= sx && sx <= i32::MAX as i64 && i32::MIN as i64 <= sy && sy
            <= i32::MAX as i64 {
            out.push((sx as i32, sy as i32, p.2));
        }
        proof {
            assert(out@ =~= offset_prefix(template@, i as int + 1, ox as int, oy as int));
        }
        i = i + 1;
    }
    out
}

/// Dispatch covers the whole template: when every shifted coordinate fits
/// the wire's 32-bit range, the dispatched sequence holds exactly one
/// placement per template intent, in template order, each shifted by the
/// origin - so a three-intent template yields exactly three placement
/// attempts per pass.
pub proof fn lemma_offset_preserves_every_intent(
    template: Seq<(i32, i32, Color)>,
    ox: int,
    oy: int,
)
    requires
        forall|i: int|
            0 <= i < template.len() ==> {
                let p = #[trigger] template[i];
                i32::MIN <= p.0 + ox <= i32::MAX && i32::MIN <= p.1 + oy <= i32::MAX
            },
    ensures
        offset_template_spec(template, ox, oy).len() == template.len(),
        forall|i: int|
            0 <= i < template.len() ==> #[trigger] offset_template_spec(template, ox, oy)[i] == ((
                (template[i].0 + ox) as i32,
                (template[i].1 + oy) as i32,
                template[i].2,
            )),
{
    lemma_offset_prefix_preserves(template, template.len() as int, ox, oy);
}

proof fn lemma_offset_prefix_preserves(template: Seq<(i32, i32, Color)>, n: int, ox: int, oy: int)
    requires
        0 <= n <= template.len(),
        forall|i: int|
            0 <= i < n ==> {
                let p = #[trigger] template[i];
                i32::MIN <= p.0 + ox <= i32::MAX && i32::MIN <= p.1 + oy <= i32::MAX
            },
    ensures
        offset_prefix(template, n, ox, oy).len() == n,
        forall|i: int|
            0 <= i < n ==> #[trigger] offset_prefix(template, n, ox, oy)[i] == ((
                (template[i].0 + ox) as i32,
                (template[i].1 + oy) as i32,
                template[i].2,
            )),
    decreases n,
{
    if n > 0 {
        lemma_offset_prefix_preserves(template, n - 1, ox, oy);
        assert forall|i: int| 0 <= i < n implies #[trigger] offset_prefix(template, n, ox, oy)[i]
            == (((template[i].0 + ox) as i32, (template[i].1 + oy) as i32, template[i].2)) by {
            if i < n - 1 {
                assert(offset_prefix(template, n, ox, oy)[i] == offset_prefix(
                    template,
                    n - 1,
                    ox,
                    oy,
                )[i]);
            }
        }
    }
}

} // verus!
