//! The wait queue: a FIFO registry of suspended callers with primitive
//! suspend/resume operations.
//!
//! A caller waits by the cooperative protocol "prepare, check, suspend,
//! cleanup": `prepare_wait` checks the condition and registers a waiter
//! entry only when the condition is false; each time the caller is resumed
//! it runs one `wait_step` with the freshly re-evaluated condition, which
//! either finishes the wait (removing the entry) or tells the caller to
//! block again (the entry stays, marked suspended again).  A wake is only a
//! hint to re-check, never a promise that the condition is true, so the
//! re-check step is mandatory on every resume.  `notify` marks up to a
//! requested number of suspended waiters runnable, in FIFO order, without
//! removing their entries: removal is always the waiter's own cleanup.
use vstd::prelude::*;

use crate::Error;

verus! {

/// One registered waiter: its identity and whether it has been marked
/// runnable by a wake (`runnable == false` means it is suspended).
#[derive(Clone, Copy)]
pub struct WaiterEntry {
    pub token: u64,
    pub runnable: bool,
}

/// No two entries share a token.
pub open spec fn tokens_distinct(s: Seq<WaiterEntry>) -> bool {
    forall|i: int, j: int| 0 <= i < j < s.len() ==> s[i].token != s[j].token
}

/// Some entry carries the token.
pub open spec fn contains_token(s: Seq<WaiterEntry>, t: u64) -> bool {
    exists|i: int| 0 <= i < s.len() && s[i].token == t
}

/// The position of the entry carrying the token (meaningful when one does).
pub open spec fn token_index(s: Seq<WaiterEntry>, t: u64) -> int {
    choose|i: int| 0 <= i < s.len() && s[i].token == t
}

/// The registry after the waiter with token `t` removed its entry.
pub open spec fn removed_token(s: Seq<WaiterEntry>, t: u64) -> Seq<WaiterEntry> {
    if contains_token(s, t) {
        s.remove(token_index(s, t))
    } else {
        s
    }
}

/// The registry after the waiter with token `t` went back to sleep: its
/// entry stays at its place, marked suspended again.
pub open spec fn resuspended(s: Seq<WaiterEntry>, t: u64) -> Seq<WaiterEntry> {
    Seq::new(
        s.len(),
        |i: int|
            if s[i].token == t {
                WaiterEntry { token: t, runnable: false }
            } else {
                s[i]
            },
    )
}

/// Number of suspended entries among the first `i`.
pub open spec fn suspended_before(s: Seq<WaiterEntry>, i: int) -> nat
    decreases i,
{
    if i <= 0 {
        0
    } else {
        suspended_before(s, i - 1) + if s[i - 1].runnable {
            0nat
        } else {
            1nat
        }
    }
}

/// Number of suspended entries in the whole registry.
pub open spec fn suspended_count(s: Seq<WaiterEntry>) -> nat {
    suspended_before(s, s.len() as int)
}

/// The registry after a wake of up to `count` waiters: the first `count`
/// suspended entries, in FIFO order, become runnable; entries are never
/// removed by a wake.
pub open spec fn notified(s: Seq<WaiterEntry>, count: nat) -> Seq<WaiterEntry> {
    Seq::new(
        s.len(),
        |i: int|
            WaiterEntry {
                token: s[i].token,
                runnable: s[i].runnable || suspended_before(s, i) < count,
            },
    )
}

/// How many waiters a wake of up to `count` actually signals.
pub open spec fn wake_count(s: Seq<WaiterEntry>, count: nat) -> nat {
    if suspended_count(s) < count {
        suspended_count(s)
    } else {
        count
    }
}

/// How the suspension of a waiter ended.
#[derive(Clone, Copy, PartialEq, Eq, Structural, Debug)]
pub enum WaitOutcome {
    /// The condition was observed true; the waiter's entry is removed.
    Completed,
    /// An external signal aborted the wait; the waiter's entry is removed.
    Interrupted,
}

/// What caused a suspended caller to resume.
#[derive(Clone, Copy, PartialEq, Eq, Structural, Debug)]
pub enum WakeEvent {
    /// An explicit wake (or a spurious one): only a hint to re-check.
    Woken,
    /// An externally delivered interruption.
    Interruption,
}

/// Identifies one registered waiter between its registration and its
/// cleanup.  Handles are only handed out by `prepare_wait` and consumed by
/// the `wait_step` that finishes the wait.
pub struct WaiterHandle {
    token: u64,
    interruptible: bool,
}

impl WaiterHandle {
    /// The token of this waiter's registry entry.
    pub closed spec fn token(&self) -> u64 {
        self.token
    }

    /// Whether an interruption may end this wait.
    pub closed spec fn interruptible(&self) -> bool {
        self.interruptible
    }
}

/// Result of beginning a wait.
pub enum WaitStart {
    /// The condition was already true: no entry was registered.
    Ready,
    /// The caller is registered and must suspend, then run `wait_step` on
    /// every resume.
    Registered(WaiterHandle),
}

/// What a resumed waiter must do next.
pub enum WaitStep {
    /// The wait is over; the waiter's entry has been removed.
    Finish(WaitOutcome),
    /// The condition is still false and no interruption ends the wait:
    /// suspend again and keep the handle.
    Block(WaiterHandle),
}

/// The FIFO registry of suspended callers.
pub struct WaitQueue {
    entries: Vec<WaiterEntry>,
    next_token: u64,
}

impl View for WaitQueue {
    type V = Seq<WaiterEntry>;

    closed spec fn view(&self) -> Seq<WaiterEntry> {
        self.entries@
    }
}

impl WaitQueue {
    /// Entry tokens grow strictly along the FIFO and stay below the next
    /// token to be issued, so every entry is identified uniquely.
    pub closed spec fn wf(&self) -> bool {
        &&& forall|i: int, j: int|
            0 <= i < j < self.entries@.len() ==> self.entries@[i].token
                < self.entries@[j].token
        &&& forall|i: int|
            0 <= i < self.entries@.len() ==> self.entries@[i].token < self.next_token
    }

    /// How many waiter registrations this queue has performed over its
    /// lifetime.
    pub closed spec fn tokens_issued(&self) -> u64 {
        self.next_token
    }

    /// The queue can register one more waiter (a machine limit: at most
    /// `u64::MAX` registrations over the queue's lifetime).
    pub open spec fn can_register(&self) -> bool {
        self.tokens_issued() < u64::MAX
    }

    /// A well-formed queue never holds two entries with one token.
    pub proof fn lemma_wf_tokens_distinct(&self)
        requires
            self.wf(),
        ensures
            tokens_distinct(self@),
    {
    }

    /// Creates an empty FIFO waiter registry.  The name tags the queue for
    /// tooling and debugging only and has no behavioral effect.  Creation
    /// itself cannot fail: storage is only obtained as waiters register.
    pub fn try_new(_name: &str) -> (r: Result<WaitQueue, Error>)
        ensures
            r matches Ok(q) && q@ == Seq::<WaiterEntry>::empty() && q.wf() && q.tokens_issued()
                == 0,
    {
        Ok(WaitQueue { entries: Vec::new(), next_token: 0 })
    }

    /// Whether one more waiter can register (the lifetime registration
    /// budget is not exhausted).
    pub fn has_register_budget(&self) -> (b: bool)
        ensures
            b == self.can_register(),
    {
        self.next_token < u64::MAX
    }

    /// Number of registered waiters.
    pub fn len(&self) -> (n: usize)
        ensures
            n == self@.len(),
    {
        self.entries.len()
    }

    /// Begins a wait for a condition, already evaluated by the caller as
    /// `cond`.  A true condition returns at once without registering a
    /// waiter (the fast path); otherwise a fresh waiter entry is appended
    /// to the FIFO, suspended, and the caller gets its handle.
    pub fn prepare_wait(&mut self, cond: bool, interruptible: bool) -> (r: WaitStart)
        requires
            old(self).wf(),
            !cond ==> old(self).can_register(),
        ensures
            final(self).wf(),
            cond ==> ({
                &&& r is Ready
                &&& final(self)@ == old(self)@
                &&& final(self).tokens_issued() == old(self).tokens_issued()
            }),
            !cond ==> ({
                &&& r matches WaitStart::Registered(h)
                &&& h.interruptible() == interruptible
                &&& !contains_token(old(self)@, h.token())
                &&& contains_token(final(self)@, h.token())
                &&& final(self)@ == old(self)@.push(
                    WaiterEntry { token: h.token(), runnable: false },
                )
                &&& final(self).tokens_issued() == old(self).tokens_issued() + 1
            }),
    {
        if cond {
            return WaitStart::Ready;
        }
        let token = self.next_token;
        self.next_token = self.next_token + 1;
        self.entries.push(WaiterEntry { token, runnable: false });
        proof {
            assert(self@[self@.len() - 1].token == token);
        }
        WaitStart::Registered(WaiterHandle { token, interruptible })
    }

    /// Begins an interruptible wait: the entry point readers use.
    pub fn wait_event_interruptible(&mut self, cond: bool) -> (r: WaitStart)
        requires
            old(self).wf(),
            !cond ==> old(self).can_register(),
        ensures
            final(self).wf(),
            cond ==> ({
                &&& r is Ready
                &&& final(self)@ == old(self)@
                &&& final(self).tokens_issued() == old(self).tokens_issued()
            }),
            !cond ==> ({
                &&& r matches WaitStart::Registered(h)
                &&& h.interruptible()
                &&& !contains_token(old(self)@, h.token())
                &&& contains_token(final(self)@, h.token())
                &&& final(self)@ == old(self)@.push(
                    WaiterEntry { token: h.token(), runnable: false },
                )
                &&& final(self).tokens_issued() == old(self).tokens_issued() + 1
            }),
    {
        self.prepare_wait(cond, true)
    }

    /// One resume of a registered waiter, with the condition re-evaluated
    /// fresh by the caller as `cond`.  A true condition finishes the wait
    /// as `Completed`; a false one finishes as `Interrupted` when the
    /// resume was an interruption and the wait is interruptible; any other
    /// resume is spurious or stolen, so the caller must block again.  On
    /// both finishing paths the waiter's entry leaves the FIFO; on the
    /// blocking path it stays, suspended again.
    pub fn wait_step(&mut self, h: WaiterHandle, cond: bool, event: WakeEvent) -> (r: WaitStep)
        requires
            old(self).wf(),
            contains_token(old(self)@, h.token()),
        ensures
            final(self).wf(),
            final(self).tokens_issued() == old(self).tokens_issued(),
            cond ==> ({
                &&& r == WaitStep::Finish(WaitOutcome::Completed)
                &&& final(self)@ == removed_token(old(self)@, h.token())
            }),
            !cond && event is Interruption && h.interruptible() ==> ({
                &&& r == WaitStep::Finish(WaitOutcome::Interrupted)
                &&& final(self)@ == removed_token(old(self)@, h.token())
            }),
            !cond && !(event is Interruption && h.interruptible()) ==> ({
                &&& r matches WaitStep::Block(h2) && h2 == h
                &&& contains_token(final(self)@, h.token())
                &&& final(self)@ == resuspended(old(self)@, h.token())
            }),
    {
        let idx = self.find_index(h.token);
        proof {
            self.lemma_wf_tokens_distinct();
            lemma_token_index_is(self@, h.token(), idx as int);
        }
        if cond {
            self.entries.remove(idx);
            WaitStep::Finish(WaitOutcome::Completed)
        } else {
            let interrupt = match event {
                WakeEvent::Interruption => h.interruptible,
                WakeEvent::Woken => false,
            };
            if interrupt {
                self.entries.remove(idx);
                WaitStep::Finish(WaitOutcome::Interrupted)
            } else {
                let token = h.token;
                self.entries[idx] = WaiterEntry { token, runnable: false };
                proof {
                    assert(self@ =~= resuspended(old(self)@, h.token()));
                }
                WaitStep::Block(h)
            }
        }
    }

    /// Resumes up to `count` waiters, in FIFO order, by marking them
    /// runnable; their entries stay registered (cleanup is each waiter's
    /// own step) and nothing waits for them to actually run.  An empty
    /// queue is a no-op, not an error.  Returns how many waiters were
    /// actually signaled.
    pub fn notify(&mut self, count: usize) -> (n: usize)
        requires
            old(self).wf(),
        ensures
            final(self).wf(),
            final(self)@ == notified(old(self)@, count as nat),
            n == wake_count(old(self)@, count as nat),
            final(self).tokens_issued() == old(self).tokens_issued(),
    {
        let len = self.entries.len();
        let mut woken: usize = 0;
        let mut i: usize = 0;
        while i < len
            invariant
                i <= len,
                len == old(self)@.len(),
                self.entries@.len() == len,
                self.next_token == old(self).next_token,
                woken as nat == (if suspended_before(old(self)@, i as int) < count as nat {
                    suspended_before(old(self)@, i as int)
                } else {
                    count as nat
                }),
                forall|j: int|
                    0 <= j < i ==> self.entries@[j] == notified(old(self)@, count as nat)[j],
                forall|j: int| i <= j < len ==> self.entries@[j] == old(self)@[j],
            decreases len - i,
        {
            let e = self.entries[i];
            if !e.runnable && woken < count {
                let token = e.token;
                self.entries[i] = WaiterEntry { token, runnable: true };
                woken = woken + 1;
            }
            i = i + 1;
        }
        proof {
            assert(self@ =~= notified(old(self)@, count as nat));
        }
        woken
    }

    /// Resumes at most one waiter, in FIFO order: the single wake used on
    /// every successful write.
    pub fn try_wake(&mut self) -> (n: usize)
        requires
            old(self).wf(),
        ensures
            final(self).wf(),
            final(self)@ == notified(old(self)@, 1),
            n == wake_count(old(self)@, 1),
            n <= 1,
            final(self).tokens_issued() == old(self).tokens_issued(),
    {
        self.notify(1)
    }

    /// Position of the entry carrying `t`.
    fn find_index(&self, t: u64) -> (idx: usize)
        requires
            contains_token(self@, t),
        ensures
            idx < self@.len(),
            self@[idx as int].token == t,
            forall|j: int| 0 <= j < idx ==> self@[j].token != t,
    {
        let n = self.entries.len();
        let mut i: usize = 0;
        while i < n
            invariant
                contains_token(self@, t),
                n == self@.len(),
                i <= n,
                forall|j: int| 0 <= j < i ==> self@[j].token != t,
            decreases n - i,
        {
            if self.entries[i].token == t {
                return i;
            }
            i = i + 1;
        }
        proof {
            let k = choose|k: int| 0 <= k < self@.len() && self@[k].token == t;
            assert(false);
        }
        0
    }
}

/// With distinct tokens, the entry found at a position is the one the
/// registry's removal speaks of.
proof fn lemma_token_index_is(s: Seq<WaiterEntry>, t: u64, idx: int)
    requires
        tokens_distinct(s),
        0 <= idx < s.len(),
        s[idx].token == t,
    ensures
        contains_token(s, t),
        token_index(s, t) == idx,
        removed_token(s, t) == s.remove(idx),
{
    assert(contains_token(s, t));
    let k = token_index(s, t);
    assert(0 <= k < s.len() && s[k].token == t);
    if k != idx {
        assert(false);
    }
}

/// Counting suspended entries never shrinks along the FIFO.
proof fn lemma_suspended_before_monotonic(s: Seq<WaiterEntry>, i: int, j: int)
    requires
        i <= j,
    ensures
        suspended_before(s, i) <= suspended_before(s, j),
    decreases j - i,
{
    if i < j {
        lemma_suspended_before_monotonic(s, i, j - 1);
    }
}

/// Law: a wake of one resumes at most one waiter.  When several readers
/// are blocked on one queue and a single wake arrives, at most one entry
/// turns from suspended to runnable; every other one stays suspended.
pub proof fn lemma_notify_one_wakes_at_most_one(s: Seq<WaiterEntry>)
    ensures
        forall|i: int, j: int|
            0 <= i < s.len() && 0 <= j < s.len() && !s[i].runnable && notified(s, 1)[i].runnable
                && !s[j].runnable && notified(s, 1)[j].runnable ==> i == j,
{
    assert forall|i: int, j: int|
        0 <= i < s.len() && 0 <= j < s.len() && !s[i].runnable && notified(s, 1)[i].runnable
            && !s[j].runnable && notified(s, 1)[j].runnable implies i == j by {
        if i < j {
            assert(suspended_before(s, i + 1) == suspended_before(s, i) + 1);
            lemma_suspended_before_monotonic(s, i + 1, j);
        } else if j < i {
            assert(suspended_before(s, j + 1) == suspended_before(s, j) + 1);
            lemma_suspended_before_monotonic(s, j + 1, i);
        }
    }
}

/// Law: a wait that ends leaves no entry behind.  Removing the finished
/// waiter's entry shrinks the FIFO by exactly one, its token is gone, and
/// every other waiter is still registered exactly as before.
pub proof fn lemma_wait_leaves_no_entry(s: Seq<WaiterEntry>, t: u64)
    requires
        tokens_distinct(s),
        contains_token(s, t),
    ensures
        removed_token(s, t).len() == s.len() - 1,
        !contains_token(removed_token(s, t), t),
        forall|u: u64| u != t ==> contains_token(removed_token(s, t), u) == contains_token(s, u),
{
    let idx = token_index(s, t);
    assert(0 <= idx < s.len() && s[idx].token == t);
    let r = s.remove(idx);
    assert forall|k: int| 0 <= k < r.len() implies r[k].token != t by {
        if k < idx {
            assert(r[k] == s[k]);
        } else {
            assert(r[k] == s[k + 1]);
        }
    }
    assert forall|u: u64| u != t implies contains_token(r, u) == contains_token(s, u) by {
        if contains_token(r, u) {
            let k = choose|k: int| 0 <= k < r.len() && r[k].token == u;
            if k < idx {
                assert(s[k].token == u);
            } else {
                assert(s[k + 1].token == u);
            }
            assert(contains_token(s, u));
        }
        if contains_token(s, u) {
            let k = choose|k: int| 0 <= k < s.len() && s[k].token == u;
            if k < idx {
                assert(r[k].token == u);
            } else {
                assert(k > idx);
                assert(r[k - 1].token == u);
            }
            assert(contains_token(r, u));
        }
    }
}

} // verus!
