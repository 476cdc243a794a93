//! Notification handles and the sticky wake token they act on.

use vstd::prelude::*;

verus! {

/// A notification handle bound to one driver thread, named by its identity.
#[derive(Clone, Copy, Debug, PartialEq, Eq, Structural)]
pub struct ThreadWaker {
    thread: u64,
}

/// The handle a task is polled with: either one that wakes a thread, or the
/// handle that does nothing, which tasks hold before their first poll.
#[derive(Clone, Copy, Debug, PartialEq, Eq, Structural)]
pub enum Waker {
    Noop,
    Thread(ThreadWaker),
}

/// The wake token of one driver thread: a notification that arrives while
/// the thread is not suspended is remembered here until the thread next
/// tries to suspend.
#[derive(Debug)]
pub struct WakeToken {
    owner: u64,
    pending: bool,
}

/// A wake token as contracts see it.
pub struct TokenView {
    /// The thread whose suspension the token governs.
    pub owner: u64,
    /// Whether a notification is waiting to be observed.
    pub pending: bool,
}

impl ThreadWaker {
    /// The identity of the thread this handle wakes.
    pub closed spec fn thread(&self) -> u64 {
        self.thread
    }

    /// Captures the identity of the calling thread.
    pub fn current_thread(thread: u64) -> (waker: Self)
        ensures
            waker.thread() == thread,
    {
        ThreadWaker { thread }
    }

    /// The identity of the thread this handle wakes.
    pub fn thread_id(&self) -> (thread: u64)
        ensures
            thread == self.thread(),
    {
        self.thread
    }

    /// Notifies the owning thread: leaves a wake pending on `token` if the
    /// token belongs to this handle's thread, and leaves any other token
    /// alone.
    pub fn wake(&self, token: &mut WakeToken)
        ensures
            final(token)@ == old(token)@.after_wake(Waker::Thread(*self)),
    {
        if token.owner == self.thread {
            token.notify();
        }
    }

    /// This handle as the general handle tasks are polled with.
    pub fn into_waker(self) -> (waker: Waker)
        ensures
            waker == Waker::Thread(self),
    {
        Waker::Thread(self)
    }
}

impl Waker {
    /// The handle that notifies nobody.
    pub fn noop() -> (waker: Self)
        ensures
            waker == Waker::Noop,
    {
        Waker::Noop
    }

    /// Whether notifying through this handle reaches the thread `thread`.
    pub open spec fn targets(&self, thread: u64) -> bool {
        self matches Waker::Thread(w) && w.thread() == thread
    }

    /// Notifies through this handle; the no-op handle changes nothing.
    pub fn wake(&self, token: &mut WakeToken)
        ensures
            final(token)@ == old(token)@.after_wake(*self),
    {
        match self {
            Waker::Noop => {},
            Waker::Thread(w) => w.wake(token),
        }
    }
}

impl TokenView {
    /// The token after a notification through `waker`: a wake is pending if
    /// one was, or if the handle reaches the owner. Further notifications
    /// add nothing to a pending wake.
    pub open spec fn after_wake(self, waker: Waker) -> TokenView {
        TokenView { owner: self.owner, pending: self.pending || waker.targets(self.owner) }
    }

    /// The token after notifications through each of `wakers`, oldest first.
    pub open spec fn after_wakes(self, wakers: Seq<Waker>) -> TokenView
        decreases wakers.len(),
    {
        if wakers.len() == 0 {
            self
        } else {
            self.after_wakes(wakers.drop_last()).after_wake(wakers.last())
        }
    }

    /// The token after the owner has tried to suspend: a pending wake is
    /// used up.
    pub open spec fn after_park(self) -> TokenView {
        TokenView { owner: self.owner, pending: false }
    }
}

impl View for WakeToken {
    type V = TokenView;

    closed spec fn view(&self) -> TokenView {
        TokenView { owner: self.owner, pending: self.pending }
    }
}

impl WakeToken {
    /// The token of a thread that has not been notified.
    pub fn new(owner: u64) -> (token: Self)
        ensures
            token@ == (TokenView { owner, pending: false }),
    {
        WakeToken { owner, pending: false }
    }

    /// Records a notification for the owner. Notifications that arrive
    /// before the thread suspends collapse into one pending wake.
    pub fn notify(&mut self)
        ensures
            final(self)@ == (TokenView { owner: old(self)@.owner, pending: true }),
    {
        self.pending = true;
    }

    /// The suspend attempt of the owning thread. Answers `true` if a wake
    /// was pending, which it uses up: the thread goes on without blocking.
    /// Answers `false` if the thread has to block until it is notified.
    pub fn try_park(&mut self) -> (resumed: bool)
        ensures
            resumed == old(self)@.pending,
            final(self)@ == old(self)@.after_park(),
    {
        let resumed = self.pending;
        self.pending = false;
        resumed
    }
}

/// A notification that reaches the owner before the owner suspends is not
/// lost: whatever else is notified before or after it, the next suspend
/// attempt finds the wake pending and does not block.
pub proof fn lemma_wake_before_park_is_observed(token: TokenView, wakers: Seq<Waker>, i: int)
    requires
        0 <= i < wakers.len(),
        wakers[i].targets(token.owner),
    ensures
        token.after_wakes(wakers).pending,
        token.after_wakes(wakers).owner == token.owner,
    decreases wakers.len(),
{
    lemma_wakes_keep_owner(token, wakers);
    if i < wakers.len() - 1 {
        lemma_wake_before_park_is_observed(token, wakers.drop_last(), i);
    } else {
        lemma_wakes_keep_owner(token, wakers.drop_last());
    }
}

/// Notifications never change whose token it is, never take a pending wake
/// away, and make one pending only by reaching the owner.
pub proof fn lemma_wakes_keep_owner(token: TokenView, wakers: Seq<Waker>)
    ensures
        token.after_wakes(wakers).owner == token.owner,
        token.pending ==> token.after_wakes(wakers).pending,
        token.after_wakes(wakers).pending ==> token.pending || exists|i: int|
            0 <= i < wakers.len() && wakers[i].targets(token.owner),
    decreases wakers.len(),
{
    if wakers.len() > 0 {
        let earlier = wakers.drop_last();
        lemma_wakes_keep_owner(token, earlier);
        if token.after_wakes(wakers).pending && !token.pending {
            if token.after_wakes(earlier).pending {
                let i = choose|i: int| 0 <= i < earlier.len() && earlier[i].targets(token.owner);
                assert(wakers[i].targets(token.owner));
            } else {
                assert(wakers[wakers.len() - 1].targets(token.owner));
            }
        }
    }
}

/// Any number of notifications before a suspend attempt wake the owner
/// once: the attempt uses the wake up, and the attempt after it blocks
/// unless a new notification has arrived.
pub proof fn lemma_wakes_collapse(token: TokenView, wakers: Seq<Waker>)
    ensures
        !token.after_wakes(wakers).after_park().pending,
        token.after_wakes(wakers).after_park() == token.after_park(),
{
    lemma_wakes_keep_owner(token, wakers);
}

} // verus!
