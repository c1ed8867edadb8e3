//! The bookkeeping of a listener that accepts connections on a Windows named
//! pipe: which path it serves and whether the next pipe instance is the
//! first one created for that path.
use vstd::prelude::*;

verus! {

/// The abstract state of a pipe listener.
pub struct PipeListenerView {
    pub path: Seq<char>,
    pub first: bool,
}

/// A named-pipe listener's state. The pipe instances themselves are created
/// and connected by the driver, which reports each outcome here.
#[derive(Debug)]
pub struct PipeListener {
    path: String,
    first: bool,
}

/// What the accept loop does after one attempt to create and connect a
/// pipe instance.
#[derive(Clone, Debug)]
pub enum AcceptAction {
    /// Hand the connected instance to the server, with this peer address.
    Deliver(String),
    /// Report the failure, wait this many milliseconds and try again.
    RetryAfter { millis: u64 },
}

/// The pause between two failed accept attempts.
pub const RETRY_DELAY_MILLIS: u64 = 1000;

impl View for PipeListener {
    type V = PipeListenerView;

    closed spec fn view(&self) -> PipeListenerView {
        PipeListenerView { path: self.path@, first: self.first }
    }
}

/// The answer to one accept attempt on the pipe at `path`: the path as peer
/// address when the instance connected, else a retry after a second.
pub open spec fn accept_fits(path: Seq<char>, connected: bool, action: AcceptAction) -> bool {
    if connected {
        action matches AcceptAction::Deliver(addr) && addr@ == path
    } else {
        action == (AcceptAction::RetryAfter { millis: RETRY_DELAY_MILLIS })
    }
}

/// Attempt `k` is the first one that connected.
pub open spec fn first_connection(attempts: Seq<bool>, k: int) -> bool {
    0 <= k < attempts.len() && attempts[k] && forall|j: int| 0 <= j < k ==> !#[trigger] attempts[j]
}

/// Action `k` is the first delivery, where the accept loop returns.
pub open spec fn first_delivery(actions: Seq<AcceptAction>, k: int) -> bool {
    0 <= k < actions.len() && actions[k] is Deliver && forall|j: int|
        0 <= j < k ==> !(#[trigger] actions[j] is Deliver)
}

/// The milliseconds waited over the first `k` actions.
pub open spec fn waited_millis(actions: Seq<AcceptAction>, k: nat) -> int
    decreases k,
{
    if k == 0 {
        0
    } else {
        waited_millis(actions, (k - 1) as nat) + match actions[k - 1] {
            AcceptAction::RetryAfter { millis } => millis as int,
            AcceptAction::Deliver(_) => 0,
        }
    }
}

/// Before the first connected attempt every action is a retry, so the wait
/// adds up to a second per failed attempt.
proof fn waited_before_connection(path: Seq<char>, attempts: Seq<bool>, actions: Seq<AcceptAction>, k: nat)
    requires
        actions.len() == attempts.len(),
        k <= attempts.len(),
        forall|i: int| 0 <= i < attempts.len() ==> accept_fits(path, attempts[i], #[trigger] actions[i]),
        forall|j: int| 0 <= j < k ==> !#[trigger] attempts[j],
    ensures
        waited_millis(actions, k) == 1000 * k,
    decreases k,
{
    if k > 0 {
        waited_before_connection(path, attempts, actions, (k - 1) as nat);
        assert(!attempts[k - 1]);
        assert(accept_fits(path, attempts[k - 1], actions[k - 1]));
    }
}

/// The accept loop, answering each attempt with `accept_outcome`, returns
/// exactly at the first attempt that connects, with the pipe's path, after
/// waiting a second for each failed attempt before it; while no attempt
/// connects it never returns.
pub proof fn accept_returns_at_first_connection(
    path: Seq<char>,
    attempts: Seq<bool>,
    actions: Seq<AcceptAction>,
)
    requires
        actions.len() == attempts.len(),
        forall|i: int| 0 <= i < attempts.len() ==> accept_fits(path, attempts[i], #[trigger] actions[i]),
    ensures
        forall|k: int| first_delivery(actions, k) <==> first_connection(attempts, k),
        forall|k: int|
            first_connection(attempts, k) ==> (actions[k] matches AcceptAction::Deliver(addr)
                && addr@ == path && waited_millis(actions, k as nat) == 1000 * k),
        (forall|j: int| 0 <= j < attempts.len() ==> !#[trigger] attempts[j]) ==> forall|j: int|
            0 <= j < actions.len() ==> !(#[trigger] actions[j] is Deliver),
{
    assert forall|j: int| 0 <= j < attempts.len() implies (#[trigger] actions[j] is Deliver)
        == attempts[j] by {
        assert(accept_fits(path, attempts[j], actions[j]));
    }
    assert forall|k: int| first_delivery(actions, k) <==> first_connection(attempts, k) by {
        if first_delivery(actions, k) {
            assert forall|j: int| 0 <= j < k implies !#[trigger] attempts[j] by {
                assert(!(actions[j] is Deliver));
            }
            assert(actions[k] is Deliver);
        }
        if first_connection(attempts, k) {
            assert forall|j: int| 0 <= j < k implies !(#[trigger] actions[j] is Deliver) by {
                assert(!attempts[j]);
            }
            assert(attempts[k]);
        }
    }
    assert forall|k: int| first_connection(attempts, k) implies (actions[k] matches AcceptAction::Deliver(
        addr,
    ) && addr@ == path && waited_millis(actions, k as nat) == 1000 * k) by {
        assert(accept_fits(path, attempts[k], actions[k]));
        waited_before_connection(path, attempts, actions, k as nat);
    }
}

impl PipeListener {
    /// The listener for `path`, once the driver has created the pipe there:
    /// the next instance is still the first one.
    pub fn bind(path: String) -> (res: PipeListener)
        ensures
            res@.path == path@,
            res@.first,
    {
        PipeListener { path, first: true }
    }

    /// Whether the next instance must be created as the first one of the pipe.
    pub fn first_pipe_instance(&self) -> (res: bool)
        ensures
            res == self@.first,
    {
        self.first
    }

    /// The path of the pipe, for creating the next instance.
    pub fn path(&self) -> (res: &str)
        ensures
            res@ == self@.path,
    {
        self.path.as_str()
    }

    /// Records that an instance was created: later instances are not the
    /// first one. The path is unchanged.
    pub fn instance_created(&mut self)
        ensures
            listener_step(old(self)@, final(self)@, true),
    {
        self.first = self.first && false;
    }

    /// The decision after one accept attempt: deliver the instance with the
    /// pipe's path as peer address when it connected, else retry after a
    /// second. The loop never gives up.
    pub fn accept_outcome(&self, connected: bool) -> (res: AcceptAction)
        ensures
            accept_fits(self@.path, connected, res),
    {
        if connected {
            AcceptAction::Deliver(self.path.clone())
        } else {
            AcceptAction::RetryAfter { millis: RETRY_DELAY_MILLIS }
        }
    }

    /// The local address: the pipe's path.
    pub fn local_addr(&self) -> (res: String)
        ensures
            res@ == self@.path,
    {
        self.path.clone()
    }
}

/// How one call on a listener changes its state: recording a created
/// instance keeps the path and clears `first`; every other call takes the
/// listener by reference and leaves it as it is.
pub open spec fn listener_step(before: PipeListenerView, after: PipeListenerView, created: bool) -> bool {
    if created {
        after.path == before.path && !after.first
    } else {
        after == before
    }
}

/// Over any sequence of calls on a listener bound at `path` (each call
/// either records a created instance or leaves the listener alone), the
/// listener keeps that path throughout, so its `path` and `local_addr` give
/// it back, and `first` holds exactly until the first instance is created
/// and never again after.
pub proof fn listener_keeps_path_and_first_once(
    path: Seq<char>,
    states: Seq<PipeListenerView>,
    created: Seq<bool>,
)
    requires
        states.len() == created.len() + 1,
        states[0].path == path,
        states[0].first,
        forall|i: int| 0 <= i < created.len() ==> listener_step(states[i], states[i + 1], #[trigger] created[i]),
    ensures
        forall|i: int| 0 <= i < states.len() ==> (#[trigger] states[i]).path == path,
        forall|i: int|
            0 <= i < states.len() ==> ((#[trigger] states[i]).first <==> forall|j: int|
                0 <= j < i ==> !#[trigger] created[j]),
    decreases created.len(),
{
    if created.len() > 0 {
        let n = created.len() - 1;
        let s2 = states.take(n + 1);
        let c2 = created.take(n);
        assert forall|i: int| 0 <= i < c2.len() implies listener_step(s2[i], s2[i + 1], #[trigger] c2[i]) by {
            assert(listener_step(states[i], states[i + 1], created[i]));
        }
        listener_keeps_path_and_first_once(path, s2, c2);
        assert(listener_step(states[n], states[n + 1], created[n]));
        assert forall|i: int| 0 <= i < states.len() implies (#[trigger] states[i]).path == path by {
            if i <= n {
                assert(s2[i] == states[i]);
            } else {
                assert(s2[n] == states[n]);
            }
        }
        assert forall|i: int| 0 <= i < states.len() implies ((#[trigger] states[i]).first <==> forall|j: int|
            0 <= j < i ==> !#[trigger] created[j]) by {
            if i <= n {
                assert(s2[i] == states[i]);
                assert((forall|j: int| 0 <= j < i ==> !#[trigger] c2[j]) <==> (forall|j: int|
                    0 <= j < i ==> !#[trigger] created[j])) by {
                    assert forall|j: int| 0 <= j < i implies c2[j] == created[j] by {}
                }
            } else {
                assert(s2[n] == states[n]);
                assert((forall|j: int| 0 <= j < n ==> !#[trigger] c2[j]) <==> (forall|j: int|
                    0 <= j < n ==> !#[trigger] created[j])) by {
                    assert forall|j: int| 0 <= j < n implies c2[j] == created[j] by {}
                }
            }
        }
    }
}

} // verus!
