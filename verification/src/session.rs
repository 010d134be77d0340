//! The life of the one shell session: not yet created, then created, for as
//! long as the host runs.
//!
//! The host holds the state under a lock and feeds it events; each step says
//! what the state becomes and what the host is to do next.

use vstd::prelude::*;

verus! {

/// Whether the shell has been spawned.
#[derive(Clone, Copy, Debug, PartialEq, Eq, Structural)]
pub enum SessionState {
    Uninitialized,
    Created,
}

/// What happened.
#[derive(Clone, Copy, Debug, PartialEq, Eq, Structural)]
pub enum SessionEvent {
    /// The front-end asked for the shell.
    CreateRequested,
    /// The shell was spawned and its integration set up.
    SpawnSucceeded,
    /// The shell could not be spawned, or setup that it depends on failed.
    SpawnFailed,
}

/// What the host is to do next.
#[derive(Clone, Copy, Debug, PartialEq, Eq, Structural)]
pub enum SessionAction {
    /// Prepare the integration and spawn the shell, then report how it went.
    Spawn,
    /// Start the watcher that waits for the shell to end, and answer the
    /// request with success.
    Watch,
    /// Answer the request with success; there is nothing else to do.
    Succeed,
    /// Answer the request with the failure.
    Fail,
}

/// The state after `event`, and the action it calls for. A request in the
/// created state is answered at once. The state becomes created when the
/// spawn has succeeded and at no other time, and it never goes back.
pub open spec fn next(state: SessionState, event: SessionEvent) -> (SessionState, SessionAction) {
    match event {
        SessionEvent::CreateRequested => match state {
            SessionState::Uninitialized => (SessionState::Uninitialized, SessionAction::Spawn),
            SessionState::Created => (SessionState::Created, SessionAction::Succeed),
        },
        SessionEvent::SpawnSucceeded => match state {
            SessionState::Uninitialized => (SessionState::Created, SessionAction::Watch),
            SessionState::Created => (SessionState::Created, SessionAction::Succeed),
        },
        SessionEvent::SpawnFailed => (state, SessionAction::Fail),
    }
}

/// The state after `event`, and the action it calls for.
pub fn step(state: SessionState, event: SessionEvent) -> (r: (SessionState, SessionAction))
    ensures
        r == next(state, event),
{
    match event {
        SessionEvent::CreateRequested => match state {
            SessionState::Uninitialized => (SessionState::Uninitialized, SessionAction::Spawn),
            SessionState::Created => (SessionState::Created, SessionAction::Succeed),
        },
        SessionEvent::SpawnSucceeded => match state {
            SessionState::Uninitialized => (SessionState::Created, SessionAction::Watch),
            SessionState::Created => (SessionState::Created, SessionAction::Succeed),
        },
        SessionEvent::SpawnFailed => (state, SessionAction::Fail),
    }
}

/// The state a session starts in.
pub fn initial_state() -> (state: SessionState)
    ensures
        state == SessionState::Uninitialized,
{
    SessionState::Uninitialized
}

/// How one whole request for the shell ends when spawning works: the state
/// it leaves, whether a shell was spawned, and whether the request was
/// answered with success.
pub struct CreateCall {
    pub state: SessionState,
    pub spawned: bool,
    pub succeeded: bool,
}

/// One whole request, made in `state` under the lock, with a spawn that
/// works if it is tried.
pub open spec fn create_call(state: SessionState) -> CreateCall {
    let asked = next(state, SessionEvent::CreateRequested);
    if asked.1 == SessionAction::Spawn {
        let done = next(asked.0, SessionEvent::SpawnSucceeded);
        CreateCall {
            state: done.0,
            spawned: true,
            succeeded: done.1 == SessionAction::Watch || done.1 == SessionAction::Succeed,
        }
    } else {
        CreateCall { state: asked.0, spawned: false, succeeded: asked.1 == SessionAction::Succeed }
    }
}

/// The state after `n` requests in a row, starting in `state`.
pub open spec fn state_after(state: SessionState, n: nat) -> SessionState
    decreases n,
{
    if n == 0 {
        state
    } else {
        create_call(state_after(state, (n - 1) as nat)).state
    }
}

/// How many shells `n` requests in a row spawn, starting in `state`.
pub open spec fn spawns_in(state: SessionState, n: nat) -> nat
    decreases n,
{
    if n == 0 {
        0
    } else {
        let before = state_after(state, (n - 1) as nat);
        spawns_in(state, (n - 1) as nat) + if create_call(before).spawned {
            1nat
        } else {
            0nat
        }
    }
}

/// Once created, always created: no event leads back, and none calls for a
/// second spawn.
pub proof fn lemma_created_stays(event: SessionEvent)
    ensures
        next(SessionState::Created, event).0 == SessionState::Created,
        next(SessionState::Created, event).1 != SessionAction::Spawn,
        next(SessionState::Created, event).1 != SessionAction::Watch,
{
}

/// However many requests are made one after the other, one or more, in a
/// session that starts out new: exactly one shell is spawned, every request
/// is answered with success, and the session ends up created.
pub proof fn lemma_one_spawn(n: nat)
    requires
        n >= 1,
    ensures
        spawns_in(SessionState::Uninitialized, n) == 1,
        state_after(SessionState::Uninitialized, n) == SessionState::Created,
        forall|k: nat| k < n ==> create_call(
            #[trigger] state_after(SessionState::Uninitialized, k),
        ).succeeded,
    decreases n,
{
    if n > 1 {
        lemma_one_spawn((n - 1) as nat);
    } else {
        assert(state_after(SessionState::Uninitialized, 0) == SessionState::Uninitialized);
        assert(spawns_in(SessionState::Uninitialized, 0) == 0);
    }
    assert forall|k: nat| k < n implies create_call(
        #[trigger] state_after(SessionState::Uninitialized, k),
    ).succeeded by {
        if k >= 1 {
            lemma_one_spawn(k);
        }
    }
}

/// The state after the events of `events`, one after the other, starting in
/// `state`.
pub open spec fn state_after_events(state: SessionState, events: Seq<SessionEvent>) -> SessionState
    decreases events.len(),
{
    if events.len() == 0 {
        state
    } else {
        next(state_after_events(state, events.drop_last()), events.last()).0
    }
}

/// How often the events of `events`, one after the other and starting in
/// `state`, call for the watcher to be started.
pub open spec fn watches_in(state: SessionState, events: Seq<SessionEvent>) -> nat
    decreases events.len(),
{
    if events.len() == 0 {
        0
    } else {
        let before = state_after_events(state, events.drop_last());
        watches_in(state, events.drop_last()) + if next(before, events.last()).1
            == SessionAction::Watch {
            1nat
        } else {
            0nat
        }
    }
}

/// Whatever happens, and in whatever order: the watcher is started at most
/// once, and exactly once if the session ends up created; a session that
/// was created stays created.
pub proof fn lemma_watch_once(events: Seq<SessionEvent>)
    ensures
        watches_in(SessionState::Uninitialized, events) == if state_after_events(
            SessionState::Uninitialized,
            events,
        ) == SessionState::Created {
            1nat
        } else {
            0nat
        },
        watches_in(SessionState::Created, events) == 0,
        state_after_events(SessionState::Created, events) == SessionState::Created,
    decreases events.len(),
{
    if events.len() > 0 {
        lemma_watch_once(events.drop_last());
    }
}

/// The code the host ends with when the shell has ended with `child_code`:
/// the same 32 bits, read as a signed number.
pub open spec fn host_exit_code(child_code: u32) -> int {
    if child_code < 0x8000_0000 {
        child_code as int
    } else {
        child_code - 0x1_0000_0000
    }
}

/// The code the host ends with when the shell has ended with `child_code`.
pub fn exit_code(child_code: u32) -> (code: i32)
    ensures
        code == host_exit_code(child_code),
{
    if child_code < 0x8000_0000 {
        child_code as i32
    } else {
        let below: u32 = child_code - 0x8000_0000;
        (below as i32) + i32::MIN
    }
}

} // verus!
