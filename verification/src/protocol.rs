//! The lock-word protocol: the transition system that the cell's operations
//! follow, and the laws proved of it.

use vstd::prelude::*;

verus! {

use crate::cell::LOCKED;
use crate::cell::UNLOCKED;

/// One point of a run of the protocol: the value of the state word together
/// with the number of live access tokens at that point.
pub struct ProtocolState {
    pub word: u32,
    pub live_tokens: nat,
}

/// The two events of the protocol: a successful acquisition and a release.
pub enum ProtocolEvent {
    Acquire,
    Release,
}

/// The initial point: the word open, no token live.
pub open spec fn protocol_init(s: ProtocolState) -> bool {
    &&& s.word == UNLOCKED
    &&& s.live_tokens == 0
}

/// How one event moves the protocol from `pre` to `post`.
///
/// An acquisition is the transition a successful compare-and-set makes: it
/// happens only from an `UNLOCKED` word, closes the word, and brings one
/// token to life. A release needs a live token, ends it, and re-opens the
/// word.
pub open spec fn protocol_step(pre: ProtocolState, post: ProtocolState, e: ProtocolEvent) -> bool {
    match e {
        ProtocolEvent::Acquire => {
            &&& pre.word == UNLOCKED
            &&& post.word == LOCKED
            &&& post.live_tokens == pre.live_tokens + 1
        },
        ProtocolEvent::Release => {
            &&& pre.live_tokens >= 1
            &&& post.word == UNLOCKED
            &&& post.live_tokens == pre.live_tokens - 1
        },
    }
}

/// The protocol's invariant: the word holds one of its two defined values,
/// and it reads `LOCKED` exactly while one token is live — so live tokens
/// never exceed one.
pub open spec fn protocol_inv(s: ProtocolState) -> bool {
    &&& s.word == UNLOCKED || s.word == LOCKED
    &&& s.live_tokens <= 1
    &&& (s.word == LOCKED <==> s.live_tokens == 1)
}

/// The initial point satisfies the invariant.
pub proof fn lemma_init_satisfies_inv(s: ProtocolState)
    requires
        protocol_init(s),
    ensures
        protocol_inv(s),
{
}

/// Every step of the protocol preserves the invariant.
pub proof fn lemma_step_preserves_inv(pre: ProtocolState, post: ProtocolState, e: ProtocolEvent)
    requires
        protocol_inv(pre),
        protocol_step(pre, post, e),
    ensures
        protocol_inv(post),
{
}

/// A run of the protocol: `states` are the successive points, `events` the
/// steps between them, starting from the initial point.
pub open spec fn is_run(states: Seq<ProtocolState>, events: Seq<ProtocolEvent>) -> bool {
    &&& states.len() == events.len() + 1
    &&& protocol_init(states[0])
    &&& forall|i: int|
        0 <= i < events.len() ==> protocol_step(states[i], states[i + 1], events[i])
}

proof fn lemma_run_point_satisfies_inv(
    states: Seq<ProtocolState>,
    events: Seq<ProtocolEvent>,
    i: int,
)
    requires
        is_run(states, events),
        0 <= i < states.len(),
    ensures
        protocol_inv(states[i]),
    decreases i,
{
    if i == 0 {
        lemma_init_satisfies_inv(states[0]);
    } else {
        lemma_run_point_satisfies_inv(states, events, i - 1);
        lemma_step_preserves_inv(states[i - 1], states[i], events[i - 1]);
    }
}

/// Mutual exclusion: along any run of the protocol, at no point is more than
/// one access token live.
pub proof fn lemma_mutual_exclusion(states: Seq<ProtocolState>, events: Seq<ProtocolEvent>)
    requires
        is_run(states, events),
    ensures
        forall|i: int| 0 <= i < states.len() ==> #[trigger] states[i].live_tokens <= 1,
{
    assert forall|i: int| 0 <= i < states.len() implies #[trigger] states[i].live_tokens
        <= 1 by {
        lemma_run_point_satisfies_inv(states, events, i);
    }
}

/// The state word's value that a cell view publishes: `UNLOCKED` exactly
/// while the value sits in the cell.
pub open spec fn word_of<T>(cell: Option<T>) -> u32 {
    if cell is Some {
        UNLOCKED
    } else {
        LOCKED
    }
}

/// The transition `Mewtex::lock` contracts for — an open cell turning
/// closed, one more token live — is an `Acquire` step of the protocol.
pub proof fn lemma_lock_is_acquire_step<T>(cell: Option<T>, live_tokens: nat)
    requires
        cell is Some,
    ensures
        protocol_step(
            (ProtocolState { word: word_of(cell), live_tokens }),
            (ProtocolState { word: word_of(None::<T>), live_tokens: live_tokens + 1 }),
            ProtocolEvent::Acquire,
        ),
{
}

/// The transition `MewtexGuard::release` contracts for — a live token ends,
/// its value returns, the word re-opens — is a `Release` step.
pub proof fn lemma_release_is_release_step<T>(token_value: T, live_tokens: nat)
    requires
        live_tokens >= 1,
    ensures
        protocol_step(
            (ProtocolState { word: LOCKED, live_tokens }),
            (ProtocolState {
                word: word_of(release_leaves(token_value)),
                live_tokens: (live_tokens - 1) as nat,
            }),
            ProtocolEvent::Release,
        ),
{
}

/// What a release leaves in the cell: the releasing token's value, whole.
pub open spec fn release_leaves<T>(token_value: T) -> Option<T> {
    Some(token_value)
}

/// What an acquisition takes out of the cell.
pub open spec fn acquire_takes<T>(cell: Option<T>) -> T
    recommends
        cell is Some,
{
    cell.unwrap()
}

/// Visibility: the value one token leaves at its release is exactly the
/// value the next acquisition hands out — in full, no partial state.
pub proof fn lemma_visibility<T>(written: T)
    ensures
        acquire_takes(release_leaves(written)) == written,
{
}

/// One acquire/release cycle that leaves the protected value as it stands.
pub open spec fn idle_cycle<T>(cell: Option<T>) -> Option<T>
    recommends
        cell is Some,
{
    release_leaves(acquire_takes(cell))
}

/// The cell after `n` idle acquire/release cycles.
pub open spec fn after_idle_cycles<T>(cell: Option<T>, n: nat) -> Option<T>
    decreases n,
{
    if n == 0 {
        cell
    } else {
        idle_cycle(after_idle_cycles(cell, (n - 1) as nat))
    }
}

/// Reusability: any number of acquire/release cycles brings the cell back to
/// the open state it started from — nothing leaks, the word is `UNLOCKED`
/// again after every release.
pub proof fn lemma_reusability<T>(cell: Option<T>, n: nat)
    requires
        cell is Some,
    ensures
        after_idle_cycles(cell, n) == cell,
    decreases n,
{
    if n > 0 {
        lemma_reusability(cell, (n - 1) as nat);
    }
}

/// The collection after a round of update cycles: each cycle acquires the
/// cell, appends one tag, and releases. `tags` lists the appended tags in
/// the order the cycles were scheduled.
pub open spec fn run_update_cycles<A>(init: Seq<A>, tags: Seq<A>) -> Seq<A>
    decreases tags.len(),
{
    if tags.len() == 0 {
        init
    } else {
        run_update_cycles(init.push(tags.first()), tags.drop_first())
    }
}

/// No lost updates: a round of update cycles appends exactly the scheduled
/// tags, in scheduling order, to what the collection held before.
pub proof fn lemma_no_lost_updates<A>(init: Seq<A>, tags: Seq<A>)
    ensures
        run_update_cycles(init, tags) == init + tags,
    decreases tags.len(),
{
    if tags.len() == 0 {
        assert(run_update_cycles(init, tags) =~= init + tags);
    } else {
        lemma_no_lost_updates(init.push(tags.first()), tags.drop_first());
        assert(init.push(tags.first()) + tags.drop_first() =~= init + tags);
    }
}

/// Each update exactly once: however the cycles were scheduled, every tag
/// ends up in the collection exactly as often as it was scheduled — none is
/// lost, none is duplicated.
pub proof fn lemma_each_update_exactly_once<A>(init: Seq<A>, tags: Seq<A>, tag: A)
    ensures
        run_update_cycles(init, tags).to_multiset().count(tag) == init.to_multiset().count(tag)
            + tags.to_multiset().count(tag),
{
    lemma_no_lost_updates(init, tags);
    vstd::seq_lib::lemma_multiset_commutative(init, tags);
}

} // verus!
