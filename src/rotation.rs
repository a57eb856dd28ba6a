//! The presence rotation: which presence each tick shows, by a strict
//! override priority over a round-robin list.

use vstd::prelude::*;
use vstd::arithmetic::div_mod::{lemma_add_mod_noop_right, lemma_mod_bound, lemma_small_mod};
use crate::storage::{ClientActivityType, Status, Storage};

verus! {

/// The rotation index after one tick from `index`, in a list of `len` entries.
pub open spec fn next_of(index: int, len: int) -> int {
    (index + 1) % len
}

/// The rotation index after `k` ticks from `index`.
pub open spec fn advance(index: int, len: int, k: nat) -> int
    decreases k,
{
    if k == 0 {
        index
    } else {
        next_of(advance(index, len, (k - 1) as nat), len)
    }
}

/// Advances the rotation index by one, wrapping at `len`.
pub fn next_index(index: usize, len: usize) -> (r: usize)
    requires
        len >= 1,
    ensures
        r == next_of(index as int, len as int),
{
    let i = index % len;
    proof {
        lemma_mod_bound(index as int, len as int);
        lemma_add_mod_noop_right(1, index as int, len as int);
    }
    if i + 1 == len {
        proof {
            vstd::arithmetic::div_mod::lemma_mod_self_0(len as int);
        }
        0
    } else {
        proof {
            lemma_small_mod((i + 1) as nat, len as nat);
        }
        i + 1
    }
}

/// The presence that a tick shows at rotation index `index`: maintenance
/// first, then debug, then development, else the list's entry.
pub open spec fn selected(s: Storage, index: int) -> Status {
    if s.maintenance {
        s.status.maintenance_status
    } else if s.debug {
        s.status.debug_mode_status
    } else if s.dev {
        s.status.dev_status
    } else {
        s.status.list@[index]
    }
}

/// The presence to show at rotation index `index`.
pub fn select_status(storage: &Storage, index: usize) -> (r: &Status)
    requires
        index < storage.status.list@.len(),
    ensures
        *r == selected(*storage, index as int),
{
    if storage.maintenance {
        &storage.status.maintenance_status
    } else if storage.debug {
        &storage.status.debug_mode_status
    } else if storage.dev {
        &storage.status.dev_status
    } else {
        &storage.status.list[index]
    }
}

/// A presence to set on a connection.
pub enum Presence {
    Playing(String),
    Watching(String),
    Listening(String),
    /// A stream: its text and its link.
    Streaming(String, String),
}

/// `p` shows `status`, with `url` as the link of a stream; `None` for an
/// unknown kind.
pub open spec fn presents(p: Option<Presence>, status: Status, url: Seq<char>) -> bool {
    match status.status_type {
        ClientActivityType::Playing => p matches Some(Presence::Playing(m)) && m@ == status.message@,
        ClientActivityType::Watching => p matches Some(Presence::Watching(m)) && m@ == status.message@,
        ClientActivityType::Listening => p matches Some(Presence::Listening(m)) && m@ == status.message@,
        ClientActivityType::Streaming => p matches Some(Presence::Streaming(m, u)) && m@ == status.message@ && u@ == url,
        ClientActivityType::Unknown => p is None,
    }
}

/// The presence that shows `status`; none for an unknown kind.
pub fn presence_for(status: &Status, streaming_url: &String) -> (r: Option<Presence>)
    ensures
        presents(r, *status, streaming_url@),
{
    match status.status_type {
        ClientActivityType::Playing => Some(Presence::Playing(status.message.clone())),
        ClientActivityType::Watching => Some(Presence::Watching(status.message.clone())),
        ClientActivityType::Listening => Some(Presence::Listening(status.message.clone())),
        ClientActivityType::Streaming => Some(
            Presence::Streaming(status.message.clone(), streaming_url.clone()),
        ),
        ClientActivityType::Unknown => None,
    }
}

/// What one rotation tick decides.
pub struct RotationStep {
    /// The rotation index after the tick.
    pub index: usize,
    /// The presence to set on every connection; none for an unknown kind.
    pub presence: Option<Presence>,
    /// Whether the chosen presence has an unknown kind, which is logged as a
    /// warning.
    pub unknown: bool,
}

/// One rotation tick from index `index`: advances the index, picks the
/// presence by priority and turns it into the presence to set.
pub fn rotation_tick(storage: &Storage, index: usize) -> (r: RotationStep)
    requires
        storage.wf(),
    ensures
        r.index == next_of(index as int, storage.status.list@.len() as int),
        r.index < storage.status.list@.len(),
        presents(r.presence, selected(*storage, r.index as int), storage.status.streaming_url@),
        r.unknown == (selected(*storage, r.index as int).status_type is Unknown),
{
    let len = storage.status.list.len();
    let next = next_index(index, len);
    proof {
        lemma_mod_bound(index as int + 1, len as int);
    }
    let status = select_status(storage, next);
    let presence = presence_for(status, &storage.status.streaming_url);
    let unknown = status.status_type.is_unknown();
    RotationStep { index: next, presence, unknown }
}

/// The rotation visits the list round-robin: after `k` ticks from `start` the
/// index is `(start + k) mod len`.
pub proof fn lemma_advance(start: int, len: int, k: nat)
    requires
        len >= 1,
        0 <= start < len,
    ensures
        advance(start, len, k) == (start + k) % len,
    decreases k,
{
    if k == 0 {
        lemma_small_mod(start as nat, len as nat);
    } else {
        lemma_advance(start, len, (k - 1) as nat);
        lemma_add_mod_noop_right(1, start + k - 1, len);
    }
}

/// Over a list of `len` entries, `len` ticks bring the rotation index back to
/// where it started, and the ticks in between each use a different index.
pub proof fn lemma_rotation_cycle(start: int, len: int)
    requires
        len >= 1,
        0 <= start < len,
    ensures
        advance(start, len, len as nat) == start,
        forall|j: nat, k: nat|
            j < k < len ==> #[trigger] advance(start, len, j) != #[trigger] advance(start, len, k),
{
    lemma_advance(start, len, len as nat);
    vstd::arithmetic::div_mod::lemma_mod_add_multiples_vanish(start, len);
    lemma_small_mod(start as nat, len as nat);
    assert forall|j: nat, k: nat|
        j < k < len implies #[trigger] advance(start, len, j) != #[trigger] advance(start, len, k) by {
        lemma_advance(start, len, j);
        lemma_advance(start, len, k);
        if start + k < len {
            lemma_small_mod((start + j) as nat, len as nat);
            lemma_small_mod((start + k) as nat, len as nat);
        } else if start + j >= len {
            vstd::arithmetic::div_mod::lemma_mod_sub_multiples_vanish(start + j, len);
            vstd::arithmetic::div_mod::lemma_mod_sub_multiples_vanish(start + k, len);
            lemma_small_mod((start + j - len) as nat, len as nat);
            lemma_small_mod((start + k - len) as nat, len as nat);
        } else {
            lemma_small_mod((start + j) as nat, len as nat);
            vstd::arithmetic::div_mod::lemma_mod_sub_multiples_vanish(start + k, len);
            lemma_small_mod((start + k - len) as nat, len as nat);
        }
    }
}

/// An override wins over the rotation list: with maintenance on, the
/// maintenance presence is shown whatever else is set; with debug or
/// development on, the list is never used.
pub proof fn lemma_override_priority(s: Storage, index: int)
    ensures
        s.maintenance ==> selected(s, index) == s.status.maintenance_status,
        !s.maintenance && s.debug ==> selected(s, index) == s.status.debug_mode_status,
        !s.maintenance && !s.debug && s.dev ==> selected(s, index) == s.status.dev_status,
{
}

} // verus!
