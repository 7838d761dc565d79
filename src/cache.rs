//! The process-wide cache of the secure-execution flag.
//!
//! The cache is one shared `AtomicU8` slot, read and written with
//! sequentially consistent ordering and no lock. The slot holds `0` once the
//! flag is confirmed false, `1` once it is confirmed true, and any other value
//! (`UNKNOWN_SLOT` at process start) while it was never probed.
//!
//! Two threads that query for the first time at once may both find the slot
//! unknown and both probe; the write that lands last wins. If a privilege
//! change races with that first query, the cache may keep a stale answer for
//! the rest of the process. Query once, early, from the only thread, before
//! any privilege change.

use vstd::prelude::*;
use core::sync::atomic::{AtomicU8, Ordering};

verus! {

/// The slot value of a cache that was never probed.
pub const UNKNOWN_SLOT: u8 = 2;

/// The three states of the cached flag.
#[derive(PartialEq, Eq, Structural, Clone, Copy, Debug)]
pub enum SecureFlag {
    Unknown,
    Insecure,
    Secure,
}

impl SecureFlag {
    /// The state that a slot value encodes.
    pub open spec fn of_slot(v: u8) -> SecureFlag {
        if v == 0 {
            SecureFlag::Insecure
        } else if v == 1 {
            SecureFlag::Secure
        } else {
            SecureFlag::Unknown
        }
    }

    /// The slot value written for a state.
    pub open spec fn slot(self) -> u8 {
        match self {
            SecureFlag::Insecure => 0,
            SecureFlag::Secure => 1,
            SecureFlag::Unknown => UNKNOWN_SLOT,
        }
    }

    /// The confirmed state for a probed answer.
    pub open spec fn confirmed(secure: bool) -> SecureFlag {
        if secure {
            SecureFlag::Secure
        } else {
            SecureFlag::Insecure
        }
    }

    /// The answer a state holds, if it is confirmed.
    pub open spec fn answer(self) -> Option<bool> {
        match self {
            SecureFlag::Unknown => None,
            SecureFlag::Insecure => Some(false),
            SecureFlag::Secure => Some(true),
        }
    }

    /// Decodes a slot value.
    pub fn from_slot(v: u8) -> (f: SecureFlag)
        ensures
            f == SecureFlag::of_slot(v),
    {
        if v == 0 {
            SecureFlag::Insecure
        } else if v == 1 {
            SecureFlag::Secure
        } else {
            SecureFlag::Unknown
        }
    }

    /// Encodes a state as a slot value.
    pub fn to_slot(&self) -> (v: u8)
        ensures
            v == self.slot(),
            SecureFlag::of_slot(v) == *self,
    {
        match self {
            SecureFlag::Insecure => 0,
            SecureFlag::Secure => 1,
            SecureFlag::Unknown => UNKNOWN_SLOT,
        }
    }

    /// The confirmed state for a probed answer.
    pub fn from_answer(secure: bool) -> (f: SecureFlag)
        ensures
            f == SecureFlag::confirmed(secure),
            f.answer() == Some(secure),
    {
        if secure {
            SecureFlag::Secure
        } else {
            SecureFlag::Insecure
        }
    }

    /// The answer this state holds, if it is confirmed.
    pub fn to_answer(&self) -> (a: Option<bool>)
        ensures
            a == self.answer(),
    {
        match self {
            SecureFlag::Unknown => None,
            SecureFlag::Insecure => Some(false),
            SecureFlag::Secure => Some(true),
        }
    }
}

/// The outcome of one cached query: the answer, and the slot value to write
/// back, if any.
pub struct CacheStep {
    pub answer: bool,
    pub store: Option<u8>,
}

/// The answer and the write-back of a query that found `loaded` in the slot
/// and, had it probed, would have read `probed`.
pub open spec fn step_spec(loaded: u8, probed: bool) -> (bool, Option<u8>) {
    match SecureFlag::of_slot(loaded).answer() {
        Some(b) => (b, None),
        None => (probed, Some(SecureFlag::confirmed(probed).slot())),
    }
}

/// Decides one cached query from the value found in the slot: a confirmed
/// value is returned as it is, without probing; otherwise `probe` is called
/// once and its answer is returned together with the slot value to store.
pub fn cache_step<F: FnOnce() -> bool>(loaded: u8, probe: F) -> (s: CacheStep)
    requires
        SecureFlag::of_slot(loaded) == SecureFlag::Unknown ==> probe.requires(()),
    ensures
        SecureFlag::of_slot(loaded).answer() is Some ==> Some(s.answer) == SecureFlag::of_slot(
            loaded,
        ).answer(),
        SecureFlag::of_slot(loaded) == SecureFlag::Unknown ==> probe.ensures((), s.answer),
        (s.answer, s.store) == step_spec(loaded, s.answer),
{
    let flag = SecureFlag::from_slot(loaded);
    match flag.to_answer() {
        Some(b) => CacheStep { answer: b, store: None },
        None => {
            let secure = probe();
            let stored = SecureFlag::from_answer(secure).to_slot();
            CacheStep { answer: secure, store: Some(stored) }
        },
    }
}

/// Answers a query through the cache slot: returns the confirmed value found
/// there, or probes, writes the answer to the slot, and returns it.
///
/// The slot is shared with other threads, so what this call reads is not
/// known in advance; `cache_step` states what is decided from it.
pub fn load_or_probe<F: FnOnce() -> bool>(slot: &AtomicU8, probe: F) -> (secure: bool)
    requires
        probe.requires(()),
{
    let loaded = slot.load(Ordering::SeqCst);
    let s = cache_step(loaded, probe);
    match s.store {
        Some(v) => slot.store(v, Ordering::SeqCst),
        None => {},
    }
    s.answer
}

/// The slot value after a query that found `loaded` and would have read
/// `probed`.
pub open spec fn slot_after(loaded: u8, probed: bool) -> u8 {
    match step_spec(loaded, probed).1 {
        Some(w) => w,
        None => loaded,
    }
}

/// The answers of `n` successive queries from one thread, starting from the
/// slot value `loaded`, while the probe keeps reading `probed`.
pub open spec fn query_run(loaded: u8, probed: bool, n: nat) -> Seq<bool>
    decreases n,
{
    if n == 0 {
        Seq::empty()
    } else {
        seq![step_spec(loaded, probed).0] + query_run(slot_after(loaded, probed), probed, (n - 1) as nat)
    }
}

/// Once the slot holds a confirmed value, every later query returns it.
pub proof fn lemma_confirmed_run(loaded: u8, probed: bool, n: nat)
    requires
        SecureFlag::of_slot(loaded).answer() is Some,
    ensures
        query_run(loaded, probed, n).len() == n,
        forall|i: int|
            0 <= i < n ==> #[trigger] query_run(loaded, probed, n)[i] == SecureFlag::of_slot(
                loaded,
            ).answer()->Some_0,
    decreases n,
{
    if n > 0 {
        lemma_confirmed_run(loaded, probed, (n - 1) as nat);
        let rest = query_run(loaded, probed, (n - 1) as nat);
        assert(slot_after(loaded, probed) == loaded);
        assert forall|i: int| 0 <= i < n implies #[trigger] query_run(loaded, probed, n)[i]
            == SecureFlag::of_slot(loaded).answer()->Some_0 by {
            if i > 0 {
                assert(query_run(loaded, probed, n)[i] == rest[i - 1]);
            }
        }
    }
}

/// Cache coherence: while the privilege state does not change, `n >= 1`
/// successive queries all return the same answer; when the slot was never
/// probed, that answer is the probe's reading at the first query.
pub proof fn lemma_cache_coherent(loaded: u8, probed: bool, n: nat)
    requires
        n >= 1,
    ensures
        query_run(loaded, probed, n).len() == n,
        forall|i: int|
            0 <= i < n ==> #[trigger] query_run(loaded, probed, n)[i] == query_run(
                loaded,
                probed,
                n,
            )[0],
        SecureFlag::of_slot(loaded) == SecureFlag::Unknown ==> query_run(loaded, probed, n)[0]
            == probed,
{
    let next = slot_after(loaded, probed);
    let first = step_spec(loaded, probed).0;
    assert(SecureFlag::of_slot(next).answer() == Some(first));
    lemma_confirmed_run(next, probed, (n - 1) as nat);
    let run = query_run(loaded, probed, n);
    let rest = query_run(next, probed, (n - 1) as nat);
    assert forall|i: int| 0 <= i < n implies #[trigger] run[i] == run[0] by {
        if i > 0 {
            assert(run[i] == rest[i - 1]);
        }
    }
}

} // verus!
