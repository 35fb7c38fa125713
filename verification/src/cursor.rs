//! Forward-only walks over engine-owned linked lists.
//!
//! The engine exposes its instance list, its fact list and the argument
//! list of a user-defined-function call only through "give me the next
//! element" primitives: each call takes the current position and returns
//! the next one, with a null handle as both the starting seed and the
//! end marker.  The decision logic of such a walk — when it yields an
//! item and when it stops — lives here; the primitive itself is a raw
//! engine call made by the unverified shell, which feeds every handle it
//! fetched into [`Cursor::advance`].
//!
//! A whole walk is modelled by the sequence of handles the engine hands
//! back, in order, with `0` standing for the null end marker.

use vstd::prelude::*;

verus! {

/// A forward-only, non-restartable cursor: the current position in an
/// engine-owned list, and whether the end marker has been seen.
#[derive(Debug, Clone, Copy, PartialEq, Eq, Structural)]
pub struct Cursor {
    /// The handle the walk stands on; `0` before the first step.
    pub current: u64,
    /// Whether the engine has handed back the end marker.
    pub finished: bool,
}

/// How many items a walk yields when the engine hands back `replies` in
/// order: the length of the prefix before the first null handle.
pub open spec fn live_prefix_len(replies: Seq<u64>) -> nat
    decreases replies,
{
    if replies.len() == 0 {
        0
    } else if replies[0] == 0 {
        0
    } else {
        1 + live_prefix_len(replies.subrange(1, replies.len() as int))
    }
}

impl Cursor {
    /// A fresh cursor, seeded on the null handle.
    pub fn new() -> (c: Cursor)
        ensures
            c.current == 0,
            !c.finished,
    {
        Cursor { current: 0, finished: false }
    }

    /// Takes one step of the walk: `fetched` is what the engine's "next"
    /// primitive handed back from the current position.  Yields the
    /// fetched handle while it is live, stops for good on the end
    /// marker, and stays stopped — and yields nothing — once finished,
    /// so an already-exhausted cursor is safe to step again.
    pub fn advance(&mut self, fetched: u64) -> (out: Option<u64>)
        ensures
            old(self).finished ==> *final(self) == *old(self) && out is None,
            !old(self).finished && fetched == 0 ==> final(self).finished && out is None,
            !old(self).finished && fetched != 0 ==> !final(self).finished && final(self).current
                == fetched && out == Some(fetched),
    {
        if self.finished {
            None
        } else if fetched == 0 {
            self.finished = true;
            None
        } else {
            self.current = fetched;
            Some(fetched)
        }
    }
}

/// Runs a whole walk against the engine's replies: exactly what a
/// by-hand loop around [`Cursor::advance`] collects.  The result is the
/// live prefix of the replies — every handle before the first null, in
/// order, and nothing after it.
pub fn collect_walk(replies: &Vec<u64>) -> (out: Vec<u64>)
    ensures
        out@ == replies@.take(live_prefix_len(replies@) as int),
        out@.len() == live_prefix_len(replies@),
{
    let mut cursor = Cursor::new();
    let mut out: Vec<u64> = Vec::new();
    let n = replies.len();
    let mut k: usize = 0;
    while k < n
        invariant
            k <= n,
            n == replies@.len(),
            !cursor.finished,
            out@.len() == k,
            out@ == replies@.take(k as int),
            forall|j: int| 0 <= j < k ==> replies@[j] != 0,
        decreases n - k,
    {
        match cursor.advance(replies[k]) {
            Some(handle) => {
                out.push(handle);
            },
            None => {
                proof {
                    lemma_live_prefix_at_first_null(replies@, k as int);
                    assert(out@ =~= replies@.take(live_prefix_len(replies@) as int));
                }
                return out;
            },
        }
        k += 1;
    }
    proof {
        lemma_live_prefix_at_first_null(replies@, n as int);
        assert(out@ =~= replies@.take(live_prefix_len(replies@) as int));
    }
    out
}

/// A walk over a list with exactly `k` live elements yields exactly `k`
/// items: when the first `k` replies are live handles and the walk ends
/// there (the list is exhausted or the next reply is the end marker),
/// the yielded prefix has length exactly `k`.  In particular an empty
/// list — first reply null — yields zero items.
pub proof fn lemma_live_prefix_at_first_null(replies: Seq<u64>, k: int)
    requires
        0 <= k <= replies.len(),
        forall|i: int| 0 <= i < k ==> replies[i] != 0,
        k == replies.len() || replies[k] == 0,
    ensures
        live_prefix_len(replies) == k,
    decreases k,
{
    if replies.len() > 0 {
        if k == 0 {
        } else {
            let tail = replies.subrange(1, replies.len() as int);
            lemma_live_prefix_at_first_null(tail, k - 1);
        }
    }
}

} // verus!
