use vstd::prelude::*;

use crate::entry::Entry;
use crate::errors::MainError;
use crate::text::{contains_text, has_substring};

verus! {

/// What to do with source entries that are not pinned at the source.
#[derive(PartialEq, Eq, Structural, Clone, Copy, Debug)]
pub enum UnpinnedRule {
    /// Stop the run before anything is copied.
    Ban,
    /// Copy them anyway.
    Copy,
    /// Leave them out of the run.
    Ignore,
}

/// What the store answered to a pin query for one hash.
pub enum PinOutcome {
    /// The query succeeded and listed these pinned hashes.
    Listed(Vec<String>),
    /// The query failed with this message.
    Failed(String),
}

/// Whether a hash is pinned at the source, as read from a pin query.
#[derive(PartialEq, Eq, Structural, Clone, Copy, Debug)]
pub enum PinStatus {
    Pinned,
    NotPinned,
    /// The query failed for a reason other than the hash not being pinned.
    Failed,
}

/// The phrase with which the store says that a hash is not pinned.
pub open spec fn not_pinned_phrase() -> Seq<char> {
    seq!['i', 's', ' ', 'n', 'o', 't', ' ', 'p', 'i', 'n', 'n', 'e', 'd']
}

/// Whether a failed pin query for `hash` says that the hash is not pinned.
pub open spec fn is_not_pinned_message(message: Seq<char>, hash: Seq<char>) -> bool {
    has_substring(message, hash) && has_substring(message, not_pinned_phrase())
}

pub open spec fn lists_hash(keys: Seq<String>, hash: Seq<char>) -> bool {
    exists|i: int| 0 <= i < keys.len() && #[trigger] keys[i]@ == hash
}

pub open spec fn pin_status_of(hash: Seq<char>, outcome: PinOutcome) -> PinStatus {
    match outcome {
        PinOutcome::Listed(keys) => if lists_hash(keys@, hash) {
            PinStatus::Pinned
        } else {
            PinStatus::NotPinned
        },
        PinOutcome::Failed(m) => if is_not_pinned_message(m@, hash) {
            PinStatus::NotPinned
        } else {
            PinStatus::Failed
        },
    }
}

/// Whether the message of a failed pin query for `hash` means that the hash is not pinned.
pub fn not_pinned_error(hash: &str, message: &str) -> (r: bool)
    ensures
        r == is_not_pinned_message(message@, hash@),
{
    proof {
        reveal_strlit("is not pinned");
        assert("is not pinned"@ =~= not_pinned_phrase());
    }
    contains_text(message, hash) && contains_text(message, "is not pinned")
}

/// Whether `keys` holds `hash`.
fn lists(keys: &Vec<String>, hash: &String) -> (r: bool)
    ensures
        r == lists_hash(keys@, hash@),
{
    let mut i: usize = 0;
    while i < keys.len()
        invariant
            i <= keys@.len(),
            forall|j: int| 0 <= j < i ==> #[trigger] keys@[j]@ != hash@,
        decreases keys@.len() - i,
    {
        if keys[i] == *hash {
            assert(keys@[i as int]@ == hash@);
            return true;
        }
        i = i + 1;
    }
    false
}

/// Reads a pin query's outcome: a listing pins `hash` if it names it; a failure that names
/// `hash` and says it is not pinned means not pinned; any other failure stays a failure.
pub fn pin_status(hash: &String, outcome: &PinOutcome) -> (r: PinStatus)
    ensures
        r == pin_status_of(hash@, *outcome),
{
    match outcome {
        PinOutcome::Listed(keys) => {
            if lists(keys, hash) {
                PinStatus::Pinned
            } else {
                PinStatus::NotPinned
            }
        },
        PinOutcome::Failed(m) => {
            if not_pinned_error(hash.as_str(), m.as_str()) {
                PinStatus::NotPinned
            } else {
                PinStatus::Failed
            }
        },
    }
}

/// The entries of `s` whose pin flag in `p` equals `want`, in their order.
pub open spec fn select(s: Seq<Entry>, p: Seq<bool>, want: bool) -> Seq<Entry>
    decreases s.len(),
{
    if s.len() == 0 {
        Seq::empty()
    } else {
        let rest = select(s.drop_last(), p.take(s.len() - 1), want);
        if p[s.len() - 1] == want {
            rest.push(s.last())
        } else {
            rest
        }
    }
}

/// How many flags of `p` are false.
pub open spec fn count_unpinned(p: Seq<bool>) -> nat
    decreases p.len(),
{
    if p.len() == 0 {
        0
    } else {
        count_unpinned(p.drop_last()) + if p.last() {
            0nat
        } else {
            1nat
        }
    }
}

/// The entries a run goes on with, and those it left out as unpinned.
pub struct Plan {
    pub entries: Vec<Entry>,
    pub ignored: Vec<Entry>,
}

/// Applies `rule` to the unpinned entries: `pinned[i]` tells whether `entries[i]` is pinned.
pub fn apply_unpinned_rule(entries: Vec<Entry>, pinned: &Vec<bool>, rule: UnpinnedRule) -> (r:
    Result<Plan, MainError>)
    requires
        pinned@.len() == entries@.len(),
    ensures
        rule == UnpinnedRule::Ban && count_unpinned(pinned@) > 0 ==> r == Err::<Plan, MainError>(
            MainError::Unpinned(count_unpinned(pinned@) as usize),
        ),
        !(rule == UnpinnedRule::Ban && count_unpinned(pinned@) > 0) ==> r is Ok,
        r is Ok && rule == UnpinnedRule::Ignore ==> r->Ok_0.entries@ == select(
            entries@,
            pinned@,
            true,
        ) && r->Ok_0.ignored@ == select(entries@, pinned@, false),
        r is Ok && rule != UnpinnedRule::Ignore ==> r->Ok_0.entries@ == entries@
            && r->Ok_0.ignored@.len() == 0,
{
    let ghost orig = entries@;
    let n = entries.len();
    let mut unpinned: usize = 0;
    let mut i: usize = 0;
    while i < n
        invariant
            n == pinned@.len(),
            i <= n,
            unpinned == count_unpinned(pinned@.take(i as int)),
            unpinned <= i,
        decreases n - i,
    {
        assert(pinned@.take(i + 1).drop_last() == pinned@.take(i as int));
        if !pinned[i] {
            unpinned = unpinned + 1;
        }
        i = i + 1;
    }
    assert(pinned@.take(n as int) == pinned@);
    if rule == UnpinnedRule::Ban && unpinned > 0 {
        return Err(MainError::Unpinned(unpinned));
    }
    if rule != UnpinnedRule::Ignore {
        return Ok(Plan { entries, ignored: Vec::new() });
    }
    let mut rest = entries;
    let mut kept: Vec<Entry> = Vec::new();
    let mut ignored: Vec<Entry> = Vec::new();
    let mut k: usize = 0;
    while rest.len() > 0
        invariant
            n == orig.len(),
            n == pinned@.len(),
            k + rest@.len() == n,
            rest@ == orig.skip(k as int),
            kept@ == select(orig.take(k as int), pinned@.take(k as int), true),
            ignored@ == select(orig.take(k as int), pinned@.take(k as int), false),
        decreases rest@.len(),
    {
        let e = rest.remove(0);
        proof {
            let t = orig.take(k + 1);
            assert(t.drop_last() == orig.take(k as int));
            assert(t.last() == e);
            assert(pinned@.take(k + 1).take(k as int) == pinned@.take(k as int));
            assert(pinned@.take(k + 1)[k as int] == pinned@[k as int]);
        }
        if pinned[k] {
            kept.push(e);
        } else {
            ignored.push(e);
        }
        k = k + 1;
    }
    assert(orig.take(n as int) == orig);
    assert(pinned@.take(n as int) == pinned@);
    Ok(Plan { entries: kept, ignored })
}

} // verus!
