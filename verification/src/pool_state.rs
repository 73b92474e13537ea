//! The state of a pool and the partial order between states: online is
//! better than degraded, which is better than unknown or faulted; unknown
//! and faulted are not comparable.
use crate::text::{str_is, string_of};
use std::cmp::Ordering;
use vstd::prelude::*;
use vstd::std_specs::cmp::PartialOrdSpecImpl;
use vstd::std_specs::convert::FromSpecImpl;

verus! {

/// State of the Pool
#[derive(Debug, Clone, Copy, PartialEq, Eq, Structural)]
pub enum PoolState {
    /// unknown state
    Unknown,
    /// the pool is in normal working order
    Online,
    /// the pool has experienced a failure but can still function
    Degraded,
    /// the pool is completely inaccessible
    Faulted,
}

impl Default for PoolState {
    /// `PoolState::Unknown`.
    fn default() -> (r: Self)
        ensures
            r == PoolState::Unknown,
    {
        PoolState::Unknown
    }
}

/// The text form of a `PoolState`.
pub open spec fn pool_state_text(v: PoolState) -> Seq<char> {
    match v {
        PoolState::Unknown => seq!['U', 'n', 'k', 'n', 'o', 'w', 'n'],
        PoolState::Online => seq!['O', 'n', 'l', 'i', 'n', 'e'],
        PoolState::Degraded => seq!['D', 'e', 'g', 'r', 'a', 'd', 'e', 'd'],
        PoolState::Faulted => seq!['F', 'a', 'u', 'l', 't', 'e', 'd'],
    }
}

impl PoolState {
    /// The text form of the value.
    pub fn to_string(&self) -> (s: String)
        ensures
            s@ == pool_state_text(*self),
    {
        proof {
            reveal_strlit("Unknown");
            assert("Unknown"@ =~= seq!['U', 'n', 'k', 'n', 'o', 'w', 'n']);
            reveal_strlit("Online");
            assert("Online"@ =~= seq!['O', 'n', 'l', 'i', 'n', 'e']);
            reveal_strlit("Degraded");
            assert("Degraded"@ =~= seq!['D', 'e', 'g', 'r', 'a', 'd', 'e', 'd']);
            reveal_strlit("Faulted");
            assert("Faulted"@ =~= seq!['F', 'a', 'u', 'l', 't', 'e', 'd']);
        }
        match self {
            PoolState::Unknown => string_of("Unknown"),
            PoolState::Online => string_of("Online"),
            PoolState::Degraded => string_of("Degraded"),
            PoolState::Faulted => string_of("Faulted"),
        }
    }

    /// Parse the text form of a value; `None` where `s` is the text of no value.
    pub fn from_str(s: &str) -> (r: Option<Self>)
        ensures
            r matches Some(v) ==> s@ == pool_state_text(v),
            r is None ==> forall|v: PoolState| s@ != #[trigger] pool_state_text(v),
    {
        proof {
            reveal_strlit("Unknown");
            assert("Unknown"@ =~= seq!['U', 'n', 'k', 'n', 'o', 'w', 'n']);
            reveal_strlit("Online");
            assert("Online"@ =~= seq!['O', 'n', 'l', 'i', 'n', 'e']);
            reveal_strlit("Degraded");
            assert("Degraded"@ =~= seq!['D', 'e', 'g', 'r', 'a', 'd', 'e', 'd']);
            reveal_strlit("Faulted");
            assert("Faulted"@ =~= seq!['F', 'a', 'u', 'l', 't', 'e', 'd']);
        }
        if str_is(s, "Unknown") {
            Some(PoolState::Unknown)
        } else if str_is(s, "Online") {
            Some(PoolState::Online)
        } else if str_is(s, "Degraded") {
            Some(PoolState::Degraded)
        } else if str_is(s, "Faulted") {
            Some(PoolState::Faulted)
        } else {
            None
        }
    }
}

/// Distinct values of `PoolState` have distinct text forms, so parsing the text
/// of a value gives that value back.
pub proof fn lemma_pool_state_text_injective(a: PoolState, b: PoolState)
    requires
        pool_state_text(a) == pool_state_text(b),
    ensures
        a == b,
{
    assert(pool_state_text(a).len() == pool_state_text(b).len());
    assert(pool_state_text(a)[0] == pool_state_text(b)[0]);
    assert(pool_state_text(a)[1] == pool_state_text(b)[1]);
    assert(pool_state_text(a)[2] == pool_state_text(b)[2]);
    assert(pool_state_text(a)[3] == pool_state_text(b)[3]);
    assert(pool_state_text(a)[4] == pool_state_text(b)[4]);
    assert(pool_state_text(a)[5] == pool_state_text(b)[5]);
    assert(pool_state_text(a)[6] == pool_state_text(b)[6]);
    assert(pool_state_text(a)[7] == pool_state_text(b)[7]);
}

/// Parsing the text form of a `PoolState` gives the value back: whatever
/// `from_str` may return on the text of `v`, by its contract, is `Some(v)`.
pub proof fn lemma_pool_state_parse_roundtrip(v: PoolState, r: Option<PoolState>)
    requires
        r matches Some(w) ==> pool_state_text(v) == pool_state_text(w),
        r is None ==> forall|w: PoolState| pool_state_text(v) != #[trigger] pool_state_text(w),
    ensures
        r == Some(v),
{
    match r {
        Some(w) => lemma_pool_state_text_injective(v, w),
        None => assert(pool_state_text(v) == pool_state_text(v)),
    }
}

/// The `PoolState` that the wire code `src` stands for.
pub open spec fn pool_state_from_code(src: i32) -> PoolState {
    if src == 1 {
        PoolState::Online
    } else if src == 2 {
        PoolState::Degraded
    } else if src == 3 {
        PoolState::Faulted
    } else {
        PoolState::Unknown
    }
}

impl From<i32> for PoolState {
    fn from(src: i32) -> (r: Self) {
        if src == 1 {
            PoolState::Online
        } else if src == 2 {
            PoolState::Degraded
        } else if src == 3 {
            PoolState::Faulted
        } else {
            PoolState::Unknown
        }
    }
}

impl FromSpecImpl<i32> for PoolState {
    open spec fn obeys_from_spec() -> bool {
        true
    }

    open spec fn from_spec(v: i32) -> Self {
        pool_state_from_code(v)
    }
}

/// How two pool states compare: online > degraded > unknown/faulted, where
/// unknown is comparable neither with faulted nor with itself.
pub open spec fn pool_state_order(a: PoolState, b: PoolState) -> Option<Ordering> {
    match a {
        PoolState::Unknown => match b {
            PoolState::Unknown => None,
            PoolState::Online => Some(Ordering::Less),
            PoolState::Degraded => Some(Ordering::Less),
            PoolState::Faulted => None,
        },
        PoolState::Online => match b {
            PoolState::Unknown => Some(Ordering::Greater),
            PoolState::Online => Some(Ordering::Equal),
            PoolState::Degraded => Some(Ordering::Greater),
            PoolState::Faulted => Some(Ordering::Greater),
        },
        PoolState::Degraded => match b {
            PoolState::Unknown => Some(Ordering::Greater),
            PoolState::Online => Some(Ordering::Less),
            PoolState::Degraded => Some(Ordering::Equal),
            PoolState::Faulted => Some(Ordering::Greater),
        },
        PoolState::Faulted => match b {
            PoolState::Unknown => None,
            PoolState::Online => Some(Ordering::Less),
            PoolState::Degraded => Some(Ordering::Less),
            PoolState::Faulted => Some(Ordering::Equal),
        },
    }
}

impl PartialOrd for PoolState {
    fn partial_cmp(&self, other: &Self) -> (r: Option<Ordering>) {
        match self {
            PoolState::Unknown => match other {
                PoolState::Unknown => None,
                PoolState::Online => Some(Ordering::Less),
                PoolState::Degraded => Some(Ordering::Less),
                PoolState::Faulted => None,
            },
            PoolState::Online => match other {
                PoolState::Unknown => Some(Ordering::Greater),
                PoolState::Online => Some(Ordering::Equal),
                PoolState::Degraded => Some(Ordering::Greater),
                PoolState::Faulted => Some(Ordering::Greater),
            },
            PoolState::Degraded => match other {
                PoolState::Unknown => Some(Ordering::Greater),
                PoolState::Online => Some(Ordering::Less),
                PoolState::Degraded => Some(Ordering::Equal),
                PoolState::Faulted => Some(Ordering::Greater),
            },
            PoolState::Faulted => match other {
                PoolState::Unknown => None,
                PoolState::Online => Some(Ordering::Less),
                PoolState::Degraded => Some(Ordering::Less),
                PoolState::Faulted => Some(Ordering::Equal),
            },
        }
    }
}

impl PartialOrdSpecImpl for PoolState {
    open spec fn obeys_partial_cmp_spec() -> bool {
        true
    }

    open spec fn partial_cmp_spec(&self, other: &Self) -> Option<Ordering> {
        pool_state_order(*self, *other)
    }
}

/// An ordering read from the other side.
pub open spec fn reversed(o: Option<Ordering>) -> Option<Ordering> {
    match o {
        Some(Ordering::Less) => Some(Ordering::Greater),
        Some(Ordering::Greater) => Some(Ordering::Less),
        other => other,
    }
}

/// Comparing `b` with `a` gives the reverse of comparing `a` with `b`.
pub proof fn lemma_pool_state_order_dual(a: PoolState, b: PoolState)
    ensures
        pool_state_order(b, a) == reversed(pool_state_order(a, b)),
{
}

/// "Better than" is transitive.
pub proof fn lemma_pool_state_order_transitive(a: PoolState, b: PoolState, c: PoolState)
    requires
        pool_state_order(a, b) == Some(Ordering::Greater),
        pool_state_order(b, c) == Some(Ordering::Greater),
    ensures
        pool_state_order(a, c) == Some(Ordering::Greater),
{
}

/// Two states compare as equal only when they are the same state, and every
/// state but unknown compares as equal with itself.
pub proof fn lemma_pool_state_order_equal(a: PoolState, b: PoolState)
    ensures
        pool_state_order(a, b) == Some(Ordering::Equal) ==> a == b,
        a == b && a != PoolState::Unknown ==> pool_state_order(a, b) == Some(Ordering::Equal),
{
}

/// Online is better than every other state, degraded is better than unknown
/// and faulted, and unknown and faulted are not comparable.
pub proof fn lemma_pool_state_ranking(s: PoolState)
    ensures
        s != PoolState::Online ==> pool_state_order(PoolState::Online, s) == Some(Ordering::Greater),
        (s == PoolState::Unknown || s == PoolState::Faulted) ==> pool_state_order(PoolState::Degraded, s) == Some(Ordering::Greater),
        pool_state_order(PoolState::Unknown, PoolState::Faulted) is None,
{
}

/// The wire code of a pool state.
pub open spec fn pool_state_code(s: PoolState) -> i32 {
    match s {
        PoolState::Unknown => 0,
        PoolState::Online => 1,
        PoolState::Degraded => 2,
        PoolState::Faulted => 3,
    }
}

impl PoolState {
    /// The wire code of the state.
    pub fn code(&self) -> (c: i32)
        ensures
            c == pool_state_code(*self),
    {
        match self {
            PoolState::Unknown => 0,
            PoolState::Online => 1,
            PoolState::Degraded => 2,
            PoolState::Faulted => 3,
        }
    }
}

/// Reading back the wire code of a state gives the state, and every code
/// outside 1..=3 reads as unknown.
pub proof fn lemma_pool_state_code_roundtrip(s: PoolState, src: i32)
    ensures
        pool_state_from_code(pool_state_code(s)) == s,
        !(1 <= src <= 3) ==> pool_state_from_code(src) == PoolState::Unknown,
{
}

} // verus!
