use vstd::prelude::*;

use crate::errors::MarketplaceError;
use crate::types::AccountId;

verus! {

/// Snapshot of the three pause axes for one (collection, function) context.
#[derive(Clone, Copy, Debug, PartialEq, Eq, Structural)]
pub struct PauseMatrix {
    /// The global circuit breaker.
    pub global: bool,
    /// The queried collection is paused on its own.
    pub collection_paused: bool,
    /// The queried entry point is paused on its own.
    pub function_paused: bool,
    /// Some axis is active: the context is refused.
    pub any_paused: bool,
}

impl PauseMatrix {
    /// The snapshot for the three axes; `any_paused` is their disjunction.
    pub fn new(global: bool, collection_paused: bool, function_paused: bool) -> (m: PauseMatrix)
        ensures
            m.global == global,
            m.collection_paused == collection_paused,
            m.function_paused == function_paused,
            m.any_paused == (global || collection_paused || function_paused),
    {
        PauseMatrix {
            global,
            collection_paused,
            function_paused,
            any_paused: global || collection_paused || function_paused,
        }
    }
}

/// `c` occurs in `s`.
pub open spec fn has_account(s: Seq<AccountId>, c: AccountId) -> bool {
    exists|i: int| 0 <= i < s.len() && #[trigger] s[i] == c
}

/// An entry point named `f` occurs in `s`.
pub open spec fn has_name(s: Seq<String>, f: Seq<char>) -> bool {
    exists|i: int| 0 <= i < s.len() && #[trigger] s[i]@ == f
}

/// Whether an operation named `function` on `collection` (or on no
/// collection) is blocked by any of the three axes of `p`.
pub open spec fn paused_for(p: PauseState, collection: Option<AccountId>, function: Seq<char>) -> bool {
    p.global || (collection matches Some(c) && has_account(p.collections@, c)) || has_name(
        p.functions@,
        function,
    )
}

/// The circuit breakers: a global switch, paused collections and paused
/// entry points.
pub struct PauseState {
    pub global: bool,
    pub collections: Vec<AccountId>,
    pub functions: Vec<String>,
}

fn contains_account(s: &Vec<AccountId>, c: AccountId) -> (b: bool)
    ensures
        b == has_account(s@, c),
{
    let mut i: usize = 0;
    while i < s.len()
        invariant
            i <= s@.len(),
            forall|k: int| 0 <= k < i ==> #[trigger] s@[k] != c,
        decreases s@.len() - i,
    {
        if s[i] == c {
            assert(s@[i as int] == c);
            return true;
        }
        i = i + 1;
    }
    false
}

fn contains_name(s: &Vec<String>, f: &String) -> (b: bool)
    ensures
        b == has_name(s@, f@),
{
    let mut i: usize = 0;
    while i < s.len()
        invariant
            i <= s@.len(),
            forall|k: int| 0 <= k < i ==> #[trigger] s@[k]@ != f@,
        decreases s@.len() - i,
    {
        if s[i] == *f {
            assert(s@[i as int]@ == f@);
            return true;
        }
        i = i + 1;
    }
    false
}

impl PauseState {
    /// Nothing paused.
    pub fn new() -> (p: PauseState)
        ensures
            !p.global,
            p.collections@.len() == 0,
            p.functions@.len() == 0,
    {
        PauseState { global: false, collections: Vec::new(), functions: Vec::new() }
    }

    /// The pause snapshot for an operation named `function` on `collection`
    /// (or on no collection).
    pub fn matrix(&self, collection: Option<AccountId>, function: &String) -> (m: PauseMatrix)
        ensures
            m.global == self.global,
            m.collection_paused == (collection matches Some(c) && has_account(self.collections@, c)),
            m.function_paused == has_name(self.functions@, function@),
            m.any_paused == (m.global || m.collection_paused || m.function_paused),
    {
        let cp = match collection {
            Some(c) => contains_account(&self.collections, c),
            None => false,
        };
        let fp = contains_name(&self.functions, function);
        PauseMatrix::new(self.global, cp, fp)
    }

    /// Refuses with `ContractPaused` when any axis covers the operation.
    pub fn require_not_paused(&self, collection: Option<AccountId>, function: &String) -> (r: Result<
        (),
        MarketplaceError,
    >)
        ensures
            r is Err <==> paused_for(*self, collection, function@),
            r is Err ==> r == Err::<(), MarketplaceError>(MarketplaceError::ContractPaused),
    {
        let m = self.matrix(collection, function);
        if m.any_paused {
            Err(MarketplaceError::ContractPaused)
        } else {
            Ok(())
        }
    }

    /// Pauses one collection.
    pub fn pause_collection(&mut self, collection: AccountId)
        ensures
            final(self).global == old(self).global,
            final(self).functions@ == old(self).functions@,
            forall|c: AccountId|
                has_account(final(self).collections@, c) <==> (has_account(old(self).collections@, c)
                    || c == collection),
    {
        if !contains_account(&self.collections, collection) {
            let ghost before = self.collections@;
            self.collections.push(collection);
            assert forall|c: AccountId|
                has_account(self.collections@, c) <==> (has_account(before, c) || c == collection) by {
                if has_account(self.collections@, c) && c != collection {
                    let i = choose|i: int| 0 <= i < self.collections@.len() && #[trigger] self.collections@[i] == c;
                    assert(before[i] == c);
                }
                if has_account(before, c) {
                    let i = choose|i: int| 0 <= i < before.len() && #[trigger] before[i] == c;
                    assert(self.collections@[i] == c);
                }
                if c == collection {
                    assert(self.collections@[before.len() as int] == c);
                }
            }
        }
    }

    /// Lifts the pause of one collection.
    pub fn unpause_collection(&mut self, collection: AccountId)
        ensures
            final(self).global == old(self).global,
            final(self).functions@ == old(self).functions@,
            forall|c: AccountId|
                has_account(final(self).collections@, c) <==> (has_account(old(self).collections@, c)
                    && c != collection),
    {
        let mut kept: Vec<AccountId> = Vec::new();
        let mut i: usize = 0;
        while i < self.collections.len()
            invariant
                i <= self.collections@.len(),
                forall|c: AccountId|
                    has_account(kept@, c) <==> (c != collection && exists|k: int|
                        0 <= k < i && #[trigger] self.collections@[k] == c),
            decreases self.collections@.len() - i,
        {
            let c = self.collections[i];
            let ghost before = kept@;
            if c != collection {
                kept.push(c);
            }
            assert forall|x: AccountId|
                has_account(kept@, x) <==> (x != collection && exists|k: int|
                    0 <= k < i + 1 && #[trigger] self.collections@[k] == x) by {
                if has_account(kept@, x) {
                    let j = choose|j: int| 0 <= j < kept@.len() && #[trigger] kept@[j] == x;
                    if j < before.len() {
                        assert(before[j] == x);
                        assert(has_account(before, x));
                    } else {
                        assert(self.collections@[i as int] == x);
                    }
                }
                if x != collection && exists|k: int| 0 <= k < i + 1 && #[trigger] self.collections@[k] == x {
                    let k = choose|k: int| 0 <= k < i + 1 && #[trigger] self.collections@[k] == x;
                    if k < i {
                        assert(has_account(before, x));
                        let j = choose|j: int| 0 <= j < before.len() && #[trigger] before[j] == x;
                        assert(kept@[j] == x);
                    } else {
                        assert(kept@[before.len() as int] == x);
                    }
                }
            }
            i = i + 1;
        }
        self.collections = kept;
    }

    /// Pauses the entry point named `function`.
    pub fn pause_function(&mut self, function: String)
        ensures
            final(self).global == old(self).global,
            final(self).collections@ == old(self).collections@,
            forall|f: Seq<char>|
                has_name(final(self).functions@, f) <==> (has_name(old(self).functions@, f) || f
                    == function@),
    {
        if !contains_name(&self.functions, &function) {
            let ghost before = self.functions@;
            let ghost fv = function@;
            self.functions.push(function);
            assert forall|f: Seq<char>|
                has_name(self.functions@, f) <==> (has_name(before, f) || f == fv) by {
                if has_name(self.functions@, f) && f != fv {
                    let i = choose|i: int| 0 <= i < self.functions@.len() && #[trigger] self.functions@[i]@ == f;
                    assert(before[i]@ == f);
                }
                if has_name(before, f) {
                    let i = choose|i: int| 0 <= i < before.len() && #[trigger] before[i]@ == f;
                    assert(self.functions@[i]@ == f);
                }
                if f == fv {
                    assert(self.functions@[before.len() as int]@ == f);
                }
            }
        }
    }

    /// Lifts the pause of the entry point named `function`.
    pub fn unpause_function(&mut self, function: &String)
        ensures
            final(self).global == old(self).global,
            final(self).collections@ == old(self).collections@,
            forall|f: Seq<char>|
                has_name(final(self).functions@, f) <==> (has_name(old(self).functions@, f) && f
                    != function@),
    {
        let mut kept: Vec<String> = Vec::new();
        let mut i: usize = 0;
        while i < self.functions.len()
            invariant
                i <= self.functions@.len(),
                forall|f: Seq<char>|
                    has_name(kept@, f) <==> (f != function@ && exists|k: int|
                        0 <= k < i && #[trigger] self.functions@[k]@ == f),
            decreases self.functions@.len() - i,
        {
            let name = self.functions[i].clone();
            let ghost before = kept@;
            if name != *function {
                kept.push(name);
            }
            assert forall|x: Seq<char>|
                has_name(kept@, x) <==> (x != function@ && exists|k: int|
                    0 <= k < i + 1 && #[trigger] self.functions@[k]@ == x) by {
                if has_name(kept@, x) {
                    let j = choose|j: int| 0 <= j < kept@.len() && #[trigger] kept@[j]@ == x;
                    if j < before.len() {
                        assert(before[j]@ == x);
                        assert(has_name(before, x));
                    } else {
                        assert(self.functions@[i as int]@ == x);
                    }
                }
                if x != function@ && exists|k: int| 0 <= k < i + 1 && #[trigger] self.functions@[k]@ == x {
                    let k = choose|k: int| 0 <= k < i + 1 && #[trigger] self.functions@[k]@ == x;
                    if k < i {
                        assert(has_name(before, x));
                        let j = choose|j: int| 0 <= j < before.len() && #[trigger] before[j]@ == x;
                        assert(kept@[j]@ == x);
                    } else {
                        assert(kept@[before.len() as int]@ == x);
                    }
                }
            }
            i = i + 1;
        }
        self.functions = kept;
    }
}

/// Pausing a collection blocks exactly that collection: other collections
/// stay open unless another axis covers them.
pub proof fn lemma_collection_pause_is_local(
    before: Seq<AccountId>,
    after: Seq<AccountId>,
    paused: AccountId,
    other: AccountId,
)
    requires
        forall|c: AccountId| has_account(after, c) <==> (has_account(before, c) || c == paused),
        other != paused,
    ensures
        has_account(after, paused),
        has_account(after, other) == has_account(before, other),
{
}

} // verus!
