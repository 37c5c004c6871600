use std::collections::HashMap;
use vstd::prelude::*;

verus! {

broadcast use vstd::std_specs::hash::group_hash_axioms;

/// How many ids one page of an index holds.
pub const INDEX_PAGE_SIZE: u32 = 100;

/// Number of pages needed for `len` ids: full pages, then one partial page.
pub open spec fn page_count(len: nat) -> nat {
    ((len + INDEX_PAGE_SIZE - 1) / (INDEX_PAGE_SIZE as int)) as nat
}

/// The ids stored on page `p` of an index holding `items`.
pub open spec fn page_of(items: Seq<u64>, p: nat) -> Seq<u64> {
    let start = p * INDEX_PAGE_SIZE;
    let end = if start + INDEX_PAGE_SIZE < items.len() {
        start + INDEX_PAGE_SIZE
    } else {
        items.len() as int
    };
    if start < items.len() {
        items.subrange(start as int, end)
    } else {
        Seq::empty()
    }
}

/// The most ids one read of an index returns.
pub const MAX_PAGE_LIMIT: u32 = 100;

/// The ids a read of up to `limit` ids from slot `offset` returns: the limit
/// is clamped to [`MAX_PAGE_LIMIT`] and the read stops at the end.
pub open spec fn range_of(items: Seq<u64>, offset: nat, limit: nat) -> Seq<u64> {
    let lim = if limit < MAX_PAGE_LIMIT { limit } else { MAX_PAGE_LIMIT as nat };
    let start = if offset < items.len() { offset as int } else { items.len() as int };
    let end = if start + lim < items.len() { start + lim } else { items.len() as int };
    items.subrange(start, end)
}

/// `items` after removing the id at slot `i` by moving the last id into it.
pub open spec fn swap_removed(items: Seq<u64>, i: int) -> Seq<u64> {
    if i == items.len() - 1 {
        items.drop_last()
    } else {
        items.update(i, items.last()).drop_last()
    }
}

/// An unordered set of ids stored as a paged sequence, with the position of
/// every id recorded so that removal is constant-time: the last id moves into
/// the vacated slot. Used for the active-listings index and per-listing
/// offer indexes.
pub struct PagedIndex {
    items: Vec<u64>,
    positions: HashMap<u64, usize>,
}

impl PagedIndex {
    #[verifier::type_invariant]
    spec fn inv(self) -> bool {
        &&& self.items@.len() <= u32::MAX
        &&& forall|i: int|
            0 <= i < self.items@.len() ==> #[trigger] self.positions@.contains_key(self.items@[i])
                && self.positions@[self.items@[i]] == i
        &&& forall|k: u64|
            #[trigger] self.positions@.contains_key(k) ==> self.positions@[k] < self.items@.len()
                && self.items@[self.positions@[k] as int] == k
    }

    /// The ids, in slot order.
    pub closed spec fn view(self) -> Seq<u64> {
        self.items@
    }

    /// An empty index.
    pub fn new() -> (r: PagedIndex)
        ensures
            r.view() == Seq::<u64>::empty(),
    {
        PagedIndex { items: Vec::new(), positions: HashMap::new() }
    }

    /// Number of ids; no id occurs twice.
    pub fn len(&self) -> (n: u32)
        ensures
            n == self.view().len(),
            forall|i: int, j: int|
                0 <= i < j < self.view().len() ==> #[trigger] self.view()[i] != #[trigger] self.view()[j],
    {
        proof {
            use_type_invariant(self);
            assert forall|i: int, j: int|
                0 <= i < j < self.view().len() implies #[trigger] self.view()[i]
                != #[trigger] self.view()[j] by {
                if self.items@[i] == self.items@[j] {
                    assert(self.positions@.contains_key(self.items@[i]));
                    assert(self.positions@.contains_key(self.items@[j]));
                }
            }
        }
        self.items.len() as u32
    }

    /// Number of pages: full pages followed by one partial page; none when
    /// empty.
    pub fn page_count(&self) -> (n: u32)
        ensures
            n == page_count(self.view().len()),
    {
        proof {
            use_type_invariant(self);
        }
        let len = self.items.len() as u64;
        ((len + (INDEX_PAGE_SIZE as u64) - 1) / (INDEX_PAGE_SIZE as u64)) as u32
    }

    /// Whether `id` is in the index.
    pub fn contains(&self, id: u64) -> (b: bool)
        ensures
            b == self.view().contains(id),
    {
        proof {
            use_type_invariant(self);
        }
        let r = self.positions.contains_key(&id);
        proof {
            if self.view().contains(id) {
                let i = choose|i: int| 0 <= i < self.items@.len() && self.items@[i] == id;
                assert(self.positions@.contains_key(self.items@[i]));
            }
        }
        r
    }

    /// The id at slot `i`, if there is one.
    pub fn get(&self, i: u32) -> (r: Option<u64>)
        ensures
            r == (if i < self.view().len() {
                Some(self.view()[i as int])
            } else {
                None
            }),
    {
        if (i as usize) < self.items.len() {
            Some(self.items[i as usize])
        } else {
            None
        }
    }

    /// The ids stored on page `p`.
    pub fn page(&self, p: u32) -> (r: Vec<u64>)
        ensures
            r@ == page_of(self.view(), p as nat),
    {
        proof {
            use_type_invariant(self);
        }
        let len = self.items.len();
        let start: u64 = (p as u64) * (INDEX_PAGE_SIZE as u64);
        let mut r: Vec<u64> = Vec::new();
        if start >= len as u64 {
            assert(r@ =~= page_of(self.view(), p as nat));
            return r;
        }
        let end: u64 = if start + (INDEX_PAGE_SIZE as u64) < len as u64 {
            start + (INDEX_PAGE_SIZE as u64)
        } else {
            len as u64
        };
        let mut i: usize = start as usize;
        while i < end as usize
            invariant
                start <= i <= end <= len,
                len == self.items@.len(),
                r@ == self.items@.subrange(start as int, i as int),
            decreases end - i,
        {
            r.push(self.items[i]);
            i = i + 1;
            assert(r@ =~= self.items@.subrange(start as int, i as int));
        }
        r
    }

    /// Adds `id` at the end; an id already present is left where it is.
    pub fn append(&mut self, id: u64)
        requires
            old(self).view().len() < u32::MAX,
        ensures
            old(self).view().contains(id) ==> final(self).view() == old(self).view(),
            !old(self).view().contains(id) ==> final(self).view() == old(self).view().push(id),
    {
        if self.contains(id) {
            return;
        }
        proof {
            use_type_invariant(&*self);
        }
        let mut taken = PagedIndex::new();
        std::mem::swap(&mut taken, self);
        let PagedIndex { mut items, mut positions } = taken;
        let ghost old_items = items@;
        let ghost old_pos = positions@;
        let n = items.len();
        items.push(id);
        positions.insert(id, n);
        proof {
            assert(!old_pos.contains_key(id)) by {
                if old_pos.contains_key(id) {
                    assert(old_items[old_pos[id] as int] == id);
                }
            }
            assert forall|i: int| 0 <= i < items@.len() implies #[trigger] positions@.contains_key(
                items@[i],
            ) && positions@[items@[i]] == i by {
                if i < n {
                    assert(old_pos.contains_key(old_items[i]));
                }
            }
            assert forall|k: u64| #[trigger] positions@.contains_key(k) implies positions@[k]
                < items@.len() && items@[positions@[k] as int] == k by {
                if k != id {
                    assert(old_pos.contains_key(k));
                }
            }
        }
        *self = PagedIndex { items, positions };
    }

    /// Removes `id`: the last id moves into its slot and the last slot is
    /// dropped, so a page left empty disappears. Removing an absent id
    /// changes nothing.
    pub fn remove(&mut self, id: u64)
        ensures
            !old(self).view().contains(id) ==> final(self).view() == old(self).view(),
            old(self).view().contains(id) ==> exists|i: int|
                0 <= i < old(self).view().len() && old(self).view()[i] == id && final(self).view()
                    == swap_removed(old(self).view(), i),
    {
        proof {
            use_type_invariant(&*self);
        }
        let mut taken = PagedIndex::new();
        std::mem::swap(&mut taken, self);
        let PagedIndex { mut items, mut positions } = taken;
        let ghost old_items = items@;
        let ghost old_pos = positions@;
        let found = positions.remove(&id);
        match found {
            None => {
                proof {
                    if old_items.contains(id) {
                        let i = choose|i: int| 0 <= i < old_items.len() && old_items[i] == id;
                        assert(old_pos.contains_key(old_items[i]));
                    }
                }
                proof {
                    assert(positions@ =~= old_pos);
                }
            },
            Some(i) => {
                let last_index = items.len() - 1;
                let last = items[last_index];
                if i != last_index {
                    items.set(i, last);
                    positions.insert(last, i);
                }
                items.pop();
                proof {
                    assert(old_items[i as int] == id);
                    assert(items@ =~= swap_removed(old_items, i as int));
                    assert forall|j: int| 0 <= j < items@.len() implies #[trigger] positions@.contains_key(
                        items@[j],
                    ) && positions@[items@[j]] == j by {
                        if j != i {
                            assert(old_pos.contains_key(old_items[j]));
                            assert(old_items[j] != id);
                        }
                    }
                    assert forall|k: u64| #[trigger] positions@.contains_key(k) implies positions@[k]
                        < items@.len() && items@[positions@[k] as int] == k by {
                        assert(old_pos.contains_key(k));
                        if k != last {
                            assert(old_pos[k] != last_index);
                        }
                    }
                }
            },
        }
        *self = PagedIndex { items, positions };
    }
}

/// Every page but the last is full, and the last holds the remaining
/// `1..=INDEX_PAGE_SIZE` ids; no page lies beyond the page count. Together
/// the pages hold exactly the ids of the index, in slot order.
pub proof fn lemma_page_shape(items: Seq<u64>, p: nat)
    ensures
        p < page_count(items.len()) ==> page_of(items, p).len() == (if items.len() - p
            * INDEX_PAGE_SIZE < INDEX_PAGE_SIZE {
            items.len() - p * INDEX_PAGE_SIZE
        } else {
            INDEX_PAGE_SIZE as int
        }),
        p < page_count(items.len()) ==> page_of(items, p).len() >= 1,
        p >= page_count(items.len()) ==> page_of(items, p).len() == 0,
        forall|k: int|
            0 <= k < page_of(items, p).len() ==> #[trigger] page_of(items, p)[k] == items[p
                * INDEX_PAGE_SIZE + k],
{
    let n = items.len() as int;
    let ps = INDEX_PAGE_SIZE as int;
    assert(p < page_count(items.len()) <==> p * ps < n) by (nonlinear_arith)
        requires
            ps == 100,
            n >= 0,
            page_count(items.len()) == (n + ps - 1) / ps,
    ;
}

/// Removing an id keeps every other id and only that one leaves.
pub proof fn lemma_swap_remove_membership(items: Seq<u64>, i: int, other: u64)
    requires
        0 <= i < items.len(),
        other != items[i],
    ensures
        swap_removed(items, i).contains(other) == items.contains(other),
        swap_removed(items, i).len() == items.len() - 1,
{
    let s = swap_removed(items, i);
    if items.contains(other) {
        let j = choose|j: int| 0 <= j < items.len() && items[j] == other;
        if j == items.len() - 1 {
            assert(s[i] == other);
        } else {
            assert(s[j] == other);
        }
    }
    if s.contains(other) {
        let j = choose|j: int| 0 <= j < s.len() && s[j] == other;
        if j == i {
            assert(items[items.len() - 1] == other);
        } else {
            assert(items[j] == other);
        }
    }
}

/// Up to `limit` ids (at most [`MAX_PAGE_LIMIT`]) of `index` from slot
/// `offset` on, in slot order; nothing when `offset` is past the end.
pub fn read_range(index: &PagedIndex, offset: u32, limit: u32) -> (r: Vec<u64>)
    ensures
        r@ == range_of(index.view(), offset as nat, limit as nat),
{
    let len = index.len();
    let lim: u32 = if limit < MAX_PAGE_LIMIT {
        limit
    } else {
        MAX_PAGE_LIMIT
    };
    let start: u32 = if offset < len {
        offset
    } else {
        len
    };
    let end: u32 = if lim < len - start {
        start + lim
    } else {
        len
    };
    let mut r: Vec<u64> = Vec::new();
    let mut i: u32 = start;
    while i < end
        invariant
            start <= i <= end <= len,
            len == index.view().len(),
            r@ == index.view().subrange(start as int, i as int),
        decreases end - i,
    {
        let id = index.get(i);
        r.push(id.unwrap());
        i = i + 1;
        proof {
            assert(r@ =~= index.view().subrange(start as int, i as int));
        }
    }
    r
}

} // verus!
