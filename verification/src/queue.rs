//! A wake queue: a registry of pending entries keyed by reminder id, from
//! which the entries that have come due are drained.

use crate::time::Timestamp;
use vstd::prelude::*;
use vstd::string::*;

verus! {

/// What a wake queue needs of its entries: the id of the reminder that an
/// entry belongs to, and whether the entry has come due at a given instant.
/// Both are read off the entry's view.
pub trait Wake: View + Sized {
    /// The reminder id of an entry.
    spec fn id_of(v: Self::V) -> Seq<char>;

    /// Whether an entry has come due at `now`.
    spec fn due_at(v: Self::V, now: Timestamp) -> bool;

    fn id(&self) -> (s: &String)
        ensures
            s@ == Self::id_of(self@),
    ;

    fn is_due(&self, now: &Timestamp) -> (b: bool)
        ensures
            b == Self::due_at(self@, *now),
    ;
}

/// No two entries of the sequence belong to the same reminder.
pub open spec fn ids_distinct<T: Wake>(s: Seq<T>) -> bool {
    forall|i: int, j: int|
        0 <= i < j < s.len() ==> T::id_of(#[trigger] s[i]@) != T::id_of(#[trigger] s[j]@)
}

/// Some entry of the sequence belongs to reminder `id`.
pub open spec fn has_id<T: Wake>(s: Seq<T>, id: Seq<char>) -> bool {
    exists|i: int| 0 <= i < s.len() && T::id_of(#[trigger] s[i]@) == id
}

/// A position at which the sequence holds an entry of reminder `id`.
pub open spec fn position_of<T: Wake>(s: Seq<T>, id: Seq<char>) -> int {
    choose|i: int| 0 <= i < s.len() && T::id_of(#[trigger] s[i]@) == id
}

/// The entries of a sequence as a map from reminder id to entry.
pub open spec fn as_map<T: Wake>(s: Seq<T>) -> Map<Seq<char>, T::V> {
    Map::new(|id: Seq<char>| has_id(s, id), |id: Seq<char>| s[position_of(s, id)]@)
}

/// The part of a queue that has come due at `now`.
pub open spec fn expired<T: Wake>(m: Map<Seq<char>, T::V>, now: Timestamp) -> Map<
    Seq<char>,
    T::V,
> {
    m.restrict(Set::new(|id: Seq<char>| m.dom().contains(id) && T::due_at(m[id], now)))
}

/// The part of a queue that has not come due at `now`.
pub open spec fn pending<T: Wake>(m: Map<Seq<char>, T::V>, now: Timestamp) -> Map<
    Seq<char>,
    T::V,
> {
    m.restrict(Set::new(|id: Seq<char>| m.dom().contains(id) && !T::due_at(m[id], now)))
}

/// In a sequence of distinct ids, the entry found for an id is the entry at
/// any position that holds that id.
pub proof fn lemma_position<T: Wake>(s: Seq<T>, i: int)
    requires
        ids_distinct(s),
        0 <= i < s.len(),
    ensures
        has_id(s, T::id_of(s[i]@)),
        position_of(s, T::id_of(s[i]@)) == i,
        as_map(s).dom().contains(T::id_of(s[i]@)),
        as_map(s)[T::id_of(s[i]@)] == s[i]@,
{
    let id = T::id_of(s[i]@);
    assert(has_id(s, id));
    let p = position_of(s, id);
    assert(0 <= p < s.len() && T::id_of(s[p]@) == id);
    if p < i {
        assert(T::id_of(s[p]@) != T::id_of(s[i]@));
    } else if i < p {
        assert(T::id_of(s[i]@) != T::id_of(s[p]@));
    }
}

/// A sequence of distinct ids lists its own map: every entry is in the map
/// under its id, and every id of the map is the id of an entry.
pub proof fn lemma_as_map<T: Wake>(s: Seq<T>)
    requires
        ids_distinct(s),
    ensures
        forall|i: int|
            0 <= i < s.len() ==> as_map(s).contains_pair(T::id_of(#[trigger] s[i]@), s[i]@),
        forall|id: Seq<char>| #[trigger]
            as_map(s).dom().contains(id) ==> 0 <= position_of(s, id) < s.len() && T::id_of(
                s[position_of(s, id)]@,
            ) == id,
{
    assert forall|i: int| 0 <= i < s.len() implies as_map(s).contains_pair(
        T::id_of(#[trigger] s[i]@),
        s[i]@,
    ) by {
        lemma_position(s, i);
    }
}

/// A map equals the map of a sequence of distinct ids as soon as it holds
/// every entry of the sequence under its id and nothing else.
pub proof fn lemma_map_is<T: Wake>(s: Seq<T>, m: Map<Seq<char>, T::V>)
    requires
        ids_distinct(s),
        forall|i: int| 0 <= i < s.len() ==> m.contains_pair(T::id_of(#[trigger] s[i]@), s[i]@),
        forall|id: Seq<char>| #[trigger] m.dom().contains(id) ==> has_id(s, id),
    ensures
        as_map(s) == m,
{
    assert forall|id: Seq<char>| as_map(s).dom().contains(id) == m.dom().contains(id) by {
        if has_id(s, id) {
            let p = position_of(s, id);
            assert(m.contains_pair(T::id_of(s[p]@), s[p]@));
        }
    }
    assert forall|id: Seq<char>| #[trigger] as_map(s).dom().contains(id) implies as_map(s)[id]
        == m[id] by {
        let p = position_of(s, id);
        assert(m.contains_pair(T::id_of(s[p]@), s[p]@));
    }
    assert(as_map(s) =~= m);
}

/// The map of a sequence of distinct ids has as many entries as the sequence.
pub proof fn lemma_finite<T: Wake>(s: Seq<T>)
    requires
        ids_distinct(s),
    ensures
        as_map(s).dom().finite(),
        as_map(s).dom().len() == s.len(),
    decreases s.len(),
{
    if s.len() == 0 {
        assert(as_map(s).dom() =~= Set::<Seq<char>>::empty());
    } else {
        let front = s.drop_last();
        let id = T::id_of(s.last()@);
        assert(ids_distinct(front)) by {
            assert forall|a: int, b: int| 0 <= a < b < front.len() implies T::id_of(
                #[trigger] front[a]@,
            ) != T::id_of(#[trigger] front[b]@) by {
                assert(T::id_of(s[a]@) != T::id_of(s[b]@));
            }
        }
        lemma_finite(front);
        assert(!has_id(front, id)) by {
            if has_id(front, id) {
                let p = position_of(front, id);
                assert(T::id_of(s[p]@) != T::id_of(s[s.len() - 1]@));
            }
        }
        assert(as_map(s).dom() =~= as_map(front).dom().insert(id)) by {
            assert forall|k: Seq<char>| as_map(s).dom().contains(k) == as_map(
                front,
            ).dom().insert(id).contains(k) by {
                if has_id(s, k) {
                    let p = position_of(s, k);
                    if p < front.len() {
                        assert(T::id_of(front[p]@) == k);
                    }
                }
                if has_id(front, k) {
                    let p = position_of(front, k);
                    assert(T::id_of(s[p]@) == k);
                }
                if k == id {
                    assert(T::id_of(s[s.len() - 1]@) == k);
                }
            }
        }
    }
}

/// What `drain_expired` leaves and what it returns, from the facts that its
/// loop maintains.
proof fn lemma_drained<T: Wake>(before: Seq<T>, kept: Seq<T>, out: Seq<T>, now: Timestamp)
    requires
        ids_distinct(before),
        ids_distinct(kept),
        ids_distinct(out),
        forall|j: int| 0 <= j < kept.len() ==> !T::due_at(#[trigger] kept[j]@, now),
        forall|j: int| 0 <= j < out.len() ==> T::due_at(#[trigger] out[j]@, now),
        forall|j: int|
            0 <= j < kept.len() ==> as_map(before).contains_pair(
                T::id_of(#[trigger] kept[j]@),
                kept[j]@,
            ),
        forall|j: int|
            0 <= j < out.len() ==> as_map(before).contains_pair(
                T::id_of(#[trigger] out[j]@),
                out[j]@,
            ),
        forall|id: Seq<char>| #[trigger]
            as_map(before).dom().contains(id) ==> has_id(kept, id) || has_id(out, id),
    ensures
        as_map(kept) == pending::<T>(as_map(before), now),
        as_map(out) == expired::<T>(as_map(before), now),
{
    let m = as_map(before);
    assert forall|id: Seq<char>| #[trigger] pending::<T>(m, now).dom().contains(id) implies has_id(
        kept,
        id,
    ) by {
        assert(m.dom().contains(id));
        if has_id(out, id) {
            let p = position_of(out, id);
            assert(m.contains_pair(T::id_of(out[p]@), out[p]@));
        }
    }
    assert forall|id: Seq<char>| #[trigger] expired::<T>(m, now).dom().contains(id) implies has_id(
        out,
        id,
    ) by {
        assert(m.dom().contains(id));
        if has_id(kept, id) {
            let p = position_of(kept, id);
            assert(m.contains_pair(T::id_of(kept[p]@), kept[p]@));
        }
    }
    assert forall|i: int| 0 <= i < kept.len() implies pending::<T>(m, now).contains_pair(
        T::id_of(#[trigger] kept[i]@),
        kept[i]@,
    ) by {
        assert(m.contains_pair(T::id_of(kept[i]@), kept[i]@));
    }
    assert forall|i: int| 0 <= i < out.len() implies expired::<T>(m, now).contains_pair(
        T::id_of(#[trigger] out[i]@),
        out[i]@,
    ) by {
        assert(m.contains_pair(T::id_of(out[i]@), out[i]@));
    }
    lemma_map_is(kept, pending::<T>(m, now));
    lemma_map_is(out, expired::<T>(m, now));
}

/// A registry of pending entries, at most one for each reminder id.
pub struct WakeQueue<T> {
    entries: Vec<T>,
}

impl<T: Wake> View for WakeQueue<T> {
    type V = Map<Seq<char>, T::V>;

    /// The queue as a map from reminder id to the pending entry.
    closed spec fn view(&self) -> Map<Seq<char>, T::V> {
        as_map(self.entries@)
    }
}

impl<T: Wake> WakeQueue<T> {
    /// No reminder id occurs twice.
    pub closed spec fn wf(&self) -> bool {
        ids_distinct(self.entries@)
    }

    /// Every entry is filed under its own reminder id, and the queue is finite.
    pub proof fn lemma_keys(&self)
        requires
            self.wf(),
        ensures
            forall|id: Seq<char>| #[trigger]
                self@.dom().contains(id) ==> T::id_of(self@[id]) == id,
            self@.dom().finite(),
    {
        lemma_as_map(self.entries@);
        lemma_finite(self.entries@);
    }

    pub fn new() -> (q: Self)
        ensures
            q.wf(),
            q@ == Map::<Seq<char>, T::V>::empty(),
    {
        let q = WakeQueue { entries: Vec::new() };
        assert(q@ =~= Map::<Seq<char>, T::V>::empty());
        q
    }

    /// Position of the entry of reminder `id`, if there is one.
    fn find(&self, id: &String) -> (r: Option<usize>)
        requires
            self.wf(),
        ensures
            match r {
                Some(i) => i < self.entries@.len() && T::id_of(self.entries@[i as int]@) == id@,
                None => !has_id(self.entries@, id@),
            },
    {
        let mut i: usize = 0;
        while i < self.entries.len()
            invariant
                i <= self.entries@.len(),
                forall|j: int| 0 <= j < i ==> T::id_of(#[trigger] self.entries@[j]@) != id@,
            decreases self.entries@.len() - i,
        {
            if *self.entries[i].id() == *id {
                return Some(i);
            }
            i += 1;
        }
        None
    }

    /// Whether an entry is pending for reminder `id`.
    pub fn contains(&self, id: &str) -> (b: bool)
        requires
            self.wf(),
        ensures
            b == self@.dom().contains(id@),
    {
        let key = String::from_str(id);
        self.find(&key).is_some()
    }

    /// The pending entry of reminder `id`.
    pub fn get(&self, id: &str) -> (r: Option<&T>)
        requires
            self.wf(),
        ensures
            match r {
                Some(e) => self@.contains_pair(id@, e@),
                None => !self@.dom().contains(id@),
            },
    {
        let key = String::from_str(id);
        match self.find(&key) {
            Some(i) => {
                proof {
                    lemma_position(self.entries@, i as int);
                }
                Some(&self.entries[i])
            },
            None => None,
        }
    }

    /// Whether nothing is pending.
    pub fn is_empty(&self) -> (b: bool)
        requires
            self.wf(),
        ensures
            b == (self@ == Map::<Seq<char>, T::V>::empty()),
    {
        let b = self.entries.len() == 0;
        proof {
            if b {
                assert(self@ =~= Map::<Seq<char>, T::V>::empty());
            } else {
                lemma_position(self.entries@, 0);
            }
        }
        b
    }

    /// Number of pending entries.
    pub fn len(&self) -> (n: usize)
        requires
            self.wf(),
        ensures
            n == self@.dom().len(),
    {
        proof {
            lemma_finite(self.entries@);
        }
        self.entries.len()
    }

    /// Files `item` under its reminder id, replacing the entry that was
    /// pending for that id, if any.
    pub fn upsert(&mut self, item: T)
        requires
            old(self).wf(),
        ensures
            final(self).wf(),
            final(self)@ == old(self)@.insert(T::id_of(item@), item@),
    {
        let ghost before = self.entries@;
        let ghost id = T::id_of(item@);
        let found = self.find(item.id());
        match found {
            Some(i) => {
                self.entries.set(i, item);
                proof {
                    let after = self.entries@;
                    assert(after == before.update(i as int, item));
                    assert(ids_distinct(after)) by {
                        assert forall|a: int, b: int| 0 <= a < b < after.len() implies T::id_of(
                            #[trigger] after[a]@,
                        ) != T::id_of(#[trigger] after[b]@) by {
                            assert(T::id_of(before[a]@) != T::id_of(before[b]@));
                        }
                    }
                    let m = as_map(before).insert(id, item@);
                    assert forall|j: int| 0 <= j < after.len() implies m.contains_pair(
                        T::id_of(#[trigger] after[j]@),
                        after[j]@,
                    ) by {
                        if j != i {
                            lemma_position(before, j);
                            if j < i {
                                assert(T::id_of(before[j]@) != T::id_of(before[i as int]@));
                            } else {
                                assert(T::id_of(before[i as int]@) != T::id_of(before[j]@));
                            }
                        }
                    }
                    assert forall|k: Seq<char>| #[trigger] m.dom().contains(k) implies has_id(
                        after,
                        k,
                    ) by {
                        if k == id {
                            assert(T::id_of(after[i as int]@) == k);
                        } else {
                            let p = position_of(before, k);
                            assert(T::id_of(after[p]@) == k);
                        }
                    }
                    lemma_map_is(after, m);
                }
            },
            None => {
                self.entries.push(item);
                proof {
                    let after = self.entries@;
                    assert(after == before.push(item));
                    assert(ids_distinct(after)) by {
                        assert forall|a: int, b: int| 0 <= a < b < after.len() implies T::id_of(
                            #[trigger] after[a]@,
                        ) != T::id_of(#[trigger] after[b]@) by {
                            if b < before.len() {
                                assert(T::id_of(before[a]@) != T::id_of(before[b]@));
                            } else {
                                assert(after[b] == item);
                                assert(after[a] == before[a]);
                                if T::id_of(before[a]@) == id {
                                    assert(has_id(before, id));
                                }
                            }
                        }
                    }
                    let m = as_map(before).insert(id, item@);
                    assert forall|j: int| 0 <= j < after.len() implies m.contains_pair(
                        T::id_of(#[trigger] after[j]@),
                        after[j]@,
                    ) by {
                        if j < before.len() {
                            lemma_position(before, j);
                            assert(after[j] == before[j]);
                        }
                    }
                    assert forall|k: Seq<char>| #[trigger] m.dom().contains(k) implies has_id(
                        after,
                        k,
                    ) by {
                        if k == id {
                            assert(T::id_of(after[before.len() as int]@) == k);
                        } else {
                            let p = position_of(before, k);
                            assert(T::id_of(after[p]@) == k);
                        }
                    }
                    lemma_map_is(after, m);
                }
            },
        }
    }

    /// Removes the entry pending for reminder `id`; without one, nothing
    /// changes.
    pub fn remove(&mut self, id: &str)
        requires
            old(self).wf(),
        ensures
            final(self).wf(),
            final(self)@ == old(self)@.remove(id@),
    {
        let ghost before = self.entries@;
        let key = String::from_str(id);
        match self.find(&key) {
            Some(i) => {
                let _ = self.entries.remove(i);
                proof {
                    let after = self.entries@;
                    assert(after == before.remove(i as int));
                    assert(ids_distinct(after)) by {
                        assert forall|a: int, b: int| 0 <= a < b < after.len() implies T::id_of(
                            #[trigger] after[a]@,
                        ) != T::id_of(#[trigger] after[b]@) by {
                            let ca = if a < i { a } else { a + 1 };
                            let cb = if b < i { b } else { b + 1 };
                            assert(after[a] == before[ca] && after[b] == before[cb]);
                            assert(T::id_of(before[ca]@) != T::id_of(before[cb]@));
                        }
                    }
                    let m = as_map(before).remove(id@);
                    assert forall|j: int| 0 <= j < after.len() implies m.contains_pair(
                        T::id_of(#[trigger] after[j]@),
                        after[j]@,
                    ) by {
                        let cj = if j < i { j } else { j + 1 };
                        assert(after[j] == before[cj]);
                        lemma_position(before, cj);
                        if cj < i {
                            assert(T::id_of(before[cj]@) != T::id_of(before[i as int]@));
                        } else {
                            assert(T::id_of(before[i as int]@) != T::id_of(before[cj]@));
                        }
                    }
                    assert forall|k: Seq<char>| #[trigger] m.dom().contains(k) implies has_id(
                        after,
                        k,
                    ) by {
                        let p = position_of(before, k);
                        let q = if p < i { p } else { p - 1 };
                        assert(T::id_of(after[q]@) == k);
                    }
                    lemma_map_is(after, m);
                }
            },
            None => {
                proof {
                    assert(as_map(before).remove(id@) =~= as_map(before));
                }
            },
        }
    }

    /// Removes and returns every entry that has come due at `now`. Each of
    /// them is returned once; the others stay pending, unchanged.
    pub fn drain_expired(&mut self, now: &Timestamp) -> (out: Vec<T>)
        requires
            old(self).wf(),
        ensures
            final(self).wf(),
            final(self)@ == pending::<T>(old(self)@, *now),
            ids_distinct(out@),
            as_map(out@) == expired::<T>(old(self)@, *now),
    {
        let ghost before = self.entries@;
        let mut out: Vec<T> = Vec::new();
        let mut i: usize = 0;
        proof {
            lemma_as_map(before);
        }
        while i < self.entries.len()
            invariant
                i <= self.entries@.len(),
                ids_distinct(before),
                ids_distinct(self.entries@),
                ids_distinct(out@),
                forall|j: int| 0 <= j < i ==> !T::due_at(#[trigger] self.entries@[j]@, *now),
                forall|j: int| 0 <= j < out@.len() ==> T::due_at(#[trigger] out@[j]@, *now),
                forall|j: int|
                    0 <= j < self.entries@.len() ==> as_map(before).contains_pair(
                        T::id_of(#[trigger] self.entries@[j]@),
                        self.entries@[j]@,
                    ),
                forall|j: int|
                    0 <= j < out@.len() ==> as_map(before).contains_pair(
                        T::id_of(#[trigger] out@[j]@),
                        out@[j]@,
                    ),
                forall|j: int, k: int|
                    0 <= j < self.entries@.len() && 0 <= k < out@.len() ==> T::id_of(
                        #[trigger] self.entries@[j]@,
                    ) != T::id_of(#[trigger] out@[k]@),
                forall|id: Seq<char>| #[trigger]
                    as_map(before).dom().contains(id) ==> has_id(self.entries@, id) || has_id(
                        out@,
                        id,
                    ),
            decreases self.entries@.len() - i,
        {
            if self.entries[i].is_due(now) {
                let ghost cur = self.entries@;
                let ghost got = out@;
                let item = self.entries.swap_remove(i);
                out.push(item);
                proof {
                    let after = self.entries@;
                    let last = cur.len() - 1;
                    assert(item == cur[i as int]);
                    assert(out@ == got.push(item));
                    assert(after.len() == last);
                    assert forall|j: int| 0 <= j < after.len() implies #[trigger] after[j] == (if j
                        == i {
                        cur[last]
                    } else {
                        cur[j]
                    }) by {}
                    assert(ids_distinct(after)) by {
                        assert forall|a: int, b: int| 0 <= a < b < after.len() implies T::id_of(
                            #[trigger] after[a]@,
                        ) != T::id_of(#[trigger] after[b]@) by {
                            let ca = if a == i { last } else { a };
                            let cb = if b == i { last } else { b };
                            assert(after[a] == cur[ca] && after[b] == cur[cb]);
                            if ca < cb {
                                assert(T::id_of(cur[ca]@) != T::id_of(cur[cb]@));
                            } else {
                                assert(T::id_of(cur[cb]@) != T::id_of(cur[ca]@));
                            }
                        }
                    }
                    assert(ids_distinct(out@)) by {
                        assert forall|a: int, b: int| 0 <= a < b < out@.len() implies T::id_of(
                            #[trigger] out@[a]@,
                        ) != T::id_of(#[trigger] out@[b]@) by {
                            if b < got.len() {
                                assert(T::id_of(got[a]@) != T::id_of(got[b]@));
                            } else {
                                assert(out@[b] == item && out@[a] == got[a]);
                                assert(T::id_of(cur[i as int]@) != T::id_of(got[a]@));
                            }
                        }
                    }
                    assert forall|j: int| 0 <= j < after.len() implies as_map(
                        before,
                    ).contains_pair(T::id_of(#[trigger] after[j]@), after[j]@) by {
                        let cj = if j == i { last } else { j };
                        assert(after[j] == cur[cj]);
                    }
                    assert forall|j: int| 0 <= j < i implies !T::due_at(
                        #[trigger] after[j]@,
                        *now,
                    ) by {
                        assert(after[j] == cur[j]);
                    }
                    assert forall|j: int, k: int|
                        0 <= j < after.len() && 0 <= k < out@.len() implies T::id_of(
                        #[trigger] after[j]@,
                    ) != T::id_of(#[trigger] out@[k]@) by {
                        let cj = if j == i { last } else { j };
                        assert(after[j] == cur[cj]);
                        if k < got.len() {
                            assert(out@[k] == got[k]);
                            assert(T::id_of(cur[cj]@) != T::id_of(got[k]@));
                        } else {
                            assert(out@[k] == item);
                            if cj < i {
                                assert(T::id_of(cur[cj]@) != T::id_of(cur[i as int]@));
                            } else {
                                assert(T::id_of(cur[i as int]@) != T::id_of(cur[cj]@));
                            }
                        }
                    }
                    assert forall|id: Seq<char>| #[trigger]
                        as_map(before).dom().contains(id) implies has_id(after, id) || has_id(
                        out@,
                        id,
                    ) by {
                        if has_id(cur, id) {
                            let p = position_of(cur, id);
                            if p == i {
                                assert(T::id_of(out@[got.len() as int]@) == id);
                            } else if p == last {
                                assert(T::id_of(after[i as int]@) == id);
                            } else {
                                assert(T::id_of(after[p]@) == id);
                            }
                        } else {
                            let p = position_of(got, id);
                            assert(T::id_of(out@[p]@) == id);
                        }
                    }
                }
            } else {
                i += 1;
            }
        }
        proof {
            lemma_drained(before, self.entries@, out@, *now);
        }
        out
    }
}

} // verus!
