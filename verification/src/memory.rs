//! The in-memory foundation repository's rules: cursor-ordered event history
//! and key-ordered upserts where the latest write of a key wins.

use vstd::prelude::*;

use crate::ports::RepositoryHealth;

verus! {

/// Event sink that deliberately performs no fan-out.
#[derive(Clone, Copy, Debug, Default)]
pub struct NoopDomainEventSink;

impl NoopDomainEventSink {
    /// Publishes nothing and always succeeds.
    pub fn publish<E>(&self, events: &[E]) -> (r: Result<(), String>)
        ensures
            r is Ok,
    {
        Ok(())
    }
}

/// One durable event with its cursor.
#[derive(Clone, Debug)]
pub struct CursorEvent<E> {
    pub cursor: u64,
    pub event: E,
}

/// `a + b`, saturating at the largest cursor.
pub open spec fn saturating(a: int, b: int) -> u64 {
    if a + b > u64::MAX {
        u64::MAX
    } else {
        (a + b) as u64
    }
}

/// The cursor of the `k`-th event appended after cursor `current`.
pub open spec fn appended_cursor(current: u64, k: int) -> u64 {
    saturating(saturating(current as int, k) as int, 1)
}

/// The cursor an append counts from: the latest committed one, or zero.
pub open spec fn cursor_base(latest: Option<u64>) -> u64 {
    match latest {
        Some(c) => c,
        None => 0,
    }
}

/// `batch` as appended after cursor `base`: the `k`-th event gets cursor
/// `base + k + 1`, saturating.
pub open spec fn appended_events<E>(base: u64, batch: Seq<E>) -> Seq<CursorEvent<E>> {
    Seq::new(batch.len(), |k: int| CursorEvent { cursor: appended_cursor(base, k), event: batch[k] })
}

/// Cursor-ordered durable event history.
pub struct EventLog<E> {
    events: Vec<CursorEvent<E>>,
    latest: Option<u64>,
}

impl<E> EventLog<E> {
    /// The retained events, oldest first.
    pub closed spec fn history(&self) -> Seq<CursorEvent<E>> {
        self.events@
    }

    /// The latest committed cursor.
    pub closed spec fn latest_cursor(&self) -> Option<u64> {
        self.latest
    }

    /// Cursors never decrease, and the latest cursor is the last event's.
    #[verifier::type_invariant]
    pub closed spec fn well_formed(&self) -> bool {
        &&& forall|i: int, j: int|
            0 <= i <= j < self.events@.len() ==> #[trigger] self.events@[i].cursor <= #[trigger] self.events@[j].cursor
        &&& self.latest == (if self.events@.len() == 0 {
            None
        } else {
            Some(self.events@.last().cursor)
        })
    }

    /// An empty history.
    pub fn new() -> (l: Self)
        ensures
            l.history().len() == 0,
            l.latest_cursor() is None,
    {
        EventLog { events: Vec::new(), latest: None }
    }

    /// Appends a batch: the `k`-th new event gets cursor `latest + k + 1`
    /// (saturating), and the latest cursor moves to the last one.
    pub fn append(&mut self, batch: Vec<E>)
        ensures
            final(self).history().len() == old(self).history().len() + batch@.len(),
            forall|i: int| 0 <= i < old(self).history().len() ==> #[trigger] final(self).history()[i] == old(self).history()[i],
            forall|k: int|
                0 <= k < batch@.len() ==> #[trigger] final(self).history()[old(self).history().len() + k] == (CursorEvent {
                    cursor: appended_cursor(
                        match old(self).latest_cursor() {
                            Some(c) => c,
                            None => 0,
                        },
                        k,
                    ),
                    event: batch@[k],
                }),
            batch@.len() == 0 ==> final(self).latest_cursor() == old(self).latest_cursor(),
            batch@.len() > 0 ==> final(self).latest_cursor() == Some(
                appended_cursor(cursor_base(old(self).latest_cursor()), batch@.len() - 1),
            ),
            final(self).history() == old(self).history() + appended_events(cursor_base(old(self).latest_cursor()), batch@),
    {
        proof {
            use_type_invariant(&*self);
        }
        let mut taken = EventLog { events: Vec::new(), latest: None };
        std::mem::swap(self, &mut taken);
        let ghost old_events = taken.events@;
        let ghost old_latest = taken.latest;
        assert(old_events == old(self).events@ && old_latest == old(self).latest);
        let EventLog { events: mut events, latest } = taken;
        let current: u64 = match latest {
            Some(c) => c,
            None => 0,
        };
        let n = batch.len();
        let mut rest = batch;
        let ghost original = rest@;
        let mut reversed: Vec<E> = Vec::new();
        while rest.len() > 0
            invariant
                rest@ =~= original.take(rest@.len() as int),
                reversed@ =~= original.skip(rest@.len() as int).reverse(),
                rest@.len() <= original.len(),
            decreases rest@.len(),
        {
            let ghost m = rest@.len() as int;
            let e = rest.pop().unwrap();
            assert(original.skip(m - 1).reverse() =~= original.skip(m).reverse().push(original[m - 1]));
            reversed.push(e);
        }
        let mut offset: usize = 0;
        while reversed.len() > 0
            invariant
                offset + reversed@.len() == n,
                n == original.len(),
                reversed@ =~= original.skip(offset as int).reverse(),
                events@.len() == old_events.len() + offset,
                forall|i: int| 0 <= i < old_events.len() ==> #[trigger] events@[i] == old_events[i],
                forall|k: int|
                    0 <= k < offset ==> #[trigger] events@[old_events.len() + k] == (CursorEvent {
                        cursor: appended_cursor(current, k),
                        event: original[k],
                    }),
                current == cursor_base(old_latest),
                forall|i: int, j: int|
                    0 <= i <= j < events@.len() ==> #[trigger] events@[i].cursor <= #[trigger] events@[j].cursor,
                offset == 0 && events@.len() > 0 ==> events@.last().cursor <= current,
                offset > 0 ==> events@.last().cursor == appended_cursor(current, offset - 1),
                old_latest == (if old_events.len() == 0 {
                    None
                } else {
                    Some(old_events.last().cursor)
                }),
                offset == 0 ==> events@ == old_events,
            decreases reversed@.len(),
        {
            let e = reversed.pop().unwrap();
            let cursor = current.saturating_add(offset as u64).saturating_add(1);
            assert(cursor == appended_cursor(current, offset as int));
            proof {
                if events@.len() > 0 {
                    assert(events@.last().cursor <= cursor);
                }
            }
            let ghost before = events@;
            events.push(CursorEvent { cursor, event: e });
            assert forall|i: int, j: int| 0 <= i <= j < events@.len() implies #[trigger] events@[i].cursor
                <= #[trigger] events@[j].cursor by {
                if j == events@.len() - 1 && i < j {
                    assert(before[i].cursor <= before.last().cursor);
                }
            }
            offset = offset + 1;
        }
        let latest = if n > 0 {
            Some(events[events.len() - 1].cursor)
        } else {
            latest
        };
        assert forall|i: int| 0 <= i < events@.len() implies #[trigger] events@[i] == (old_events
            + appended_events(current, original))[i] by {
            if i >= old_events.len() {
                let k = i - old_events.len();
                assert(events@[old_events.len() + k] == (CursorEvent {
                    cursor: appended_cursor(current, k),
                    event: original[k],
                }));
            }
        }
        assert(events@ =~= old_events + appended_events(current, original));
        *self = EventLog { events, latest };
    }

    /// The earliest retained cursor.
    pub closed spec fn earliest_cursor(&self) -> Option<u64> {
        if self.events@.len() == 0 {
            None
        } else {
            Some(self.events@[0].cursor)
        }
    }

    /// At most `limit` events after `cursor`, oldest first, with the retained
    /// cursor range.
    pub fn events_after(&self, cursor: u64, limit: usize) -> (page: (Option<u64>, Option<u64>, Vec<&CursorEvent<E>>))
        ensures
            page.0 == self.earliest_cursor(),
            page.1 == self.latest_cursor(),
            page.2@.map_values(|e: &CursorEvent<E>| *e) == events_after_cursor(self.history(), cursor).take(
                if limit < events_after_cursor(self.history(), cursor).len() {
                    limit as int
                } else {
                    events_after_cursor(self.history(), cursor).len() as int
                },
            ),
    {
        let earliest = if self.events.len() == 0 {
            None
        } else {
            Some(self.events[0].cursor)
        };
        let mut page: Vec<&CursorEvent<E>> = Vec::new();
        let mut i: usize = 0;
        let n = self.events.len();
        while i < n && page.len() < limit
            invariant
                n == self.events@.len(),
                i <= n,
                page@.map_values(|e: &CursorEvent<E>| *e) == events_after_cursor(self.events@.take(i as int), cursor),
                page@.len() <= limit,
            decreases n - i,
        {
            assert(self.events@.take(i + 1).drop_last() =~= self.events@.take(i as int));
            let ghost before = page@;
            if self.events[i].cursor > cursor {
                page.push(&self.events[i]);
                assert(page@.map_values(|e: &CursorEvent<E>| *e) =~= before.map_values(|e: &CursorEvent<E>| *e).push(
                    self.events@[i as int],
                ));
            }
            i = i + 1;
        }
        proof {
            lemma_after_prefix(self.events@, cursor, i as int, n as int);
            assert(self.events@.take(n as int) =~= self.events@);
            let all = events_after_cursor(self.events@, cursor);
            let got = page@.map_values(|e: &CursorEvent<E>| *e);
            if i == n {
                assert(all.take(all.len() as int) =~= all);
            }
        }
        (earliest, self.latest, page)
    }

    /// Secret-safe health of the in-memory backend.
    pub fn health(&self) -> (h: RepositoryHealth)
        ensures
            h.backend@ == "memory"@,
            h.schema_version is None,
            h.integrity@ == "ok"@,
            h.wal_enabled is None,
            h.earliest_event_cursor == self.earliest_cursor(),
            h.latest_event_cursor == (if self.history().len() == 0 {
                None
            } else {
                Some(self.history().last().cursor)
            }),
    {
        let n = self.events.len();
        RepositoryHealth {
            backend: String::from_str("memory"),
            schema_version: None,
            integrity: String::from_str("ok"),
            wal_enabled: None,
            earliest_event_cursor: if n == 0 {
                None
            } else {
                Some(self.events[0].cursor)
            },
            latest_event_cursor: if n == 0 {
                None
            } else {
                Some(self.events[n - 1].cursor)
            },
        }
    }

    /// The retained events, oldest first.
    pub fn events(&self) -> (s: &[CursorEvent<E>])
        ensures
            s@ == self.history(),
    {
        self.events.as_slice()
    }
}

/// The events whose cursor is after `cursor`, in history order.
pub open spec fn events_after_cursor<E>(s: Seq<CursorEvent<E>>, cursor: u64) -> Seq<CursorEvent<E>>
    decreases s.len(),
{
    if s.len() == 0 {
        s
    } else {
        let earlier = events_after_cursor(s.drop_last(), cursor);
        if s.last().cursor > cursor {
            earlier.push(s.last())
        } else {
            earlier
        }
    }
}

/// The later events of a history prefix are a prefix of the later events of
/// the whole history.
proof fn lemma_after_prefix<E>(s: Seq<CursorEvent<E>>, cursor: u64, i: int, k: int)
    requires
        0 <= i <= k <= s.len(),
    ensures
        events_after_cursor(s.take(i), cursor) == events_after_cursor(s.take(k), cursor).take(
            events_after_cursor(s.take(i), cursor).len() as int,
        ),
        events_after_cursor(s.take(i), cursor).len() <= events_after_cursor(s.take(k), cursor).len(),
    decreases k - i,
{
    if i < k {
        lemma_after_prefix(s, cursor, i, k - 1);
        assert(s.take(k).drop_last() =~= s.take(k - 1));
        let a = events_after_cursor(s.take(i), cursor);
        let b = events_after_cursor(s.take(k - 1), cursor);
        let c = events_after_cursor(s.take(k), cursor);
        assert(c =~= b || c =~= b.push(s[k - 1]));
        assert(c.take(a.len() as int) =~= b.take(a.len() as int));
    } else {
        let a = events_after_cursor(s.take(i), cursor);
        assert(a.take(a.len() as int) =~= a);
    }
}

/// Selecting the later events distributes over concatenation.
proof fn lemma_after_concat<E>(s: Seq<CursorEvent<E>>, t: Seq<CursorEvent<E>>, cursor: u64)
    ensures
        events_after_cursor(s + t, cursor) == events_after_cursor(s, cursor) + events_after_cursor(t, cursor),
    decreases t.len(),
{
    if t.len() == 0 {
        assert(s + t =~= s);
        assert(events_after_cursor(s, cursor) + events_after_cursor(t, cursor) =~= events_after_cursor(s, cursor));
    } else {
        lemma_after_concat(s, t.drop_last(), cursor);
        assert((s + t).drop_last() =~= s + t.drop_last());
        assert((s + t).last() == t.last());
        let a = events_after_cursor(s, cursor);
        let b = events_after_cursor(t.drop_last(), cursor);
        assert((a + b).push(t.last()) =~= a + b.push(t.last()));
    }
}

/// No event of `s` is after `cursor` when every cursor of `s` is at most it.
proof fn lemma_after_none<E>(s: Seq<CursorEvent<E>>, cursor: u64)
    requires
        forall|i: int| 0 <= i < s.len() ==> #[trigger] s[i].cursor <= cursor,
    ensures
        events_after_cursor(s, cursor) == Seq::<CursorEvent<E>>::empty(),
    decreases s.len(),
{
    if s.len() > 0 {
        lemma_after_none(s.drop_last(), cursor);
        assert(s.last().cursor <= cursor);
    }
}

/// Every event of `s` is after `cursor` when every cursor of `s` exceeds it.
proof fn lemma_after_all<E>(s: Seq<CursorEvent<E>>, cursor: u64)
    requires
        forall|i: int| 0 <= i < s.len() ==> #[trigger] s[i].cursor > cursor,
    ensures
        events_after_cursor(s, cursor) == s,
    decreases s.len(),
{
    if s.len() > 0 {
        lemma_after_all(s.drop_last(), cursor);
        assert(s.last().cursor > cursor);
        assert(s.drop_last().push(s.last()) =~= s);
    }
}

/// Read after write: once a batch is appended to a well-formed log, the events
/// after the previously latest cursor (zero for an empty log) are exactly the
/// batch, in order, with cursors one past that cursor onwards; a page of at most
/// `limit` of them is the first `limit`; and the latest cursor moves to the
/// last appended one. Holds while those cursors fit below `u64::MAX` (past it
/// cursors saturate).
pub proof fn lemma_read_after_append<E>(log: EventLog<E>, batch: Seq<E>, limit: nat)
    requires
        log.well_formed(),
        cursor_base(log.latest_cursor()) + batch.len() <= u64::MAX,
    ensures
        ({
            let base = cursor_base(log.latest_cursor());
            let written = log.history() + appended_events(base, batch);
            let expected = Seq::new(
                batch.len(),
                |k: int| CursorEvent { cursor: (base + k + 1) as u64, event: batch[k] },
            );
            &&& events_after_cursor(written, base) == expected
            &&& events_after_cursor(written, base).take(if limit < batch.len() { limit as int } else { batch.len() as int })
                == expected.take(if limit < batch.len() { limit as int } else { batch.len() as int })
            &&& batch.len() > 0 ==> appended_cursor(base, batch.len() - 1) == base + batch.len()
        }),
{
    let base = cursor_base(log.latest_cursor());
    let old_h = log.history();
    let new_h = appended_events(base, batch);
    lemma_after_concat(old_h, new_h, base);
    assert forall|i: int| 0 <= i < old_h.len() implies #[trigger] old_h[i].cursor <= base by {
        assert(old_h[i].cursor <= old_h[old_h.len() - 1].cursor);
    }
    lemma_after_none(old_h, base);
    assert forall|i: int| 0 <= i < new_h.len() implies #[trigger] new_h[i].cursor > base by {
        assert(appended_cursor(base, i) == base + i + 1);
    }
    lemma_after_all(new_h, base);
    let expected = Seq::new(batch.len(), |k: int| CursorEvent { cursor: (base + k + 1) as u64, event: batch[k] });
    assert(new_h =~= expected);
    assert(Seq::<CursorEvent<E>>::empty() + new_h =~= new_h);
}

/// Keys strictly increase along the sequence, so each key occurs once.
pub open spec fn strictly_ordered<T>(s: Seq<(u64, T)>) -> bool {
    forall|i: int, j: int| 0 <= i < j < s.len() ==> #[trigger] s[i].0 < #[trigger] s[j].0
}

/// Whether some record of `s` has key `k`.
pub open spec fn has_key<T>(s: Seq<(u64, T)>, k: u64) -> bool {
    exists|i: int| 0 <= i < s.len() && #[trigger] s[i].0 == k
}

/// The records of `s` by key.
pub open spec fn keyed_view<T>(s: Seq<(u64, T)>) -> Map<u64, T> {
    Map::new(|k: u64| has_key(s, k), |k: u64| s[choose|i: int| 0 <= i < s.len() && #[trigger] s[i].0 == k].1)
}

/// The latest write of each key.
pub open spec fn latest_by_key<T>(writes: Seq<(u64, T)>) -> Map<u64, T>
    decreases writes.len(),
{
    if writes.len() == 0 {
        Map::empty()
    } else {
        latest_by_key(writes.drop_last()).insert(writes.last().0, writes.last().1)
    }
}

proof fn lemma_view_at<T>(s: Seq<(u64, T)>, i: int)
    requires
        strictly_ordered(s),
        0 <= i < s.len(),
    ensures
        keyed_view(s).contains_key(s[i].0),
        keyed_view(s)[s[i].0] == s[i].1,
{
    let k = s[i].0;
    assert(has_key(s, k));
    let j = choose|j: int| 0 <= j < s.len() && #[trigger] s[j].0 == k;
    if j < i {
        assert(s[j].0 < s[i].0);
    } else if i < j {
        assert(s[i].0 < s[j].0);
    }
}

/// Inserts or replaces `item` at its key's place.
fn insert_ordered<T>(items: &mut Vec<(u64, T)>, item: (u64, T))
    requires
        strictly_ordered(old(items)@),
    ensures
        strictly_ordered(final(items)@),
        keyed_view(final(items)@) == keyed_view(old(items)@).insert(item.0, item.1),
{
    let k = item.0;
    let n = items.len();
    let mut p: usize = 0;
    while p < n && items[p].0 < k
        invariant
            n == items@.len(),
            p <= n,
            forall|j: int| 0 <= j < p ==> #[trigger] items@[j].0 < k,
        decreases n - p,
    {
        p = p + 1;
    }
    let ghost before = items@;
    let replace = p < n && items[p].0 == k;
    if replace {
        items.remove(p);
    }
    items.insert(p, item);
    let ghost after = items@;
    proof {
        assert forall|i: int, j: int| 0 <= i < j < after.len() implies #[trigger] after[i].0
            < #[trigger] after[j].0 by {
            if replace {
                assert(after =~= before.update(p as int, item));
                if j == p {
                    assert(before[i].0 < k);
                } else if i == p {
                    assert(before[p as int].0 < before[j].0);
                } else {
                    assert(before[i].0 < before[j].0);
                }
            } else {
                assert(after =~= before.insert(p as int, item));
                if j == p {
                    assert(before[i].0 < k);
                } else if i == p {
                    assert(before[j - 1].0 >= before[p as int].0);
                    assert(before[p as int].0 > k);
                } else if i < p && j > p {
                    assert(before[i].0 < before[j - 1].0);
                } else if i > p {
                    assert(before[i - 1].0 < before[j - 1].0);
                } else {
                    assert(before[i].0 < before[j].0);
                }
            }
        }
        let expected = keyed_view(before).insert(k, item.1);
        assert forall|key: u64| #[trigger] keyed_view(after).contains_key(key) == expected.contains_key(key) by {
            if has_key(after, key) {
                let i = choose|i: int| 0 <= i < after.len() && #[trigger] after[i].0 == key;
                if i != p {
                    let bi = if replace || i < p { i } else { i - 1 };
                    assert(after[i] == before[bi]);
                    assert(has_key(before, key));
                }
            }
            if has_key(before, key) && key != k {
                let i = choose|i: int| 0 <= i < before.len() && #[trigger] before[i].0 == key;
                let ai = if replace || i < p { i } else { i + 1 };
                assert(after[ai] == before[i]);
                assert(has_key(after, key));
            }
            if key == k {
                assert(after[p as int].0 == k);
                assert(has_key(after, key));
            }
        }
        assert forall|key: u64| #[trigger] keyed_view(after).contains_key(key) implies keyed_view(after)[key]
            == expected[key] by {
            let i = choose|i: int| 0 <= i < after.len() && #[trigger] after[i].0 == key;
            lemma_view_at(after, i);
            if i == p {
                assert(after[i] == item);
            } else {
                let bi = if replace || i < p { i } else { i - 1 };
                assert(after[i] == before[bi]);
                lemma_view_at(before, bi);
            }
        }
        assert(keyed_view(after) =~= expected);
    }
}

/// Upserts `incoming` into `current`: the result is ordered by key, and each
/// key holds its latest write, later incoming records winning over earlier
/// ones and over current records.
pub fn upsert<T>(current: &mut Vec<(u64, T)>, incoming: Vec<(u64, T)>)
    ensures
        strictly_ordered(final(current)@),
        keyed_view(final(current)@) == latest_by_key(old(current)@ + incoming@),
{
    let ghost writes = current@ + incoming@;
    let mut result: Vec<(u64, T)> = Vec::new();
    let mut pending: Vec<(u64, T)> = Vec::new();
    let mut taken: Vec<(u64, T)> = Vec::new();
    std::mem::swap(&mut taken, current);
    let ghost first = taken@;
    // Records are consumed from the back, so collect them reversed first.
    let mut sources = incoming;
    let ghost second = sources@;
    while sources.len() > 0
        invariant
            sources@ =~= second.take(sources@.len() as int),
            pending@ =~= second.skip(sources@.len() as int).reverse(),
            sources@.len() <= second.len(),
        decreases sources@.len(),
    {
        let ghost m = sources@.len() as int;
        let x = sources.pop().unwrap();
        assert(second.skip(m - 1).reverse() =~= second.skip(m).reverse().push(second[m - 1]));
        pending.push(x);
    }
    while taken.len() > 0
        invariant
            taken@ =~= first.take(taken@.len() as int),
            pending@ =~= (first.skip(taken@.len() as int) + second).reverse(),
            taken@.len() <= first.len(),
        decreases taken@.len(),
    {
        let ghost m = taken@.len() as int;
        let x = taken.pop().unwrap();
        assert((first.skip(m - 1) + second).reverse() =~= (first.skip(m) + second).reverse().push(first[m - 1]));
        pending.push(x);
    }
    assert(first.skip(0) =~= first);
    let ghost all = first + second;
    let total = pending.len();
    assert(total == all.len());
    let mut done: usize = 0;
    assert(result@ =~= Seq::<(u64, T)>::empty());
    assert(keyed_view(result@) =~= Map::<u64, T>::empty());
    while pending.len() > 0
        invariant
            pending@ =~= all.skip(done as int).reverse(),
            done + pending@.len() == all.len(),
            all.len() <= usize::MAX,
            strictly_ordered(result@),
            keyed_view(result@) == latest_by_key(all.take(done as int)),
        decreases pending@.len(),
    {
        let x = pending.pop().unwrap();
        assert(x == all[done as int]);
        assert(all.take(done + 1).drop_last() =~= all.take(done as int));
        insert_ordered(&mut result, x);
        done = done + 1;
    }
    assert(all.take(all.len() as int) =~= all);
    *current = result;
}

} // verus!
