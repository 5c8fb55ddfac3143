//! Conversation numbers that have been used lately.

use crate::config::Duration;
use crate::stream::KcpStream;
use hashlink::{DefaultHashBuilder, LinkedHashMap};
use vstd::prelude::*;

verus! {

/// `hashlink::LinkedHashMap` is opaque here; [`entries`] names what a history holds.
#[verifier::external_type_specification]
#[verifier::external_body]
#[verifier::reject_recursive_types(K)]
#[verifier::reject_recursive_types(V)]
#[verifier::reject_recursive_types(S)]
pub struct ExLinkedHashMap<K, V, S>(LinkedHashMap<K, V, S>);

/// `hashlink::DefaultHashBuilder` is opaque here.
#[verifier::external_type_specification]
#[verifier::external_body]
pub struct ExDefaultHashBuilder(DefaultHashBuilder);

/// The numbers in a map from numbers to times, each with its time, in the order in which they
/// were inserted.
pub uninterp spec fn entries(map: LinkedHashMap<u32, u64>) -> Seq<(u32, u64)>;

/// `LinkedHashMap::new` makes an empty map.
#[verifier::external_body]
fn map_new() -> (map: LinkedHashMap<u32, u64>)
    ensures
        entries(map) == Seq::<(u32, u64)>::empty(),
{
    LinkedHashMap::new()
}

/// `LinkedHashMap::with_capacity` makes an empty map with room for `capacity` entries. It panics
/// where the room cannot be addressed.
#[verifier::external_body]
fn map_with_capacity(capacity: usize) -> (map: LinkedHashMap<u32, u64>)
    requires
        capacity <= isize::MAX / 64,
    ensures
        entries(map) == Seq::<(u32, u64)>::empty(),
{
    LinkedHashMap::with_capacity(capacity)
}

/// `LinkedHashMap::front` is the oldest entry.
#[verifier::external_body]
fn map_front(map: &LinkedHashMap<u32, u64>) -> (front: Option<(u32, u64)>)
    ensures
        front == if entries(*map).len() > 0 {
            Some(entries(*map)[0])
        } else {
            None
        },
{
    map.front().map(|e| (*e.0, *e.1))
}

/// `LinkedHashMap::pop_front` removes the oldest entry and returns it.
#[verifier::external_body]
fn map_pop_front(map: &mut LinkedHashMap<u32, u64>) -> (front: Option<(u32, u64)>)
    ensures
        front == if entries(*old(map)).len() > 0 {
            Some(entries(*old(map))[0])
        } else {
            None
        },
        entries(*final(map)) == if entries(*old(map)).len() > 0 {
            entries(*old(map)).skip(1)
        } else {
            entries(*old(map))
        },
{
    map.pop_front()
}

/// `LinkedHashMap::contains_key` tells whether there is an entry for the number.
#[verifier::external_body]
fn map_contains_key(map: &LinkedHashMap<u32, u64>, conv: u32) -> (contains: bool)
    ensures
        contains == holds(entries(*map), conv),
{
    map.contains_key(&conv)
}

/// `LinkedHashMap::insert` puts the entry at the back; one for the same number is taken out of
/// its place.
#[verifier::external_body]
fn map_insert(map: &mut LinkedHashMap<u32, u64>, conv: u32, time: u64)
    ensures
        entries(*final(map)) == without(entries(*old(map)), conv).push((conv, time)),
{
    map.insert(conv, time);
}

/// `LinkedHashMap::keys` yields the numbers from the oldest entry to the newest.
#[verifier::external_body]
fn map_keys(map: &LinkedHashMap<u32, u64>) -> (keys: Vec<u32>)
    ensures
        keys@ == numbers(entries(*map)),
{
    map.keys().copied().collect()
}

/// Whether there is an entry for the number.
pub open spec fn holds(entries: Seq<(u32, u64)>, conv: u32) -> bool {
    exists|i: int| 0 <= i < entries.len() && (#[trigger] entries[i]).0 == conv
}

/// Whether an entry is for another number.
pub open spec fn other_than(conv: u32) -> spec_fn((u32, u64)) -> bool {
    |e: (u32, u64)| e.0 != conv
}

/// The entries without that for the number.
pub open spec fn without(entries: Seq<(u32, u64)>, conv: u32) -> Seq<(u32, u64)> {
    entries.filter(other_than(conv))
}

/// The numbers of the entries.
pub open spec fn numbers(entries: Seq<(u32, u64)>) -> Seq<u32> {
    entries.map_values(|e: (u32, u64)| e.0)
}

/// Whether the time of an entry lies back as far as the timeout.
pub open spec fn expired(time: u64, now: u64, timeout: Duration) -> bool {
    let age = if time <= now {
        now - time
    } else {
        0
    };
    age >= timeout.spec_as_nanos()
}

/// The entries from the first one on that has not expired.
pub open spec fn pruned(entries: Seq<(u32, u64)>, now: u64, timeout: Duration) -> Seq<(u32, u64)>
    decreases entries.len(),
{
    if entries.len() > 0 && expired(entries[0].1, now, timeout) {
        pruned(entries.skip(1), now, timeout)
    } else {
        entries
    }
}

/// The entries once the number has been added; one that no conversation can have is ignored.
pub open spec fn added(entries: Seq<(u32, u64)>, conv: u32, now: u64) -> Seq<(u32, u64)> {
    if crate::stream::valid_conv(conv) {
        without(entries, conv).push((conv, now))
    } else {
        entries
    }
}

/// The entries once the numbers have been added, one after the other.
pub open spec fn all_added(entries: Seq<(u32, u64)>, convs: Seq<u32>, now: u64) -> Seq<(u32, u64)>
    decreases convs.len(),
{
    if convs.len() == 0 {
        entries
    } else {
        added(all_added(entries, convs.drop_last(), now), convs.last(), now)
    }
}

/// Whether the entries are for different numbers, all of which a conversation can have.
pub open spec fn proper(entries: Seq<(u32, u64)>) -> bool {
    &&& forall|i: int|
        0 <= i < entries.len() ==> crate::stream::valid_conv((#[trigger] entries[i]).0)
    &&& forall|i: int, j: int|
        0 <= i < j < entries.len() ==> (#[trigger] entries[i]).0 != (#[trigger] entries[j]).0
}

/// The conversation numbers that have been given up lately. A number stays here for as long as
/// the timeout says, and is not given to a new conversation meanwhile. Times are in nanoseconds.
pub struct ConvHistory {
    map: LinkedHashMap<u32, u64>,
    timeout: Duration,
}

/// A [`ConvHistory`] as contracts see it.
#[verifier::ext_equal]
pub struct HistoryState {
    /// The numbers, each with the time at which it was added, oldest first.
    pub entries: Seq<(u32, u64)>,
    pub timeout: Duration,
}

impl HistoryState {
    /// Only numbers that a conversation can have are here, each once.
    pub open spec fn wf(self) -> bool {
        proper(self.entries)
    }

    /// The history once expired numbers have been dropped.
    pub open spec fn updated(self, now: u64) -> HistoryState {
        HistoryState { entries: pruned(self.entries, now, self.timeout), ..self }
    }

    /// The history once the numbers have been added.
    pub open spec fn filled(self, now: u64, convs: Seq<u32>) -> HistoryState {
        HistoryState {
            entries: all_added(pruned(self.entries, now, self.timeout), convs, now),
            ..self
        }
    }
}

impl View for ConvHistory {
    type V = HistoryState;

    closed spec fn view(&self) -> HistoryState {
        HistoryState { entries: entries(self.map), timeout: self.timeout }
    }
}

impl ConvHistory {
    /// An empty history, with room for `capacity` numbers.
    pub fn new(capacity: usize, timeout: Duration) -> (history: Self)
        requires
            capacity <= isize::MAX / 64,
        ensures
            history@ == (HistoryState { entries: Seq::empty(), timeout }),
            history@.wf(),
    {
        ConvHistory {
            map: if capacity == 0 {
                map_new()
            } else {
                map_with_capacity(capacity)
            },
            timeout,
        }
    }

    /// Picks a number for a new conversation at random: one that no conversation has, as far as
    /// `in_use` tells, and that has not been given up lately. There has to be one.
    pub fn allocate(&mut self, now: u64, in_use: impl Fn(&u32) -> bool) -> (conv: u32)
        requires
            old(self)@.wf(),
            forall|conv: &u32| call_requires(in_use, (conv,)),
            exists|conv: u32|
                crate::stream::valid_conv(conv) && !holds(old(self)@.updated(now).entries, conv)
                    && !#[trigger] call_ensures(in_use, (&conv,), true),
        ensures
            final(self)@ == old(self)@.updated(now),
            final(self)@.wf(),
            crate::stream::valid_conv(conv),
            call_ensures(in_use, (&conv,), false),
            !holds(final(self)@.entries, conv),
    {
        match self.try_allocate(now, in_use) {
            Some(conv) => conv,
            None => vstd::pervasive::unreached(),
        }
    }

    /// Picks a number as [`ConvHistory::allocate`] does, if there is one that is free.
    pub fn try_allocate(&mut self, now: u64, in_use: impl Fn(&u32) -> bool) -> (r: Option<u32>)
        requires
            old(self)@.wf(),
            forall|conv: &u32| call_requires(in_use, (conv,)),
        ensures
            final(self)@ == old(self)@.updated(now),
            final(self)@.wf(),
            match r {
                Some(conv) => {
                    &&& crate::stream::valid_conv(conv)
                    &&& call_ensures(in_use, (&conv,), false)
                    &&& !holds(final(self)@.entries, conv)
                },
                None => forall|conv: u32|
                    crate::stream::valid_conv(conv) ==> holds(final(self)@.entries, conv)
                        || #[trigger] call_ensures(in_use, (&conv,), true),
            },
    {
        self.update(now);
        let mut left: u64 = u64::MAX;
        while left > 0
            invariant
                forall|conv: &u32| call_requires(in_use, (conv,)),
                self@ == old(self)@.updated(now),
                self@.wf(),
            decreases left,
        {
            let conv: u32 = KcpStream::rand_conv();
            if !in_use(&conv) && !map_contains_key(&self.map, conv) {
                return Some(conv);
            }
            left -= 1;
        }
        // nothing free has been drawn for as long as can be counted
        let mut conv: u32 = 1;
        while conv < KcpStream::SYN_CONV
            invariant
                1 <= conv <= KcpStream::SYN_CONV,
                forall|conv: &u32| call_requires(in_use, (conv,)),
                self@ == old(self)@.updated(now),
                self@.wf(),
                forall|c: u32|
                    1 <= c < conv ==> holds(self@.entries, c) || #[trigger] call_ensures(
                        in_use,
                        (&c,),
                        true,
                    ),
            decreases KcpStream::SYN_CONV - conv,
        {
            if !in_use(&conv) && !map_contains_key(&self.map, conv) {
                return Some(conv);
            }
            conv += 1;
        }
        None
    }

    /// Notes that a number has been given up.
    pub fn add(&mut self, now: u64, conv: u32)
        requires
            old(self)@.wf(),
        ensures
            final(self)@ == old(self)@.filled(now, seq![conv]),
            final(self)@.wf(),
    {
        self.update(now);
        proof {
            let convs = seq![conv];
            assert(convs.drop_last() =~= Seq::empty());
            reveal_with_fuel(all_added, 2);
            lemma_added(self@.entries, conv, now);
        }
        if KcpStream::is_valid_conv(conv) {
            map_insert(&mut self.map, conv, now);
        }
    }

    /// Notes that numbers have been given up.
    pub fn fill(&mut self, now: u64, convs: &[u32])
        requires
            old(self)@.wf(),
        ensures
            final(self)@ == old(self)@.filled(now, convs@),
            final(self)@.wf(),
    {
        self.update(now);
        let mut i: usize = 0;
        while i < convs.len()
            invariant
                i <= convs@.len(),
                self@.wf(),
                self@ == old(self)@.filled(now, convs@.take(i as int)),
            decreases convs@.len() - i,
        {
            let conv: u32 = convs[i];
            proof {
                assert(convs@.take(i + 1).drop_last() =~= convs@.take(i as int));
                lemma_added(self@.entries, conv, now);
            }
            if KcpStream::is_valid_conv(conv) {
                map_insert(&mut self.map, conv, now);
            }
            i += 1;
        }
        assert(convs@.take(i as int) =~= convs@);
    }

    /// The numbers that have been given up lately, oldest first.
    pub fn dump(&mut self, now: u64) -> (convs: Vec<u32>)
        requires
            old(self)@.wf(),
        ensures
            final(self)@ == old(self)@.updated(now),
            final(self)@.wf(),
            convs@ == numbers(final(self)@.entries),
    {
        self.update(now);
        map_keys(&self.map)
    }

    fn update(&mut self, now: u64)
        requires
            old(self)@.wf(),
        ensures
            final(self)@ == old(self)@.updated(now),
            final(self)@.wf(),
    {
        let timeout: u128 = self.timeout.as_nanos();
        loop
            invariant
                timeout == self@.timeout.spec_as_nanos(),
                self@.wf(),
                self@.updated(now) == old(self)@.updated(now),
                self@.timeout == old(self)@.timeout,
            ensures
                self@ == old(self)@.updated(now),
                self@.wf(),
            decreases self@.entries.len(),
        {
            match map_front(&self.map) {
                Some(entry) => {
                    let age: u64 = now.saturating_sub(entry.1);
                    if (age as u128) < timeout {
                        break;
                    }
                    map_pop_front(&mut self.map);
                },
                None => {
                    break;
                },
            }
        }
    }
}

/// Adding a number leaves the entries proper.
proof fn lemma_added(entries: Seq<(u32, u64)>, conv: u32, now: u64)
    requires
        proper(entries),
    ensures
        proper(added(entries, conv, now)),
{
    lemma_without(entries, conv);
    let rest = without(entries, conv);
    if crate::stream::valid_conv(conv) {
        let all = rest.push((conv, now));
        assert forall|i: int, j: int| 0 <= i < j < all.len() implies (#[trigger] all[i]).0 != (
        #[trigger] all[j]).0 by {
            assert(all[i] == rest[i]);
        }
    }
}

/// What is left without a number is proper and does not hold it.
proof fn lemma_without(entries: Seq<(u32, u64)>, conv: u32)
    requires
        proper(entries),
    ensures
        proper(without(entries, conv)),
        !holds(without(entries, conv), conv),
        forall|i: int|
            0 <= i < without(entries, conv).len() ==> entries.contains(
                #[trigger] without(entries, conv)[i],
            ),
    decreases entries.len(),
{
    reveal(Seq::filter);
    if entries.len() > 0 {
        let front = entries.drop_last();
        let last = entries.last();
        let rest = without(front, conv);
        lemma_without(front, conv);
        assert forall|i: int| 0 <= i < rest.len() implies (#[trigger] rest[i]).0 != last.0
            && entries.contains(rest[i]) by {
            let j = choose|j: int| 0 <= j < front.len() && front[j] == rest[i];
            assert(entries[j] == rest[i]);
        }
        assert(entries[entries.len() - 1] == last);
    }
}

/// Whether the entries are in the order of their times.
pub open spec fn in_order(entries: Seq<(u32, u64)>) -> bool {
    forall|i: int, j: int|
        0 <= i <= j < entries.len() ==> (#[trigger] entries[i]).1 <= (#[trigger] entries[j]).1
}

/// Whether an entry has not expired.
pub open spec fn fresh(now: u64, timeout: Duration) -> spec_fn((u32, u64)) -> bool {
    |e: (u32, u64)| !expired(e.1, now, timeout)
}

/// Where entries were added in the order of their times, those that are left are exactly those
/// that have not expired.
pub proof fn law_what_is_left_has_not_expired(
    entries: Seq<(u32, u64)>,
    now: u64,
    timeout: Duration,
)
    requires
        in_order(entries),
    ensures
        pruned(entries, now, timeout) == entries.filter(fresh(now, timeout)),
    decreases entries.len(),
{
    let pass = fresh(now, timeout);
    if entries.len() > 0 && expired(entries[0].1, now, timeout) {
        let rest = entries.skip(1);
        let first = seq![entries[0]];
        assert(in_order(rest)) by {
            assert forall|i: int, j: int| 0 <= i <= j < rest.len() implies (#[trigger] rest[i]).1
                <= (#[trigger] rest[j]).1 by {
                assert(entries[i + 1].1 <= entries[j + 1].1);
            }
        }
        law_what_is_left_has_not_expired(rest, now, timeout);
        assert(entries =~= first + rest);
        Seq::filter_distributes_over_add(first, rest, pass);
        assert(first.filter(pass) =~= Seq::empty()) by {
            reveal_with_fuel(Seq::filter, 2);
            assert(first.drop_last() =~= Seq::empty());
        }
        assert(Seq::empty() + rest.filter(pass) =~= rest.filter(pass));
    } else {
        assert forall|i: int| 0 <= i < entries.len() implies pass(#[trigger] entries[i]) by {
            assert(entries[0].1 <= entries[i].1);
        }
        lemma_all_pass(entries, pass);
    }
}

/// Nothing is filtered out where everything passes.
proof fn lemma_all_pass(entries: Seq<(u32, u64)>, pass: spec_fn((u32, u64)) -> bool)
    requires
        forall|i: int| 0 <= i < entries.len() ==> pass(#[trigger] entries[i]),
    ensures
        entries.filter(pass) == entries,
    decreases entries.len(),
{
    reveal(Seq::filter);
    if entries.len() > 0 {
        let front = entries.drop_last();
        assert forall|i: int| 0 <= i < front.len() implies pass(#[trigger] front[i]) by {
            assert(front[i] == entries[i]);
        }
        lemma_all_pass(front, pass);
        assert(front.push(entries.last()) =~= entries);
    } else {
        assert(entries.filter(pass) =~= entries);
    }
}

/// Entries stay in the order of their times as long as the clock does not go back.
pub proof fn law_order_is_kept(
    entries: Seq<(u32, u64)>,
    convs: Seq<u32>,
    now: u64,
    timeout: Duration,
)
    requires
        in_order(entries),
        forall|i: int| 0 <= i < entries.len() ==> (#[trigger] entries[i]).1 <= now,
    ensures
        ({
            let result = all_added(pruned(entries, now, timeout), convs, now);
            &&& in_order(result)
            &&& forall|i: int| 0 <= i < result.len() ==> (#[trigger] result[i]).1 <= now
        }),
    decreases entries.len(), convs.len(),
{
    if entries.len() > 0 && expired(entries[0].1, now, timeout) {
        let rest = entries.skip(1);
        assert forall|i: int, j: int| 0 <= i <= j < rest.len() implies (#[trigger] rest[i]).1 <= (
        #[trigger] rest[j]).1 by {
            assert(entries[i + 1].1 <= entries[j + 1].1);
        }
        assert forall|i: int| 0 <= i < rest.len() implies (#[trigger] rest[i]).1 <= now by {
            assert(entries[i + 1].1 <= now);
        }
        law_order_is_kept(rest, convs, now, timeout);
    } else if convs.len() > 0 {
        law_order_is_kept(entries, convs.drop_last(), now, timeout);
        lemma_without_order(all_added(entries, convs.drop_last(), now), convs.last(), now);
    }
}

/// What is left without a number is in order.
proof fn lemma_without_order(entries: Seq<(u32, u64)>, conv: u32, now: u64)
    requires
        in_order(entries),
        forall|i: int| 0 <= i < entries.len() ==> (#[trigger] entries[i]).1 <= now,
    ensures
        in_order(without(entries, conv)),
        forall|i: int|
            0 <= i < without(entries, conv).len() ==> (#[trigger] without(entries, conv)[i]).1
                <= now,
        in_order(without(entries, conv).push((conv, now))),
    decreases entries.len(),
{
    reveal(Seq::filter);
    if entries.len() > 0 {
        let last = entries.last();
        let front = entries.drop_last();
        assert forall|i: int| 0 <= i < front.len() implies (#[trigger] front[i]).1 <= last.1 by {
            assert(front[i] == entries[i]);
        }
        lemma_without_order(front, conv, last.1);
    }
}

/// Whether the number was added at that time or later.
pub open spec fn holds_since(entries: Seq<(u32, u64)>, conv: u32, time: u64) -> bool {
    exists|i: int|
        0 <= i < entries.len() && (#[trigger] entries[i]).0 == conv && time <= entries[i].1
}

/// The entries after numbers have been given up, at the times that stand beside them.
pub open spec fn after(
    entries: Seq<(u32, u64)>,
    calls: Seq<(u64, Seq<u32>)>,
    timeout: Duration,
) -> Seq<(u32, u64)>
    decreases calls.len(),
{
    if calls.len() == 0 {
        entries
    } else {
        let call = calls.last();
        all_added(
            pruned(after(entries, calls.drop_last(), timeout), call.0, timeout),
            call.1,
            call.0,
        )
    }
}

/// A number that has been given up is here until its time is over, whatever else is given up
/// meanwhile; so it is not picked for a new conversation.
pub proof fn law_given_up_number_is_kept(
    entries: Seq<(u32, u64)>,
    conv: u32,
    time: u64,
    calls: Seq<(u64, Seq<u32>)>,
    now: u64,
    timeout: Duration,
)
    requires
        holds_since(entries, conv, time),
        forall|i: int|
            0 <= i < calls.len() ==> time <= (#[trigger] calls[i]).0 && !expired(
                time,
                calls[i].0,
                timeout,
            ),
        time <= now,
        !expired(time, now, timeout),
    ensures
        holds_since(after(entries, calls, timeout), conv, time),
        holds(pruned(after(entries, calls, timeout), now, timeout), conv),
    decreases calls.len(),
{
    if calls.len() > 0 {
        let call = calls.last();
        let front = calls.drop_last();
        assert forall|i: int| 0 <= i < front.len() implies time <= (#[trigger] front[i]).0
            && !expired(time, front[i].0, timeout) by {
            assert(front[i] == calls[i]);
        }
        assert(calls[calls.len() - 1] == call);
        law_given_up_number_is_kept(entries, conv, time, front, call.0, timeout);
        let before = after(entries, front, timeout);
        lemma_pruning_keeps(before, conv, time, call.0, timeout);
        lemma_adding_keeps(pruned(before, call.0, timeout), conv, time, call.1, call.0);
    }
    lemma_pruning_keeps(after(entries, calls, timeout), conv, time, now, timeout);
}

proof fn lemma_pruning_keeps(
    entries: Seq<(u32, u64)>,
    conv: u32,
    time: u64,
    now: u64,
    timeout: Duration,
)
    requires
        holds_since(entries, conv, time),
        !expired(time, now, timeout),
    ensures
        holds_since(pruned(entries, now, timeout), conv, time),
        holds(pruned(entries, now, timeout), conv),
    decreases entries.len(),
{
    if entries.len() > 0 && expired(entries[0].1, now, timeout) {
        let rest = entries.skip(1);
        let i = choose|i: int|
            0 <= i < entries.len() && (#[trigger] entries[i]).0 == conv && time <= entries[i].1;
        assert(rest[i - 1] == entries[i]);
        lemma_pruning_keeps(rest, conv, time, now, timeout);
    }
}

proof fn lemma_adding_keeps(
    entries: Seq<(u32, u64)>,
    conv: u32,
    time: u64,
    convs: Seq<u32>,
    now: u64,
)
    requires
        holds_since(entries, conv, time),
        time <= now,
    ensures
        holds_since(all_added(entries, convs, now), conv, time),
    decreases convs.len(),
{
    if convs.len() > 0 {
        let c = convs.last();
        let before = all_added(entries, convs.drop_last(), now);
        lemma_adding_keeps(entries, conv, time, convs.drop_last(), now);
        if crate::stream::valid_conv(c) {
            let rest = without(before, c);
            let result = rest.push((c, now));
            if c == conv {
                assert(result[rest.len() as int] == (c, now));
            } else {
                let i = choose|i: int|
                    0 <= i < before.len() && (#[trigger] before[i]).0 == conv && time
                        <= before[i].1;
                before.lemma_filter_contains(other_than(c), i);
                let j = choose|j: int| 0 <= j < rest.len() && rest[j] == before[i];
                assert(result[j] == before[i]);
            }
        }
    }
}

/// Whether a number that was put aside at a time may be used again.
pub open spec fn has_rested(time: u64, now: u64, timeout: Duration) -> bool {
    ||| timeout.secs == 0 && timeout.nanos == 0
    ||| time + 1_000_000_000 * timeout.secs + timeout.nanos <= now
}

/// An entry expires once its time and the timeout lie back, counted in nanoseconds; without a
/// timeout, at once.
pub proof fn law_when_a_number_has_rested(time: u64, now: u64, timeout: Duration)
    ensures
        expired(time, now, timeout) <==> has_rested(time, now, timeout),
{
}

/// Entries are dropped from the oldest one on, up to the first one that has not rested for long
/// enough; that one and all behind it stay.
pub proof fn law_oldest_numbers_are_dropped(history: HistoryState, now: u64, n: int)
    requires
        0 <= n <= history.entries.len(),
        forall|i: int|
            0 <= i < n ==> has_rested((#[trigger] history.entries[i]).1, now, history.timeout),
        n < history.entries.len() ==> !has_rested(history.entries[n].1, now, history.timeout),
    ensures
        history.updated(now).entries == history.entries.skip(n),
        history.updated(now).timeout == history.timeout,
    decreases n,
{
    if n > 0 {
        let rest = HistoryState { entries: history.entries.skip(1), ..history };
        assert(has_rested(history.entries[0].1, now, history.timeout));
        assert forall|i: int| 0 <= i < n - 1 implies has_rested(
            (#[trigger] rest.entries[i]).1,
            now,
            rest.timeout,
        ) by {
            assert(rest.entries[i] == history.entries[i + 1]);
        }
        law_oldest_numbers_are_dropped(rest, now, n - 1);
        assert(rest.entries.skip(n - 1) =~= history.entries.skip(n));
    } else {
        assert(history.entries.skip(0) =~= history.entries);
    }
}

/// A number that is put aside goes to the back, with the present time; if it was here before, it
/// leaves its place. The other entries stay as they are and in their order. A number that no
/// conversation can have changes nothing.
pub proof fn law_number_goes_to_the_back(entries: Seq<(u32, u64)>, conv: u32, now: u64, i: int)
    requires
        proper(entries),
    ensures
        conv == 0 || conv >= 0xFFFF_FFFE ==> added(entries, conv, now) == entries,
        1 <= conv <= 0xFFFF_FFFD && 0 <= i < entries.len() && entries[i].0 == conv ==> added(
            entries,
            conv,
            now,
        ) == entries.remove(i).push((conv, now)),
        1 <= conv <= 0xFFFF_FFFD && (forall|j: int|
            0 <= j < entries.len() ==> (#[trigger] entries[j]).0 != conv) ==> added(
            entries,
            conv,
            now,
        ) == entries.push((conv, now)),
{
    if 0 <= i < entries.len() && entries[i].0 == conv {
        lemma_without_is_removal(entries, conv, i);
    }
    if forall|j: int| 0 <= j < entries.len() ==> (#[trigger] entries[j]).0 != conv {
        lemma_all_pass(entries, other_than(conv));
    }
}

proof fn lemma_without_is_removal(entries: Seq<(u32, u64)>, conv: u32, i: int)
    requires
        proper(entries),
        0 <= i < entries.len(),
        entries[i].0 == conv,
    ensures
        without(entries, conv) == entries.remove(i),
    decreases entries.len(),
{
    reveal(Seq::filter);
    let front = entries.drop_last();
    let last = entries.last();
    if i == entries.len() - 1 {
        assert forall|j: int| 0 <= j < front.len() implies other_than(conv)(#[trigger] front[j]) by {
            assert(entries[j].0 != entries[i].0);
        }
        lemma_all_pass(front, other_than(conv));
        assert(entries.remove(i) =~= front);
    } else {
        assert(proper(front)) by {
            assert forall|j: int| 0 <= j < front.len() implies crate::stream::valid_conv(
                (#[trigger] front[j]).0,
            ) by {
                assert(front[j] == entries[j]);
            }
            assert forall|j: int, k: int| 0 <= j < k < front.len() implies (#[trigger] front[j]).0
                != (#[trigger] front[k]).0 by {
                assert(entries[j].0 != entries[k].0);
            }
        }
        lemma_without_is_removal(front, conv, i);
        assert(entries[i].0 != entries[entries.len() - 1].0);
        assert(entries.remove(i) =~= front.remove(i).push(last));
    }
}

/// Numbers are put aside one after the other, once those that have rested are dropped; the timeout
/// stays.
pub proof fn law_numbers_are_put_aside_in_turn(
    history: HistoryState,
    now: u64,
    convs: Seq<u32>,
    conv: u32,
)
    ensures
        history.filled(now, seq![]) == history.updated(now),
        history.filled(now, convs.push(conv)).entries == added(
            history.filled(now, convs).entries,
            conv,
            now,
        ),
        history.filled(now, convs).timeout == history.timeout,
{
    assert(convs.push(conv).drop_last() =~= convs);
    assert(convs.push(conv).last() == conv);
}

/// The numbers that are told are those of the entries, in their order, and exactly those are held.
pub proof fn law_numbers_are_told_in_order(entries: Seq<(u32, u64)>, conv: u32, i: int)
    ensures
        numbers(entries).len() == entries.len(),
        0 <= i < entries.len() ==> numbers(entries)[i] == entries[i].0,
        0 <= i < entries.len() ==> holds(entries, entries[i].0),
        holds(entries, conv) ==> numbers(entries).contains(conv),
{
    if holds(entries, conv) {
        let j = choose|j: int| 0 <= j < entries.len() && (#[trigger] entries[j]).0 == conv;
        assert(numbers(entries)[j] == conv);
    }
}

} // verus!
