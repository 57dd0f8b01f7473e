//! Properties of the coalescing engine that hold over all states and events.

use vstd::prelude::*;

use crate::input::{KeyEvent, KeyKind};
use crate::tracker::{
    first_index, flush, lemma_first_index, lemma_first_index_unique, next_state, output, run,
    run_output, wf_state, initial, LogEntry, Symbol, TrackerState,
};

verus! {

/// The press of `code`.
pub open spec fn press_of(code: u16) -> KeyEvent {
    KeyEvent { code, kind: KeyKind::Press }
}

/// The release of `code`.
pub open spec fn release_of(code: u16) -> KeyEvent {
    KeyEvent { code, kind: KeyKind::Release }
}

/// The presses of `codes`, in order.
pub open spec fn press_events(codes: Seq<u16>) -> Seq<KeyEvent> {
    codes.map_values(|c: u16| press_of(c))
}

/// The releases of `codes`, in order.
pub open spec fn release_events(codes: Seq<u16>) -> Seq<KeyEvent> {
    codes.map_values(|c: u16| release_of(c))
}

/// No two adjacent entries of `s` are the same.
pub open spec fn no_adjacent_repeats(s: Seq<LogEntry>) -> bool {
    forall|i: int| 0 <= i < s.len() - 1 ==> #[trigger] s[i] != s[i + 1]
}

/// No entry of `s` reports an orphan release.
pub open spec fn no_orphans(s: Seq<LogEntry>) -> bool {
    forall|i: int| 0 <= i < s.len() ==> (#[trigger] s[i]).symbol != Symbol::Orphan
}

proof fn lemma_run_two(st: TrackerState, a: KeyEvent, b: KeyEvent)
    ensures
        run(st, seq![a, b]) == next_state(next_state(st, a), b),
        run_output(st, seq![a, b]) == output(st, a) + output(next_state(st, a), b),
{
    let none = Seq::<KeyEvent>::empty();
    assert(seq![a, b].drop_last() =~= seq![a]);
    assert(seq![a].drop_last() =~= none);
    assert(run(st, none) == st);
    assert(run_output(st, none) == Seq::<LogEntry>::empty());
    assert(seq![a].last() == a);
    assert(seq![a, b].last() == b);
    assert(run(st, seq![a]) == next_state(st, a));
    assert(run_output(st, seq![a]) =~= output(st, a));
    assert(Seq::<LogEntry>::empty() + output(st, a) =~= output(st, a));
}

/// A key pressed and released with no event in between is logged as one
/// combined entry, after the flush that its press makes of the previous key;
/// the held keys are then as before and no press is unlogged.
pub proof fn lemma_press_then_release(st: TrackerState, x: u16)
    requires
        wf_state(st),
        !st.0.contains(x),
    ensures
        run_output(st, seq![press_of(x), release_of(x)]) == flush(st) + seq![
            LogEntry::of(Symbol::Tapped, x),
        ],
        run(st, seq![press_of(x), release_of(x)]) == (st.0, false),
        !st.1 ==> run_output(st, seq![press_of(x), release_of(x)]) == seq![
            LogEntry::of(Symbol::Tapped, x),
        ],
{
    lemma_run_two(st, press_of(x), release_of(x));
    let s1 = next_state(st, press_of(x));
    assert(s1.0[s1.0.len() - 1] == x);
    assert(s1.0.contains(x));
    assert forall|j: int| 0 <= j < s1.0.len() - 1 implies s1.0[j] != x by {
        assert(s1.0[j] == st.0[j]);
    }
    lemma_first_index_unique(s1.0, x, s1.0.len() - 1);
    assert(s1.0.remove(s1.0.len() - 1) =~= st.0);
    assert(Seq::<LogEntry>::empty() + seq![LogEntry::of(Symbol::Tapped, x)] =~= seq![
        LogEntry::of(Symbol::Tapped, x),
    ]);
}

/// Releasing a key that is not held logs only an orphan entry and changes
/// nothing.
pub proof fn lemma_orphan_release(st: TrackerState, z: u16)
    requires
        !st.0.contains(z),
    ensures
        output(st, release_of(z)) == seq![LogEntry::of(Symbol::Orphan, z)],
        next_state(st, release_of(z)) == st,
{
}

proof fn lemma_presses(st: TrackerState, codes: Seq<u16>)
    ensures
        run(st, press_events(codes)) == (st.0 + codes, st.1 || codes.len() > 0),
        no_orphans(run_output(st, press_events(codes))),
    decreases codes.len(),
{
    if codes.len() == 0 {
        assert(st.0 + codes =~= st.0);
    } else {
        let init = codes.drop_last();
        assert(press_events(codes).drop_last() =~= press_events(init));
        lemma_presses(st, init);
        assert((st.0 + init).push(codes.last()) =~= st.0 + codes);
        let before = run_output(st, press_events(init));
        let last = output(run(st, press_events(init)), press_events(codes).last());
        assert(no_orphans(last));
        assert forall|i: int| 0 <= i < (before + last).len() implies (#[trigger] (before
            + last)[i]).symbol != Symbol::Orphan by {
            if i >= before.len() {
                assert((before + last)[i] == last[i - before.len()]);
            } else {
                assert((before + last)[i] == before[i]);
            }
        }
    }
}

proof fn lemma_release_prefix(st: TrackerState, rel: Seq<u16>, k: int)
    requires
        0 <= k <= rel.len(),
        st.0.to_multiset() == rel.to_multiset(),
    ensures
        run(st, release_events(rel.take(k))).0.to_multiset() == rel.skip(k).to_multiset(),
        k > 0 ==> !run(st, release_events(rel.take(k))).1,
        k == 0 ==> run(st, release_events(rel.take(k))).1 == st.1,
        no_orphans(run_output(st, release_events(rel.take(k)))),
    decreases k,
{
    broadcast use vstd::seq_lib::group_to_multiset_ensures;

    if k == 0 {
        assert(release_events(rel.take(0)) =~= Seq::<KeyEvent>::empty());
        assert(rel.skip(0) =~= rel);
    } else {
        lemma_release_prefix(st, rel, k - 1);
        let evs = release_events(rel.take(k));
        assert(evs.drop_last() =~= release_events(rel.take(k - 1)));
        assert(evs.last() == release_of(rel[k - 1]));
        let prev = run(st, release_events(rel.take(k - 1)));
        let c = rel[k - 1];
        let rest = rel.skip(k - 1);
        assert(rest[0] == c);
        assert(rest.contains(c));
        assert(rest.to_multiset().count(c) > 0);
        assert(prev.0.to_multiset().count(c) > 0);
        assert(prev.0.contains(c));
        lemma_first_index(prev.0, c);
        assert(rest.remove(0) =~= rel.skip(k));
        let before = run_output(st, release_events(rel.take(k - 1)));
        let last = output(prev, release_of(c));
        assert(no_orphans(last));
        assert forall|i: int| 0 <= i < (before + last).len() implies (#[trigger] (before
            + last)[i]).symbol != Symbol::Orphan by {
            if i >= before.len() {
                assert((before + last)[i] == last[i - before.len()]);
            } else {
                assert((before + last)[i] == before[i]);
            }
        }
    }
}

/// Pressing distinct keys and then releasing the same keys, in any order,
/// logs no orphan release and leaves no key held and no press unlogged.
pub proof fn lemma_balanced_sequence_drains(presses: Seq<u16>, releases: Seq<u16>)
    requires
        presses.no_duplicates(),
        releases.to_multiset() == presses.to_multiset(),
    ensures
        run(run(initial(), press_events(presses)), release_events(releases)) == initial(),
        no_orphans(run_output(initial(), press_events(presses))),
        no_orphans(
            run_output(run(initial(), press_events(presses)), release_events(releases)),
        ),
{
    broadcast use vstd::seq_lib::group_to_multiset_ensures;

    let st = run(initial(), press_events(presses));
    lemma_presses(initial(), presses);
    assert(Seq::<u16>::empty() + presses =~= presses);
    let n = releases.len() as int;
    lemma_release_prefix(st, releases, n);
    assert(releases.take(n) =~= releases);
    assert(releases.skip(n) =~= Seq::<u16>::empty());
    let end = run(st, release_events(releases));
    assert(end.0.to_multiset() == Seq::<u16>::empty().to_multiset());
    assert(end.0.to_multiset().len() == 0);
    assert(end.0.len() == 0);
    assert(end.0 =~= Seq::<u16>::empty());
    assert(presses.len() == presses.to_multiset().len());
    assert(releases.len() == releases.to_multiset().len());
}

/// The entries of one event are at most two, and two adjacent ones never
/// repeat each other.
pub proof fn lemma_transition_entries_distinct(st: TrackerState, ev: KeyEvent)
    ensures
        output(st, ev).len() <= 2,
        ev.kind == KeyKind::Press ==> output(st, ev).len() <= 1,
        no_adjacent_repeats(output(st, ev)),
{
}

/// Over a press of a key that is not held and the release that follows it,
/// two adjacent entries never repeat each other.
pub proof fn lemma_press_release_entries_distinct(st: TrackerState, x: u16, y: u16)
    requires
        wf_state(st),
        !st.0.contains(x),
    ensures
        no_adjacent_repeats(run_output(st, seq![press_of(x), release_of(y)])),
{
    lemma_run_two(st, press_of(x), release_of(y));
    let s1 = next_state(st, press_of(x));
    let out = run_output(st, seq![press_of(x), release_of(y)]);
    assert(s1.0.last() == x);
    if s1.0.contains(y) {
        lemma_first_index(s1.0, y);
        let i = first_index(s1.0, y);
        if i < s1.0.len() - 1 {
            assert(s1.0[i] == st.0[i]);
            assert(y != x);
        }
    }
    if st.1 {
        assert(st.0.contains(st.0.last()));
        assert(st.0.last() != x);
    }
}

} // verus!
