use vstd::prelude::*;

use crate::input::{get_key_text, key_label, KeyEvent, KeyKind};

verus! {

/// What a log entry reports of its key.
#[derive(Debug, Clone, Copy, PartialEq, Eq, Structural)]
pub enum Symbol {
    /// The key went down (`+`); it is still held or was released later.
    Pressed,
    /// The key went up after its press was logged (`-`).
    Released,
    /// The key went down and up with no other key event in between (`±`).
    Tapped,
    /// The key went up but was never seen going down (`?`).
    Orphan,
}

/// One line of the key log.
#[derive(Debug, Clone, Copy, PartialEq, Eq, Structural)]
pub struct LogEntry {
    pub symbol: Symbol,
    pub code: u16,
}

/// The text that stands for a symbol at the start of a log line.
pub open spec fn symbol_text(s: Symbol) -> Seq<char> {
    match s {
        Symbol::Pressed => "+"@,
        Symbol::Released => "-"@,
        Symbol::Tapped => "±"@,
        Symbol::Orphan => "?"@,
    }
}

/// A log line: the symbol, the key's label and a newline.
pub open spec fn line_text(e: LogEntry) -> Seq<char> {
    symbol_text(e.symbol) + key_label(e.code) + "\n"@
}

impl LogEntry {
    /// The entry that reports `symbol` of `code`.
    pub open spec fn of(symbol: Symbol, code: u16) -> LogEntry {
        LogEntry { symbol, code }
    }

    /// The text of the entry's symbol.
    pub fn symbol_str(&self) -> (r: &'static str)
        ensures
            r@ == symbol_text(self.symbol),
    {
        match self.symbol {
            Symbol::Pressed => "+",
            Symbol::Released => "-",
            Symbol::Tapped => "±",
            Symbol::Orphan => "?",
        }
    }

    /// The label of the entry's key.
    pub fn label(&self) -> (r: &'static str)
        ensures
            r@ == key_label(self.code),
    {
        get_key_text(self.code)
    }

    /// The entry as one line of the log, newline included.
    pub fn render(&self) -> (r: String)
        ensures
            r@ == line_text(*self),
    {
        let mut line = String::from_str(self.symbol_str());
        line.append(self.label());
        line.append("\n");
        line
    }
}

/// The state of the tracker: the keys held down, in the order they were
/// pressed, and whether the most recent press is still unlogged.
pub type TrackerState = (Seq<u16>, bool);

/// The state before any event.
pub open spec fn initial() -> TrackerState {
    (Seq::empty(), false)
}

/// An unlogged press always belongs to a key that is held.
pub open spec fn wf_state(st: TrackerState) -> bool {
    st.1 ==> st.0.len() > 0
}

/// `i` is the first position of `c` in `s`.
pub open spec fn is_first_at(s: Seq<u16>, c: u16, i: int) -> bool {
    &&& 0 <= i < s.len()
    &&& s[i] == c
    &&& forall|j: int| 0 <= j < i ==> s[j] != c
}

/// The first position of `c` in `s`, where `s` holds `c`.
pub open spec fn first_index(s: Seq<u16>, c: u16) -> int {
    choose|i: int| is_first_at(s, c, i)
}

/// The flush of the top key, if its press is still unlogged.
pub open spec fn flush(st: TrackerState) -> Seq<LogEntry> {
    if st.1 {
        seq![LogEntry::of(Symbol::Pressed, st.0.last())]
    } else {
        Seq::empty()
    }
}

/// The entries that a press of `code` emits: only the flush of the previous top.
pub open spec fn press_output(st: TrackerState, code: u16) -> Seq<LogEntry> {
    flush(st)
}

/// The state after a press of `code`: it is appended and its press is unlogged.
pub open spec fn press_state(st: TrackerState, code: u16) -> TrackerState {
    (st.0.push(code), true)
}

/// The entries that a release of `code` emits.
pub open spec fn release_output(st: TrackerState, code: u16) -> Seq<LogEntry> {
    if !st.0.contains(code) {
        seq![LogEntry::of(Symbol::Orphan, code)]
    } else if first_index(st.0, code) == st.0.len() - 1 {
        if st.1 {
            seq![LogEntry::of(Symbol::Tapped, code)]
        } else {
            seq![LogEntry::of(Symbol::Released, code)]
        }
    } else {
        flush(st) + seq![LogEntry::of(Symbol::Released, code)]
    }
}

/// The state after a release of `code`: its first occurrence leaves the held
/// keys and no press is unlogged; an orphan release changes nothing.
pub open spec fn release_state(st: TrackerState, code: u16) -> TrackerState {
    if !st.0.contains(code) {
        st
    } else {
        (st.0.remove(first_index(st.0, code)), false)
    }
}

/// The entries that one event emits.
pub open spec fn output(st: TrackerState, ev: KeyEvent) -> Seq<LogEntry> {
    match ev.kind {
        KeyKind::Press => press_output(st, ev.code),
        KeyKind::Release => release_output(st, ev.code),
    }
}

/// The state after one event.
pub open spec fn next_state(st: TrackerState, ev: KeyEvent) -> TrackerState {
    match ev.kind {
        KeyKind::Press => press_state(st, ev.code),
        KeyKind::Release => release_state(st, ev.code),
    }
}

/// The state after a sequence of events.
pub open spec fn run(st: TrackerState, evs: Seq<KeyEvent>) -> TrackerState
    decreases evs.len(),
{
    if evs.len() == 0 {
        st
    } else {
        next_state(run(st, evs.drop_last()), evs.last())
    }
}

/// The entries that a sequence of events emits, in order.
pub open spec fn run_output(st: TrackerState, evs: Seq<KeyEvent>) -> Seq<LogEntry>
    decreases evs.len(),
{
    if evs.len() == 0 {
        Seq::empty()
    } else {
        run_output(st, evs.drop_last()) + output(run(st, evs.drop_last()), evs.last())
    }
}

/// Where `s` holds `c`, its first position exists.
pub proof fn lemma_first_index(s: Seq<u16>, c: u16)
    requires
        s.contains(c),
    ensures
        is_first_at(s, c, first_index(s, c)),
    decreases s.len(),
{
    if s[0] == c {
        assert(is_first_at(s, c, 0));
    } else {
        let t = s.drop_first();
        let k = choose|k: int| 0 <= k < s.len() && s[k] == c;
        assert(t[k - 1] == c);
        lemma_first_index(t, c);
        let j = first_index(t, c);
        assert forall|m: int| 0 <= m < j + 1 implies s[m] != c by {
            if m > 0 {
                assert(s[m] == t[m - 1]);
            }
        }
        assert(is_first_at(s, c, j + 1));
    }
}

/// The first position of `c` in `s` is the only one.
pub proof fn lemma_first_index_unique(s: Seq<u16>, c: u16, i: int)
    requires
        is_first_at(s, c, i),
    ensures
        first_index(s, c) == i,
{
    let k = first_index(s, c);
    assert(is_first_at(s, c, k));
    assert(!(k < i));
    assert(!(i < k));
}

/// Searches `held` for the first occurrence of `code`.
fn position(held: &Vec<u16>, code: u16) -> (r: Option<usize>)
    ensures
        r is None ==> !held@.contains(code),
        r matches Some(i) ==> is_first_at(held@, code, i as int),
{
    let mut i: usize = 0;
    while i < held.len()
        invariant
            i <= held@.len(),
            forall|j: int| 0 <= j < i ==> held@[j] != code,
        decreases held@.len() - i,
    {
        if held[i] == code {
            return Some(i);
        }
        i = i + 1;
    }
    None
}

/// The held-key tracker: turns key presses and releases into log entries,
/// coalescing a press with its release when nothing happens in between.
pub struct KeyTracker {
    held: Vec<u16>,
    pending: bool,
}

impl View for KeyTracker {
    type V = TrackerState;

    closed spec fn view(&self) -> TrackerState {
        (self.held@, self.pending)
    }
}

impl KeyTracker {
    /// A tracker with no key held.
    pub fn new() -> (t: KeyTracker)
        ensures
            t@ == initial(),
            wf_state(t@),
    {
        let t = KeyTracker { held: Vec::new(), pending: false };
        assert(t@ =~= initial());
        t
    }

    /// The keys held down, in the order they were pressed.
    pub fn held(&self) -> (r: &[u16])
        ensures
            r@ == self@.0,
    {
        self.held.as_slice()
    }

    /// Whether the most recent press has not been logged yet.
    pub fn is_pending(&self) -> (r: bool)
        ensures
            r == self@.1,
    {
        self.pending
    }

    /// Handles a press of `code`.
    pub fn press(&mut self, code: u16) -> (out: Vec<LogEntry>)
        requires
            wf_state(old(self)@),
        ensures
            final(self)@ == press_state(old(self)@, code),
            wf_state(final(self)@),
            out@ == press_output(old(self)@, code),
    {
        let mut out: Vec<LogEntry> = Vec::new();
        if self.pending {
            let top = self.held[self.held.len() - 1];
            out.push(LogEntry { symbol: Symbol::Pressed, code: top });
        }
        self.held.push(code);
        self.pending = true;
        assert(out@ =~= press_output(old(self)@, code));
        out
    }

    /// Handles a release of `code`.
    pub fn release(&mut self, code: u16) -> (out: Vec<LogEntry>)
        requires
            wf_state(old(self)@),
        ensures
            final(self)@ == release_state(old(self)@, code),
            wf_state(final(self)@),
            out@ == release_output(old(self)@, code),
    {
        let mut out: Vec<LogEntry> = Vec::new();
        match position(&self.held, code) {
            None => {
                out.push(LogEntry { symbol: Symbol::Orphan, code });
                assert(out@ =~= release_output(old(self)@, code));
            },
            Some(i) => {
                proof {
                    lemma_first_index_unique(self.held@, code, i as int);
                }
                let last = self.held.len() - 1;
                if i == last {
                    let symbol = if self.pending {
                        Symbol::Tapped
                    } else {
                        Symbol::Released
                    };
                    out.push(LogEntry { symbol, code });
                } else {
                    if self.pending {
                        let top = self.held[last];
                        out.push(LogEntry { symbol: Symbol::Pressed, code: top });
                    }
                    out.push(LogEntry { symbol: Symbol::Released, code });
                }
                self.held.remove(i);
                self.pending = false;
                assert(out@ =~= release_output(old(self)@, code));
                assert(self@ =~= release_state(old(self)@, code));
            },
        }
        out
    }

    /// Handles one key event and returns the entries to log, in order.
    pub fn feed(&mut self, ev: KeyEvent) -> (out: Vec<LogEntry>)
        requires
            wf_state(old(self)@),
        ensures
            final(self)@ == next_state(old(self)@, ev),
            wf_state(final(self)@),
            out@ == output(old(self)@, ev),
    {
        match ev.kind {
            KeyKind::Press => self.press(ev.code),
            KeyKind::Release => self.release(ev.code),
        }
    }
}

} // verus!
