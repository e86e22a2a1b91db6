//! Verdicts of the outside formula validator, and a bounded cache of them.
//!
//! The validator is a separate program: it is given a formula and prints one
//! token whose first character classifies the formula. Running it is left to
//! the caller; this module reads its answer and remembers it, so that the same
//! formula text is never sent twice while its verdict is held.
use vstd::prelude::*;
use crate::text::{trim, trimmed};

verus! {

/// The validator's verdict on a formula.
#[derive(Debug, Clone, PartialEq)]
pub enum TexResult {
    Accepted(String),
    SyntaxError,
    LexingError,
    UnknownFunction(String),
    UnknownError,
}

/// A verdict, with its texts as characters.
pub enum Verdict {
    Accepted(Seq<char>),
    SyntaxError,
    LexingError,
    UnknownFunction(Seq<char>),
    UnknownError,
}

impl View for TexResult {
    type V = Verdict;

    open spec fn view(&self) -> Verdict {
        match self {
            TexResult::Accepted(s) => Verdict::Accepted(s@),
            TexResult::SyntaxError => Verdict::SyntaxError,
            TexResult::LexingError => Verdict::LexingError,
            TexResult::UnknownFunction(s) => Verdict::UnknownFunction(s@),
            TexResult::UnknownError => Verdict::UnknownError,
        }
    }
}

impl TexResult {
    /// A copy of this verdict.
    pub fn duplicate(&self) -> (r: TexResult)
        ensures
            r == *self,
    {
        match self {
            TexResult::Accepted(s) => TexResult::Accepted(s.clone()),
            TexResult::SyntaxError => TexResult::SyntaxError,
            TexResult::LexingError => TexResult::LexingError,
            TexResult::UnknownFunction(s) => TexResult::UnknownFunction(s.clone()),
            TexResult::UnknownError => TexResult::UnknownError,
        }
    }
}

/// The verdict that the validator's output `out` gives: its first character
/// classifies, the rest of the token is carried along; output that is empty
/// or starts otherwise is an unknown error.
pub open spec fn verdict_of(out: Seq<char>) -> Verdict {
    let t = trimmed(out);
    if t.len() == 0 {
        Verdict::UnknownError
    } else {
        let rest = t.subrange(1, t.len() as int);
        if t[0] == '+' {
            Verdict::Accepted(rest)
        } else if t[0] == 'S' {
            Verdict::SyntaxError
        } else if t[0] == 'E' {
            Verdict::LexingError
        } else if t[0] == 'F' {
            Verdict::UnknownFunction(rest)
        } else {
            Verdict::UnknownError
        }
    }
}

/// Reads the validator's output.
pub fn parse_response(out: &str) -> (r: TexResult)
    ensures
        r@ == verdict_of(out@),
{
    let t = trim(out);
    let n = t.unicode_len();
    if n == 0 {
        return TexResult::UnknownError;
    }
    let c = t.get_char(0);
    if c == '+' {
        TexResult::Accepted(t.substring_char(1, n).to_owned())
    } else if c == 'S' {
        TexResult::SyntaxError
    } else if c == 'E' {
        TexResult::LexingError
    } else if c == 'F' {
        TexResult::UnknownFunction(t.substring_char(1, n).to_owned())
    } else {
        TexResult::UnknownError
    }
}

/// An entry of the cache: a formula text and its verdict.
pub type Entry = (Seq<char>, Verdict);

/// The index of the last entry for `text`, or -1.
pub open spec fn find(entries: Seq<Entry>, text: Seq<char>) -> int
    decreases entries.len(),
{
    if entries.len() == 0 {
        -1
    } else if entries.last().0 == text {
        entries.len() - 1
    } else {
        find(entries.drop_last(), text)
    }
}

/// The verdict held for `text`.
pub open spec fn held(entries: Seq<Entry>, text: Seq<char>) -> Option<Verdict> {
    let i = find(entries, text);
    if i >= 0 {
        Some(entries[i].1)
    } else {
        None
    }
}

/// The entries after a look-up of `text`: a hit becomes the most recent.
pub open spec fn after_lookup(entries: Seq<Entry>, text: Seq<char>) -> Seq<Entry> {
    let i = find(entries, text);
    if i >= 0 {
        entries.remove(i).push(entries[i])
    } else {
        entries
    }
}

/// The entries after recording the verdict `verdict` for `text` in a cache of
/// `capacity` entries: an older entry for `text` goes, and when the cache is
/// full the least recently used entry goes.
pub open spec fn after_record(entries: Seq<Entry>, capacity: nat, text: Seq<char>, verdict: Verdict) -> Seq<Entry> {
    let i = find(entries, text);
    let rest = if i >= 0 {
        entries.remove(i)
    } else {
        entries
    };
    if capacity == 0 {
        entries
    } else if rest.len() >= capacity {
        rest.drop_first().push((text, verdict))
    } else {
        rest.push((text, verdict))
    }
}

/// What one check of `text` does to a cache: the entries after it, the
/// verdict, and whether the validator was asked, whose output is then `out`.
pub open spec fn check_step(entries: Seq<Entry>, capacity: nat, text: Seq<char>, out: Seq<char>) -> (Seq<Entry>, Verdict, bool) {
    match held(entries, text) {
        Some(v) => (after_lookup(entries, text), v, false),
        None => (after_record(entries, capacity, text, verdict_of(out)), verdict_of(out), true),
    }
}

/// A cache of validator verdicts, keyed by the exact formula text and bounded
/// in size; the least recently used entry is evicted first.
pub struct CachedTexChecker {
    capacity: usize,
    entries: Vec<(String, TexResult)>,
}

impl CachedTexChecker {
    /// The entries, least recently used first.
    pub closed spec fn entries(&self) -> Seq<Entry> {
        self.entries@.map_values(|e: (String, TexResult)| (e.0@, e.1@))
    }

    /// The most entries that the cache holds.
    pub closed spec fn capacity(&self) -> nat {
        self.capacity as nat
    }

    /// The cache holds no more entries than its capacity.
    pub open spec fn wf(&self) -> bool {
        self.entries().len() <= self.capacity()
    }

    /// An empty cache for at most `capacity` entries.
    pub fn new(capacity: usize) -> (r: CachedTexChecker)
        ensures
            r.wf(),
            r.entries() == Seq::<Entry>::empty(),
            r.capacity() == capacity,
    {
        let r = CachedTexChecker { capacity, entries: Vec::new() };
        assert(r.entries() =~= Seq::<Entry>::empty());
        r
    }

    /// The position of the last entry for `text`.
    fn position(&self, text: &String) -> (r: Option<usize>)
        ensures
            match r {
                Some(i) => i as int == find(self.entries(), text@),
                None => find(self.entries(), text@) == -1,
            },
            find(self.entries(), text@) < self.entries().len(),
    {
        let ghost m = self.entries();
        let mut i = self.entries.len();
        assert(m.take(i as int) =~= m);
        while i > 0
            invariant
                i <= m.len(),
                m == self.entries(),
                m.len() == self.entries@.len(),
                find(m, text@) == find(m.take(i as int), text@),
            decreases i,
        {
            assert(m.take(i as int).drop_last() =~= m.take(i - 1));
            if self.entries[i - 1].0 == *text {
                return Some(i - 1);
            }
            i = i - 1;
        }
        proof { lemma_find_bounded(m, text@); }
        None
    }

    /// The verdict held for `text`, which becomes the most recently used entry.
    pub fn lookup(&mut self, text: &str) -> (r: Option<TexResult>)
        ensures
            old(self).wf() ==> final(self).wf(),
            final(self).capacity() == old(self).capacity(),
            final(self).entries() == after_lookup(old(self).entries(), text@),
            match r {
                Some(v) => held(old(self).entries(), text@) == Some(v@),
                None => held(old(self).entries(), text@) is None,
            },
    {
        let key = text.to_owned();
        proof { lemma_find_bounded(self.entries(), text@); }
        match self.position(&key) {
            Some(i) => {
                let ghost m = self.entries();
                let e = self.entries.remove(i);
                let v = e.1.duplicate();
                self.entries.push(e);
                assert(self.entries() =~= m.remove(i as int).push(m[i as int]));
                Some(v)
            },
            None => None,
        }
    }

    /// The verdict held for `text`, leaving the order of use as it is.
    pub fn peek(&self, text: &str) -> (r: Option<TexResult>)
        ensures
            match r {
                Some(v) => held(self.entries(), text@) == Some(v@),
                None => held(self.entries(), text@) is None,
            },
    {
        let key = text.to_owned();
        match self.position(&key) {
            Some(i) => Some(self.entries[i].1.duplicate()),
            None => None,
        }
    }

    /// Reads the validator's output `out` for `text` and records the verdict.
    pub fn record(&mut self, text: &str, out: &str) -> (r: TexResult)
        ensures
            old(self).wf() ==> final(self).wf(),
            final(self).capacity() == old(self).capacity(),
            r@ == verdict_of(out@),
            final(self).entries() == after_record(old(self).entries(), old(self).capacity(), text@, verdict_of(out@)),
    {
        let v = parse_response(out);
        if self.capacity == 0 {
            return v;
        }
        let key = text.to_owned();
        let ghost m = self.entries();
        match self.position(&key) {
            Some(i) => {
                self.entries.remove(i);
                assert(self.entries() =~= m.remove(i as int));
            },
            None => {},
        }
        let ghost rest = self.entries();
        if self.entries.len() >= self.capacity {
            self.entries.remove(0);
            assert(self.entries() =~= rest.drop_first());
        }
        let ghost kept = self.entries();
        self.entries.push((key, v.duplicate()));
        assert(self.entries() =~= kept.push((text@, verdict_of(out@))));
        v
    }
}

impl CachedTexChecker {
    /// Checks `text`: a held verdict is returned, and otherwise `ask` runs the
    /// validator on `text` and its output is read and recorded. The flag tells
    /// whether the validator was asked.
    pub fn check<F: FnOnce() -> String>(&mut self, text: &str, ask: F) -> (r: (TexResult, bool))
        requires
            ask.requires(()),
        ensures
            final(self).capacity() == old(self).capacity(),
            old(self).wf() ==> final(self).wf(),
            match held(old(self).entries(), text@) {
                Some(v) => !r.1 && r.0@ == v && final(self).entries() == after_lookup(old(self).entries(), text@),
                None => r.1 && final(self).entries() == after_record(
                    old(self).entries(),
                    old(self).capacity(),
                    text@,
                    r.0@,
                ),
            },
            old(self).capacity() > 0 ==> held(final(self).entries(), text@) == Some(r.0@),
    {
        let ghost e0 = self.entries();
        proof { lemma_find_bounded(e0, text@); }
        match self.lookup(text) {
            Some(v) => {
                proof {
                    let i = find(e0, text@);
                    let e1 = e0.remove(i).push(e0[i]);
                    assert(find(e1, text@) == e1.len() - 1);
                }
                (v, false)
            },
            None => {
                let out = ask();
                let v = self.record(text, out.as_str());
                proof {
                    if self.capacity() > 0 {
                        let e1 = self.entries();
                        assert(e1.last() == (text@, v@));
                        assert(find(e1, text@) == e1.len() - 1);
                    }
                }
                (v, true)
            },
        }
    }
}

/// `find` gives -1 or an index of `entries`.
pub proof fn lemma_find_bounded(entries: Seq<Entry>, text: Seq<char>)
    ensures
        -1 <= find(entries, text) < entries.len(),
        find(entries, text) >= 0 ==> entries[find(entries, text)].0 == text,
    decreases entries.len(),
{
    if entries.len() > 0 {
        lemma_find_bounded(entries.drop_last(), text);
    }
}

/// Checking the same formula text twice asks the validator at most once, and
/// both checks give the same verdict.
pub proof fn lemma_check_twice(entries: Seq<Entry>, capacity: nat, text: Seq<char>, out1: Seq<char>, out2: Seq<char>)
    requires
        capacity > 0,
        entries.len() <= capacity,
    ensures
        ({
            let (e1, v1, asked1) = check_step(entries, capacity, text, out1);
            let (e2, v2, asked2) = check_step(e1, capacity, text, out2);
            !asked2 && v1 == v2
        }),
{
    lemma_find_bounded(entries, text);
    let (e1, v1, asked1) = check_step(entries, capacity, text, out1);
    match held(entries, text) {
        Some(v) => {
            let i = find(entries, text);
            let e1 = entries.remove(i).push(entries[i]);
            assert(e1.last() == entries[i]);
            assert(find(e1, text) == e1.len() - 1);
        },
        None => {
            let e1 = after_record(entries, capacity, text, verdict_of(out1));
            assert(e1.last() == (text, verdict_of(out1)));
            assert(find(e1, text) == e1.len() - 1);
        },
    }
}

} // verus!
