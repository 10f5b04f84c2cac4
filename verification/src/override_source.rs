//! A source of secrets that is asked before the credential store, such as a
//! snapshot of the process environment.

use vstd::prelude::*;

verus! {

/// Named values that take precedence over the credential store while the
/// source is enabled.
#[derive(Debug, PartialEq, Eq)]
pub struct OverrideSource {
    pub enabled: bool,
    pub entries: Vec<(String, String)>,
}

/// An override source as contracts see it.
pub struct OverrideView {
    pub enabled: bool,
    pub entries: Seq<(Seq<char>, Seq<char>)>,
}

/// The value of the first entry called `key`.
pub open spec fn value_named(entries: Seq<(Seq<char>, Seq<char>)>, key: Seq<char>) -> Option<
    Seq<char>,
>
    decreases entries.len(),
{
    if entries.len() == 0 {
        None
    } else if entries.first().0 == key {
        Some(entries.first().1)
    } else {
        value_named(entries.drop_first(), key)
    }
}

impl OverrideView {
    /// What the source holds for `key`: nothing while it is disabled, else
    /// the value of the first entry whose name is exactly `key`.
    pub open spec fn lookup(self, key: Seq<char>) -> Option<Seq<char>> {
        if self.enabled {
            value_named(self.entries, key)
        } else {
            None
        }
    }
}

impl View for OverrideSource {
    type V = OverrideView;

    open spec fn view(&self) -> OverrideView {
        OverrideView {
            enabled: self.enabled,
            entries: self.entries@.map_values(|e: (String, String)| (e.0@, e.1@)),
        }
    }
}

impl OverrideSource {
    /// The source that holds nothing and is never asked.
    pub fn disabled() -> (r: OverrideSource)
        ensures
            !r@.enabled,
            r@.entries == Seq::<(Seq<char>, Seq<char>)>::empty(),
    {
        let r = OverrideSource { enabled: false, entries: Vec::new() };
        assert(r@.entries =~= Seq::<(Seq<char>, Seq<char>)>::empty());
        r
    }

    /// An enabled source with the given entries, each a name and its value.
    pub fn new(entries: Vec<(String, String)>) -> (r: OverrideSource)
        ensures
            r@.enabled,
            r@.entries == entries@.map_values(|e: (String, String)| (e.0@, e.1@)),
    {
        OverrideSource { enabled: true, entries }
    }

    /// The value that the source holds for `key`, if it is enabled and has one.
    pub fn lookup(&self, key: &str) -> (r: Option<String>)
        ensures
            match r {
                Some(value) => self@.lookup(key@) == Some(value@),
                None => self@.lookup(key@) is None,
            },
    {
        if !self.enabled {
            return None;
        }
        let wanted = key.to_owned();
        let ghost all = self@.entries;
        let mut i: usize = 0;
        assert(all.subrange(0, all.len() as int) =~= all);
        while i < self.entries.len()
            invariant
                self.enabled,
                i <= self.entries.len(),
                all == self@.entries,
                wanted@ == key@,
                value_named(all, key@) == value_named(
                    all.subrange(i as int, all.len() as int),
                    key@,
                ),
            decreases self.entries.len() - i,
        {
            let ghost rest = all.subrange(i as int, all.len() as int);
            let entry = &self.entries[i];
            assert(rest.first() == (entry.0@, entry.1@));
            if entry.0 == wanted {
                return Some(entry.1.clone());
            }
            assert(rest.drop_first() =~= all.subrange(i + 1, all.len() as int));
            i = i + 1;
        }
        None
    }
}

} // verus!
