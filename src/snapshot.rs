use vstd::prelude::*;

verus! {

/// The view of one environment variable: its name and its value.
pub type EntryView = (Seq<char>, Seq<char>);

/// No two entries share a name.
pub open spec fn keys_unique(s: Seq<EntryView>) -> bool {
    forall|i: int, j: int|
        0 <= i < s.len() && 0 <= j < s.len() && i != j ==> #[trigger] s[i].0 != #[trigger] s[j].0
}

/// Some entry of `s` is named `k`.
pub open spec fn has_key(s: Seq<EntryView>, k: Seq<char>) -> bool {
    exists|i: int| 0 <= i < s.len() && #[trigger] s[i].0 == k
}

/// The entries after `k` has been given the value `v`: an entry of that name
/// keeps its place and takes the new value, else the pair goes at the end.
pub open spec fn set_entry(s: Seq<EntryView>, k: Seq<char>, v: Seq<char>) -> Seq<EntryView> {
    if has_key(s, k) {
        let i = choose|i: int| 0 <= i < s.len() && #[trigger] s[i].0 == k;
        s.update(i, (k, v))
    } else {
        s.push((k, v))
    }
}

/// The view of a list of name/value pairs as read from the process.
pub open spec fn pairs_view(v: Seq<(String, String)>) -> Seq<EntryView> {
    v.map_values(|p: (String, String)| (p.0@, p.1@))
}

/// The snapshot that collecting `pairs` in order gives: a later pair of a name
/// overrides an earlier one.
pub open spec fn collect_entries(pairs: Seq<EntryView>) -> Seq<EntryView>
    decreases pairs.len(),
{
    if pairs.len() == 0 {
        Seq::empty()
    } else {
        let last = pairs.last();
        set_entry(collect_entries(pairs.drop_last()), last.0, last.1)
    }
}

/// The value of `k` in `s`, if it has one.
pub open spec fn value_of(s: Seq<EntryView>, k: Seq<char>) -> Option<Seq<char>> {
    if has_key(s, k) {
        let i = choose|i: int| 0 <= i < s.len() && #[trigger] s[i].0 == k;
        Some(s[i].1)
    } else {
        None
    }
}

/// A point-in-time copy of the environment: name/value pairs with unique names.
pub struct Snapshot {
    pub entries: Vec<(String, String)>,
}

impl View for Snapshot {
    type V = Seq<EntryView>;

    open spec fn view(&self) -> Seq<EntryView> {
        pairs_view(self.entries@)
    }
}

impl Snapshot {
    /// The snapshot is well formed: no name occurs twice.
    pub open spec fn wf(&self) -> bool {
        keys_unique(self@)
    }

    /// A snapshot with no variables.
    pub fn new() -> (r: Snapshot)
        ensures
            r.wf(),
            r@ == Seq::<EntryView>::empty(),
    {
        let r = Snapshot { entries: Vec::new() };
        assert(r@ =~= Seq::<EntryView>::empty());
        r
    }

    /// The position of the entry named `key`, if there is one.
    pub fn find(&self, key: &String) -> (r: Option<usize>)
        requires
            self.wf(),
        ensures
            match r {
                Some(i) => i < self@.len() && self@[i as int].0 == key@,
                None => !has_key(self@, key@),
            },
    {
        let n = self.entries.len();
        let mut i: usize = 0;
        while i < n
            invariant
                n == self.entries.len(),
                i <= n,
                forall|j: int| 0 <= j < i ==> self@[j].0 != key@,
            decreases n - i,
        {
            if self.entries[i].0 == *key {
                return Some(i);
            }
            i = i + 1;
        }
        None
    }

    /// Gives `key` the value `value`, replacing the value it had.
    pub fn set(&mut self, key: String, value: String)
        requires
            old(self).wf(),
        ensures
            final(self).wf(),
            final(self)@ == set_entry(old(self)@, key@, value@),
    {
        let ghost k = key@;
        let ghost v = value@;
        match self.find(&key) {
            Some(i) => {
                proof {
                    let j = choose|j: int| 0 <= j < self@.len() && #[trigger] self@[j].0 == k;
                    assert(self@[j].0 == self@[i as int].0);
                }
                self.entries.set(i, (key, value));
                assert(self@ =~= old(self)@.update(i as int, (k, v)));
            },
            None => {
                self.entries.push((key, value));
                assert(self@ =~= old(self)@.push((k, v)));
            },
        }
    }

    /// The value of `key`, if the snapshot holds it.
    pub fn get(&self, key: &String) -> (r: Option<&String>)
        requires
            self.wf(),
        ensures
            match r {
                Some(v) => value_of(self@, key@) == Some(v@),
                None => value_of(self@, key@) is None,
            },
    {
        match self.find(key) {
            Some(i) => {
                proof {
                    let j = choose|j: int| 0 <= j < self@.len() && #[trigger] self@[j].0 == key@;
                    assert(self@[j].0 == self@[i as int].0);
                }
                Some(&self.entries[i].1)
            },
            None => None,
        }
    }

    /// Collects name/value pairs in order into a snapshot; a later pair of a
    /// name overrides an earlier one.
    pub fn from_vars(vars: &Vec<(String, String)>) -> (r: Snapshot)
        ensures
            r.wf(),
            r@ == collect_entries(pairs_view(vars@)),
    {
        let mut r = Snapshot::new();
        let n = vars.len();
        let mut i: usize = 0;
        while i < n
            invariant
                n == vars.len(),
                i <= n,
                r.wf(),
                r@ == collect_entries(pairs_view(vars@.subrange(0, i as int))),
            decreases n - i,
        {
            let k = vars[i].0.clone();
            let v = vars[i].1.clone();
            proof {
                let next = pairs_view(vars@.subrange(0, i + 1));
                assert(next.drop_last() =~= pairs_view(vars@.subrange(0, i as int)));
                assert(next.last() == (k@, v@));
            }
            r.set(k, v);
            i = i + 1;
        }
        assert(vars@.subrange(0, n as int) =~= vars@);
        r
    }
}

} // verus!
