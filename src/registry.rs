//! The artifact registry: for each package name, where that package's last
//! successful build put its output. Last writer wins.
use vstd::prelude::*;

verus! {

/// One record of the registry: a package and its output directory.
#[derive(Debug)]
pub struct RegistryEntry {
    pub name: String,
    pub location: String,
}

/// The model of a `RegistryEntry`.
pub struct EntryView {
    pub name: Seq<char>,
    pub location: Seq<char>,
}

impl View for RegistryEntry {
    type V = EntryView;

    open spec fn view(&self) -> EntryView {
        EntryView { name: self.name@, location: self.location@ }
    }
}

impl RegistryEntry {
    /// A copy of this record.
    pub fn duplicate(&self) -> (r: RegistryEntry)
        ensures
            r@ == self@,
    {
        RegistryEntry { name: self.name.clone(), location: self.location.clone() }
    }
}

/// The models of a sequence of records.
pub open spec fn entry_views(s: Seq<RegistryEntry>) -> Seq<EntryView> {
    s.map_values(|e: RegistryEntry| e@)
}

/// The records of `entries` that belong to a package other than `own`, in order.
pub open spec fn foreign_entries(entries: Seq<EntryView>, own: Seq<char>) -> Seq<EntryView> {
    entries.filter(|e: EntryView| e.name != own)
}

/// `s` lists the registry `m`: one record per package of `m`, each with the
/// output directory that `m` holds for it, and nothing else.
pub open spec fn lists(s: Seq<EntryView>, m: Map<Seq<char>, Seq<char>>) -> bool {
    &&& forall|i: int, j: int| 0 <= i < j < s.len() ==> s[i].name != s[j].name
    &&& forall|i: int|
        0 <= i < s.len() ==> #[trigger] m.contains_key(s[i].name) && m[s[i].name]
            == s[i].location
    &&& forall|k: Seq<char>|
        #[trigger] m.contains_key(k) ==> exists|i: int| 0 <= i < s.len() && s[i].name == k
}

/// A registry held in memory.
pub struct Registry {
    entries: Vec<RegistryEntry>,
    contents: Ghost<Map<Seq<char>, Seq<char>>>,
}

impl View for Registry {
    type V = Map<Seq<char>, Seq<char>>;

    closed spec fn view(&self) -> Map<Seq<char>, Seq<char>> {
        self.contents@
    }
}

impl Registry {
    /// The records kept list the contents exactly.
    pub closed spec fn wf(&self) -> bool {
        lists(entry_views(self.entries@), self.contents@)
    }

    /// An empty registry.
    pub fn new() -> (r: Registry)
        ensures
            r.wf(),
            r@ == Map::<Seq<char>, Seq<char>>::empty(),
    {
        Registry { entries: Vec::new(), contents: Ghost(Map::empty()) }
    }

    /// Records `entry`, replacing any record of the same package.
    pub fn publish(&mut self, entry: RegistryEntry)
        requires
            old(self).wf(),
        ensures
            final(self).wf(),
            final(self)@ == old(self)@.insert(entry.name@, entry.location@),
    {
        let ghost views_before = entry_views(self.entries@);
        let ghost contents_before = self.contents@;
        let mut j: usize = 0;
        while j < self.entries.len() && !(self.entries[j].name == entry.name)
            invariant
                j <= self.entries.len(),
                forall|i: int| 0 <= i < j ==> views_before[i].name != entry.name@,
                views_before == entry_views(self.entries@),
            decreases self.entries.len() - j,
        {
            j = j + 1;
        }
        let ghost name = entry.name@;
        let ghost location = entry.location@;
        self.contents = Ghost(self.contents@.insert(name, location));
        if j < self.entries.len() {
            self.entries.set(j, entry);
            let ghost s = entry_views(self.entries@);
            assert(s =~= views_before.update(j as int, EntryView { name, location }));
            assert(views_before[j as int].name == name);
            assert forall|x: int| 0 <= x < s.len() implies s[x].name == views_before[x].name by {}
            assert forall|x: int| 0 <= x < s.len() implies #[trigger] self.contents@.contains_key(
                s[x].name,
            ) && self.contents@[s[x].name] == s[x].location by {
                if x != j {
                    assert(views_before[x].name != name);
                    assert(contents_before.contains_key(views_before[x].name));
                }
            }
            assert forall|k: Seq<char>| #[trigger] self.contents@.contains_key(k) implies exists|
                i: int,
            | 0 <= i < s.len() && s[i].name == k by {
                if k != name {
                    assert(contents_before.contains_key(k));
                    let i = choose|i: int| 0 <= i < views_before.len() && views_before[i].name == k;
                    assert(views_before[j as int].name == name);
                    assert(s[i].name == k);
                } else {
                    assert(s[j as int].name == k);
                }
            }
        } else {
            self.entries.push(entry);
            let ghost s = entry_views(self.entries@);
            assert(s =~= views_before.push(EntryView { name, location }));
            assert forall|k: Seq<char>| #[trigger] self.contents@.contains_key(k) implies exists|
                i: int,
            | 0 <= i < s.len() && s[i].name == k by {
                if k != name {
                    assert(contents_before.contains_key(k));
                    let i = choose|i: int| 0 <= i < views_before.len() && views_before[i].name == k;
                    assert(s[i].name == k);
                } else {
                    assert(s[views_before.len() as int].name == k);
                }
            }
        }
    }

    /// The records of the registry, one per package.
    pub fn entries(&self) -> (r: Vec<RegistryEntry>)
        requires
            self.wf(),
        ensures
            lists(entry_views(r@), self@),
    {
        let mut r: Vec<RegistryEntry> = Vec::new();
        let mut i: usize = 0;
        while i < self.entries.len()
            invariant
                i <= self.entries.len(),
                entry_views(r@) =~= entry_views(self.entries@).take(i as int),
            decreases self.entries.len() - i,
        {
            let ghost r_before = r@;
            let copy = self.entries[i].duplicate();
            r.push(copy);
            assert(r@ == r_before.push(copy));
            assert(entry_views(r@) =~= entry_views(r_before).push(copy@));
            assert(entry_views(self.entries@).take(i + 1) =~= entry_views(self.entries@).take(
                i as int,
            ).push(self.entries@[i as int]@));
            i = i + 1;
        }
        assert(entry_views(self.entries@).take(i as int) =~= entry_views(self.entries@));
        r
    }
}

} // verus!
