use vstd::prelude::*;

verus! {

/// One ledger entry: the release that is installed, where its files are,
/// and the path of its entry point when one is known.
#[derive(Debug)]
pub struct InstalledPackage {
    pub version: String,
    pub install_path: String,
    pub executable_path: Option<String>,
}

/// The mathematical value of an `InstalledPackage`.
pub struct InstalledPackageView {
    pub version: Seq<char>,
    pub install_path: Seq<char>,
    pub executable_path: Option<Seq<char>>,
}

pub open spec fn opt_str_view(o: Option<String>) -> Option<Seq<char>> {
    match o {
        Some(s) => Some(s@),
        None => None,
    }
}

impl View for InstalledPackage {
    type V = InstalledPackageView;

    open spec fn view(&self) -> InstalledPackageView {
        InstalledPackageView {
            version: self.version@,
            install_path: self.install_path@,
            executable_path: opt_str_view(self.executable_path),
        }
    }
}

/// The view of one (name, entry) pair of the ledger.
pub open spec fn entry_view(e: (String, InstalledPackage)) -> (Seq<char>, InstalledPackageView) {
    (e.0@, e.1@)
}

/// The map that results from recording the pairs of `s` one after the other:
/// a later pair for a name replaces an earlier one.
pub open spec fn entries_map(s: Seq<(Seq<char>, InstalledPackageView)>) -> Map<
    Seq<char>,
    InstalledPackageView,
>
    decreases s.len(),
{
    if s.len() == 0 {
        Map::empty()
    } else {
        entries_map(s.drop_last()).insert(s.last().0, s.last().1)
    }
}

/// `s` lists the ledger `m`: each name once, each pair as `m` holds it,
/// every name of `m`.
pub open spec fn lists_ledger(
    m: Map<Seq<char>, InstalledPackageView>,
    s: Seq<(Seq<char>, InstalledPackageView)>,
) -> bool {
    &&& forall|i: int, j: int| 0 <= i < j < s.len() ==> s[i].0 != s[j].0
    &&& forall|i: int| 0 <= i < s.len() ==> #[trigger] m.contains_key(s[i].0) && m[s[i].0] == s[i].1
    &&& forall|k: Seq<char>| #[trigger] m.contains_key(k) ==> exists|i: int| 0 <= i < s.len() && s[i].0 == k
}

/// The install ledger: at most one entry per package name.
pub struct PackageState {
    packages: Vec<(String, InstalledPackage)>,
    model: Ghost<Map<Seq<char>, InstalledPackageView>>,
}

impl View for PackageState {
    type V = Map<Seq<char>, InstalledPackageView>;

    closed spec fn view(&self) -> Map<Seq<char>, InstalledPackageView> {
        self.model@
    }
}

impl Default for PackageState {
    fn default() -> (r: PackageState)
        ensures
            r.wf(),
            r@ == Map::<Seq<char>, InstalledPackageView>::empty(),
    {
        PackageState::new()
    }
}

impl PackageState {
    /// The entries are stored once per name and agree with the view.
    pub closed spec fn wf(&self) -> bool {
        lists_ledger(self.model@, self.packages@.map_values(|e: (String, InstalledPackage)| entry_view(e)))
    }

    /// An empty ledger.
    pub fn new() -> (r: PackageState)
        ensures
            r.wf(),
            r@ == Map::<Seq<char>, InstalledPackageView>::empty(),
    {
        let r = PackageState { packages: Vec::new(), model: Ghost(Map::empty()) };
        assert(r.packages@.map_values(|e: (String, InstalledPackage)| entry_view(e)) =~= Seq::empty());
        r
    }

    fn find(&self, name: &String) -> (r: Option<usize>)
        requires
            self.wf(),
        ensures
            match r {
                Some(i) => i < self.packages@.len() && self.packages@[i as int].0@ == name@,
                None => !self@.contains_key(name@),
            },
    {
        let ghost s = self.packages@.map_values(|e: (String, InstalledPackage)| entry_view(e));
        let mut i: usize = 0;
        while i < self.packages.len()
            invariant
                self.wf(),
                s == self.packages@.map_values(|e: (String, InstalledPackage)| entry_view(e)),
                0 <= i <= self.packages@.len(),
                forall|j: int| 0 <= j < i ==> self.packages@[j].0@ != name@,
            decreases self.packages@.len() - i,
        {
            if self.packages[i].0 == *name {
                return Some(i);
            }
            i = i + 1;
        }
        proof {
            if self@.contains_key(name@) {
                let j = choose|j: int| 0 <= j < s.len() && s[j].0 == name@;
                assert(s[j].0 == self.packages@[j].0@);
            }
        }
        None
    }

    /// Records an install of `name`; an earlier entry for the same name is
    /// replaced, never duplicated.
    pub fn add_package(
        &mut self,
        name: String,
        version: String,
        install_path: String,
        executable_path: Option<String>,
    )
        requires
            old(self).wf(),
        ensures
            final(self).wf(),
            final(self)@ == old(self)@.insert(
                name@,
                InstalledPackageView {
                    version: version@,
                    install_path: install_path@,
                    executable_path: opt_str_view(executable_path),
                },
            ),
    {
        let ghost nv = name@;
        let pkg = InstalledPackage { version, install_path, executable_path };
        let ghost pv = pkg@;
        let ghost old_s = self.packages@.map_values(|e: (String, InstalledPackage)| entry_view(e));
        let found = self.find(&name);
        let ghost old_m = self.model@;
        proof {
            assert forall|j: int| 0 <= j < old_s.len() implies #[trigger] old_s[j].0 != nv
                || found is Some by {
                assert(self.model@.contains_key(old_s[j].0));
            }
            if let Some(i) = found {
                assert(old_s[i as int].0 == nv);
            }
        }
        match found {
            Some(i) => {
                self.packages.set(i, (name, pkg));
            },
            None => {
                self.packages.push((name, pkg));
            },
        }
        self.model = Ghost(self.model@.insert(nv, pv));
        proof {
            let s = self.packages@.map_values(|e: (String, InstalledPackage)| entry_view(e));
            let m = self.model@;
            match found {
                Some(i) => {
                    assert(s =~= old_s.update(i as int, (nv, pv)));
                    assert forall|j: int| 0 <= j < s.len() implies s[j].0 == old_s[j].0 by {}
                    assert forall|j: int| 0 <= j < s.len() implies #[trigger] m.contains_key(s[j].0)
                        && m[s[j].0] == s[j].1 by {
                        if j != i {
                            assert(old_m.contains_key(old_s[j].0));
                        }
                    }
                    assert forall|k: Seq<char>| #[trigger] m.contains_key(k) implies exists|j: int|
                        0 <= j < s.len() && s[j].0 == k by {
                        if k != nv {
                            let j = choose|j: int| 0 <= j < old_s.len() && old_s[j].0 == k;
                            assert(s[j].0 == k);
                        } else {
                            assert(s[i as int].0 == k);
                        }
                    }
                },
                None => {
                    assert(s =~= old_s.push((nv, pv)));
                    assert forall|j: int| 0 <= j < s.len() implies #[trigger] m.contains_key(s[j].0)
                        && m[s[j].0] == s[j].1 by {
                        if j < old_s.len() {
                            assert(old_m.contains_key(old_s[j].0));
                        }
                    }
                    assert forall|k: Seq<char>| #[trigger] m.contains_key(k) implies exists|j: int|
                        0 <= j < s.len() && s[j].0 == k by {
                        if k != nv {
                            let j = choose|j: int| 0 <= j < old_s.len() && old_s[j].0 == k;
                            assert(s[j].0 == k);
                        } else {
                            assert(s[old_s.len() as int].0 == k);
                        }
                    }
                },
            }
        }
    }

    /// Takes the entry for `name` out of the ledger, if there is one.
    pub fn remove_package(&mut self, name: &String) -> (r: Option<InstalledPackage>)
        requires
            old(self).wf(),
        ensures
            final(self).wf(),
            final(self)@ == old(self)@.remove(name@),
            match r {
                Some(p) => old(self)@.contains_key(name@) && p@ == old(self)@[name@],
                None => !old(self)@.contains_key(name@),
            },
    {
        let ghost old_s = self.packages@.map_values(|e: (String, InstalledPackage)| entry_view(e));
        match self.find(name) {
            Some(i) => {
                let ghost old_m = self.model@;
                proof {
                    assert(old_m.contains_key(old_s[i as int].0));
                }
                let e = self.packages.remove(i);
                self.model = Ghost(self.model@.remove(name@));
                proof {
                    let s = self.packages@.map_values(|e: (String, InstalledPackage)| entry_view(e));
                    let m = self.model@;
                    assert(s =~= old_s.remove(i as int));
                    assert forall|k: Seq<char>| #[trigger] m.contains_key(k) implies exists|j: int|
                        0 <= j < s.len() && s[j].0 == k by {
                        let j = choose|j: int| 0 <= j < old_s.len() && old_s[j].0 == k;
                        if j < i {
                            assert(s[j].0 == k);
                        } else {
                            assert(j != i);
                            assert(s[j - 1].0 == k);
                        }
                    }
                    assert(old_s[i as int] == entry_view(e));
                }
                Some(e.1)
            },
            None => {
                proof {
                    assert(self.model@.remove(name@) =~= self.model@);
                }
                None
            },
        }
    }

    /// The entry for `name`, if there is one.
    pub fn get_package(&self, name: &String) -> (r: Option<&InstalledPackage>)
        requires
            self.wf(),
        ensures
            match r {
                Some(p) => self@.contains_key(name@) && p@ == self@[name@],
                None => !self@.contains_key(name@),
            },
    {
        match self.find(name) {
            Some(i) => {
                proof {
                    let s = self.packages@.map_values(|e: (String, InstalledPackage)| entry_view(e));
                    assert(s[i as int] == entry_view(self.packages@[i as int]));
                    assert(self@.contains_key(s[i as int].0));
                }
                Some(&self.packages[i].1)
            },
            None => None,
        }
    }

    /// A ledger that records the given pairs in order: for a name listed
    /// more than once, the last pair wins.
    pub fn from_entries(entries: Vec<(String, InstalledPackage)>) -> (r: PackageState)
        ensures
            r.wf(),
            r@ == entries_map(entries@.map_values(|e: (String, InstalledPackage)| entry_view(e))),
    {
        let ghost all = entries@.map_values(|e: (String, InstalledPackage)| entry_view(e));
        let n: usize = entries.len();
        let mut rest = entries;
        let mut r = PackageState::new();
        let mut k: usize = 0;
        while rest.len() > 0
            invariant
                r.wf(),
                0 <= k <= all.len(),
                all.len() == n,
                rest@.map_values(|e: (String, InstalledPackage)| entry_view(e)) =~= all.skip(k as int),
                r@ == entries_map(all.take(k as int)),
            decreases rest@.len(),
        {
            let ghost before = rest@.map_values(|e: (String, InstalledPackage)| entry_view(e));
            let e = rest.remove(0);
            proof {
                assert(before[0] == entry_view(e));
                assert(rest@.map_values(|e: (String, InstalledPackage)| entry_view(e)) =~= before.skip(1));
                assert(all.take(k + 1).drop_last() =~= all.take(k as int));
                assert(all[k as int] == before[0]);
            }
            r.add_package(e.0, e.1.version, e.1.install_path, e.1.executable_path);
            k = k + 1;
        }
        proof {
            assert(all.take(k as int) =~= all);
        }
        r
    }

    /// Every entry of the ledger, each name once.
    pub fn list_packages(&self) -> (r: Vec<(&String, &InstalledPackage)>)
        requires
            self.wf(),
        ensures
            lists_ledger(self@, r@.map_values(|e: (&String, &InstalledPackage)| (e.0@, e.1@))),
    {
        let ghost s = self.packages@.map_values(|e: (String, InstalledPackage)| entry_view(e));
        let mut r: Vec<(&String, &InstalledPackage)> = Vec::new();
        let mut i: usize = 0;
        while i < self.packages.len()
            invariant
                self.wf(),
                s == self.packages@.map_values(|e: (String, InstalledPackage)| entry_view(e)),
                0 <= i <= self.packages@.len(),
                r@.map_values(|e: (&String, &InstalledPackage)| (e.0@, e.1@)) =~= s.take(i as int),
            decreases self.packages@.len() - i,
        {
            let e = &self.packages[i];
            r.push((&e.0, &e.1));
            proof {
                assert(s.take(i + 1) =~= s.take(i as int).push(s[i as int]));
            }
            i = i + 1;
        }
        proof {
            assert(s.take(i as int) =~= s);
        }
        r
    }
}


/// With names listed once, recording the pairs gives each name the value
/// listed for it, and no other name.
proof fn lemma_entries_map_unique(s: Seq<(Seq<char>, InstalledPackageView)>)
    requires
        forall|i: int, j: int| 0 <= i < j < s.len() ==> s[i].0 != s[j].0,
    ensures
        forall|i: int| 0 <= i < s.len() ==> #[trigger] entries_map(s).contains_key(s[i].0)
            && entries_map(s)[s[i].0] == s[i].1,
        forall|k: Seq<char>| #[trigger] entries_map(s).contains_key(k) ==> exists|i: int|
            0 <= i < s.len() && s[i].0 == k,
    decreases s.len(),
{
    if s.len() > 0 {
        let p = s.drop_last();
        lemma_entries_map_unique(p);
        assert forall|i: int| 0 <= i < s.len() implies #[trigger] entries_map(s).contains_key(s[i].0)
            && entries_map(s)[s[i].0] == s[i].1 by {
            if i < s.len() - 1 {
                assert(p[i] == s[i]);
                assert(entries_map(p).contains_key(p[i].0));
            }
        }
        assert forall|k: Seq<char>| #[trigger] entries_map(s).contains_key(k) implies exists|i: int|
            0 <= i < s.len() && s[i].0 == k by {
            if k != s.last().0 {
                assert(entries_map(p).contains_key(k));
                let i = choose|i: int| 0 <= i < p.len() && p[i].0 == k;
                assert(s[i] == p[i]);
            }
        }
    }
}

/// Installing the same name twice leaves one entry for it, equal to the
/// later install.
pub proof fn lemma_install_twice(
    m: Map<Seq<char>, InstalledPackageView>,
    name: Seq<char>,
    first: InstalledPackageView,
    second: InstalledPackageView,
)
    ensures
        m.insert(name, first).insert(name, second) == m.insert(name, second),
        m.insert(name, first).insert(name, second).dom() == m.dom().insert(name),
        m.insert(name, first).insert(name, second)[name] == second,
{
    assert(m.insert(name, first).insert(name, second) =~= m.insert(name, second));
}

/// Rebuilding a ledger from a listing of it, as saving and then loading do,
/// gives back the same ledger.
pub proof fn lemma_listing_round_trip(
    m: Map<Seq<char>, InstalledPackageView>,
    s: Seq<(Seq<char>, InstalledPackageView)>,
)
    requires
        lists_ledger(m, s),
    ensures
        entries_map(s) == m,
{
    lemma_entries_map_unique(s);
    assert forall|k: Seq<char>| #[trigger] m.contains_key(k) implies entries_map(s).contains_key(k)
        && entries_map(s)[k] == m[k] by {
        let i = choose|i: int| 0 <= i < s.len() && s[i].0 == k;
        assert(entries_map(s).contains_key(s[i].0));
        assert(m.contains_key(s[i].0));
    }
    assert forall|k: Seq<char>| #[trigger] entries_map(s).contains_key(k) implies m.contains_key(k) by {
        let i = choose|i: int| 0 <= i < s.len() && s[i].0 == k;
    }
    assert(entries_map(s) =~= m);
}

} // verus!
