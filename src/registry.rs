use vstd::prelude::*;
use crate::error::GripError;

verus! {

/// A configured package source. Lower priorities are searched first.
#[derive(Debug)]
pub struct Registry {
    pub name: String,
    pub url: String,
    pub priority: i64,
}

pub struct RegistryView {
    pub name: Seq<char>,
    pub url: Seq<char>,
    pub priority: int,
}

impl View for Registry {
    type V = RegistryView;

    open spec fn view(&self) -> RegistryView {
        RegistryView { name: self.name@, url: self.url@, priority: self.priority as int }
    }
}

/// Where a package's releases are published, and the name its entry point
/// should be given.
#[derive(Debug)]
pub struct PackageDefinition {
    pub name: String,
    pub repository: String,
    pub executable_name: Option<String>,
}

/// The package index of one registry as the lookup sees it: `packages` is
/// `None` when the registry could not be reached.
#[derive(Debug)]
pub struct RegistryIndex {
    pub priority: i64,
    pub packages: Option<Vec<PackageDefinition>>,
}

/// The name that can never be removed.
pub open spec fn default_registry_name() -> Seq<char> {
    seq!['d', 'e', 'f', 'a', 'u', 'l', 't']
}

pub open spec fn registries_view(rs: Seq<Registry>) -> Seq<RegistryView> {
    rs.map_values(|r: Registry| r@)
}

pub open spec fn has_registry(rs: Seq<RegistryView>, name: Seq<char>) -> bool {
    exists|i: int| 0 <= i < rs.len() && rs[i].name == name
}

/// `rs` without the registries named `name`, in their order.
pub open spec fn without_registry(rs: Seq<RegistryView>, name: Seq<char>) -> Seq<RegistryView>
    decreases rs.len(),
{
    if rs.len() == 0 {
        Seq::empty()
    } else if rs.last().name == name {
        without_registry(rs.drop_last(), name)
    } else {
        without_registry(rs.drop_last(), name).push(rs.last())
    }
}

fn position_of_registry(registries: &Vec<Registry>, name: &String) -> (r: Option<usize>)
    ensures
        match r {
            Some(i) => i < registries@.len() && registries@[i as int].name@ == name@,
            None => !has_registry(registries_view(registries@), name@),
        },
{
    let mut i: usize = 0;
    while i < registries.len()
        invariant
            0 <= i <= registries@.len(),
            forall|j: int| 0 <= j < i ==> registries@[j].name@ != name@,
        decreases registries@.len() - i,
    {
        if registries[i].name == *name {
            return Some(i);
        }
        i = i + 1;
    }
    proof {
        if has_registry(registries_view(registries@), name@) {
            let j = choose|j: int|
                0 <= j < registries@.len() && registries_view(registries@)[j].name == name@;
            assert(registries_view(registries@)[j] == registries@[j]@);
        }
    }
    None
}

/// Adds a registry at the end of the configuration; a name that is already
/// configured is refused and the configuration left as it was. Without a
/// priority the registry gets priority 0.
pub fn add_registry(
    registries: &mut Vec<Registry>,
    name: String,
    url: String,
    priority: Option<i64>,
) -> (r: Result<(), GripError>)
    ensures
        has_registry(registries_view(old(registries)@), name@) ==> r == Err::<(), GripError>(
            GripError::RegistryAlreadyExists,
        ) && final(registries)@ == old(registries)@,
        !has_registry(registries_view(old(registries)@), name@) ==> r is Ok && registries_view(
            final(registries)@,
        ) == registries_view(old(registries)@).push(
            RegistryView {
                name: name@,
                url: url@,
                priority: match priority {
                    Some(p) => p as int,
                    None => 0,
                },
            },
        ),
{
    if let Some(i) = position_of_registry(registries, &name) {
        proof {
            assert(registries_view(registries@)[i as int].name == name@);
        }
        return Err(GripError::RegistryAlreadyExists);
    }
    let p: i64 = match priority {
        Some(p) => p,
        None => 0,
    };
    let ghost before = registries@;
    registries.push(Registry { name, url, priority: p });
    proof {
        assert(registries_view(registries@) =~= registries_view(before).push(registries@.last()@));
    }
    Ok(())
}

/// Removes every registry named `name`. The default registry is never
/// removed, and a name that is not configured is an error; in both cases the
/// configuration is left as it was.
pub fn remove_registry(registries: &mut Vec<Registry>, name: &String) -> (r: Result<(), GripError>)
    ensures
        name@ == default_registry_name() ==> r == Err::<(), GripError>(
            GripError::CannotRemoveDefaultRegistry,
        ) && final(registries)@ == old(registries)@,
        name@ != default_registry_name() && !has_registry(registries_view(old(registries)@), name@)
            ==> r == Err::<(), GripError>(GripError::RegistryNotFound) && final(registries)@ == old(
            registries,
        )@,
        name@ != default_registry_name() && has_registry(registries_view(old(registries)@), name@)
            ==> r is Ok && registries_view(final(registries)@) == without_registry(
            registries_view(old(registries)@),
            name@,
        ),
{
    let protected = String::from_str("default");
    proof {
        reveal_strlit("default");
        assert(protected@ =~= default_registry_name());
    }
    if *name == protected {
        return Err(GripError::CannotRemoveDefaultRegistry);
    }
    match position_of_registry(registries, name) {
        None => {
            return Err(GripError::RegistryNotFound);
        },
        Some(i) => {
            proof {
                assert(registries_view(registries@)[i as int].name == name@);
            }
        },
    }
    let ghost all = registries_view(registries@);
    let mut kept: Vec<Registry> = Vec::new();
    let mut rest: Vec<Registry> = Vec::new();
    std::mem::swap(&mut rest, registries);
    let n: usize = rest.len();
    let mut k: usize = 0;
    while rest.len() > 0
        invariant
            all.len() == n,
            0 <= k <= n,
            registries_view(rest@) =~= all.skip(k as int),
            registries_view(kept@) == without_registry(all.take(k as int), name@),
        decreases rest@.len(),
    {
        let ghost before = rest@;
        let reg = rest.remove(0);
        proof {
            assert(registries_view(before)[0] == reg@);
            assert(registries_view(rest@) =~= registries_view(before).skip(1));
            assert(all.take(k + 1).drop_last() =~= all.take(k as int));
            assert(all[k as int] == reg@);
        }
        if reg.name != *name {
            let ghost kb = kept@;
            kept.push(reg);
            proof {
                assert(registries_view(kept@) =~= registries_view(kb).push(kept@.last()@));
            }
        }
        k = k + 1;
    }
    proof {
        assert(all.take(k as int) =~= all);
    }
    *registries = kept;
    Ok(())
}

/// The registry offers a package called `name`.
pub open spec fn offers(ix: RegistryIndex, name: Seq<char>) -> bool {
    match ix.packages {
        Some(ps) => exists|j: int| 0 <= j < ps.len() && ps[j].name@ == name,
        None => false,
    }
}

/// Registry `i` is searched before registry `k`: a lower priority, or the
/// same priority and an earlier place in the configuration.
pub open spec fn searched_before(ixs: Seq<RegistryIndex>, i: int, k: int) -> bool {
    ixs[i].priority < ixs[k].priority || (ixs[i].priority == ixs[k].priority && i <= k)
}

/// Registry `i` is the first, in search order, that offers `name`.
pub open spec fn first_offering(ixs: Seq<RegistryIndex>, name: Seq<char>, i: int) -> bool {
    &&& 0 <= i < ixs.len()
    &&& offers(ixs[i], name)
    &&& forall|k: int| 0 <= k < ixs.len() && offers(ixs[k], name) ==> searched_before(ixs, i, k)
}

/// Every registry that was configured could not be reached.
pub open spec fn all_unreachable(ixs: Seq<RegistryIndex>) -> bool {
    ixs.len() > 0 && forall|i: int| 0 <= i < ixs.len() ==> (#[trigger] ixs[i]).packages is None
}

fn position_of_package(ps: &Vec<PackageDefinition>, name: &String) -> (r: Option<usize>)
    ensures
        match r {
            Some(j) => j < ps@.len() && ps@[j as int].name@ == name@ && forall|k: int|
                0 <= k < j ==> ps@[k].name@ != name@,
            None => forall|k: int| 0 <= k < ps@.len() ==> ps@[k].name@ != name@,
        },
{
    let mut j: usize = 0;
    while j < ps.len()
        invariant
            0 <= j <= ps@.len(),
            forall|k: int| 0 <= k < j ==> ps@[k].name@ != name@,
        decreases ps@.len() - j,
    {
        if ps[j].name == *name {
            return Some(j);
        }
        j = j + 1;
    }
    None
}

/// Looks `name` up in the registries in search order and returns the
/// definition from the first registry that offers it (the first one listed
/// there). When none offers it, the lookup fails with `NetworkError` if no
/// registry could be reached at all, and with `PackageNotFound` otherwise.
pub fn find_package<'a>(indexes: &'a Vec<RegistryIndex>, name: &String) -> (r: Result<
    &'a PackageDefinition,
    GripError,
>)
    ensures
        match r {
            Ok(d) => exists|i: int, j: int|
                first_offering(indexes@, name@, i) && 0 <= j < index_packages(indexes@[i])@.len()
                    && d == #[trigger] index_packages(indexes@[i])@[j] && d.name@ == name@
                    && forall|k: int| 0 <= k < j ==> index_packages(indexes@[i])@[k].name@ != name@,
            Err(e) => (forall|i: int| 0 <= i < indexes@.len() ==> !offers(#[trigger] indexes@[i], name@))
                && (e == GripError::NetworkError <==> all_unreachable(indexes@)) && (e
                == GripError::NetworkError || e == GripError::PackageNotFound),
        },
{
    let mut best: Option<(usize, usize)> = None;
    let mut i: usize = 0;
    while i < indexes.len()
        invariant
            0 <= i <= indexes@.len(),
            match best {
                Some((bi, bj)) => bi < i && indexes@[bi as int].packages is Some
                    && bj < index_packages(indexes@[bi as int])@.len()
                    && index_packages(indexes@[bi as int])@[bj as int].name@ == name@
                    && (forall|k: int| 0 <= k < bj ==> index_packages(indexes@[bi as int])@[k].name@ != name@)
                    && forall|k: int| 0 <= k < i && offers(#[trigger] indexes@[k], name@) ==> searched_before(indexes@, bi as int, k),
                None => forall|k: int| 0 <= k < i ==> !offers(#[trigger] indexes@[k], name@),
            },
        decreases indexes@.len() - i,
    {
        if let Some(ps) = &indexes[i].packages {
            if let Some(j) = position_of_package(ps, name) {
                let better = match best {
                    Some((bi, _)) => indexes[i].priority < indexes[bi].priority,
                    None => true,
                };
                if better {
                    best = Some((i, j));
                }
            } else {
                proof {
                    assert(!offers(indexes@[i as int], name@));
                }
            }
        }
        i = i + 1;
    }
    match best {
        Some((bi, bj)) => {
            match &indexes[bi].packages {
                Some(ps) => {
                    proof {
                        assert(offers(indexes@[bi as int], name@));
                        assert(first_offering(indexes@, name@, bi as int));
                    }
                    Ok(&ps[bj])
                },
                None => Err(GripError::PackageNotFound),
            }
        },
        None => {
            let mut any_reached = false;
            let mut k: usize = 0;
            while k < indexes.len()
                invariant
                    0 <= k <= indexes@.len(),
                    !any_reached ==> forall|m: int| 0 <= m < k ==> (#[trigger] indexes@[m]).packages is None,
                    any_reached ==> exists|m: int| 0 <= m < indexes@.len() && (#[trigger] indexes@[m]).packages is Some,
                decreases indexes@.len() - k,
            {
                if indexes[k].packages.is_some() {
                    any_reached = true;
                }
                k = k + 1;
            }
            if !any_reached && indexes.len() > 0 {
                Err(GripError::NetworkError)
            } else {
                Err(GripError::PackageNotFound)
            }
        },
    }
}

/// The package list of a reached registry.
pub open spec fn index_packages(ix: RegistryIndex) -> Vec<PackageDefinition> {
    ix.packages->Some_0
}

} // verus!
