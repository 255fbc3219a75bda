use vstd::prelude::*;

verus! {

pub open spec fn strs_view(v: Seq<String>) -> Seq<Seq<char>> {
    v.map_values(|s: String| s@)
}

/// The search path with `dir` appended, unless it is already one of its
/// entries (compared as exact strings).
pub open spec fn with_dir(entries: Seq<Seq<char>>, dir: Seq<char>) -> Seq<Seq<char>> {
    if entries.contains(dir) {
        entries
    } else {
        entries.push(dir)
    }
}

/// How many entries of `s` are exactly `d`.
pub open spec fn occurrences(s: Seq<Seq<char>>, d: Seq<char>) -> nat
    decreases s.len(),
{
    if s.len() == 0 {
        0
    } else {
        occurrences(s.drop_last(), d) + if s.last() == d {
            1nat
        } else {
            0nat
        }
    }
}

/// The entries of a search-path string, cut at each separator `sep`; an
/// empty string is one empty entry.
pub open spec fn split_on(s: Seq<char>, sep: char) -> Seq<Seq<char>>
    decreases s.len(),
{
    if s.len() == 0 {
        seq![Seq::<char>::empty()]
    } else if s.last() == sep {
        split_on(s.drop_last(), sep).push(Seq::<char>::empty())
    } else {
        let p = split_on(s.drop_last(), sep);
        p.update(p.len() - 1, p.last().push(s.last()))
    }
}

/// The entries written one after the other, with `sep` between two.
pub open spec fn joined_with(entries: Seq<Seq<char>>, sep: Seq<char>) -> Seq<char>
    decreases entries.len(),
{
    if entries.len() == 0 {
        Seq::empty()
    } else if entries.len() == 1 {
        entries[0]
    } else {
        joined_with(entries.drop_last(), sep) + sep + entries.last()
    }
}

proof fn lemma_occurrences_push(s: Seq<Seq<char>>, x: Seq<char>, d: Seq<char>)
    ensures
        occurrences(s.push(x), d) == occurrences(s, d) + if x == d {
            1nat
        } else {
            0nat
        },
{
    assert(s.push(x).drop_last() =~= s);
}

proof fn lemma_occurrences_contains(s: Seq<Seq<char>>, d: Seq<char>)
    ensures
        s.contains(d) <==> occurrences(s, d) >= 1,
    decreases s.len(),
{
    if s.len() > 0 {
        let p = s.drop_last();
        lemma_occurrences_contains(p, d);
        if s.contains(d) && s.last() != d {
            let i = choose|i: int| 0 <= i < s.len() && s[i] == d;
            assert(p[i] == d);
        }
        if p.contains(d) {
            let i = choose|i: int| 0 <= i < p.len() && p[i] == d;
            assert(s[i] == d);
        }
        if s.last() == d {
            assert(s[s.len() - 1] == d);
        }
    }
}

/// Extending the search path with a directory twice changes it no more
/// than doing so once, and afterwards the directory is on it exactly once
/// when it was on it at most once before.
pub proof fn lemma_add_twice(entries: Seq<Seq<char>>, dir: Seq<char>)
    ensures
        with_dir(with_dir(entries, dir), dir) == with_dir(entries, dir),
        with_dir(entries, dir).contains(dir),
        occurrences(entries, dir) <= 1 ==> occurrences(with_dir(entries, dir), dir) == 1,
{
    lemma_occurrences_contains(entries, dir);
    if !entries.contains(dir) {
        lemma_occurrences_push(entries, dir, dir);
        assert(entries.push(dir)[entries.len() as int] == dir);
    }
}

/// Ensures `dir` is an entry of the search path: appends it unless an
/// entry is already exactly `dir`. Returns whether the path changed.
pub fn add_to_path(entries: &mut Vec<String>, dir: &String) -> (changed: bool)
    ensures
        strs_view(final(entries)@) == with_dir(strs_view(old(entries)@), dir@),
        changed == !strs_view(old(entries)@).contains(dir@),
{
    let ghost before = strs_view(entries@);
    let mut i: usize = 0;
    while i < entries.len()
        invariant
            before == strs_view(entries@),
            0 <= i <= entries@.len(),
            forall|k: int| 0 <= k < i ==> entries@[k]@ != dir@,
        decreases entries@.len() - i,
    {
        if entries[i] == *dir {
            proof {
                assert(before[i as int] == dir@);
            }
            return false;
        }
        i = i + 1;
    }
    proof {
        assert(!before.contains(dir@)) by {
            if before.contains(dir@) {
                let k = choose|k: int| 0 <= k < before.len() && before[k] == dir@;
                assert(entries@[k]@ == dir@);
            }
        }
    }
    entries.push(dir.clone());
    proof {
        assert(strs_view(entries@) =~= before.push(dir@));
    }
    true
}

/// Cuts a search-path string into its entries at each `sep`.
pub fn split_search_path(path: &str, sep: char) -> (r: Vec<String>)
    ensures
        strs_view(r@) == split_on(path@, sep),
{
    let n = path.unicode_len();
    let mut r: Vec<String> = Vec::new();
    let mut start: usize = 0;
    let mut i: usize = 0;
    proof {
        assert(path@.subrange(0, 0) =~= Seq::<char>::empty());
        assert(strs_view(r@) =~= Seq::<Seq<char>>::empty());
        assert(seq![Seq::<char>::empty()] =~= Seq::<Seq<char>>::empty().push(path@.subrange(0, 0)));
    }
    while i < n
        invariant
            n == path@.len(),
            0 <= start <= i <= n,
            split_on(path@.subrange(0, i as int), sep) == strs_view(r@).push(
                path@.subrange(start as int, i as int),
            ),
        decreases n - i,
    {
        let ghost pre = path@.subrange(0, i + 1);
        proof {
            assert(pre.drop_last() =~= path@.subrange(0, i as int));
        }
        if path.get_char(i) == sep {
            let ghost rb = strs_view(r@);
            r.push(path.substring_char(start, i).to_string());
            proof {
                assert(strs_view(r@) =~= rb.push(path@.subrange(start as int, i as int)));
                assert(path@.subrange(i + 1, i + 1) =~= Seq::<char>::empty());
            }
            start = i + 1;
        } else {
            proof {
                assert(path@.subrange(start as int, i + 1) =~= path@.subrange(start as int, i as int).push(
                    path@[i as int],
                ));
                let old_split = strs_view(r@).push(path@.subrange(start as int, i as int));
                assert(old_split.update(old_split.len() - 1, old_split.last().push(path@[i as int]))
                    =~= strs_view(r@).push(path@.subrange(start as int, i + 1)));
            }
        }
        i = i + 1;
    }
    r.push(path.substring_char(start, n).to_string());
    proof {
        assert(path@.subrange(0, n as int) =~= path@);
    }
    r
}

/// Writes the entries into one search-path string, `sep` between two.
pub fn join_search_path(entries: &Vec<String>, sep: &str) -> (r: String)
    ensures
        r@ == joined_with(strs_view(entries@), sep@),
{
    let ghost all = strs_view(entries@);
    if entries.len() == 0 {
        return String::new();
    }
    let mut r = entries[0].clone();
    let mut i: usize = 1;
    proof {
        assert(all.subrange(0, 1).drop_last() =~= Seq::<Seq<char>>::empty());
    }
    while i < entries.len()
        invariant
            all == strs_view(entries@),
            1 <= i <= entries@.len(),
            r@ == joined_with(all.subrange(0, i as int), sep@),
        decreases entries@.len() - i,
    {
        proof {
            assert(all.subrange(0, i + 1).drop_last() =~= all.subrange(0, i as int));
        }
        let with_sep = r.concat(sep);
        r = with_sep.concat(entries[i].as_str());
        i = i + 1;
    }
    proof {
        assert(all.subrange(0, i as int) =~= all);
    }
    r
}

} // verus!
