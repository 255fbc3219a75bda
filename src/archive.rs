use vstd::prelude::*;

verus! {

/// How a downloaded file is handled, decided by its name alone.
#[derive(Debug, Clone, Copy, PartialEq, Eq, Structural)]
pub enum ArchiveKind {
    Zip,
    TarGz,
    Tgz,
    /// Not an archive: the file itself is the executable.
    Raw,
}

/// `s` ends with `t`.
pub open spec fn ends_with(s: Seq<char>, t: Seq<char>) -> bool {
    t.len() <= s.len() && s.subrange(s.len() - t.len(), s.len() as int) == t
}

pub open spec fn zip_suffix() -> Seq<char> {
    seq!['.', 'z', 'i', 'p']
}

pub open spec fn tar_gz_suffix() -> Seq<char> {
    seq!['.', 't', 'a', 'r', '.', 'g', 'z']
}

pub open spec fn tgz_suffix() -> Seq<char> {
    seq!['.', 't', 'g', 'z']
}

pub open spec fn kind_of(name: Seq<char>) -> ArchiveKind {
    if ends_with(name, zip_suffix()) {
        ArchiveKind::Zip
    } else if ends_with(name, tar_gz_suffix()) {
        ArchiveKind::TarGz
    } else if ends_with(name, tgz_suffix()) {
        ArchiveKind::Tgz
    } else {
        ArchiveKind::Raw
    }
}

/// The position of the last `.` in `s`.
pub open spec fn last_dot(s: Seq<char>) -> Option<int>
    decreases s.len(),
{
    if s.len() == 0 {
        None
    } else if s.last() == '.' {
        Some(s.len() - 1)
    } else {
        last_dot(s.drop_last())
    }
}

/// The extension of a file name: what follows its last `.`, unless there is
/// no `.` or the only one starts the name.
pub open spec fn extension_of(name: Seq<char>) -> Option<Seq<char>> {
    match last_dot(name) {
        Some(p) => if p > 0 {
            Some(name.subrange(p + 1, name.len() as int))
        } else {
            None
        },
        None => None,
    }
}

/// A file name without its extension and the `.` before it.
pub open spec fn stem_of(name: Seq<char>) -> Seq<char> {
    match last_dot(name) {
        Some(p) => if p > 0 {
            name.subrange(0, p)
        } else {
            name
        },
        None => name,
    }
}

/// The name a raw download gets when the package names its executable:
/// the executable's name carrying the downloaded file's extension.
pub open spec fn renamed(file_name: Seq<char>, executable_name: Seq<char>) -> Seq<char> {
    match extension_of(file_name) {
        None => executable_name,
        Some(e) => if e.len() == 0 {
            stem_of(executable_name)
        } else {
            stem_of(executable_name) + seq!['.'] + e
        },
    }
}

/// Whether `s` ends with `t`.
pub fn has_suffix(s: &str, t: &str) -> (r: bool)
    ensures
        r == ends_with(s@, t@),
{
    let sl = s.unicode_len();
    let tl = t.unicode_len();
    if tl > sl {
        return false;
    }
    let off: usize = sl - tl;
    let mut j: usize = 0;
    while j < tl
        invariant
            sl == s@.len(),
            tl == t@.len(),
            off + tl == sl,
            0 <= j <= tl,
            forall|k: int| 0 <= k < j ==> s@[off + k] == t@[k],
        decreases tl - j,
    {
        if s.get_char(off + j) != t.get_char(j) {
            proof {
                assert(s@.subrange(off as int, sl as int)[j as int] != t@[j as int]);
            }
            return false;
        }
        j = j + 1;
    }
    proof {
        assert(s@.subrange(off as int, sl as int) =~= t@);
    }
    true
}

/// Classifies a downloaded file by the suffix of its name.
pub fn archive_kind(file_name: &str) -> (r: ArchiveKind)
    ensures
        r == kind_of(file_name@),
{
    proof {
        reveal_strlit(".zip");
        reveal_strlit(".tar.gz");
        reveal_strlit(".tgz");
        assert(".zip"@ =~= zip_suffix());
        assert(".tar.gz"@ =~= tar_gz_suffix());
        assert(".tgz"@ =~= tgz_suffix());
    }
    if has_suffix(file_name, ".zip") {
        ArchiveKind::Zip
    } else if has_suffix(file_name, ".tar.gz") {
        ArchiveKind::TarGz
    } else if has_suffix(file_name, ".tgz") {
        ArchiveKind::Tgz
    } else {
        ArchiveKind::Raw
    }
}

/// Whether the file is an archive to extract rather than an executable.
pub fn is_archive(file_name: &str) -> (r: bool)
    ensures
        r == (kind_of(file_name@) != ArchiveKind::Raw),
{
    match archive_kind(file_name) {
        ArchiveKind::Raw => false,
        _ => true,
    }
}

fn find_last_dot(s: &str) -> (r: Option<usize>)
    ensures
        match r {
            Some(p) => last_dot(s@) == Some(p as int),
            None => last_dot(s@) is None,
        },
        r matches Some(p) ==> p < s@.len(),
{
    let n = s.unicode_len();
    let mut i: usize = n;
    proof {
        assert(s@.subrange(0, n as int) =~= s@);
    }
    while i > 0
        invariant
            n == s@.len(),
            0 <= i <= n,
            last_dot(s@) == last_dot(s@.subrange(0, i as int)),
        decreases i,
    {
        let ghost pre = s@.subrange(0, i as int);
        proof {
            assert(pre.drop_last() =~= s@.subrange(0, i - 1));
        }
        if s.get_char(i - 1) == '.' {
            return Some(i - 1);
        }
        i = i - 1;
    }
    proof {
        assert(s@.subrange(0, 0) =~= Seq::<char>::empty());
    }
    None
}

/// The extension of a file name, as `extension_of` describes it.
pub fn file_extension(name: &str) -> (r: Option<String>)
    ensures
        match r {
            Some(e) => extension_of(name@) == Some(e@),
            None => extension_of(name@) is None,
        },
{
    match find_last_dot(name) {
        Some(p) => {
            if p > 0 {
                let n = name.unicode_len();
                Some(name.substring_char(p + 1, n).to_string())
            } else {
                None
            }
        },
        None => None,
    }
}

/// A file name without its extension, as `stem_of` describes it.
pub fn file_stem(name: &str) -> (r: String)
    ensures
        r@ == stem_of(name@),
{
    match find_last_dot(name) {
        Some(p) => {
            if p > 0 {
                name.substring_char(0, p).to_string()
            } else {
                name.to_string()
            }
        },
        None => name.to_string(),
    }
}

/// The name a raw download is given when the package names its executable.
pub fn renamed_file_name(file_name: &str, executable_name: &str) -> (r: String)
    ensures
        r@ == renamed(file_name@, executable_name@),
{
    match file_extension(file_name) {
        None => executable_name.to_string(),
        Some(e) => {
            let stem = file_stem(executable_name);
            if e.unicode_len() == 0 {
                stem
            } else {
                proof {
                    reveal_strlit(".");
                }
                let with_dot = stem.concat(".");
                with_dot.concat(e.as_str())
            }
        },
    }
}

} // verus!
