//! Path logic: file names, logical names, the shapefile filter, and the
//! artifact names a rebuild is expected to produce.
//!
//! A path is a sequence of characters; its file name is the part after the
//! last separator, a logical name is the file name without its extension, and
//! an artifact is `<logical name>.sql`.  Extensions follow the usual rule: the
//! part after the last dot of the file name, unless that dot is the file
//! name's first character.

use vstd::prelude::*;
use vstd::string::StrSliceExecFns;
use vstd::string::StringExecFns;

verus! {

/// The extension that marks an input file as a shapefile (matched
/// case-sensitively).
pub open spec fn shp_ext() -> Seq<char> {
    seq!['s', 'h', 'p']
}

/// The suffix of a generated artifact's file name.
pub open spec fn sql_suffix() -> Seq<char> {
    seq!['.', 's', 'q', 'l']
}

/// The position of the last occurrence of `c` in `s`, if any.
pub open spec fn last_index_of(s: Seq<char>, c: char) -> Option<int>
    decreases s.len(),
{
    if s.len() == 0 {
        None
    } else if s.last() == c {
        Some(s.len() - 1)
    } else {
        last_index_of(s.drop_last(), c)
    }
}

/// What the last-occurrence position means: the character stands there, and
/// nowhere after it; when there is none, the character is nowhere in `s`.
pub proof fn lemma_last_index_of(s: Seq<char>, c: char)
    ensures
        match last_index_of(s, c) {
            Some(i) => 0 <= i < s.len() && s[i] == c && forall|j: int|
                i < j < s.len() ==> s[j] != c,
            None => forall|j: int| 0 <= j < s.len() ==> s[j] != c,
        },
    decreases s.len(),
{
    if s.len() > 0 && s.last() != c {
        let d = s.drop_last();
        lemma_last_index_of(d, c);
        assert(forall|j: int| 0 <= j < d.len() ==> d[j] == s[j]);
        match last_index_of(s, c) {
            Some(i) => {
                assert(forall|j: int| i < j < s.len() - 1 ==> s[j] == d[j] && d[j] != c);
            },
            None => {
                assert(forall|j: int| 0 <= j < s.len() - 1 ==> s[j] == d[j] && d[j] != c);
            },
        }
    }
}

/// The file-name part of a path: everything after the last separator.
pub open spec fn file_name(p: Seq<char>) -> Seq<char> {
    match last_index_of(p, '/') {
        Some(i) => p.subrange(i + 1, p.len() as int),
        None => p,
    }
}

/// The position of the dot that separates a file name's stem from its
/// extension, if the name has an extension.
pub open spec fn ext_dot(name: Seq<char>) -> Option<int> {
    match last_index_of(name, '.') {
        Some(i) => if i > 0 {
            Some(i)
        } else {
            None
        },
        None => None,
    }
}

/// A file name's stem: the part before its extension.
pub open spec fn stem_of(name: Seq<char>) -> Seq<char> {
    match ext_dot(name) {
        Some(i) => name.subrange(0, i),
        None => name,
    }
}

/// A file name's extension, if it has one.
pub open spec fn extension_of(name: Seq<char>) -> Option<Seq<char>> {
    match ext_dot(name) {
        Some(i) => Some(name.subrange(i + 1, name.len() as int)),
        None => None,
    }
}

/// Whether a path names a shapefile: its file name's extension is `shp`.
pub open spec fn is_shapefile(p: Seq<char>) -> bool {
    extension_of(file_name(p)) == Some(shp_ext())
}

/// The shapefile test as a value, for use with sequence filtering.
pub open spec fn shp_pred() -> spec_fn(Seq<char>) -> bool {
    |p: Seq<char>| is_shapefile(p)
}

/// A path's logical name: the stem of its file name.  It is the generated
/// artifact's base name and the table name handed to the conversion tool.
pub open spec fn logical_name_of(p: Seq<char>) -> Seq<char> {
    stem_of(file_name(p))
}

/// Whether a path has a logical name at all: its file-name part is non-empty.
pub open spec fn has_stem(p: Seq<char>) -> bool {
    file_name(p).len() > 0
}

/// The artifact file name a source path gives rise to.
pub open spec fn artifact_of(p: Seq<char>) -> Seq<char> {
    logical_name_of(p) + sql_suffix()
}

/// The artifact names that a listing of input paths gives rise to: one
/// artifact per shapefile entry, nothing for the others.
pub open spec fn artifact_set(entries: Seq<Seq<char>>) -> Set<Seq<char>>
    decreases entries.len(),
{
    if entries.len() == 0 {
        Set::empty()
    } else if is_shapefile(entries.last()) {
        artifact_set(entries.drop_last()).insert(artifact_of(entries.last()))
    } else {
        artifact_set(entries.drop_last())
    }
}

/// A name is among a listing's artifacts exactly when it is the `.sql`
/// artifact of one of the listing's shapefile entries.
pub proof fn lemma_artifact_set_membership(entries: Seq<Seq<char>>, n: Seq<char>)
    ensures
        artifact_set(entries).contains(n) <==> (exists|i: int|
            0 <= i < entries.len() && is_shapefile(entries[i]) && n == artifact_of(entries[i])),
    decreases entries.len(),
{
    if entries.len() > 0 {
        lemma_artifact_set_membership(entries.drop_last(), n);
        let d = entries.drop_last();
        if artifact_set(entries).contains(n) {
            if artifact_set(d).contains(n) {
                let i = choose|i: int|
                    0 <= i < d.len() && is_shapefile(d[i]) && n == artifact_of(d[i]);
                assert(entries[i] == d[i]);
            } else {
                assert(is_shapefile(entries[entries.len() - 1]) && n == artifact_of(
                    entries[entries.len() - 1],
                ));
            }
        }
        if exists|i: int|
            0 <= i < entries.len() && is_shapefile(entries[i]) && n == artifact_of(entries[i]) {
            let i = choose|i: int|
                0 <= i < entries.len() && is_shapefile(entries[i]) && n == artifact_of(entries[i]);
            if i < entries.len() - 1 {
                assert(d[i] == entries[i]);
            }
        }
    }
}

/// Filtering a listing down to its shapefiles first does not change the
/// artifacts it gives rise to.
pub proof fn lemma_artifact_set_filter(entries: Seq<Seq<char>>)
    ensures
        artifact_set(entries.filter(shp_pred())) == artifact_set(entries),
    decreases entries.len(),
{
    reveal(Seq::filter);
    if entries.len() == 0 {
        assert(entries.filter(shp_pred()) =~= entries);
    } else {
        let d = entries.drop_last();
        lemma_artifact_set_filter(d);
        if shp_pred()(entries.last()) {
            assert(entries.filter(shp_pred()) == d.filter(shp_pred()).push(entries.last()));
            assert(d.filter(shp_pred()).push(entries.last()).drop_last() =~= d.filter(shp_pred()));
        }
    }
}

/// A shapefile's logical name is non-empty and contains no path separator,
/// so it is safe to use as a file name inside the staging directory.
pub proof fn lemma_shapefile_stem(p: Seq<char>)
    requires
        is_shapefile(p),
    ensures
        has_stem(p),
        logical_name_of(p).len() > 0,
        forall|j: int| 0 <= j < logical_name_of(p).len() ==> logical_name_of(p)[j] != '/',
{
    lemma_last_index_of(p, '/');
    let name = file_name(p);
    assert forall|j: int| 0 <= j < name.len() implies name[j] != '/' by {
        match last_index_of(p, '/') {
            Some(k) => {
                assert(name[j] == p[k + 1 + j]);
            },
            None => {
                assert(name[j] == p[j]);
            },
        }
    }
    lemma_last_index_of(name, '.');
    match last_index_of(name, '.') {
        Some(i) => {
            if i > 0 {
                let stem = logical_name_of(p);
                assert(stem == name.subrange(0, i));
                assert(forall|j: int| 0 <= j < stem.len() ==> stem[j] == name[j]);
            } else {
                assert(extension_of(name) is None);
            }
        },
        None => {
            assert(extension_of(name) is None);
        },
    }
}

/// Finds the last occurrence of `c` in `s`.
pub fn find_last(s: &str, c: char) -> (r: Option<usize>)
    ensures
        match r {
            Some(i) => last_index_of(s@, c) == Some(i as int) && i < s@.len() && s@[i as int] == c
                && forall|j: int| i < j < s@.len() ==> s@[j] != c,
            None => last_index_of(s@, c) is None && forall|j: int|
                0 <= j < s@.len() ==> s@[j] != c,
        },
{
    let n = s.unicode_len();
    proof {
        assert(s@.take(n as int) =~= s@);
    }
    let mut j: usize = n;
    while j > 0
        invariant
            j <= n,
            n == s@.len(),
            last_index_of(s@, c) == last_index_of(s@.take(j as int), c),
        decreases j,
    {
        proof {
            assert(s@.take(j as int).drop_last() =~= s@.take(j - 1));
        }
        if s.get_char(j - 1) == c {
            proof {
                assert(s@.take(j as int).last() == s@[j - 1]);
                assert(last_index_of(s@.take(j as int), c) == Some(j - 1));
                lemma_last_index_of(s@, c);
            }
            return Some(j - 1);
        }
        j -= 1;
    }
    proof {
        assert(s@.take(0) =~= Seq::<char>::empty());
        lemma_last_index_of(s@, c);
    }
    None
}

/// The file-name part of a path.
pub fn file_name_of(p: &str) -> (r: &str)
    ensures
        r@ == file_name(p@),
{
    let n = p.unicode_len();
    match find_last(p, '/') {
        Some(i) => p.substring_char(i + 1, n),
        None => p,
    }
}

/// Whether a path names a shapefile.
pub fn is_shp_file(p: &str) -> (r: bool)
    ensures
        r == is_shapefile(p@),
{
    let name = file_name_of(p);
    let n = name.unicode_len();
    match find_last(name, '.') {
        Some(i) => {
            if i == 0 || n - i != 4 {
                proof {
                    if i > 0 {
                        assert(extension_of(name@) == Some(
                            name@.subrange(i + 1, n as int),
                        ));
                        assert(name@.subrange(i + 1, n as int).len() == n - i - 1);
                        assert(shp_ext().len() == 3);
                    }
                }
                return false;
            }
            let r = name.get_char(i + 1) == 's' && name.get_char(i + 2) == 'h' && name.get_char(
                i + 3,
            ) == 'p';
            proof {
                let ext = name@.subrange(i + 1, n as int);
                if r {
                    assert(ext =~= shp_ext());
                } else {
                    assert(ext[0] == name@[i + 1]);
                    assert(ext[1] == name@[i + 2]);
                    assert(ext[2] == name@[i + 3]);
                }
            }
            r
        },
        None => false,
    }
}

/// A path's logical name, or nothing when the path has no file-name part.
pub fn logical_name(p: &str) -> (r: Option<String>)
    ensures
        match r {
            Some(n) => has_stem(p@) && n@ == logical_name_of(p@),
            None => !has_stem(p@),
        },
{
    let name = file_name_of(p);
    let n = name.unicode_len();
    if n == 0 {
        return None;
    }
    let stem = match find_last(name, '.') {
        Some(i) => if i > 0 {
            name.substring_char(0, i)
        } else {
            name
        },
        None => name,
    };
    proof {
        assert(name@.subrange(0, name@.len() as int) =~= name@);
    }
    Some(stem.to_owned())
}

/// A shapefile's logical name.  The shapefile filter guarantees the stem
/// exists (see [`lemma_shapefile_stem`]), so unlike [`logical_name`] this
/// cannot come up empty.
pub fn shapefile_logical_name(p: &str) -> (n: String)
    requires
        is_shapefile(p@),
    ensures
        n@ == logical_name_of(p@),
{
    proof {
        lemma_shapefile_stem(p@);
    }
    match logical_name(p) {
        Some(n) => n,
        None => vstd::pervasive::unreached(),
    }
}

/// Keeps exactly the entries of a listing that name shapefiles, in order.
pub fn filter_shapefiles(entries: &Vec<String>) -> (r: Vec<String>)
    ensures
        r.deep_view() == entries.deep_view().filter(shp_pred()),
{
    let mut out: Vec<String> = Vec::new();
    let mut i: usize = 0;
    while i < entries.len()
        invariant
            i <= entries.len(),
            out.deep_view() == entries.deep_view().take(i as int).filter(shp_pred()),
        decreases entries.len() - i,
    {
        let ghost pre = out.deep_view();
        let keep = is_shp_file(entries[i].as_str());
        if keep {
            out.push(entries[i].clone());
        }
        proof {
            reveal(Seq::filter);
            let d = entries.deep_view();
            assert(d.take(i + 1).drop_last() =~= d.take(i as int));
            assert(d.take(i + 1).last() == d[i as int]);
            if keep {
                assert(out.deep_view() =~= pre.push(d[i as int]));
            }
        }
        i += 1;
    }
    proof {
        assert(entries.deep_view().take(entries.len() as int) =~= entries.deep_view());
    }
    out
}

/// The path of the artifact for logical name `name` inside directory `dir`.
pub open spec fn artifact_path_view(dir: Seq<char>, name: Seq<char>) -> Seq<char> {
    dir + seq!['/'] + name + sql_suffix()
}

/// Builds the path of the artifact for `name` inside `dir`.
pub fn artifact_path(dir: &String, name: &String) -> (r: String)
    ensures
        r@ == artifact_path_view(dir@, name@),
{
    let r = dir.clone().concat("/").concat(name.as_str()).concat(".sql");
    proof {
        reveal_strlit("/");
        reveal_strlit(".sql");
        assert(r@ =~= artifact_path_view(dir@, name@));
    }
    r
}

} // verus!
