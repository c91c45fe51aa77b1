//! Path-string helpers for candidate-list resolution: joining, file-name
//! extraction, relative-path tests, de-duplication, and the one probe that
//! asks the file system whether a path exists.

use vstd::prelude::*;

use crate::text::{chars_of, string_from_chars, str_eq, view_opt_string};

verus! {

/// Relies on `std::path::Path::exists`: whether the path points at an
/// existing entity on disk. The answer depends on the file system, so
/// nothing is promised about it.
#[verifier::external_body]
pub fn path_exists(path: &str) -> bool {
    std::path::Path::new(path).exists()
}

/// Joining `base` and `rel` with a single separator.
pub open spec fn join_spec(base: Seq<char>, rel: Seq<char>) -> Seq<char> {
    base + "/"@ + rel
}

/// Join two path fragments with a separator, as joining a relative path
/// onto a base directory does on Unix-style paths.
pub fn path_join(base: &str, rel: &str) -> (r: String)
    ensures
        r@ == join_spec(base@, rel@),
{
    let r = String::from_str(base).concat("/").concat(rel);
    proof {
        assert(r@ =~= join_spec(base@, rel@));
    }
    r
}

/// A path without a leading separator, which a join appends to a base.
pub open spec fn is_relative_spec(s: Seq<char>) -> bool {
    s.len() == 0 || s[0] != '/'
}

pub fn is_relative_path(path: &str) -> (r: bool)
    ensures
        r == is_relative_spec(path@),
{
    let n = path.unicode_len();
    n == 0 || path.get_char(0) != '/'
}

/// The portion of the path after its last separator.
pub open spec fn file_name_spec(s: Seq<char>) -> Seq<char>
    decreases s.len(),
{
    if s.len() == 0 {
        s
    } else if s.last() == '/' {
        Seq::empty()
    } else {
        file_name_spec(s.drop_last()).push(s.last())
    }
}

pub proof fn lemma_file_name_from(s: Seq<char>, j: int)
    requires
        0 <= j <= s.len(),
        forall|k: int| j <= k < s.len() ==> s[k] != '/',
        j > 0 ==> s[j - 1] == '/',
    ensures
        file_name_spec(s) == s.subrange(j, s.len() as int),
    decreases s.len() - j,
{
    if j == s.len() {
        if j > 0 {
            assert(s.subrange(j, s.len() as int) =~= Seq::<char>::empty());
        } else {
            assert(s.subrange(0, 0) =~= Seq::<char>::empty());
            assert(s.len() == 0);
            assert(s.subrange(j, s.len() as int) =~= s);
        }
    } else {
        assert(s.last() != '/');
        lemma_file_name_from(s.drop_last(), j);
        assert(s.drop_last().subrange(j, s.drop_last().len() as int).push(s.last()) =~= s.subrange(
            j,
            s.len() as int,
        ));
    }
}

/// Extract the file name: everything after the last separator.
pub fn file_name_of(path: &str) -> (r: String)
    ensures
        r@ == file_name_spec(path@),
{
    let v = chars_of(path);
    let n = v.len();
    let mut cut: usize = 0;
    let mut i: usize = 0;
    while i < n
        invariant
            i <= n,
            n == v@.len(),
            v@ == path@,
            cut <= i,
            forall|k: int| cut <= k < i ==> v@[k] != '/',
            cut > 0 ==> v@[cut - 1] == '/',
        decreases n - i,
    {
        if v[i] == '/' {
            cut = i + 1;
        }
        i += 1;
    }
    let mut out: Vec<char> = Vec::new();
    let mut k: usize = cut;
    while k < n
        invariant
            cut <= k <= n,
            n == v@.len(),
            v@ == path@,
            out@ == v@.subrange(cut as int, k as int),
        decreases n - k,
    {
        out.push(v[k]);
        assert(out@ =~= v@.subrange(cut as int, k + 1));
        k += 1;
    }
    proof {
        lemma_file_name_from(path@, cut as int);
    }
    string_from_chars(&out)
}

/// Whether the path holds a separator anywhere; a bare file name does not.
pub open spec fn has_separator_spec(s: Seq<char>) -> bool {
    exists|i: int| 0 <= i < s.len() && s[i] == '/'
}

pub fn has_separator(path: &str) -> (r: bool)
    ensures
        r == has_separator_spec(path@),
{
    let n = path.unicode_len();
    let mut i: usize = 0;
    while i < n
        invariant
            i <= n,
            n == path@.len(),
            forall|k: int| 0 <= k < i ==> path@[k] != '/',
        decreases n - i,
    {
        if path.get_char(i) == '/' {
            return true;
        }
        i += 1;
    }
    false
}

/// The views of an owned string sequence.
pub open spec fn views_of(v: Seq<String>) -> Seq<Seq<char>> {
    v.map_values(|s: String| s@)
}

/// The first candidate whose probe found it on disk, walking in order;
/// `None` when no probe did.
pub open spec fn spec_first_existing(
    candidates: Seq<Seq<char>>,
    exists_mask: Seq<bool>,
) -> Option<Seq<char>>
    decreases candidates.len(),
{
    if candidates.len() == 0 {
        None
    } else if exists_mask.len() > 0 && exists_mask[0] {
        Some(candidates[0])
    } else {
        spec_first_existing(
            candidates.drop_first(),
            if exists_mask.len() > 0 {
                exists_mask.drop_first()
            } else {
                exists_mask
            },
        )
    }
}

/// [`spec_first_existing`] picks the candidate at the first set mask entry.
pub proof fn lemma_first_existing_at(candidates: Seq<Seq<char>>, exists_mask: Seq<bool>, i: int)
    requires
        exists_mask.len() == candidates.len(),
        0 <= i <= candidates.len(),
        forall|k: int| 0 <= k < i ==> !exists_mask[k],
        i < candidates.len() ==> exists_mask[i],
    ensures
        i < candidates.len() ==> spec_first_existing(candidates, exists_mask) == Some(
            candidates[i],
        ),
        i == candidates.len() ==> spec_first_existing(candidates, exists_mask) is None,
    decreases candidates.len(),
{
    if candidates.len() == 0 {
    } else if exists_mask[0] {
        assert(i == 0);
    } else {
        assert(i >= 1);
        lemma_first_existing_at(candidates.drop_first(), exists_mask.drop_first(), i - 1);
    }
}

/// Pick the first candidate whose probe marked it as existing: the
/// selection rule of the model-path and cache-directory resolvers, exact
/// over explicit probe outcomes.
pub fn pick_first_existing(candidates: &Vec<String>, exists_mask: &Vec<bool>) -> (r: Option<String>)
    requires
        exists_mask@.len() == candidates@.len(),
    ensures
        view_opt_string(r) == spec_first_existing(views_of(candidates@), exists_mask@),
        r matches Some(p) ==> views_of(candidates@).contains(p@),
{
    let mut i: usize = 0;
    while i < candidates.len()
        invariant
            exists_mask@.len() == candidates@.len(),
            i <= candidates@.len(),
            forall|k: int| 0 <= k < i ==> !exists_mask@[k],
        decreases candidates@.len() - i,
    {
        if exists_mask[i] {
            let chosen = candidates[i].clone();
            proof {
                lemma_first_existing_at(views_of(candidates@), exists_mask@, i as int);
                assert(views_of(candidates@)[i as int] == chosen@);
            }
            return Some(chosen);
        }
        i += 1;
    }
    proof {
        lemma_first_existing_at(views_of(candidates@), exists_mask@, candidates@.len() as int);
    }
    None
}

/// Probe every candidate path once; the answers depend on the file system,
/// so only the shape of the outcome vector is promised.
pub fn probe_paths(candidates: &Vec<String>) -> (r: Vec<bool>)
    ensures
        r@.len() == candidates@.len(),
{
    let mut mask: Vec<bool> = Vec::new();
    let mut i: usize = 0;
    while i < candidates.len()
        invariant
            i <= candidates@.len(),
            mask@.len() == i,
        decreases candidates@.len() - i,
    {
        mask.push(path_exists(candidates[i].as_str()));
        i += 1;
    }
    mask
}

/// First-occurrence de-duplication of the first `i` entries.
pub open spec fn dedupe_prefix(s: Seq<Seq<char>>, i: int) -> Seq<Seq<char>>
    decreases i,
{
    if i <= 0 {
        Seq::empty()
    } else {
        let p = dedupe_prefix(s, i - 1);
        if p.contains(s[i - 1]) {
            p
        } else {
            p.push(s[i - 1])
        }
    }
}

/// What [`dedupe_paths`] returns: the entries with later duplicates removed.
pub open spec fn dedupe_spec(s: Seq<Seq<char>>) -> Seq<Seq<char>> {
    dedupe_prefix(s, s.len() as int)
}

/// De-duplication keeps every value that occurred: membership carries over.
pub proof fn lemma_dedupe_prefix_contains(s: Seq<Seq<char>>, i: int, x: Seq<char>)
    requires
        0 <= i <= s.len(),
        exists|k: int| 0 <= k < i && s[k] == x,
    ensures
        dedupe_prefix(s, i).contains(x),
    decreases i,
{
    let k = choose|k: int| 0 <= k < i && #[trigger] s[k] == x;
    let p = dedupe_prefix(s, i - 1);
    if k == i - 1 {
        if p.contains(x) {
            let j = choose|j: int| #![trigger p[j]] 0 <= j < p.len() && p[j] == x;
            assert(dedupe_prefix(s, i)[j] == x);
        } else {
            assert(dedupe_prefix(s, i).last() == x);
        }
    } else {
        lemma_dedupe_prefix_contains(s, i - 1, x);
        let j = choose|j: int| #![trigger p[j]] 0 <= j < p.len() && p[j] == x;
        assert(dedupe_prefix(s, i)[j] == x);
    }
}

fn contains_string(v: &Vec<String>, s: &String) -> (r: bool)
    ensures
        r == views_of(v@).contains(s@),
{
    let mut j: usize = 0;
    while j < v.len()
        invariant
            j <= v@.len(),
            forall|k: int| 0 <= k < j ==> v@[k]@ != s@,
        decreases v@.len() - j,
    {
        if str_eq(v[j].as_str(), s.as_str()) {
            assert(views_of(v@)[j as int] == s@);
            return true;
        }
        j += 1;
    }
    assert(forall|k: int| 0 <= k < views_of(v@).len() ==> views_of(v@)[k] != s@);
    false
}

/// Drop duplicate paths, keeping the first occurrence of each.
pub fn dedupe_paths(paths: Vec<String>) -> (r: Vec<String>)
    ensures
        views_of(r@) == dedupe_spec(views_of(paths@)),
{
    let mut r: Vec<String> = Vec::new();
    let mut i: usize = 0;
    while i < paths.len()
        invariant
            i <= paths@.len(),
            views_of(r@) == dedupe_prefix(views_of(paths@), i as int),
        decreases paths@.len() - i,
    {
        let p = paths[i].clone();
        if !contains_string(&r, &p) {
            r.push(p);
            assert(views_of(r@) =~= dedupe_prefix(views_of(paths@), i + 1));
        } else {
            assert(views_of(r@) =~= dedupe_prefix(views_of(paths@), i + 1));
        }
        i += 1;
    }
    r
}

} // verus!
