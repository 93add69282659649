//! Derivative cache: outcome classification and garbage collection.
//!
//! A cache access either hits (the derivative file exists), fails to
//! create the cache directory, fails to encode, or regenerates the
//! derivative. After a successful regeneration, every other derivative of
//! the same source name — `<name>.<anything>.webp` — is superseded and
//! selected for deletion. The directory is modelled as the set of file
//! names it holds; the laws at the end show that a regeneration leaves
//! exactly one derivative per source name, never touches unrelated
//! entries, and turns the next access into a hit.

use vstd::prelude::*;

use crate::paths::spec_derivative_file_name;
use crate::paths::webp_suffix;
use crate::text::is_match_at;
use crate::text::str_eq;

verus! {

/// How one cache access ended.
#[derive(Clone, Copy, Debug, PartialEq, Eq, Structural)]
pub enum CacheOutcome {
    /// The derivative already existed; nothing was touched.
    Hit,
    /// The cache directory could not be created; the caller serves the
    /// unconverted source.
    DirectoryError,
    /// Decoding or encoding failed; the caller serves the unconverted
    /// source, and nothing was written or deleted.
    EncodeError,
    /// The derivative was written and stale siblings were collected.
    Regenerated,
}

/// The outcome of an access, given whether the derivative existed, whether
/// the cache directory could be made, and whether the encode succeeded.
pub open spec fn spec_cache_outcome(hit: bool, dir_ok: bool, encode_ok: bool) -> CacheOutcome {
    if hit {
        CacheOutcome::Hit
    } else if !dir_ok {
        CacheOutcome::DirectoryError
    } else if !encode_ok {
        CacheOutcome::EncodeError
    } else {
        CacheOutcome::Regenerated
    }
}

/// Classifies one pass through the lookup / regenerate pipeline. The
/// caller checks existence first, creates the directory only on a miss,
/// and encodes only once the directory stands, so the later flags are
/// meaningful only when the earlier steps were reached; the tree here
/// mirrors that order.
pub fn cache_outcome(hit: bool, dir_ok: bool, encode_ok: bool) -> (r: CacheOutcome)
    ensures
        r == spec_cache_outcome(hit, dir_ok, encode_ok),
{
    if hit {
        CacheOutcome::Hit
    } else if !dir_ok {
        CacheOutcome::DirectoryError
    } else if !encode_ok {
        CacheOutcome::EncodeError
    } else {
        CacheOutcome::Regenerated
    }
}

/// `name` is a derivative of a source file called `source_name`: it reads
/// `<source_name>.<anything>.webp`, the shape every regeneration writes.
pub open spec fn spec_is_derivative_of(name: Seq<char>, source_name: Seq<char>) -> bool {
    &&& name.len() >= source_name.len() + 6
    &&& is_match_at(name, source_name + seq!['.'], 0)
    &&& is_match_at(name, webp_suffix(), name.len() - 5)
}

/// A derivative name is whatever stands between `<source_name>.` and
/// `.webp`, possibly empty.
pub proof fn lemma_derivative_of_characterization(name: Seq<char>, source_name: Seq<char>)
    ensures
        spec_is_derivative_of(name, source_name) <==> (exists|mid: Seq<char>|
            name == source_name + seq!['.'] + mid + webp_suffix()),
{
    if spec_is_derivative_of(name, source_name) {
        let mid = name.subrange(source_name.len() + 1int, name.len() - 5int);
        assert(name =~= source_name + seq!['.'] + mid + webp_suffix());
    }
    if exists|mid: Seq<char>| name == source_name + seq!['.'] + mid + webp_suffix() {
        let mid = choose|mid: Seq<char>| name == source_name + seq!['.'] + mid + webp_suffix();
        assert(name.len() == source_name.len() + 1 + mid.len() + 5);
        assert(is_match_at(name, source_name + seq!['.'], 0));
        assert(is_match_at(name, webp_suffix(), name.len() - 5));
    }
}

/// The file name a regeneration writes is a derivative of its source name.
pub proof fn lemma_written_name_is_derivative(file_name: Seq<char>, mtime: nat)
    ensures
        spec_is_derivative_of(spec_derivative_file_name(file_name, mtime), file_name),
{
    crate::text::lemma_dec_digits_len(mtime);
    let name = spec_derivative_file_name(file_name, mtime);
    assert(is_match_at(name, file_name + seq!['.'], 0));
    assert(is_match_at(name, webp_suffix(), name.len() - 5));
}

/// Whether `needle` occurs in `hay` at `i`, for arbitrary `i`.
fn matches_at(hay: &str, needle: &str, i: usize) -> (r: bool)
    ensures
        r == is_match_at(hay@, needle@, i as int),
{
    let hlen = hay.unicode_len();
    let nlen = needle.unicode_len();
    if i > hlen || nlen > hlen - i {
        return false;
    }
    let mut j: usize = 0;
    while j < nlen
        invariant
            i + nlen <= hlen,
            hlen == hay@.len(),
            nlen == needle@.len(),
            j <= nlen,
            forall|k: int| 0 <= k < j ==> hay@[i + k] == needle@[k],
        decreases nlen - j,
    {
        if hay.get_char(i + j) != needle.get_char(j) {
            return false;
        }
        j = j + 1;
    }
    true
}

/// Decides `spec_is_derivative_of` for real file names.
pub fn matches_derivatives_of(name: &str, source_name: &str) -> (r: bool)
    ensures
        r == spec_is_derivative_of(name@, source_name@),
{
    proof {
        reveal_strlit(".");
        reveal_strlit(".webp");
    }
    let nlen = name.unicode_len();
    let slen = source_name.unicode_len();
    if nlen < 6 || slen > nlen - 6 {
        return false;
    }
    let mut pat = source_name.to_owned();
    pat.append(".");
    proof {
        assert(pat@ =~= source_name@ + seq!['.']);
        assert(".webp"@ =~= webp_suffix());
    }
    if !matches_at(name, pat.as_str(), 0) {
        return false;
    }
    matches_at(name, ".webp", nlen - 5)
}

/// One of the strings in `s` reads `n`.
pub open spec fn seq_has_name(s: Seq<String>, n: Seq<char>) -> bool {
    exists|j: int| 0 <= j < s.len() && s[j]@ == n
}

proof fn lemma_has_name_push(s: Seq<String>, x: String, n: Seq<char>)
    requires
        seq_has_name(s, n),
    ensures
        seq_has_name(s.push(x), n),
{
    let j0 = choose|j: int| 0 <= j < s.len() && s[j]@ == n;
    assert(s.push(x)[j0]@ == n);
}

/// Among the names in a cache directory, those superseded by the
/// derivative `keep` for a source called `source_name`: every name of the
/// shape `<source_name>.<anything>.webp` other than `keep` itself. The
/// caller deletes exactly these files after a successful regeneration.
pub fn select_stale_derivatives(entries: &Vec<String>, source_name: &str, keep: &str) -> (r: Vec<
    String,
>)
    ensures
        forall|i: int|
            0 <= i < r@.len() ==> spec_is_derivative_of(#[trigger] r@[i]@, source_name@)
                && r@[i]@ != keep@,
        forall|i: int| 0 <= i < r@.len() ==> seq_has_name(entries@, #[trigger] r@[i]@),
        forall|j: int|
            0 <= j < entries@.len() && spec_is_derivative_of(#[trigger] entries@[j]@, source_name@)
                && entries@[j]@ != keep@ ==> seq_has_name(r@, entries@[j]@),
{
    let mut out: Vec<String> = Vec::new();
    let mut idx: usize = 0;
    while idx < entries.len()
        invariant
            idx <= entries@.len(),
            forall|i: int|
                0 <= i < out@.len() ==> spec_is_derivative_of(#[trigger] out@[i]@, source_name@)
                    && out@[i]@ != keep@,
            forall|i: int| 0 <= i < out@.len() ==> seq_has_name(entries@, #[trigger] out@[i]@),
            forall|j: int|
                0 <= j < idx && spec_is_derivative_of(#[trigger] entries@[j]@, source_name@)
                    && entries@[j]@ != keep@ ==> seq_has_name(out@, entries@[j]@),
        decreases entries@.len() - idx,
    {
        let e = &entries[idx];
        if matches_derivatives_of(e.as_str(), source_name) && !str_eq(e.as_str(), keep) {
            let ghost pre = out@;
            out.push(e.clone());
            proof {
                assert(out@ == pre.push(out@[pre.len() as int]));
                assert(out@[pre.len() as int]@ == entries@[idx as int]@);
                assert(seq_has_name(entries@, out@[pre.len() as int]@));
                assert forall|j: int|
                    0 <= j < idx + 1 && spec_is_derivative_of(
                        #[trigger] entries@[j]@,
                        source_name@,
                    ) && entries@[j]@ != keep@ implies seq_has_name(out@, entries@[j]@) by {
                    if j < idx {
                        lemma_has_name_push(pre, out@[pre.len() as int], entries@[j]@);
                    } else {
                        assert(out@[pre.len() as int]@ == entries@[j]@);
                    }
                }
            }
        }
        idx = idx + 1;
    }
    out
}

/// The names surviving garbage collection: everything except the
/// superseded derivatives of `source_name`.
pub open spec fn spec_after_gc(
    dir: Set<Seq<char>>,
    source_name: Seq<char>,
    keep: Seq<char>,
) -> Set<Seq<char>> {
    dir.filter(|e: Seq<char>| !(spec_is_derivative_of(e, source_name) && e != keep))
}

/// One access to the cache for a source whose current derivative name is
/// `deriv`: the directory contents afterwards, and the outcome. Only a
/// regeneration changes the directory: it writes `deriv` and collects the
/// superseded derivatives of the same source name.
pub open spec fn spec_cache_step(
    dir: Set<Seq<char>>,
    deriv: Seq<char>,
    source_name: Seq<char>,
    dir_ok: bool,
    encode_ok: bool,
) -> (Set<Seq<char>>, CacheOutcome) {
    let o = spec_cache_outcome(dir.contains(deriv), dir_ok, encode_ok);
    if o is Regenerated {
        (spec_after_gc(dir.insert(deriv), source_name, deriv), o)
    } else {
        (dir, o)
    }
}

/// After a successful regeneration, exactly one derivative of the source
/// name exists: the one just written.
pub proof fn lemma_gc_leaves_exactly_current(
    dir: Set<Seq<char>>,
    deriv: Seq<char>,
    source_name: Seq<char>,
)
    requires
        spec_is_derivative_of(deriv, source_name),
        !dir.contains(deriv),
    ensures
        ({
            let after = spec_cache_step(dir, deriv, source_name, true, true).0;
            &&& spec_cache_step(dir, deriv, source_name, true, true).1 is Regenerated
            &&& after.contains(deriv)
            &&& forall|e: Seq<char>|
                after.contains(e) && spec_is_derivative_of(e, source_name) ==> e == deriv
        }),
{
}

/// Garbage collection never touches a name that is not a derivative of the
/// regenerated source: other sources' derivatives and foreign files stay
/// exactly as they were.
pub proof fn lemma_gc_preserves_unrelated(
    dir: Set<Seq<char>>,
    deriv: Seq<char>,
    source_name: Seq<char>,
    e: Seq<char>,
    dir_ok: bool,
    encode_ok: bool,
)
    requires
        spec_is_derivative_of(deriv, source_name),
        !spec_is_derivative_of(e, source_name),
    ensures
        spec_cache_step(dir, deriv, source_name, dir_ok, encode_ok).0.contains(e) == dir.contains(
            e,
        ),
{
}

/// Running the pipeline again for the same derivative is a pure hit: it
/// does not error and does not alter the directory.
pub proof fn lemma_second_access_is_hit(
    dir: Set<Seq<char>>,
    deriv: Seq<char>,
    source_name: Seq<char>,
    dir_ok: bool,
    encode_ok: bool,
)
    requires
        spec_is_derivative_of(deriv, source_name),
    ensures
        ({
            let d1 = spec_cache_step(dir, deriv, source_name, true, true).0;
            spec_cache_step(d1, deriv, source_name, dir_ok, encode_ok) == (
                d1,
                CacheOutcome::Hit,
            )
        }),
{
    let d1 = spec_cache_step(dir, deriv, source_name, true, true).0;
    assert(d1.contains(deriv));
}

/// A regeneration at a new mtime removes the derivative left by an older
/// mtime of the same source file.
pub proof fn lemma_regeneration_supersedes(
    dir: Set<Seq<char>>,
    file_name: Seq<char>,
    m_old: nat,
    m_new: nat,
)
    requires
        m_old != m_new,
        !dir.contains(spec_derivative_file_name(file_name, m_new)),
    ensures
        ({
            let n_old = spec_derivative_file_name(file_name, m_old);
            let n_new = spec_derivative_file_name(file_name, m_new);
            let after = spec_cache_step(dir, n_new, file_name, true, true).0;
            &&& !after.contains(n_old)
            &&& after.contains(n_new)
        }),
{
    let n_old = spec_derivative_file_name(file_name, m_old);
    let n_new = spec_derivative_file_name(file_name, m_new);
    lemma_written_name_is_derivative(file_name, m_old);
    lemma_written_name_is_derivative(file_name, m_new);
    crate::paths::lemma_file_name_mtime_injective(file_name, m_old, m_new);
    lemma_gc_leaves_exactly_current(dir, n_new, file_name);
}

} // verus!
