//! Derivative path resolution.
//!
//! A derivative lives under the cache root, in a directory mirroring the
//! source directory, under the name
//! `<source file name>.<mtime seconds>.webp`. Embedding the modification
//! time in the file name is the cache-invalidation mechanism: the same
//! source at the same mtime always resolves to the same derivative path,
//! and a changed mtime always resolves to a different one. Both facts are
//! proved here.

use vstd::prelude::*;

use crate::text::dec_digits;
use crate::text::lemma_dec_digits_injective;
use crate::text::lemma_dec_digits_len;
use crate::text::u64_to_dec_string;

verus! {

/// Index of the last `/` in `s`, or `-1` if there is none.
pub open spec fn spec_last_slash(s: Seq<char>) -> int
    decreases s.len(),
{
    if s.len() == 0 {
        -1
    } else if s[s.len() - 1] == '/' {
        s.len() - 1
    } else {
        spec_last_slash(s.drop_last())
    }
}

pub proof fn lemma_last_slash_props(s: Seq<char>)
    ensures
        -1 <= spec_last_slash(s) < s.len(),
        spec_last_slash(s) >= 0 ==> s[spec_last_slash(s)] == '/',
        forall|j: int| spec_last_slash(s) < j < s.len() ==> s[j] != '/',
    decreases s.len(),
{
    if s.len() > 0 && s[s.len() - 1] != '/' {
        lemma_last_slash_props(s.drop_last());
        assert forall|j: int| spec_last_slash(s) < j < s.len() implies s[j] != '/' by {
            if j < s.len() - 1 {
                assert(s.drop_last()[j] == s[j]);
            }
        }
    }
}

/// The component after the last `/` (the whole string if there is none).
pub open spec fn spec_file_name(s: Seq<char>) -> Seq<char> {
    s.subrange(spec_last_slash(s) + 1, s.len() as int)
}

/// The string with its last component removed: the part before the last
/// `/`, except that a path whose only `/` is leading keeps it, and a path
/// without `/` becomes empty.
pub open spec fn spec_dir_part(s: Seq<char>) -> Seq<char> {
    if spec_last_slash(s) < 0 {
        Seq::empty()
    } else if spec_last_slash(s) == 0 {
        seq!['/']
    } else {
        s.subrange(0, spec_last_slash(s))
    }
}

/// The directory of a request path, relative to the root: what stands
/// between the leading `/` and the last `/`.
pub open spec fn spec_rel_dir(uri: Seq<char>) -> Seq<char> {
    spec_dir_part(uri).subrange(1, spec_dir_part(uri).len() as int)
}

/// Joining a relative component onto a base path, with exactly one `/`
/// between them; an empty component leaves the base as it is.
pub open spec fn spec_join(a: Seq<char>, b: Seq<char>) -> Seq<char> {
    if b.len() == 0 {
        a
    } else if a.len() == 0 {
        b
    } else if a[a.len() - 1] == '/' {
        a + b
    } else {
        a + seq!['/'] + b
    }
}

pub open spec fn webp_suffix() -> Seq<char> {
    seq!['.', 'w', 'e', 'b', 'p']
}

/// `<file name>.<mtime>.webp`.
pub open spec fn spec_derivative_file_name(file_name: Seq<char>, mtime: nat) -> Seq<char> {
    file_name + seq!['.'] + dec_digits(mtime) + webp_suffix()
}

/// The cache directory that mirrors the source directory of `uri`.
pub open spec fn spec_derivative_dir(uri: Seq<char>, cache_root: Seq<char>) -> Seq<char> {
    spec_join(cache_root, spec_rel_dir(uri))
}

/// The full path of the derivative for a source at a given mtime.
pub open spec fn spec_derivative_path(
    source_path: Seq<char>,
    uri: Seq<char>,
    cache_root: Seq<char>,
    mtime: nat,
) -> Seq<char> {
    spec_join(
        spec_derivative_dir(uri, cache_root),
        spec_derivative_file_name(spec_file_name(source_path), mtime),
    )
}

/// The directory holding the source itself.
pub open spec fn spec_source_dir(source_path: Seq<char>) -> Seq<char> {
    spec_dir_part(source_path)
}

/// Index just past the last `/` of `s`, or `None` if `s` has no `/`.
fn find_last_slash(s: &str) -> (r: Option<usize>)
    ensures
        match r {
            Some(i) => spec_last_slash(s@) == i && i < s@.len(),
            None => spec_last_slash(s@) == -1,
        },
{
    let len = s.unicode_len();
    let mut i: usize = len;
    proof {
        assert(s@.subrange(0, len as int) =~= s@);
    }
    while i > 0
        invariant
            i <= len,
            len == s@.len(),
            spec_last_slash(s@) == spec_last_slash(s@.subrange(0, i as int)),
        decreases i,
    {
        let c = s.get_char(i - 1);
        if c == '/' {
            proof {
                assert(s@.subrange(0, i as int)[i - 1] == '/');
            }
            return Some(i - 1);
        }
        proof {
            assert(s@.subrange(0, i as int).drop_last() =~= s@.subrange(0, i as int - 1));
            assert(s@.subrange(0, i as int)[i - 1] != '/');
        }
        i = i - 1;
    }
    proof {
        assert(s@.subrange(0, 0) =~= Seq::<char>::empty());
    }
    None
}

/// Computes, for one source asset, the derivative path, the derivative
/// directory, and the source directory.
///
/// The modification time is handed in by the caller (reading it is a
/// filesystem matter); the computation itself is pure. The request path
/// must be rooted (it comes from the request line or from a walk relative
/// to the source root), and the source path must name a file, not a
/// directory.
pub fn generate_webp_paths(
    img_absolute_path: &str,
    img_uri_path: &str,
    webp_cache_path: &str,
    mtime_seconds: u64,
) -> (r: (String, String, String))
    requires
        img_absolute_path@.len() > 0,
        img_absolute_path@[img_absolute_path@.len() - 1] != '/',
        img_uri_path@.len() > 0,
        img_uri_path@[0] == '/',
    ensures
        r.0@ == spec_derivative_path(
            img_absolute_path@,
            img_uri_path@,
            webp_cache_path@,
            mtime_seconds as nat,
        ),
        r.1@ == spec_derivative_dir(img_uri_path@, webp_cache_path@),
        r.2@ == spec_source_dir(img_absolute_path@),
{
    proof {
        reveal_strlit("/");
        reveal_strlit(".");
        reveal_strlit(".webp");
    }
    let src_len = img_absolute_path.unicode_len();
    let uri_len = img_uri_path.unicode_len();

    // File name of the source.
    let name_start: usize = match find_last_slash(img_absolute_path) {
        Some(i) => i + 1,
        None => 0,
    };
    let img_name = img_absolute_path.substring_char(name_start, src_len);
    proof {
        assert(img_name@ =~= spec_file_name(img_absolute_path@));
    }

    // Source directory.
    let dir_absolute_path: String = match find_last_slash(img_absolute_path) {
        None => String::new(),
        Some(i) => {
            if i == 0 {
                proof {
                    assert("/"@ =~= seq!['/']);
                }
                String::from_str("/")
            } else {
                img_absolute_path.substring_char(0, i).to_owned()
            }
        },
    };
    proof {
        assert(dir_absolute_path@ == spec_source_dir(img_absolute_path@));
    }

    // Directory of the request path, relative to its root.
    let rel_dir: String = match find_last_slash(img_uri_path) {
        None => {
            proof {
                lemma_last_slash_props(img_uri_path@);
            }
            String::new()
        },
        Some(i) => {
            if i == 0 {
                String::new()
            } else {
                img_uri_path.substring_char(1, i).to_owned()
            }
        },
    };
    proof {
        if spec_last_slash(img_uri_path@) == 0 {
            assert(spec_rel_dir(img_uri_path@) =~= Seq::<char>::empty());
        } else {
            lemma_last_slash_props(img_uri_path@);
            assert(rel_dir@ =~= spec_rel_dir(img_uri_path@));
        }
    }

    // Derivative file name: `<name>.<mtime>.webp`.
    let mut webp_img_name: String = img_name.to_owned();
    webp_img_name.append(".");
    let mtime_str = u64_to_dec_string(mtime_seconds);
    webp_img_name.append(mtime_str.as_str());
    webp_img_name.append(".webp");
    proof {
        assert(".webp"@ =~= webp_suffix());
        assert("."@ =~= seq!['.']);
        assert(webp_img_name@ =~= spec_derivative_file_name(
            spec_file_name(img_absolute_path@),
            mtime_seconds as nat,
        ));
    }

    // Cache directory mirroring the source directory, and the full path.
    let webp_dir_absolute_path = join_path(webp_cache_path, rel_dir.as_str());
    let webp_img_absolute_path = join_path(webp_dir_absolute_path.as_str(), webp_img_name.as_str());

    (webp_img_absolute_path, webp_dir_absolute_path, dir_absolute_path)
}

/// Joins a relative component onto a base path.
pub fn join_path(a: &str, b: &str) -> (r: String)
    ensures
        r@ == spec_join(a@, b@),
{
    proof {
        reveal_strlit("/");
    }
    let alen = a.unicode_len();
    if b.unicode_len() == 0 {
        a.to_owned()
    } else if alen == 0 {
        b.to_owned()
    } else {
        let mut s = a.to_owned();
        if a.get_char(alen - 1) != '/' {
            s.append("/");
            proof {
                assert(s@ =~= a@ + seq!['/']);
            }
        }
        s.append(b);
        proof {
            if a@[a@.len() - 1] != '/' {
                assert(s@ =~= a@ + seq!['/'] + b@);
            }
        }
        s
    }
}

/// Two strings that agree on a common prefix and suffix agree in between.
proof fn lemma_mid_injective(p: Seq<char>, s: Seq<char>, x: Seq<char>, y: Seq<char>)
    requires
        p + x + s == p + y + s,
    ensures
        x == y,
{
    assert((p + x + s).len() == p.len() + x.len() + s.len());
    assert((p + y + s).len() == p.len() + y.len() + s.len());
    assert(x.len() == y.len());
    assert forall|i: int| 0 <= i < x.len() implies x[i] == y[i] by {
        assert((p + x + s)[p.len() + i] == x[i]);
        assert((p + y + s)[p.len() + i] == y[i]);
    }
    assert(x =~= y);
}

/// Resolution is deterministic: the same source path, request path, cache
/// root and mtime always give the same derivative path.
pub proof fn lemma_resolve_deterministic(
    src1: Seq<char>,
    uri1: Seq<char>,
    cache1: Seq<char>,
    m1: nat,
    src2: Seq<char>,
    uri2: Seq<char>,
    cache2: Seq<char>,
    m2: nat,
)
    requires
        src1 == src2,
        uri1 == uri2,
        cache1 == cache2,
        m1 == m2,
    ensures
        spec_derivative_path(src1, uri1, cache1, m1) == spec_derivative_path(
            src2,
            uri2,
            cache2,
            m2,
        ),
{
}

/// Derivative file names embed the mtime injectively: different mtimes of
/// the same source never collide on one file name.
pub proof fn lemma_file_name_mtime_injective(file_name: Seq<char>, m1: nat, m2: nat)
    requires
        m1 != m2,
    ensures
        spec_derivative_file_name(file_name, m1) != spec_derivative_file_name(file_name, m2),
{
    lemma_dec_digits_len(m1);
    lemma_dec_digits_len(m2);
    if spec_derivative_file_name(file_name, m1) == spec_derivative_file_name(file_name, m2) {
        let p = file_name + seq!['.'];
        assert(spec_derivative_file_name(file_name, m1) =~= p + dec_digits(m1) + webp_suffix());
        assert(spec_derivative_file_name(file_name, m2) =~= p + dec_digits(m2) + webp_suffix());
        lemma_mid_injective(p, webp_suffix(), dec_digits(m1), dec_digits(m2));
        lemma_dec_digits_injective(m1, m2);
    }
}

/// Changing the mtime changes the derivative path: the stale-key scheme
/// guarantees a miss after the source is modified.
pub proof fn lemma_mtime_changes_path(
    src: Seq<char>,
    uri: Seq<char>,
    cache: Seq<char>,
    m1: nat,
    m2: nat,
)
    requires
        m1 != m2,
    ensures
        spec_derivative_path(src, uri, cache, m1) != spec_derivative_path(src, uri, cache, m2),
{
    let d = spec_derivative_dir(uri, cache);
    let fname = spec_file_name(src);
    lemma_dec_digits_len(m1);
    lemma_dec_digits_len(m2);
    if spec_derivative_path(src, uri, cache, m1) == spec_derivative_path(src, uri, cache, m2) {
        let n1 = spec_derivative_file_name(fname, m1);
        let n2 = spec_derivative_file_name(fname, m2);
        if d.len() == 0 {
            let p = fname + seq!['.'];
            assert(spec_join(d, n1) =~= p + dec_digits(m1) + webp_suffix());
            assert(spec_join(d, n2) =~= p + dec_digits(m2) + webp_suffix());
            lemma_mid_injective(p, webp_suffix(), dec_digits(m1), dec_digits(m2));
        } else if d[d.len() - 1] == '/' {
            let p = d + fname + seq!['.'];
            assert(spec_join(d, n1) =~= p + dec_digits(m1) + webp_suffix());
            assert(spec_join(d, n2) =~= p + dec_digits(m2) + webp_suffix());
            lemma_mid_injective(p, webp_suffix(), dec_digits(m1), dec_digits(m2));
        } else {
            let p = d + seq!['/'] + fname + seq!['.'];
            assert(spec_join(d, n1) =~= p + dec_digits(m1) + webp_suffix());
            assert(spec_join(d, n2) =~= p + dec_digits(m2) + webp_suffix());
            lemma_mid_injective(p, webp_suffix(), dec_digits(m1), dec_digits(m2));
        }
        lemma_dec_digits_injective(m1, m2);
    }
}

} // verus!
