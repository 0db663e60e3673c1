//! URL syntax checking and derivation of the destination filename.
//!
//! The destination name is the last non-empty segment of the URL's path —
//! what follows the first '/' after the scheme and authority — with the
//! fixed fallback "Download" when the URL has no usable path segment.

use vstd::prelude::*;

use crate::outcome::ErrorKind;

verus! {

/// True when the scheme separator "://" stands at position `i` of `s`.
pub open spec fn sep_at(s: Seq<char>, i: int) -> bool {
    &&& 0 <= i
    &&& i + 3 <= s.len()
    &&& s[i] == ':'
    &&& s[i + 1] == '/'
    &&& s[i + 2] == '/'
}

/// The position of the first "://" in `s`, or -1 when there is none.
pub open spec fn sep_pos(s: Seq<char>) -> int
    decreases s.len(),
{
    if s.len() < 3 {
        -1
    } else if s[0] == ':' && s[1] == '/' && s[2] == '/' {
        0
    } else if sep_pos(s.skip(1)) < 0 {
        -1
    } else {
        sep_pos(s.skip(1)) + 1
    }
}

proof fn lemma_sep_pos_found(s: Seq<char>, i: int)
    requires
        sep_at(s, i),
        forall|j: int| 0 <= j < i ==> !sep_at(s, j),
    ensures
        sep_pos(s) == i,
    decreases i,
{
    if i == 0 {
    } else {
        assert(!sep_at(s, 0));
        let t = s.skip(1);
        assert(t =~= s.subrange(1, s.len() as int));
        assert(sep_at(t, i - 1));
        assert forall|j: int| 0 <= j < i - 1 implies !sep_at(t, j) by {
            if sep_at(t, j) {
                assert(sep_at(s, j + 1));
            }
        }
        lemma_sep_pos_found(t, i - 1);
    }
}

proof fn lemma_sep_pos_none(s: Seq<char>)
    requires
        forall|j: int| !sep_at(s, j),
    ensures
        sep_pos(s) == -1,
    decreases s.len(),
{
    if s.len() < 3 {
    } else {
        assert(!sep_at(s, 0));
        let t = s.skip(1);
        assert(t =~= s.subrange(1, s.len() as int));
        assert forall|j: int| !sep_at(t, j) by {
            if sep_at(t, j) {
                assert(sep_at(s, j + 1));
            }
        }
        lemma_sep_pos_none(t);
    }
}

/// The position of the first '/' in `s`, or -1 when there is none.
pub open spec fn slash_pos(s: Seq<char>) -> int
    decreases s.len(),
{
    if s.len() == 0 {
        -1
    } else if s[0] == '/' {
        0
    } else if slash_pos(s.skip(1)) < 0 {
        -1
    } else {
        slash_pos(s.skip(1)) + 1
    }
}

proof fn lemma_slash_pos_found(s: Seq<char>, i: int)
    requires
        0 <= i < s.len(),
        s[i] == '/',
        forall|j: int| 0 <= j < i ==> s[j] != '/',
    ensures
        slash_pos(s) == i,
    decreases i,
{
    if i == 0 {
    } else {
        let t = s.skip(1);
        assert(t =~= s.subrange(1, s.len() as int));
        lemma_slash_pos_found(t, i - 1);
    }
}

proof fn lemma_slash_pos_none(s: Seq<char>)
    requires
        forall|j: int| 0 <= j < s.len() ==> s[j] != '/',
    ensures
        slash_pos(s) == -1,
    decreases s.len(),
{
    if s.len() == 0 {
    } else {
        let t = s.skip(1);
        assert(t =~= s.subrange(1, s.len() as int));
        lemma_slash_pos_none(t);
    }
}

/// What follows the first "://", or the whole string when there is none.
pub open spec fn after_scheme(s: Seq<char>) -> Seq<char> {
    if sep_pos(s) >= 0 {
        s.skip(sep_pos(s) + 3)
    } else {
        s
    }
}

/// The path of the URL: what follows the first '/' after the scheme and
/// authority; empty when there is no such '/'.
pub open spec fn path_part(s: Seq<char>) -> Seq<char> {
    let rest = after_scheme(s);
    if slash_pos(rest) >= 0 {
        rest.skip(slash_pos(rest) + 1)
    } else {
        Seq::empty()
    }
}

/// `p` with every trailing '/' removed.
pub open spec fn strip_trailing_slashes(p: Seq<char>) -> Seq<char>
    decreases p.len(),
{
    if p.len() > 0 && p.last() == '/' {
        strip_trailing_slashes(p.drop_last())
    } else {
        p
    }
}

/// The suffix of `p` after its last '/': its final segment.
pub open spec fn tail_segment(p: Seq<char>) -> Seq<char>
    decreases p.len(),
{
    if p.len() == 0 {
        Seq::empty()
    } else if p.last() == '/' {
        Seq::empty()
    } else {
        tail_segment(p.drop_last()).push(p.last())
    }
}

/// The last non-empty segment of `p`: empty exactly when `p` holds no
/// character other than '/'.
pub open spec fn last_segment(p: Seq<char>) -> Seq<char> {
    tail_segment(strip_trailing_slashes(p))
}

/// The destination name derived from a URL: its last non-empty path
/// segment, or "Download" when the path has none.
pub open spec fn resolved_name(url: Seq<char>) -> Seq<char> {
    if last_segment(path_part(url)).len() > 0 {
        last_segment(path_part(url))
    } else {
        "Download"@
    }
}

/// A syntactically acceptable absolute URL: a non-empty scheme, the
/// separator "://", and an authority that begins with a character other
/// than '/'.
pub open spec fn is_absolute_url(s: Seq<char>) -> bool {
    &&& sep_pos(s) > 0
    &&& sep_pos(s) + 3 < s.len()
    &&& s[sep_pos(s) + 3] != '/'
}

/// Finds the first "://" in `s`, if any.
fn find_sep(s: &str) -> (r: Option<usize>)
    ensures
        match r {
            Some(i) => sep_pos(s@) == i && sep_at(s@, i as int),
            None => sep_pos(s@) == -1,
        },
{
    let n = s.unicode_len();
    if n < 3 {
        proof {
            lemma_sep_pos_none(s@);
        }
        return None;
    }
    let mut i: usize = 0;
    while i < n - 2
        invariant
            n == s@.len(),
            3 <= n,
            i <= n - 2,
            forall|j: int| 0 <= j < i ==> !sep_at(s@, j),
        decreases n - i,
    {
        if s.get_char(i) == ':' && s.get_char(i + 1) == '/' && s.get_char(i + 2) == '/' {
            proof {
                lemma_sep_pos_found(s@, i as int);
            }
            return Some(i);
        }
        i = i + 1;
    }
    proof {
        assert forall|j: int| !sep_at(s@, j) by {
            if sep_at(s@, j) {
                assert(0 <= j && j + 3 <= n);
                assert(j < i);
            }
        }
        lemma_sep_pos_none(s@);
    }
    None
}

/// Accepts a URL exactly when it is absolute in the sense of
/// `is_absolute_url`; every rejection is classified `InvalidInput`.
pub fn check_url(url: &str) -> (r: Result<(), ErrorKind>)
    ensures
        r is Ok <==> is_absolute_url(url@),
        r matches Err(kind) ==> kind == ErrorKind::InvalidInput,
{
    let n = url.unicode_len();
    match find_sep(url) {
        Some(i) => {
            if i > 0 && i + 3 < n {
                if url.get_char(i + 3) != '/' {
                    Ok(())
                } else {
                    Err(ErrorKind::InvalidInput)
                }
            } else {
                Err(ErrorKind::InvalidInput)
            }
        },
        None => Err(ErrorKind::InvalidInput),
    }
}

/// Derives the destination filename from `url`: the last non-empty path
/// segment, or "Download" when the URL has no usable path segment.
pub fn resolve(url: &str) -> (r: String)
    ensures
        r@ == resolved_name(url@),
{
    let n = url.unicode_len();
    // Where the authority begins: right after "://" when it is present.
    let rest_start: usize = match find_sep(url) {
        Some(i) => i + 3,
        None => 0,
    };
    proof {
        assert(url@.skip(rest_start as int) =~= after_scheme(url@));
    }
    // The first '/' at or after rest_start delimits the path.
    let mut k: usize = rest_start;
    while k < n && url.get_char(k) != '/'
        invariant
            n == url@.len(),
            rest_start <= k <= n,
            forall|j: int| rest_start <= j < k ==> url@[j] != '/',
        decreases n - k,
    {
        k = k + 1;
    }
    let ghost rest = after_scheme(url@);
    if k == n {
        // No '/' after the authority: the URL has no path at all.
        proof {
            assert forall|m: int| 0 <= m < rest.len() implies rest[m] != '/' by {
                assert(rest[m] == url@[rest_start + m]);
            }
            lemma_slash_pos_none(rest);
            assert(path_part(url@) =~= Seq::<char>::empty());
        }
        return String::from_str("Download");
    }
    proof {
        assert(rest[k - rest_start] == url@[k as int]);
        assert forall|m: int| 0 <= m < k - rest_start implies rest[m] != '/' by {
            assert(rest[m] == url@[rest_start + m]);
        }
        lemma_slash_pos_found(rest, k - rest_start);
    }
    let ps = k + 1;
    let ghost path = url@.subrange(ps as int, n as int);
    proof {
        assert(path_part(url@) =~= path);
    }
    // Strip trailing slashes from the path.
    let mut end: usize = n;
    while end > ps && url.get_char(end - 1) == '/'
        invariant
            n == url@.len(),
            ps <= end <= n,
            path == url@.subrange(ps as int, n as int),
            strip_trailing_slashes(path) == strip_trailing_slashes(
                url@.subrange(ps as int, end as int),
            ),
        decreases end,
    {
        proof {
            let cur = url@.subrange(ps as int, end as int);
            assert(cur.last() == url@[end - 1]);
            assert(cur.drop_last() =~= url@.subrange(ps as int, end - 1));
        }
        end = end - 1;
    }
    if end == ps {
        // The path holds nothing but slashes (or nothing at all).
        proof {
            assert(url@.subrange(ps as int, end as int) =~= Seq::<char>::empty());
            assert(last_segment(path) =~= Seq::<char>::empty());
        }
        return String::from_str("Download");
    }
    let ghost stripped = url@.subrange(ps as int, end as int);
    proof {
        assert(stripped.last() == url@[end - 1]);
        assert(strip_trailing_slashes(stripped) == stripped);
        assert(tail_segment(stripped).len() > 0);
    }
    // Walk back from the stripped end to the start of the final segment.
    let end0 = end;
    let mut start: usize = end0;
    proof {
        assert(url@.subrange(start as int, end0 as int) =~= Seq::<char>::empty());
        assert(tail_segment(stripped) + Seq::<char>::empty() =~= tail_segment(stripped));
        assert(url@.subrange(ps as int, start as int) == stripped);
    }
    while start > ps && url.get_char(start - 1) != '/'
        invariant
            n == url@.len(),
            ps <= start <= end0 <= n,
            stripped == url@.subrange(ps as int, end0 as int),
            tail_segment(stripped) == tail_segment(url@.subrange(ps as int, start as int))
                + url@.subrange(start as int, end0 as int),
        decreases start,
    {
        proof {
            let a = url@.subrange(ps as int, start as int);
            assert(a.last() == url@[start - 1]);
            assert(a.drop_last() =~= url@.subrange(ps as int, start - 1));
            assert(tail_segment(a.drop_last()).push(a.last()) + url@.subrange(
                start as int,
                end0 as int,
            ) =~= tail_segment(a.drop_last()) + url@.subrange(start - 1, end0 as int));
        }
        start = start - 1;
    }
    proof {
        let a = url@.subrange(ps as int, start as int);
        if start == ps {
            assert(a =~= Seq::<char>::empty());
            assert(tail_segment(a) =~= Seq::<char>::empty());
        } else {
            assert(a.last() == url@[start - 1]);
            assert(a.last() == '/');
            assert(tail_segment(a) =~= Seq::<char>::empty());
        }
        assert(tail_segment(stripped) =~= url@.subrange(start as int, end0 as int));
        assert(last_segment(path) == tail_segment(stripped));
    }
    let candidate = url.substring_char(start, end0);
    candidate.to_owned()
}

} // verus!
