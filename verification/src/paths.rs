//! The mathematical model of the paths this library hands out, together with
//! the few executable path operations the resolvers need.
//!
//! A path is a plain `String`; its model is its `Seq<char>` of characters.
//! Only three operations matter here: absoluteness (a leading `/`), joining a
//! base directory with a relative suffix, and splitting a search-path string
//! on the `:` delimiter.

use vstd::prelude::*;

verus! {

/// A path is absolute exactly when it is non-empty and starts with `/`.
pub open spec fn is_absolute_path(s: Seq<char>) -> bool {
    s.len() > 0 && s[0] == '/'
}

/// What joining `base` with `rel` yields: `rel` itself when `rel` is absolute
/// or `base` is empty, otherwise `base` and `rel` with exactly one `/`
/// between them.
pub open spec fn join_path(base: Seq<char>, rel: Seq<char>) -> Seq<char> {
    if is_absolute_path(rel) || base.len() == 0 {
        rel
    } else if base[base.len() - 1] == '/' {
        base + rel
    } else {
        base + seq!['/'] + rel
    }
}

/// Whether `s` begins with `/`.
pub fn path_is_absolute(s: &str) -> (r: bool)
    ensures
        r == is_absolute_path(s@),
{
    let n = s.unicode_len();
    n > 0 && s.get_char(0) == '/'
}

/// Join a base directory with a suffix, with `join_path` as the result.
pub fn path_join(base: &str, rel: &str) -> (r: String)
    ensures
        r@ == join_path(base@, rel@),
{
    let base_len = base.unicode_len();
    if path_is_absolute(rel) || base_len == 0 {
        rel.to_owned()
    } else if base.get_char(base_len - 1) == '/' {
        base.to_owned().concat(rel)
    } else {
        let r = base.to_owned().concat("/").concat(rel);
        proof {
            reveal_strlit("/");
            assert(r@ =~= base@ + seq!['/'] + rel@);
        }
        r
    }
}

/// Join every path of a list with the same suffix, in order.
pub fn path_join_all(dirs: &Vec<String>, rel: &str) -> (r: Vec<String>)
    ensures
        r@.map_values(|p: String| p@) == dirs@.map_values(|p: String| p@).map_values(
            |p: Seq<char>| join_path(p, rel@),
        ),
{
    let ghost joined = dirs@.map_values(|p: String| p@).map_values(
        |p: Seq<char>| join_path(p, rel@),
    );
    let mut r: Vec<String> = Vec::new();
    let mut i: usize = 0;
    while i < dirs.len()
        invariant
            i <= dirs@.len(),
            joined == dirs@.map_values(|p: String| p@).map_values(
                |p: Seq<char>| join_path(p, rel@),
            ),
            r@.map_values(|p: String| p@) =~= joined.subrange(0, i as int),
        decreases dirs@.len() - i,
    {
        let j = path_join(dirs[i].as_str(), rel);
        let ghost r0 = r@;
        r.push(j);
        proof {
            r0.lemma_push_map_commute(|p: String| p@, j);
            assert(j@ == joined[i as int]);
            assert(r@.map_values(|p: String| p@) =~= joined.subrange(0, i + 1 as int));
        }
        i = i + 1;
    }
    proof {
        assert(joined.subrange(0, dirs@.len() as int) =~= joined);
    }
    r
}

/// The segments of `s` after `cur`: reading `s` left to right, `cur` grows
/// until a `:` (or the end of `s`) closes it as a segment.
pub open spec fn split_path_list_from(s: Seq<char>, cur: Seq<char>) -> Seq<Seq<char>>
    decreases s.len(),
{
    if s.len() == 0 {
        seq![cur]
    } else if s[0] == ':' {
        seq![cur] + split_path_list_from(s.drop_first(), Seq::empty())
    } else {
        split_path_list_from(s.drop_first(), cur.push(s[0]))
    }
}

/// The segments of a search-path string: the pieces of `s` between `:`
/// delimiters, in order, empty pieces kept. The empty string has no
/// segments at all.
pub open spec fn split_path_list(s: Seq<char>) -> Seq<Seq<char>> {
    if s.len() == 0 {
        Seq::empty()
    } else {
        split_path_list_from(s, Seq::empty())
    }
}

/// The search-path string that a list of segments came from: the segments
/// in order with a `:` between each pair.
pub open spec fn join_path_list(segs: Seq<Seq<char>>) -> Seq<char>
    decreases segs.len(),
{
    if segs.len() == 0 {
        Seq::empty()
    } else if segs.len() == 1 {
        segs[0]
    } else {
        segs[0] + seq![':'] + join_path_list(segs.drop_first())
    }
}

proof fn lemma_join_split_from(s: Seq<char>, cur: Seq<char>)
    ensures
        join_path_list(split_path_list_from(s, cur)) == cur + s,
    decreases s.len(),
{
    if s.len() == 0 {
        assert(cur + s =~= cur);
    } else if s[0] == ':' {
        lemma_join_split_from(s.drop_first(), Seq::empty());
        let tail = split_path_list_from(s.drop_first(), Seq::empty());
        assert((seq![cur] + tail).drop_first() =~= tail);
        assert(Seq::<char>::empty() + s.drop_first() =~= s.drop_first());
        assert(cur + seq![':'] + s.drop_first() =~= cur + s);
    } else {
        lemma_join_split_from(s.drop_first(), cur.push(s[0]));
        assert(cur.push(s[0]) + s.drop_first() =~= cur + s);
    }
}

/// Splitting loses nothing: the segments of a non-empty search-path string,
/// joined back with `:` in the same order, give the string itself. No
/// segment is filtered, reordered or deduplicated.
pub proof fn lemma_split_path_list_roundtrip(s: Seq<char>)
    requires
        s.len() > 0,
    ensures
        join_path_list(split_path_list(s)) == s,
{
    lemma_join_split_from(s, Seq::empty());
    assert(Seq::<char>::empty() + s =~= s);
}

/// Split a search-path string on `:`, preserving order and empty segments.
pub fn split_path_string(s: &str) -> (r: Vec<String>)
    ensures
        r@.map_values(|p: String| p@) == split_path_list(s@),
{
    let n = s.unicode_len();
    let mut segs: Vec<String> = Vec::new();
    if n == 0 {
        proof {
            assert(segs@.map_values(|p: String| p@) =~= split_path_list(s@));
        }
        return segs;
    }
    let mut start: usize = 0;
    let mut i: usize = 0;
    proof {
        assert(s@.subrange(0, n as int) =~= s@);
        assert(s@.subrange(0, 0) =~= Seq::<char>::empty());
        assert(segs@.map_values(|p: String| p@) + split_path_list_from(s@, Seq::empty())
            =~= split_path_list_from(s@, Seq::empty()));
    }
    while i < n
        invariant
            0 < n == s@.len(),
            start <= i <= n,
            split_path_list(s@) == segs@.map_values(|p: String| p@) + split_path_list_from(
                s@.subrange(i as int, n as int),
                s@.subrange(start as int, i as int),
            ),
        decreases n - i,
    {
        let c = s.get_char(i);
        proof {
            assert(s@.subrange(i as int, n as int)[0] == s@[i as int]);
            assert(s@.subrange(i as int, n as int).drop_first() =~= s@.subrange(
                i + 1 as int,
                n as int,
            ));
        }
        if c == ':' {
            let seg = s.substring_char(start, i).to_owned();
            proof {
                assert(s@.subrange(i + 1 as int, i + 1 as int) =~= Seq::<char>::empty());
            }
            segs.push(seg);
            proof {
                assert((segs@.map_values(|p: String| p@)) =~= (segs@.drop_last().map_values(
                    |p: String| p@,
                )).push(seg@));
            }
            start = i + 1;
        } else {
            proof {
                assert(s@.subrange(start as int, i as int).push(s@[i as int]) =~= s@.subrange(
                    start as int,
                    i + 1 as int,
                ));
            }
        }
        i = i + 1;
    }
    let seg = s.substring_char(start, n).to_owned();
    proof {
        assert(s@.subrange(n as int, n as int).len() == 0);
    }
    segs.push(seg);
    proof {
        assert((segs@.map_values(|p: String| p@)) =~= (segs@.drop_last().map_values(
            |p: String| p@,
        )).push(seg@));
        assert(segs@.map_values(|p: String| p@) =~= split_path_list(s@));
    }
    segs
}

} // verus!
