//! Small verified string helpers: trimming path separators and
//! splitting on a separator character.

use vstd::prelude::*;

verus! {

/// `s` with every leading `/` removed.
pub open spec fn spec_trim_slashes(s: Seq<char>) -> Seq<char>
    decreases s.len(),
{
    if s.len() > 0 && s[0] == '/' {
        spec_trim_slashes(s.skip(1))
    } else {
        s
    }
}

proof fn lemma_trim_slashes_at(s: Seq<char>, i: int)
    requires
        0 <= i <= s.len(),
        forall|j: int| 0 <= j < i ==> s[j] == '/',
        i == s.len() || s[i] != '/',
    ensures
        spec_trim_slashes(s) == s.skip(i),
    decreases i,
{
    if i == 0 {
        assert(s.skip(0) =~= s);
    } else {
        assert(s[0] == '/');
        assert(forall|j: int| 0 <= j < i - 1 ==> s.skip(1)[j] == s[j + 1]);
        lemma_trim_slashes_at(s.skip(1), i - 1);
        assert(s.skip(1).skip(i - 1) =~= s.skip(i));
    }
}

/// Strips the leading `/` characters off a control-group path, as the
/// resource hierarchy expects relative node names.
pub fn trim_leading_slashes(s: &str) -> (r: &str)
    ensures
        r@ == spec_trim_slashes(s@),
{
    let n = s.unicode_len();
    let mut i: usize = 0;
    while i < n && s.get_char(i) == '/'
        invariant
            i <= n,
            n == s@.len(),
            forall|j: int| 0 <= j < i ==> s@[j] == '/',
        decreases n - i,
    {
        i = i + 1;
    }
    proof {
        lemma_trim_slashes_at(s@, i as int);
    }
    let r = s.substring_char(i, n);
    proof {
        assert(s@.subrange(i as int, n as int) =~= s@.skip(i as int));
    }
    r
}

/// The segments of `s` between occurrences of `sep`: always one more
/// segment than separators, and no segment contains `sep`.
pub open spec fn spec_split(s: Seq<char>, sep: char) -> Seq<Seq<char>>
    decreases s.len(),
{
    if s.len() == 0 {
        seq![Seq::<char>::empty()]
    } else {
        let prefix = spec_split(s.drop_last(), sep);
        if s.last() == sep {
            prefix.push(Seq::<char>::empty())
        } else {
            prefix.update(prefix.len() - 1, prefix.last().push(s.last()))
        }
    }
}

proof fn lemma_split_nonempty(s: Seq<char>, sep: char)
    ensures
        spec_split(s, sep).len() >= 1,
    decreases s.len(),
{
    if s.len() > 0 {
        lemma_split_nonempty(s.drop_last(), sep);
    }
}

/// Splits `s` at every occurrence of `sep`, returning the owned
/// segments in order.
pub fn split_char(s: &str, sep: char) -> (r: Vec<String>)
    ensures
        r@.map_values(|t: String| t@) == spec_split(s@, sep),
{
    let n = s.unicode_len();
    let mut parts: Vec<String> = Vec::new();
    let mut start: usize = 0;
    let mut i: usize = 0;
    proof {
        assert(s@.take(0).len() == 0);
        assert(parts@.map_values(|t: String| t@).push(s@.subrange(0, 0)) =~~= spec_split(
            s@.take(0),
            sep,
        ));
    }
    while i < n
        invariant
            start <= i <= n,
            n == s@.len(),
            parts@.map_values(|t: String| t@).push(s@.subrange(start as int, i as int))
                == spec_split(s@.take(i as int), sep),
        decreases n - i,
    {
        let ghost prev = s@.take(i as int);
        proof {
            assert(s@.take(i as int + 1).drop_last() =~= prev);
            assert(s@.take(i as int + 1).last() == s@[i as int]);
        }
        if s.get_char(i) == sep {
            let seg = s.substring_char(start, i).to_owned();
            proof {
                assert(seg@ =~= s@.subrange(start as int, i as int));
            }
            let ghost old_parts = parts@;
            parts.push(seg);
            start = i + 1;
            proof {
                assert(parts@.map_values(|t: String| t@) =~= old_parts.map_values(
                    |t: String| t@,
                ).push(seg@));
                assert(s@.subrange(start as int, i as int + 1) =~= Seq::<char>::empty());
                assert(parts@.map_values(|t: String| t@).push(
                    s@.subrange(start as int, i as int + 1),
                ) =~~= spec_split(s@.take(i as int + 1), sep));
            }
        } else {
            proof {
                let views = parts@.map_values(|t: String| t@);
                let split_prev = spec_split(prev, sep);
                lemma_split_nonempty(prev, sep);
                assert(split_prev.last() == s@.subrange(start as int, i as int));
                assert(s@.subrange(start as int, i as int + 1) =~= s@.subrange(
                    start as int,
                    i as int,
                ).push(s@[i as int]));
                assert(views.push(s@.subrange(start as int, i as int + 1)) =~~= spec_split(
                    s@.take(i as int + 1),
                    sep,
                ));
            }
        }
        i = i + 1;
    }
    let last = s.substring_char(start, n).to_owned();
    proof {
        assert(s@.take(n as int) =~= s@);
        assert(last@ =~= s@.subrange(start as int, n as int));
    }
    let ghost old_parts = parts@;
    parts.push(last);
    proof {
        assert(parts@.map_values(|t: String| t@) =~= old_parts.map_values(|t: String| t@).push(
            last@,
        ));
    }
    parts
}

} // verus!
