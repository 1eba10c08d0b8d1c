//! Endpoint resolution: the comma-separated list of configured gateway
//! base addresses becomes, for each registration operation, an ordered
//! list of fully-qualified URLs, one per base address.

use vstd::prelude::*;
use crate::json::push_char;

verus! {

/// Splitting a character sequence at a separator, as `str::split` does:
/// the empty sequence yields one empty segment, and a trailing
/// separator yields a trailing empty segment.
pub open spec fn spec_split(s: Seq<char>, sep: char) -> Seq<Seq<char>>
    decreases s.len(),
{
    if s.len() == 0 {
        seq![Seq::<char>::empty()]
    } else if s.last() == sep {
        spec_split(s.drop_last(), sep).push(Seq::empty())
    } else {
        let p = spec_split(s.drop_last(), sep);
        p.update(p.len() - 1, p.last().push(s.last()))
    }
}

/// A split has at least one segment.
pub proof fn lemma_split_nonempty(s: Seq<char>, sep: char)
    ensures
        spec_split(s, sep).len() >= 1,
    decreases s.len(),
{
    if s.len() > 0 {
        lemma_split_nonempty(s.drop_last(), sep);
    }
}

/// Splits a string at every occurrence of the separator.
pub fn split_string(s: &str, sep: char) -> (r: Vec<String>)
    ensures
        r.deep_view() == spec_split(s@, sep),
{
    let mut parts: Vec<String> = Vec::new();
    let mut cur: String = String::new();
    let n = s.unicode_len();
    let mut i: usize = 0;
    proof {
        assert(s@.take(0) =~= Seq::<char>::empty());
        assert(parts.deep_view().push(cur@) =~= spec_split(s@.take(0), sep));
    }
    while i < n
        invariant
            n == s@.len(),
            i <= n,
            parts.deep_view().push(cur@) == spec_split(s@.take(i as int), sep),
        decreases n - i,
    {
        proof {
            assert(s@.take(i + 1).drop_last() =~= s@.take(i as int));
            assert(s@.take(i + 1).last() == s@[i as int]);
            lemma_split_nonempty(s@.take(i as int), sep);
        }
        let ghost prev_parts = parts.deep_view();
        let ghost prev_cur = cur@;
        let c = s.get_char(i);
        if c == sep {
            parts.push(cur);
            cur = String::new();
            proof {
                assert(parts.deep_view() =~= prev_parts.push(prev_cur));
                assert(parts.deep_view().push(cur@) =~= spec_split(s@.take(i + 1), sep));
            }
        } else {
            push_char(&mut cur, c);
            proof {
                let p = spec_split(s@.take(i as int), sep);
                assert(p.last() == prev_cur);
                assert(parts.deep_view().push(cur@) =~= p.update(p.len() - 1, p.last().push(c)));
            }
        }
        i = i + 1;
    }
    proof {
        assert(s@.take(n as int) =~= s@);
    }
    parts.push(cur);
    proof {
        assert(parts.deep_view() =~= spec_split(s@, sep));
    }
    parts
}

/// Each base address with the same suffix appended, in the same order.
pub open spec fn spec_with_suffix(bases: Seq<Seq<char>>, suffix: Seq<char>) -> Seq<Seq<char>> {
    bases.map_values(|b: Seq<char>| b + suffix)
}

/// Appends the given suffix to every base address.
pub fn with_suffix(bases: &Vec<String>, suffix: &str) -> (r: Vec<String>)
    ensures
        r.deep_view() == spec_with_suffix(bases.deep_view(), suffix@),
{
    let mut r: Vec<String> = Vec::new();
    let n = bases.len();
    let mut i: usize = 0;
    while i < n
        invariant
            n == bases.len(),
            i <= n,
            r@.len() == i,
            forall|j: int| 0 <= j < i ==> r.deep_view()[j] == bases.deep_view()[j] + suffix@,
        decreases n - i,
    {
        let u = bases[i].clone().concat(suffix);
        let ghost prev = r.deep_view();
        r.push(u);
        proof {
            assert(r.deep_view() =~= prev.push(u@));
        }
        i = i + 1;
    }
    proof {
        assert(r.deep_view() =~= spec_with_suffix(bases.deep_view(), suffix@));
    }
    r
}

/// One URL per operation per base address: splitting the configured
/// server string and appending an operation's suffix yields exactly one
/// URL for each base address, equal to that base followed by the
/// suffix, in declaration order.
pub proof fn lemma_one_url_per_base(servers: Seq<char>, sep: char, suffix: Seq<char>)
    ensures
        spec_with_suffix(spec_split(servers, sep), suffix).len() == spec_split(servers, sep).len(),
        spec_split(servers, sep).len() >= 1,
        forall|i: int|
            0 <= i < spec_split(servers, sep).len() ==> spec_with_suffix(
                spec_split(servers, sep),
                suffix,
            )[i] == spec_split(servers, sep)[i] + suffix,
{
    lemma_split_nonempty(servers, sep);
}

} // verus!
