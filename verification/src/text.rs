//! Verified string helpers: prefix testing, whitespace trimming, and
//! space-joining, each pinned to a spec-level definition.

use vstd::prelude::*;

verus! {

/// The whitespace characters stripped from a payload's ends.
pub open spec fn is_blank(c: char) -> bool {
    c == ' ' || c == '\t' || c == '\n' || c == '\r'
}

/// `s` with its leading blank characters removed.
pub open spec fn trim_front(s: Seq<char>) -> Seq<char>
    decreases s.len(),
{
    if s.len() > 0 && is_blank(s[0]) {
        trim_front(s.drop_first())
    } else {
        s
    }
}

/// `s` with its trailing blank characters removed.
pub open spec fn trim_back(s: Seq<char>) -> Seq<char>
    decreases s.len(),
{
    if s.len() > 0 && is_blank(s.last()) {
        trim_back(s.drop_last())
    } else {
        s
    }
}

/// `s` with blank characters removed from both ends.
pub open spec fn trimmed(s: Seq<char>) -> Seq<char> {
    trim_back(trim_front(s))
}

/// The elements of `args` joined with a single space between neighbours.
pub open spec fn join_spaces(args: Seq<String>) -> Seq<char>
    decreases args.len(),
{
    if args.len() == 0 {
        Seq::empty()
    } else if args.len() == 1 {
        args[0]@
    } else {
        args[0]@ + " "@ + join_spaces(args.drop_first())
    }
}

proof fn lemma_trim_front_at(s: Seq<char>, lo: int)
    requires
        0 <= lo <= s.len(),
        forall|j: int| 0 <= j < lo ==> is_blank(s[j]),
        lo == s.len() || !is_blank(s[lo]),
    ensures
        trim_front(s) == s.subrange(lo, s.len() as int),
    decreases lo,
{
    if lo == 0 {
        assert(s.subrange(0, s.len() as int) =~= s);
    } else {
        let t = s.drop_first();
        assert(t =~= s.subrange(1, s.len() as int));
        lemma_trim_front_at(t, lo - 1);
        assert(t.subrange(lo - 1, t.len() as int) =~= s.subrange(lo, s.len() as int));
    }
}

proof fn lemma_trim_back_at(s: Seq<char>, hi: int)
    requires
        0 <= hi <= s.len(),
        forall|j: int| hi <= j < s.len() ==> is_blank(s[j]),
        hi == 0 || !is_blank(s[hi - 1]),
    ensures
        trim_back(s) == s.subrange(0, hi),
    decreases s.len() - hi,
{
    if hi == s.len() {
        assert(s.subrange(0, s.len() as int) =~= s);
    } else {
        let t = s.drop_last();
        assert(t =~= s.subrange(0, s.len() - 1));
        lemma_trim_back_at(t, hi);
        assert(t.subrange(0, hi) =~= s.subrange(0, hi));
    }
}

/// Whether `s` begins with the characters of `prefix`.
pub fn str_starts_with(s: &str, prefix: &str) -> (r: bool)
    ensures
        r == (prefix@.len() <= s@.len() && s@.subrange(0, prefix@.len() as int) == prefix@),
{
    let n = prefix.unicode_len();
    let m = s.unicode_len();
    if n > m {
        return false;
    }
    let mut i: usize = 0;
    while i < n
        invariant
            i <= n,
            n == prefix@.len(),
            m == s@.len(),
            n <= m,
            forall|j: int| 0 <= j < i ==> s@[j] == prefix@[j],
        decreases n - i,
    {
        if s.get_char(i) != prefix.get_char(i) {
            assert(s@.subrange(0, n as int)[i as int] == s@[i as int]);
            return false;
        }
        i += 1;
    }
    assert(s@.subrange(0, n as int) =~= prefix@);
    true
}

/// A copy of `s` with blank characters stripped from both ends.
pub fn trim_blank(s: &str) -> (r: String)
    ensures
        r@ == trimmed(s@),
{
    let n = s.unicode_len();
    let mut lo: usize = 0;
    while lo < n && is_blank_char(s.get_char(lo))
        invariant
            lo <= n,
            n == s@.len(),
            forall|j: int| 0 <= j < lo ==> is_blank(s@[j]),
        decreases n - lo,
    {
        lo += 1;
    }
    proof {
        lemma_trim_front_at(s@, lo as int);
    }
    if lo == n {
        proof {
            assert(trim_front(s@) =~= Seq::<char>::empty());
        }
        return String::new();
    }
    let mut hi: usize = n;
    while hi > lo && is_blank_char(s.get_char(hi - 1))
        invariant
            lo <= hi <= n,
            n == s@.len(),
            lo < n,
            !is_blank(s@[lo as int]),
            forall|j: int| hi <= j < n ==> is_blank(s@[j]),
        decreases hi,
    {
        hi -= 1;
    }
    let mid = s.substring_char(lo, hi);
    proof {
        let t = s@.subrange(lo as int, n as int);
        lemma_trim_back_at(t, hi - lo);
        assert(t.subrange(0, hi - lo) =~= s@.subrange(lo as int, hi as int));
    }
    String::from_str(mid)
}

/// Whether `c` is one of the blank characters, as `is_blank` says.
pub fn is_blank_char(c: char) -> (r: bool)
    ensures
        r == is_blank(c),
{
    c == ' ' || c == '\t' || c == '\n' || c == '\r'
}

proof fn lemma_join_spaces_snoc(args: Seq<String>, x: String)
    ensures
        join_spaces(args.push(x)) == if args.len() == 0 {
            x@
        } else {
            join_spaces(args) + " "@ + x@
        },
    decreases args.len(),
{
    let whole = args.push(x);
    if args.len() == 0 {
        assert(whole[0] == x);
    } else {
        lemma_join_spaces_snoc(args.drop_first(), x);
        assert(whole.drop_first() =~= args.drop_first().push(x));
        if args.len() == 1 {
            assert(join_spaces(args) == args[0]@);
        } else {
            let head = args[0]@ + " "@;
            let rest = join_spaces(args.drop_first());
            assert(join_spaces(args) == head + rest);
            assert(head + (rest + " "@ + x@) =~= head + rest + " "@ + x@);
        }
    }
}

/// The elements of `args` joined into one string, a single space between
/// neighbours.
pub fn join_with_spaces(args: &Vec<String>) -> (r: String)
    ensures
        r@ == join_spaces(args@),
{
    let mut acc = String::new();
    let mut i: usize = 0;
    while i < args.len()
        invariant
            i <= args@.len(),
            acc@ == join_spaces(args@.subrange(0, i as int)),
        decreases args@.len() - i,
    {
        if i > 0 {
            acc.append(" ");
        }
        acc.append(args[i].as_str());
        proof {
            let seen = args@.subrange(0, i as int);
            lemma_join_spaces_snoc(seen, args@[i as int]);
            assert(args@.subrange(0, i + 1) =~= seen.push(args@[i as int]));
            if i > 0 {
                assert((join_spaces(seen) + " "@ + args@[i as int]@) =~= (join_spaces(seen)
                    + " "@) + args@[i as int]@);
            }
        }
        i += 1;
    }
    proof {
        assert(args@.subrange(0, args@.len() as int) =~= args@);
    }
    acc
}

} // verus!
