use vstd::prelude::*;
use vstd::string::{StrSliceExecFns, StringExecFns};

verus! {

/// The character for a single decimal digit `d < 10`.
pub open spec fn digit_char(d: nat) -> char {
    if d == 0 {
        '0'
    } else if d == 1 {
        '1'
    } else if d == 2 {
        '2'
    } else if d == 3 {
        '3'
    } else if d == 4 {
        '4'
    } else if d == 5 {
        '5'
    } else if d == 6 {
        '6'
    } else if d == 7 {
        '7'
    } else if d == 8 {
        '8'
    } else {
        '9'
    }
}

/// The decimal representation of `n`: no sign, no leading zeros,
/// a lone `'0'` for zero.
pub open spec fn dec_rep(n: nat) -> Seq<char>
    decreases n,
{
    if n < 10 {
        seq![digit_char(n)]
    } else {
        dec_rep(n / 10) + seq![digit_char(n % 10)]
    }
}

fn digit_str(d: u64) -> (r: &'static str)
    requires
        d < 10,
    ensures
        r@ == seq![digit_char(d as nat)],
{
    let r = match d {
        0 => "0",
        1 => "1",
        2 => "2",
        3 => "3",
        4 => "4",
        5 => "5",
        6 => "6",
        7 => "7",
        8 => "8",
        _ => "9",
    };
    proof {
        reveal_strlit("0");
        reveal_strlit("1");
        reveal_strlit("2");
        reveal_strlit("3");
        reveal_strlit("4");
        reveal_strlit("5");
        reveal_strlit("6");
        reveal_strlit("7");
        reveal_strlit("8");
        reveal_strlit("9");
        assert(r@ =~= seq![digit_char(d as nat)]);
    }
    r
}

/// Formats `n` in decimal.
pub fn dec_string(n: u64) -> (r: String)
    ensures
        r@ == dec_rep(n as nat),
    decreases n,
{
    if n < 10 {
        String::from_str(digit_str(n))
    } else {
        let mut s = dec_string(n / 10);
        s.append(digit_str(n % 10));
        s
    }
}

/// Whether the characters of `s` starting at `k` spell out `p`.
pub open spec fn matches_at(s: Seq<char>, k: int, p: Seq<char>) -> bool {
    &&& 0 <= k
    &&& k + p.len() <= s.len()
    &&& s.subrange(k, k + p.len()) == p
}

/// Compares the characters of `s` starting at `k` with `p`.
pub fn str_eq_at(s: &str, k: usize, p: &str) -> (r: bool)
    ensures
        r == matches_at(s@, k as int, p@),
{
    let n = s.unicode_len();
    let m = p.unicode_len();
    if m > n || k > n - m {
        return false;
    }
    let mut i: usize = 0;
    while i < m
        invariant
            n == s@.len(),
            m == p@.len(),
            k + m <= n,
            i <= m,
            forall|j: int| 0 <= j < i ==> s@[k + j] == p@[j],
        decreases m - i,
    {
        if s.get_char(k + i) != p.get_char(i) {
            proof {
                assert(s@.subrange(k as int, k as int + p@.len()) != p@) by {
                    assert(s@.subrange(k as int, k as int + p@.len())[i as int] == s@[k + i]);
                }
            }
            return false;
        }
        i += 1;
    }
    proof {
        assert(s@.subrange(k as int, k as int + p@.len()) =~= p@);
    }
    true
}

/// Whether `c` ends a quoted value: a closing quote or a line break.
pub open spec fn is_stop_char(c: char) -> bool {
    c == '"' || c == '\n'
}

/// The first position at or after `i` holding a quote or a line break,
/// or `s.len()` if there is none.
pub open spec fn find_stop(s: Seq<char>, i: nat) -> nat
    decreases s.len() - i,
{
    if i >= s.len() {
        i
    } else if is_stop_char(s[i as int]) {
        i
    } else {
        find_stop(s, i + 1)
    }
}

pub proof fn lemma_find_stop_props(s: Seq<char>, i: nat)
    requires
        i <= s.len(),
    ensures
        i <= find_stop(s, i) <= s.len(),
        find_stop(s, i) < s.len() ==> is_stop_char(s[find_stop(s, i) as int]),
        forall|j: int| i <= j < find_stop(s, i) ==> !is_stop_char(s[j]),
    decreases s.len() - i,
{
    if i < s.len() && !is_stop_char(s[i as int]) {
        lemma_find_stop_props(s, i + 1);
    }
}

pub proof fn lemma_find_stop_exact(s: Seq<char>, i: nat, k: nat)
    requires
        i <= k < s.len(),
        forall|j: int| i <= j < k ==> !is_stop_char(s[j]),
        is_stop_char(s[k as int]),
    ensures
        find_stop(s, i) == k,
    decreases k - i,
{
    if i < k {
        lemma_find_stop_exact(s, i + 1, k);
    }
}

/// Scans `s` from `i` for the first quote or line break.
pub fn find_stop_from(s: &str, i: usize) -> (r: usize)
    requires
        i <= s@.len(),
    ensures
        r == find_stop(s@, i as nat),
{
    let n = s.unicode_len();
    let mut j = i;
    while j < n
        invariant
            i <= j <= n,
            n == s@.len(),
            find_stop(s@, i as nat) == find_stop(s@, j as nat),
        decreases n - j,
    {
        let c = s.get_char(j);
        if c == '"' || c == '\n' {
            return j;
        }
        j += 1;
    }
    j
}

} // verus!
