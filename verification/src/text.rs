//! Shared string logic: token counting as the wire protocol defines it,
//! substring search, decimal rendering, and case folding.

use vstd::prelude::*;

verus! {

/// Number of occurrences of `c` in `s`.
pub open spec fn count_char(s: Seq<char>, c: char) -> nat
    decreases s.len(),
{
    if s.len() == 0 {
        0
    } else {
        count_char(s.drop_last(), c) + (if s.last() == c {
            1nat
        } else {
            0nat
        })
    }
}

/// The token count the protocol uses: the number of segments a split on a
/// single space yields, which is one more than the number of spaces.
pub open spec fn spec_word_count(s: Seq<char>) -> nat {
    count_char(s, ' ') + 1
}

pub proof fn lemma_count_char_le_len(s: Seq<char>, c: char)
    ensures
        count_char(s, c) <= s.len(),
    decreases s.len(),
{
    if s.len() > 0 {
        lemma_count_char_le_len(s.drop_last(), c);
    }
}

fn count_spaces(s: &str) -> (n: usize)
    ensures
        n == count_char(s@, ' '),
{
    let len = s.unicode_len();
    let mut i: usize = 0;
    let mut n: usize = 0;
    while i < len
        invariant
            i <= len,
            len == s@.len(),
            n == count_char(s@.take(i as int), ' '),
        decreases len - i,
    {
        proof {
            lemma_count_char_le_len(s@.take(i as int), ' ');
            assert(s@.take(i as int + 1).drop_last() =~= s@.take(i as int));
            assert(s@.take(i as int + 1).last() == s@[i as int]);
        }
        let c = s.get_char(i);
        if c == ' ' {
            n = n + 1;
        }
        i = i + 1;
    }
    proof {
        assert(s@.take(len as int) =~= s@);
    }
    n
}

/// Counts the whitespace-delimited tokens of `s`, exactly as a split on a
/// single space counts them: empty segments count too, so the result is the
/// number of spaces plus one.
pub fn word_count(s: &str) -> (n: usize)
    requires
        spec_word_count(s@) <= usize::MAX,
    ensures
        n == spec_word_count(s@),
{
    let spaces = count_spaces(s);
    spaces + 1
}

/// `needle` occurs in `haystack` starting at position `i`.
pub open spec fn contains_at(haystack: Seq<char>, needle: Seq<char>, i: int) -> bool {
    &&& 0 <= i
    &&& i + needle.len() <= haystack.len()
    &&& haystack.subrange(i, i + needle.len() as int) == needle
}

/// `needle` occurs somewhere in `haystack`.
pub open spec fn contains_seq(haystack: Seq<char>, needle: Seq<char>) -> bool {
    exists|i: int| contains_at(haystack, needle, i)
}

/// Substring search, character for character.
pub fn str_contains(haystack: &str, needle: &str) -> (r: bool)
    ensures
        r == contains_seq(haystack@, needle@),
{
    let hl = haystack.unicode_len();
    let nl = needle.unicode_len();
    if nl > hl {
        proof {
            assert(forall|i: int| !contains_at(haystack@, needle@, i));
        }
        return false;
    }
    let mut i: usize = 0;
    loop
        invariant
            nl <= hl,
            hl == haystack@.len(),
            nl == needle@.len(),
            i <= hl - nl + 1,
            forall|k: int| 0 <= k < i ==> !contains_at(haystack@, needle@, k),
        decreases hl - nl + 1 - i,
    {
        if i > hl - nl {
            proof {
                assert(forall|k: int| contains_at(haystack@, needle@, k) ==> 0 <= k <= hl - nl);
            }
            return false;
        }
        let mut j: usize = 0;
        let mut matched = true;
        while j < nl
            invariant
                nl <= hl,
                hl == haystack@.len(),
                nl == needle@.len(),
                i + nl <= hl,
                j <= nl,
                matched ==> forall|p: int| 0 <= p < j ==> haystack@[i + p] == needle@[p],
                !matched ==> exists|p: int|
                    0 <= p < j && haystack@[i + p] != needle@[p],
            decreases nl - j,
        {
            let hc = haystack.get_char(i + j);
            let nc = needle.get_char(j);
            if hc != nc {
                matched = false;
            }
            j = j + 1;
        }
        if matched {
            proof {
                assert(haystack@.subrange(i as int, i + nl as int) =~= needle@);
                assert(contains_at(haystack@, needle@, i as int));
            }
            return true;
        }
        proof {
            let p = choose|p: int| 0 <= p < nl && haystack@[i + p] != needle@[p];
            assert(haystack@.subrange(i as int, i + nl as int)[p] == haystack@[i + p]);
            assert(!contains_at(haystack@, needle@, i as int));
        }
        i = i + 1;
    }
}

/// The decimal character for a single digit.
pub open spec fn digit_char(d: nat) -> char {
    if d == 0 {
        '0'
    } else if d == 1 {
        '1'
    } else if d == 2 {
        '2'
    } else if d == 3 {
        '3'
    } else if d == 4 {
        '4'
    } else if d == 5 {
        '5'
    } else if d == 6 {
        '6'
    } else if d == 7 {
        '7'
    } else if d == 8 {
        '8'
    } else {
        '9'
    }
}

/// The decimal digits of `n`, most significant first, with no leading zeros
/// except for `n == 0` itself.
pub open spec fn dec_digits(n: nat) -> Seq<char>
    decreases n,
{
    if n < 10 {
        seq![digit_char(n)]
    } else {
        dec_digits(n / 10) + seq![digit_char(n % 10)]
    }
}

fn digit_to_str(d: usize) -> (s: &'static str)
    requires
        d < 10,
    ensures
        s@ == seq![digit_char(d as nat)],
{
    if d == 0 {
        proof {
            reveal_strlit("0");
            assert("0"@ =~= seq![digit_char(0)]);
        }
        "0"
    } else if d == 1 {
        proof {
            reveal_strlit("1");
            assert("1"@ =~= seq![digit_char(1)]);
        }
        "1"
    } else if d == 2 {
        proof {
            reveal_strlit("2");
            assert("2"@ =~= seq![digit_char(2)]);
        }
        "2"
    } else if d == 3 {
        proof {
            reveal_strlit("3");
            assert("3"@ =~= seq![digit_char(3)]);
        }
        "3"
    } else if d == 4 {
        proof {
            reveal_strlit("4");
            assert("4"@ =~= seq![digit_char(4)]);
        }
        "4"
    } else if d == 5 {
        proof {
            reveal_strlit("5");
            assert("5"@ =~= seq![digit_char(5)]);
        }
        "5"
    } else if d == 6 {
        proof {
            reveal_strlit("6");
            assert("6"@ =~= seq![digit_char(6)]);
        }
        "6"
    } else if d == 7 {
        proof {
            reveal_strlit("7");
            assert("7"@ =~= seq![digit_char(7)]);
        }
        "7"
    } else if d == 8 {
        proof {
            reveal_strlit("8");
            assert("8"@ =~= seq![digit_char(8)]);
        }
        "8"
    } else {
        proof {
            reveal_strlit("9");
            assert("9"@ =~= seq![digit_char(9)]);
        }
        "9"
    }
}

/// Renders `n` in decimal.
pub fn usize_to_string(n: usize) -> (s: String)
    ensures
        s@ == dec_digits(n as nat),
    decreases n,
{
    if n < 10 {
        digit_to_str(n).to_owned()
    } else {
        proof {
            assert(n / 10 < n) by (nonlinear_arith)
                requires
                    n >= 10,
            ;
        }
        let mut s = usize_to_string(n / 10);
        s.append(digit_to_str(n % 10));
        s
    }
}

/// The parts joined by single spaces, in order.
pub open spec fn join_spaced(parts: Seq<Seq<char>>) -> Seq<char>
    decreases parts.len(),
{
    if parts.len() == 0 {
        Seq::empty()
    } else if parts.len() == 1 {
        parts[0]
    } else {
        join_spaced(parts.drop_last()) + seq![' '] + parts.last()
    }
}

/// Joins the parts with single spaces.
pub fn join_with_space(parts: &Vec<String>) -> (r: String)
    ensures
        r@ == join_spaced(parts.deep_view()),
{
    let ghost all = parts.deep_view();
    let mut r = String::new();
    let mut i: usize = 0;
    while i < parts.len()
        invariant
            i <= parts.len(),
            all == parts.deep_view(),
            all.len() == parts.len(),
            r@ == join_spaced(all.take(i as int)),
        decreases parts.len() - i,
    {
        proof {
            assert(all.take(i as int + 1).drop_last() =~= all.take(i as int));
            assert(all.take(i as int + 1).last() == all[i as int]);
            assert(all[i as int] == parts@[i as int]@);
        }
        if i > 0 {
            r.append(" ");
            proof {
                reveal_strlit(" ");
                assert(" "@ =~= seq![' ']);
            }
        }
        r.append(parts[i].as_str());
        i = i + 1;
    }
    proof {
        assert(all.take(parts.len() as int) =~= all);
    }
    r
}

/// What `str::to_lowercase` returns: a function of the characters alone.
pub uninterp spec fn lower_of(s: Seq<char>) -> Seq<char>;

/// Relies on `str::to_lowercase` of std: the result depends only on the
/// characters of the input, so its value is named `lower_of`.
#[verifier::external_body]
pub fn lowercase(s: &str) -> (r: String)
    ensures
        r@ == lower_of(s@),
{
    s.to_lowercase()
}

} // verus!
