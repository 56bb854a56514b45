//! Decimal text: rendering numbers, parsing numbers, and small string
//! helpers used for paths, reports and command lines.

use vstd::prelude::*;

verus! {

/// The character for one decimal digit value.
pub open spec fn digit_char(d: int) -> char {
    if d == 0 {
        '0'
    } else if d == 1 {
        '1'
    } else if d == 2 {
        '2'
    } else if d == 3 {
        '3'
    } else if d == 4 {
        '4'
    } else if d == 5 {
        '5'
    } else if d == 6 {
        '6'
    } else if d == 7 {
        '7'
    } else if d == 8 {
        '8'
    } else {
        '9'
    }
}

/// The decimal rendering of a non-negative number, most significant digit
/// first, with no leading zeros (zero itself renders as "0").
pub open spec fn dec_chars(n: int) -> Seq<char>
    decreases n,
{
    if n <= 9 {
        seq![digit_char(n)]
    } else {
        dec_chars(n / 10) + seq![digit_char(n % 10)]
    }
}

/// Whether a character is a decimal digit.
pub open spec fn is_digit(c: char) -> bool {
    '0' <= c && c <= '9'
}

/// The value of one decimal digit character.
pub open spec fn digit_value(c: char) -> int {
    c as int - '0' as int
}

/// Whether every character of a sequence is a decimal digit.
pub open spec fn all_digits(s: Seq<char>) -> bool {
    forall|i: int| 0 <= i < s.len() ==> is_digit(#[trigger] s[i])
}

/// The number a digit sequence denotes, read left to right.
pub open spec fn dec_value(s: Seq<char>) -> int
    decreases s.len(),
{
    if s.len() == 0 {
        0
    } else {
        dec_value(s.drop_last()) * 10 + digit_value(s.last())
    }
}

/// A one-character string slice for a digit value.
pub fn digit_str(d: u64) -> (r: &'static str)
    requires
        d <= 9,
    ensures
        r@ =~= seq![digit_char(d as int)],
{
    proof {
        reveal_strlit("0");
        reveal_strlit("1");
        reveal_strlit("2");
        reveal_strlit("3");
        reveal_strlit("4");
        reveal_strlit("5");
        reveal_strlit("6");
        reveal_strlit("7");
        reveal_strlit("8");
        reveal_strlit("9");
    }
    if d == 0 {
        "0"
    } else if d == 1 {
        "1"
    } else if d == 2 {
        "2"
    } else if d == 3 {
        "3"
    } else if d == 4 {
        "4"
    } else if d == 5 {
        "5"
    } else if d == 6 {
        "6"
    } else if d == 7 {
        "7"
    } else if d == 8 {
        "8"
    } else {
        "9"
    }
}

/// Renders a number in decimal.
pub fn u64_to_dec(n: u64) -> (s: String)
    ensures
        s@ == dec_chars(n as int),
    decreases n,
{
    if n <= 9 {
        let mut s = String::new();
        s.append(digit_str(n));
        proof {
            assert(s@ =~= dec_chars(n as int));
        }
        s
    } else {
        let mut s = u64_to_dec(n / 10);
        s.append(digit_str(n % 10));
        proof {
            assert(s@ =~= dec_chars(n as int));
        }
        s
    }
}

/// Renders a wide number in decimal. Percentages derived from arbitrary
/// readback values can exceed the ordinary word size.
pub fn u128_to_dec(n: u128) -> (s: String)
    ensures
        s@ == dec_chars(n as int),
    decreases n,
{
    if n <= 9 {
        let mut s = String::new();
        s.append(digit_str(n as u64));
        proof {
            assert(s@ =~= dec_chars(n as int));
        }
        s
    } else {
        let mut s = u128_to_dec(n / 10);
        s.append(digit_str((n % 10) as u64));
        proof {
            assert(s@ =~= dec_chars(n as int));
        }
        s
    }
}

/// Rendering and reading back are inverses: a rendered number is all
/// digits and denotes the number it was rendered from.
pub proof fn lemma_dec_round_trip(n: int)
    requires
        0 <= n,
    ensures
        all_digits(dec_chars(n)),
        dec_value(dec_chars(n)) == n,
    decreases n,
{
    if n <= 9 {
        let s = dec_chars(n);
        assert(s =~= seq![digit_char(n)]);
        assert(s.drop_last() =~= Seq::<char>::empty());
        assert(dec_value(Seq::<char>::empty()) == 0);
        assert(s.last() == digit_char(n));
        assert(digit_value(digit_char(n)) == n);
    } else {
        lemma_dec_round_trip(n / 10);
        let s = dec_chars(n);
        let prefix = dec_chars(n / 10);
        assert(s == prefix + seq![digit_char(n % 10)]);
        assert(s.drop_last() =~= prefix);
        assert(s.last() == digit_char(n % 10));
        assert(digit_value(digit_char(n % 10)) == n % 10);
        assert(dec_value(s) == dec_value(prefix) * 10 + n % 10);
        assert(n / 10 * 10 + n % 10 == n) by {
            vstd::arithmetic::div_mod::lemma_fundamental_div_mod(n, 10);
        }
        assert forall|i: int| 0 <= i < s.len() implies is_digit(#[trigger] s[i]) by {
            if i < prefix.len() {
                assert(s[i] == prefix[i]);
            } else {
                assert(s[i] == digit_char(n % 10));
            }
        }
    }
}

/// A digit sequence denotes a non-negative number.
pub proof fn lemma_dec_value_nonneg(s: Seq<char>)
    requires
        all_digits(s),
    ensures
        dec_value(s) >= 0,
    decreases s.len(),
{
    if s.len() > 0 {
        assert(all_digits(s.drop_last())) by {
            assert(forall|i: int|
                0 <= i < s.len() - 1 ==> is_digit(#[trigger] s.drop_last()[i]) == is_digit(s[i]));
        }
        lemma_dec_value_nonneg(s.drop_last());
        assert(is_digit(s.last()));
    }
}

/// Extending a digit sequence on the right never decreases its value.
pub proof fn lemma_dec_value_prefix_le(s: Seq<char>, j: int)
    requires
        all_digits(s),
        0 <= j <= s.len(),
    ensures
        dec_value(s.subrange(0, j)) <= dec_value(s),
    decreases s.len() - j,
{
    if j == s.len() {
        assert(s.subrange(0, j) =~= s);
    } else {
        let t = s.subrange(0, j + 1);
        assert(t.drop_last() =~= s.subrange(0, j));
        assert(all_digits(t.drop_last()));
        lemma_dec_value_nonneg(t.drop_last());
        assert(is_digit(t.last()));
        assert(dec_value(t) == dec_value(s.subrange(0, j)) * 10 + digit_value(t.last()));
        assert(dec_value(s.subrange(0, j)) <= dec_value(t)) by {
            assert(dec_value(s.subrange(0, j)) * 10 >= dec_value(s.subrange(0, j)));
        }
        lemma_dec_value_prefix_le(s, j + 1);
    }
}

/// Parses a decimal number. Returns the value exactly when the text is a
/// non-empty, all-digit line whose value fits the word.
pub fn parse_u64(s: &str) -> (r: Option<u64>)
    ensures
        match r {
            Some(v) => s@.len() > 0 && all_digits(s@) && v == dec_value(s@),
            None => s@.len() == 0 || !all_digits(s@) || dec_value(s@) > u64::MAX,
        },
{
    let len = s.unicode_len();
    if len == 0 {
        return None;
    }
    let mut acc: u64 = 0;
    let mut i: usize = 0;
    while i < len
        invariant
            0 < len == s@.len(),
            0 <= i <= len,
            all_digits(s@.subrange(0, i as int)),
            acc == dec_value(s@.subrange(0, i as int)),
        decreases len - i,
    {
        let c = s.get_char(i);
        let v = c as u32;
        if v < 48 || v > 57 {
            assert(!is_digit(s@[i as int]));
            return None;
        }
        let d = (v - 48) as u64;
        proof {
            assert(is_digit(s@[i as int]));
            assert(d == digit_value(s@[i as int]));
        }
        if acc > (u64::MAX - d) / 10 {
            proof {
                let t = s@.subrange(0, i + 1);
                assert(t.drop_last() =~= s@.subrange(0, i as int));
                assert(all_digits(t));
                assert(dec_value(t) == acc * 10 + d);
                assert(acc * 10 + d > u64::MAX);
                if all_digits(s@) {
                    lemma_dec_value_prefix_le(s@, i + 1);
                }
            }
            return None;
        }
        acc = acc * 10 + d;
        proof {
            let t = s@.subrange(0, i + 1);
            assert(t.drop_last() =~= s@.subrange(0, i as int));
            assert(acc == dec_value(t));
        }
        i = i + 1;
    }
    proof {
        assert(s@.subrange(0, len as int) =~= s@);
    }
    Some(acc)
}

/// Character-for-character string equality.
pub fn str_eq(a: &str, b: &str) -> (r: bool)
    ensures
        r <==> a@ == b@,
{
    let alen = a.unicode_len();
    let blen = b.unicode_len();
    if alen != blen {
        return false;
    }
    let mut i: usize = 0;
    while i < alen
        invariant
            alen == a@.len(),
            blen == b@.len(),
            alen == blen,
            0 <= i <= alen,
            forall|j: int| 0 <= j < i ==> a@[j] == b@[j],
        decreases alen - i,
    {
        if a.get_char(i) != b.get_char(i) {
            return false;
        }
        i = i + 1;
    }
    proof {
        assert(a@ =~= b@);
    }
    true
}

/// The decimal renderings of a sequence of identifiers, comma-separated.
pub open spec fn join_dec(ids: Seq<u64>) -> Seq<char>
    decreases ids.len(),
{
    if ids.len() == 0 {
        Seq::empty()
    } else if ids.len() == 1 {
        dec_chars(ids[0] as int)
    } else {
        join_dec(ids.drop_last()) + seq![','] + dec_chars(ids.last() as int)
    }
}

/// Renders identifiers as a comma-separated decimal list.
pub fn join_ids(ids: &Vec<u64>) -> (s: String)
    ensures
        s@ == join_dec(ids@),
{
    let mut s = String::new();
    let mut i: usize = 0;
    while i < ids.len()
        invariant
            0 <= i <= ids@.len(),
            s@ == join_dec(ids@.subrange(0, i as int)),
        decreases ids@.len() - i,
    {
        if i > 0 {
            s.append(",");
        }
        let d = u64_to_dec(ids[i]);
        s.append(d.as_str());
        proof {
            let t = ids@.subrange(0, i + 1);
            assert(t.drop_last() =~= ids@.subrange(0, i as int));
            assert(t.last() == ids@[i as int]);
            if i == 0 {
                assert(s@ =~= join_dec(t));
            } else {
                reveal_strlit(",");
                assert(","@ =~= seq![',']);
                assert(s@ =~= join_dec(t));
            }
        }
        i = i + 1;
    }
    proof {
        assert(ids@.subrange(0, ids@.len() as int) =~= ids@);
    }
    s
}

/// The position of the first space of a line, or -1 where it has none.
pub open spec fn first_space_idx(s: Seq<char>) -> int
    decreases s.len(),
{
    if s.len() == 0 {
        -1
    } else if s[0] == ' ' {
        0
    } else {
        let r = first_space_idx(s.subrange(1, s.len() as int));
        if r < 0 {
            -1
        } else {
            r + 1
        }
    }
}

/// What `first_space_idx` finds: either no space at all, or the index of a
/// space with none before it.
pub proof fn lemma_first_space_idx(s: Seq<char>)
    ensures
        first_space_idx(s) == -1 ==> (forall|j: int| 0 <= j < s.len() ==> s[j] != ' '),
        first_space_idx(s) >= 0 ==> {
            let i = first_space_idx(s);
            &&& i < s.len()
            &&& s[i] == ' '
            &&& forall|j: int| 0 <= j < i ==> s[j] != ' '
        },
    decreases s.len(),
{
    if s.len() > 0 && s[0] != ' ' {
        let t = s.subrange(1, s.len() as int);
        lemma_first_space_idx(t);
        assert(forall|j: int| 0 <= j < t.len() ==> t[j] == s[j + 1]);
        let r = first_space_idx(t);
        if r >= 0 {
            assert(first_space_idx(s) == r + 1);
            assert(s[r + 1] == t[r]);
            assert forall|j: int| 0 <= j < r + 1 implies s[j] != ' ' by {
                if j > 0 {
                    assert(s[j] == t[j - 1]);
                    assert(t[j - 1] != ' ');
                }
            }
        } else {
            assert(first_space_idx(s) == -1);
            assert forall|j: int| 0 <= j < s.len() implies s[j] != ' ' by {
                if j > 0 {
                    assert(s[j] == t[j - 1]);
                    assert(t[j - 1] != ' ');
                }
            }
        }
    }
}

/// Finds the first space of a line.
pub fn find_first_space(s: &str) -> (r: Option<usize>)
    ensures
        match r {
            Some(i) => i == first_space_idx(s@),
            None => first_space_idx(s@) == -1,
        },
{
    proof {
        lemma_first_space_idx(s@);
    }
    let len = s.unicode_len();
    let mut i: usize = 0;
    while i < len
        invariant
            len == s@.len(),
            0 <= i <= len,
            forall|j: int| 0 <= j < i ==> s@[j] != ' ',
            first_space_idx(s@) == -1 ==> (forall|j: int| 0 <= j < s@.len() ==> s@[j] != ' '),
            first_space_idx(s@) >= 0 ==> {
                let k = first_space_idx(s@);
                &&& k < s@.len()
                &&& s@[k] == ' '
                &&& forall|j: int| 0 <= j < k ==> s@[j] != ' '
            },
        decreases len - i,
    {
        if s.get_char(i) == ' ' {
            proof {
                if first_space_idx(s@) == -1 {
                    assert(false);
                } else {
                    let k = first_space_idx(s@);
                    if k < i as int {
                        assert(s@[k] != ' ');
                        assert(false);
                    }
                    if k > i as int {
                        assert(s@[i as int] != ' ');
                        assert(false);
                    }
                }
            }
            return Some(i);
        }
        i = i + 1;
    }
    proof {
        if first_space_idx(s@) >= 0 {
            let k = first_space_idx(s@);
            assert(s@[k] != ' ');
            assert(false);
        }
    }
    None
}

} // verus!
