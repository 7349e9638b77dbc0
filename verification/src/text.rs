//! Text building blocks shared by the diagnostics: joining lines, decimal
//! numerals, and the views of optional strings.
use vstd::prelude::*;

verus! {

/// `parts` joined by `sep`: the separator stands between each two neighbours,
/// and nowhere else.
pub open spec fn seq_join(parts: Seq<Seq<char>>, sep: Seq<char>) -> Seq<char>
    decreases parts.len(),
{
    if parts.len() == 0 {
        Seq::empty()
    } else if parts.len() == 1 {
        parts[0]
    } else {
        seq_join(parts.drop_last(), sep) + sep + parts.last()
    }
}

/// The character sequences of a sequence of string slices.
pub open spec fn str_views(parts: Seq<&str>) -> Seq<Seq<char>> {
    parts.map_values(|s: &str| s@)
}

/// The view of an optional owned string.
pub open spec fn opt_string_view(o: Option<String>) -> Option<Seq<char>> {
    match o {
        Some(s) => Some(s@),
        None => None,
    }
}

/// The view of an optional string slice.
pub open spec fn opt_str_view(o: Option<&str>) -> Option<Seq<char>> {
    match o {
        Some(s) => Some(s@),
        None => None,
    }
}

/// Joins `parts` with `sep` between each two neighbours.
pub fn join(parts: &[&str], sep: &str) -> (joined: String)
    ensures
        joined@ == seq_join(str_views(parts@), sep@),
{
    let mut joined = String::new();
    let n: usize = parts.len();
    let mut i: usize = 0;
    while i < n
        invariant
            n == parts@.len(),
            0 <= i <= n,
            joined@ == seq_join(str_views(parts@.take(i as int)), sep@),
        decreases n - i,
    {
        if i != 0 {
            joined.append(sep);
        }
        joined.append(parts[i]);
        proof {
            assert(str_views(parts@.take(i + 1)).drop_last() =~= str_views(parts@.take(i as int)));
            assert(str_views(parts@.take(i + 1)).last() == parts@[i as int]@);
        }
        i = i + 1;
    }
    proof {
        assert(parts@.take(n as int) =~= parts@);
    }
    joined
}

/// The numeral of a single decimal digit.
pub open spec fn digit_text(d: int) -> Seq<char> {
    if d == 0 {
        "0"@
    } else if d == 1 {
        "1"@
    } else if d == 2 {
        "2"@
    } else if d == 3 {
        "3"@
    } else if d == 4 {
        "4"@
    } else if d == 5 {
        "5"@
    } else if d == 6 {
        "6"@
    } else if d == 7 {
        "7"@
    } else if d == 8 {
        "8"@
    } else {
        "9"@
    }
}

/// The decimal numeral of a natural number, without leading zeros.
pub open spec fn decimal_text(n: nat) -> Seq<char>
    decreases n,
{
    if n < 10 {
        digit_text(n as int)
    } else {
        decimal_text(n / 10) + digit_text((n % 10) as int)
    }
}

/// The decimal numeral of an integer, with a leading `-` when it is negative.
pub open spec fn signed_decimal_text(n: int) -> Seq<char> {
    if n < 0 {
        "-"@ + decimal_text((-n) as nat)
    } else {
        decimal_text(n as nat)
    }
}

fn digit_str(d: u32) -> (s: &'static str)
    requires
        d < 10,
    ensures
        s@ == digit_text(d as int),
{
    if d == 0 {
        "0"
    } else if d == 1 {
        "1"
    } else if d == 2 {
        "2"
    } else if d == 3 {
        "3"
    } else if d == 4 {
        "4"
    } else if d == 5 {
        "5"
    } else if d == 6 {
        "6"
    } else if d == 7 {
        "7"
    } else if d == 8 {
        "8"
    } else {
        "9"
    }
}

/// The decimal numeral of `n`.
pub fn decimal(n: u32) -> (s: String)
    ensures
        s@ == decimal_text(n as nat),
    decreases n,
{
    if n < 10 {
        String::from_str(digit_str(n))
    } else {
        let mut s = decimal(n / 10);
        s.append(digit_str(n % 10));
        s
    }
}

/// The decimal numeral of `n`, signed.
pub fn signed_decimal(n: i32) -> (s: String)
    ensures
        s@ == signed_decimal_text(n as int),
{
    if n < 0 {
        let magnitude: u32 = if n == i32::MIN {
            2147483648u32
        } else {
            (-n) as u32
        };
        let digits = decimal(magnitude);
        let mut s = String::from_str("-");
        s.append(digits.as_str());
        s
    } else {
        decimal(n as u32)
    }
}

/// Whether `c` is one of the decimal digits.
pub open spec fn is_digit(c: char) -> bool {
    '0' <= c && c <= '9'
}

/// The number that a string of decimal digits denotes.
pub open spec fn digits_value(s: Seq<char>) -> int
    decreases s.len(),
{
    if s.len() == 0 {
        0
    } else {
        digits_value(s.drop_last()) * 10 + (s.last() as int - '0' as int)
    }
}

proof fn lemma_digit_text(d: int)
    requires
        0 <= d < 10,
    ensures
        digit_text(d).len() == 1,
        digit_text(d)[0] as int == '0' as int + d,
{
    reveal_strlit("0");
    reveal_strlit("1");
    reveal_strlit("2");
    reveal_strlit("3");
    reveal_strlit("4");
    reveal_strlit("5");
    reveal_strlit("6");
    reveal_strlit("7");
    reveal_strlit("8");
    reveal_strlit("9");
}

/// The numeral of a natural number is made of decimal digits only, denotes
/// that number, and starts with `0` only when the number is 0.
pub proof fn law_decimal_numeral(n: nat)
    ensures
        decimal_text(n).len() >= 1,
        forall|i: int| 0 <= i < decimal_text(n).len() ==> is_digit(#[trigger] decimal_text(n)[i]),
        digits_value(decimal_text(n)) == n,
        (decimal_text(n)[0] == '0') <==> (n == 0),
    decreases n,
{
    if n < 10 {
        lemma_digit_text(n as int);
        let s = decimal_text(n);
        assert(s.drop_last() =~= Seq::<char>::empty());
        assert(digits_value(s.drop_last()) == 0);
        assert(s.last() == s[0]);
        assert(digits_value(s) == digits_value(s.drop_last()) * 10 + (s.last() as int - '0' as int));
    } else {
        let q = n / 10;
        let r = n % 10;
        law_decimal_numeral(q);
        lemma_digit_text(r as int);
        let a = decimal_text(q);
        let b = digit_text(r as int);
        let s = decimal_text(n);
        assert(s == a + b);
        assert(s.drop_last() =~= a);
        assert(s.last() == b[0]);
        assert(q * 10 + r == n) by (nonlinear_arith)
            requires
                q == n / 10,
                r == n % 10,
        ;
        assert(digits_value(s) == digits_value(s.drop_last()) * 10 + (s.last() as int - '0' as int));
        assert(digits_value(s) == q * 10 + r);
        assert(q >= 1);
        assert(s[0] == a[0]);
        assert forall|i: int| 0 <= i < s.len() implies is_digit(#[trigger] s[i]) by {
            if i < a.len() {
                assert(s[i] == a[i]);
            } else {
                assert(s[i] == b[0]);
            }
        }
    }
}

/// The numeral of an integer denotes it: a negative one is `-` followed by
/// the numeral of its magnitude.
pub proof fn law_signed_decimal_numeral(n: int)
    ensures
        n < 0 ==> signed_decimal_text(n)[0] == '-' && signed_decimal_text(n).drop_first() == decimal_text((-n) as nat)
            && digits_value(signed_decimal_text(n).drop_first()) == -n,
        n >= 0 ==> digits_value(signed_decimal_text(n)) == n,
{
    reveal_strlit("-");
    if n < 0 {
        law_decimal_numeral((-n) as nat);
        assert(signed_decimal_text(n).drop_first() =~= decimal_text((-n) as nat));
    } else {
        law_decimal_numeral(n as nat);
    }
}

/// The total length of a sequence of texts.
pub open spec fn total_len(parts: Seq<Seq<char>>) -> int
    decreases parts.len(),
{
    if parts.len() == 0 {
        0
    } else {
        total_len(parts.drop_last()) + parts.last().len()
    }
}

/// Joining keeps every part whole and in order, and adds one separator
/// between each two neighbours: the joined text is as long as the parts
/// together plus one separator fewer than there are parts, it starts with the
/// first part, and it ends with the last.
pub proof fn law_join_keeps_parts(parts: Seq<Seq<char>>, sep: Seq<char>)
    requires
        parts.len() >= 1,
    ensures
        seq_join(parts, sep).len() == total_len(parts) + (parts.len() - 1) * sep.len(),
        parts[0].len() <= seq_join(parts, sep).len(),
        seq_join(parts, sep).subrange(0, parts[0].len() as int) == parts[0],
        seq_join(parts, sep).subrange(
            seq_join(parts, sep).len() - parts.last().len(),
            seq_join(parts, sep).len() as int,
        ) == parts.last(),
    decreases parts.len(),
{
    let joined = seq_join(parts, sep);
    if parts.len() == 1 {
        assert(parts.drop_last() =~= Seq::<Seq<char>>::empty());
        assert(total_len(parts) == total_len(parts.drop_last()) + parts.last().len());
        assert(joined.subrange(0, parts[0].len() as int) =~= parts[0]);
        assert(joined.subrange(joined.len() - parts.last().len(), joined.len() as int) =~= parts.last());
    } else {
        let init = parts.drop_last();
        law_join_keeps_parts(init, sep);
        let k = parts.len() - 1;
        assert((k - 1) * sep.len() + sep.len() == k * sep.len()) by (nonlinear_arith);
        assert(init[0] == parts[0]);
        let front = seq_join(init, sep);
        assert(joined == front + sep + parts.last());
        assert(total_len(parts) == total_len(init) + parts.last().len());
        assert(joined.len() == front.len() + sep.len() + parts.last().len());
        assert(joined.subrange(0, parts[0].len() as int) =~= front.subrange(0, parts[0].len() as int));
        assert(joined.subrange(joined.len() - parts.last().len(), joined.len() as int) =~= parts.last());
    }
}

} // verus!
