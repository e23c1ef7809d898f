use vstd::prelude::*;
use vstd::string::StringExecFns;
use vstd::string::StrSliceExecFns;

verus! {

/// The character of a decimal digit.
pub open spec fn digit_char(d: nat) -> char {
    (48 + d) as char
}

/// The decimal numeral of a natural number.
pub open spec fn decimal(n: nat) -> Seq<char>
    decreases n,
{
    if n < 10 {
        seq![digit_char(n)]
    } else {
        decimal(n / 10) + seq![digit_char(n % 10)]
    }
}

/// The decimal numeral of `n`.
pub(crate) fn u128_text(n: u128) -> (r: String)
    ensures
        r@ == decimal(n as nat),
    decreases n,
{
    if n < 10 {
        digit_str(n as u64).to_owned()
    } else {
        let head = u128_text(n / 10);
        concat(head.as_str(), digit_str((n % 10) as u64))
    }
}

/// The decimal numeral of `n`.
pub(crate) fn u64_text(n: u64) -> (r: String)
    ensures
        r@ == decimal(n as nat),
{
    u128_text(n as u128)
}

/// The concatenation of two strings.
pub fn concat(a: &str, b: &str) -> (r: String)
    ensures
        r@ == a@ + b@,
{
    let mut s = a.to_owned();
    s.append(b);
    s
}

/// The digits after the decimal point of a fraction of thousandths (1 to 999), without
/// trailing zeros.
pub open spec fn fraction_text(frac: nat) -> Seq<char> {
    let d = seq![digit_char(frac / 100), digit_char(frac / 10 % 10), digit_char(frac % 10)];
    if frac % 100 == 0 {
        d.take(1)
    } else if frac % 10 == 0 {
        d.take(2)
    } else {
        d
    }
}

/// A number of milliseconds written as seconds: the whole seconds, and where there is a
/// fraction, a point and its digits without trailing zeros.
pub open spec fn seconds_text(ms: nat) -> Seq<char> {
    if ms % 1000 == 0 {
        decimal(ms / 1000)
    } else {
        decimal(ms / 1000) + "."@ + fraction_text(ms % 1000)
    }
}

fn digit_str(d: u64) -> (r: &'static str)
    requires
        d < 10,
    ensures
        r@ == seq![digit_char(d as nat)],
{
    proof {
        reveal_strlit("0");
        reveal_strlit("1");
        reveal_strlit("2");
        reveal_strlit("3");
        reveal_strlit("4");
        reveal_strlit("5");
        reveal_strlit("6");
        reveal_strlit("7");
        reveal_strlit("8");
        reveal_strlit("9");
    }
    let r = if d == 0 {
        "0"
    } else if d == 1 {
        "1"
    } else if d == 2 {
        "2"
    } else if d == 3 {
        "3"
    } else if d == 4 {
        "4"
    } else if d == 5 {
        "5"
    } else if d == 6 {
        "6"
    } else if d == 7 {
        "7"
    } else if d == 8 {
        "8"
    } else {
        "9"
    };
    assert(r@ =~= seq![digit_char(d as nat)]);
    r
}

/// Writes a number of milliseconds as seconds.
pub fn seconds_string(ms: u64) -> (r: String)
    ensures
        r@ == seconds_text(ms as nat),
{
    seconds_string_wide(ms as u128)
}

/// Writes a number of milliseconds as seconds.
fn seconds_string_wide(ms: u128) -> (r: String)
    ensures
        r@ == seconds_text(ms as nat),
{
    let whole = u128_text(ms / 1000);
    let frac = (ms % 1000) as u64;
    if frac == 0 {
        return whole;
    }
    let a = digit_str(frac / 100);
    let b = digit_str(frac / 10 % 10);
    let c = digit_str(frac % 10);
    let mut s = concat(whole.as_str(), ".");
    s.append(a);
    if frac % 100 != 0 {
        s.append(b);
        if frac % 10 != 0 {
            s.append(c);
        }
    }
    proof {
        let d = seq![digit_char(frac as nat / 100), digit_char(frac as nat / 10 % 10), digit_char(frac as nat % 10)];
        assert(d.take(1) =~= a@);
        assert(d.take(2) =~= a@ + b@);
        assert(d =~= a@ + b@ + c@);
        assert(s@ =~= seconds_text(ms as nat));
    }
    s
}

/// How a duration of whole milliseconds is written by `Duration`'s `Debug` impl: "0ns" for
/// none, milliseconds below a second, and seconds with their fraction otherwise.
pub open spec fn duration_debug_text(ms: nat) -> Seq<char> {
    if ms == 0 {
        "0ns"@
    } else if ms < 1000 {
        decimal(ms) + "ms"@
    } else {
        seconds_text(ms) + "s"@
    }
}

/// How an optional duration of whole milliseconds is written by `Debug`.
pub open spec fn opt_duration_debug_text(ms: Option<nat>) -> Seq<char> {
    match ms {
        None => "None"@,
        Some(m) => "Some("@ + duration_debug_text(m) + ")"@,
    }
}

/// Writes a duration of whole milliseconds as `Duration`'s `Debug` impl does.
pub(crate) fn duration_debug_string(ms: u128) -> (r: String)
    ensures
        r@ == duration_debug_text(ms as nat),
{
    if ms == 0 {
        "0ns".to_owned()
    } else if ms < 1000 {
        concat(u128_text(ms).as_str(), "ms")
    } else {
        concat(seconds_string_wide(ms).as_str(), "s")
    }
}

/// Writes an optional duration of whole milliseconds as `Debug` does.
pub(crate) fn opt_duration_debug_string(ms: Option<u128>) -> (r: String)
    ensures
        r@ == opt_duration_debug_text(match ms { Some(m) => Some(m as nat), None => None }),
{
    match ms {
        None => "None".to_owned(),
        Some(m) => {
            let inner = concat("Some(", duration_debug_string(m).as_str());
            concat(inner.as_str(), ")")
        },
    }
}

} // verus!

verus! {

/// The strings joined with the separator between each two.
pub open spec fn seq_join(parts: Seq<Seq<char>>, sep: Seq<char>) -> Seq<char>
    decreases parts.len(),
{
    if parts.len() == 0 {
        Seq::empty()
    } else if parts.len() == 1 {
        parts[0]
    } else {
        seq_join(parts.drop_last(), sep) + sep + parts.last()
    }
}

/// Joins the strings with the separator between each two.
pub fn join_strings(parts: &Vec<String>, sep: &str) -> (r: String)
    ensures
        r@ == seq_join(parts@.map_values(|s: String| s@), sep@),
{
    let ghost views = parts@.map_values(|s: String| s@);
    let mut out = String::new();
    let mut i: usize = 0;
    while i < parts.len()
        invariant
            i <= parts@.len(),
            views == parts@.map_values(|s: String| s@),
            out@ == seq_join(views.take(i as int), sep@),
        decreases parts@.len() - i,
    {
        if i > 0 {
            out.append(sep);
        }
        out.append(parts[i].as_str());
        proof {
            assert(views.take(i + 1).drop_last() =~= views.take(i as int));
            assert(views[i as int] == parts@[i as int]@);
            if i == 0 {
                assert(views.take(1) =~= seq![views[0]]);
                assert(out@ =~= seq_join(views.take(i + 1), sep@));
            }
        }
        i = i + 1;
    }
    proof {
        assert(views.take(parts@.len() as int) =~= views);
    }
    out
}

} // verus!

verus! {

/// Whether every character is an ASCII decimal digit.
pub open spec fn all_digits(s: Seq<char>) -> bool {
    forall|i: int| 0 <= i < s.len() ==> '0' <= #[trigger] s[i] <= '9'
}

/// The value of a string of decimal digits.
pub open spec fn digits_value(s: Seq<char>) -> nat
    decreases s.len(),
{
    if s.len() == 0 {
        0
    } else {
        digits_value(s.drop_last()) * 10 + ((s.last() as nat) - 48) as nat
    }
}

/// What `str::parse::<u32>` gives: an optional `+` and then one or more decimal digits
/// whose value fits in a `u32`; anything else is refused.
pub open spec fn parsed_u32(s: Seq<char>) -> Option<u32> {
    let d = if s.len() > 0 && s[0] == '+' { s.drop_first() } else { s };
    if d.len() > 0 && all_digits(d) && digits_value(d) <= u32::MAX {
        Some(digits_value(d) as u32)
    } else {
        None
    }
}

/// The value of a string of digits is at least that of each of its prefixes.
proof fn lemma_digits_value_prefix(d: Seq<char>, k: int)
    requires
        0 <= k <= d.len(),
    ensures
        digits_value(d.take(k)) <= digits_value(d),
    decreases d.len(),
{
    if k < d.len() {
        lemma_digits_value_prefix(d.drop_last(), k);
        assert(d.drop_last().take(k) =~= d.take(k));
    } else {
        assert(d.take(k) =~= d);
    }
}

/// Parses a `u32` as `str::parse` does: an optional `+` followed by decimal digits, refusing
/// anything else and values that overflow.
pub(crate) fn parse_u32(s: &str) -> (r: Option<u32>)
    ensures
        r == parsed_u32(s@),
{
    let n = s.unicode_len();
    let mut start: usize = 0;
    if n > 0 && s.get_char(0) == '+' {
        start = 1;
    }
    let ghost d = if s@.len() > 0 && s@[0] == '+' { s@.drop_first() } else { s@ };
    proof {
        assert(d =~= s@.subrange(start as int, n as int));
    }
    if start >= n {
        return None;
    }
    let mut i: usize = start;
    let mut v: u64 = 0;
    proof {
        assert(d.take(0) =~= Seq::<char>::empty());
    }
    while i < n
        invariant
            start <= i <= n,
            n == s@.len(),
            d == s@.subrange(start as int, n as int),
            d == (if s@.len() > 0 && s@[0] == '+' { s@.drop_first() } else { s@ }),
            all_digits(d.take(i - start)),
            v == digits_value(d.take(i - start)),
            v <= u32::MAX,
        decreases n - i,
    {
        let c = s.get_char(i);
        let ghost k = i - start;
        proof {
            assert(d[k] == c);
        }
        if !('0' <= c && c <= '9') {
            proof {
                assert(!all_digits(d));
            }
            return None;
        }
        let digit: u64 = (c as u32 - 48) as u64;
        proof {
            assert(d.take(k + 1).drop_last() =~= d.take(k));
            assert(d.take(k + 1).last() == c);
        }
        v = v * 10 + digit;
        if v > 4_294_967_295u64 {
            proof {
                if all_digits(d) {
                    lemma_digits_value_prefix(d, k + 1);
                }
            }
            return None;
        }
        i = i + 1;
        proof {
            assert forall|j: int| 0 <= j < i - start implies '0' <= #[trigger] d.take(i - start)[j] <= '9' by {
                if j < k {
                    assert(d.take(i - start)[j] == d.take(k)[j]);
                }
            }
        }
    }
    proof {
        assert(d.take(n - start) =~= d);
    }
    Some(v as u32)
}

/// Whether two strings are equal.
pub fn str_eq(a: &str, b: &str) -> (r: bool)
    ensures
        r == (a@ == b@),
{
    let x = a.to_owned();
    let y = b.to_owned();
    x == y
}

} // verus!
