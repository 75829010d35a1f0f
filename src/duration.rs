use vstd::prelude::*;
use vstd::std_specs::iter::IteratorSpec;

verus! {

/// An ASCII decimal digit.
pub open spec fn is_digit(c: char) -> bool {
    '0' <= c && c <= '9'
}

/// White space as Unicode defines it: tab to carriage return, space, next
/// line, no-break space, ogham space mark, the spaces from en quad to hair
/// space, line and paragraph separators, narrow no-break space, medium
/// mathematical space and ideographic space.
pub open spec fn is_space(c: char) -> bool {
    ||| ('\t' <= c && c <= '\r')
    ||| c == ' '
    ||| c == '\u{85}'
    ||| c == '\u{a0}'
    ||| c == '\u{1680}'
    ||| ('\u{2000}' <= c && c <= '\u{200a}')
    ||| c == '\u{2028}'
    ||| c == '\u{2029}'
    ||| c == '\u{202f}'
    ||| c == '\u{205f}'
    ||| c == '\u{3000}'
}

/// Seconds in one of the accepted units: `s`, `m` or `min`, `h`.
pub open spec fn unit_secs(u: Seq<char>) -> Option<nat> {
    if u.len() == 1 && u[0] == 's' {
        Some(1)
    } else if (u.len() == 1 && u[0] == 'm') || (u.len() == 3 && u[0] == 'm' && u[1] == 'i' && u[2]
        == 'n') {
        Some(60)
    } else if u.len() == 1 && u[0] == 'h' {
        Some(3600)
    } else {
        None
    }
}

/// The value of a string of decimal digits.
pub open spec fn decimal(d: Seq<char>) -> nat
    decreases d.len(),
{
    if d.len() == 0 {
        0
    } else {
        decimal(d.drop_last()) * 10 + ((d.last() as nat) - ('0' as nat)) as nat
    }
}

/// `s` reads as `k` digits, then white space up to position `w`, then a unit
/// that runs to the end.
pub open spec fn duration_split(s: Seq<char>, k: int, w: int) -> bool {
    &&& 0 < k <= w <= s.len()
    &&& forall|i: int| 0 <= i < k ==> is_digit(#[trigger] s[i])
    &&& forall|i: int| k <= i < w ==> is_space(#[trigger] s[i])
    &&& unit_secs(s.subrange(w, s.len() as int)) is Some
}

/// The number of seconds that `s` denotes under the split `(k, w)`.
pub open spec fn split_secs(s: Seq<char>, k: int, w: int) -> nat {
    decimal(s.subrange(0, k)) * unit_secs(s.subrange(w, s.len() as int))->0
}

/// The settle-window text does not follow `<digits><space>*<unit>`, or its
/// value does not fit in 64 bits of seconds.
#[derive(Debug, Clone, Copy, PartialEq, Eq, Structural)]
pub enum DurationError {
    InvalidDurationFormat,
}

proof fn lemma_unit_shape(u: Seq<char>)
    requires
        unit_secs(u) is Some,
    ensures
        u.len() > 0,
        !is_digit(u[0]),
        !is_space(u[0]),
{
}

/// Whatever way `s` is split, the digits end at the first non-digit and the
/// unit starts at the first non-space after them.
proof fn lemma_split_unique(s: Seq<char>, k: int, w: int, i: int, j: int)
    requires
        duration_split(s, k, w),
        0 <= i <= j <= s.len(),
        forall|p: int| 0 <= p < i ==> is_digit(#[trigger] s[p]),
        i < s.len() ==> !is_digit(s[i]),
        forall|p: int| i <= p < j ==> is_space(#[trigger] s[p]),
        j < s.len() ==> !is_space(s[j]),
    ensures
        k == i,
        w == j,
{
    let u = s.subrange(w, s.len() as int);
    lemma_unit_shape(u);
    assert(u[0] == s[w]);
    if k < i {
        assert(is_digit(s[k]));
        if k < w {
            assert(is_space(s[k]));
        }
    }
    if i < k {
        assert(is_digit(s[i]));
    }
    if w < j {
        assert(is_space(s[w]));
    }
    if j < w {
        assert(is_space(s[j]));
    }
}

/// A duration text splits in one way only, so the value it denotes is
/// determined.
pub proof fn lemma_split_is_unique(s: Seq<char>, k1: int, w1: int, k2: int, w2: int)
    requires
        duration_split(s, k1, w1),
        duration_split(s, k2, w2),
    ensures
        k1 == k2,
        w1 == w2,
        split_secs(s, k1, w1) == split_secs(s, k2, w2),
{
    let u = s.subrange(w1, s.len() as int);
    lemma_unit_shape(u);
    assert(u[0] == s[w1]);
    if k1 < w1 {
        assert(!is_digit(s[k1]));
    } else {
        assert(!is_digit(u[0]));
    }
    lemma_split_unique(s, k2, w2, k1, w1);
}

fn is_digit_char(c: char) -> (r: bool)
    ensures
        r == is_digit(c),
{
    '0' <= c && c <= '9'
}

fn is_space_char(c: char) -> (r: bool)
    ensures
        r == is_space(c),
{
    ('\t' <= c && c <= '\r') || c == ' ' || c == '\u{85}' || c == '\u{a0}' || c == '\u{1680}'
        || ('\u{2000}' <= c && c <= '\u{200a}') || c == '\u{2028}' || c == '\u{2029}' || c
        == '\u{202f}' || c == '\u{205f}' || c == '\u{3000}'
}

proof fn lemma_decimal_push(p: Seq<char>, c: char)
    ensures
        decimal(p.push(c)) == decimal(p) * 10 + ((c as nat) - ('0' as nat)) as nat,
{
    assert(p.push(c).drop_last() =~= p);
}

/// The characters of `s`, one by one.
fn chars_of(s: &str) -> (r: Vec<char>)
    ensures
        r@ == s@,
{
    broadcast use vstd::string::group_string_axioms;

    let mut it = s.chars();
    let mut out: Vec<char> = Vec::new();
    loop
        invariant
            out@ + it.remaining() == s@,
        decreases s@.len() - out@.len(),
    {
        match it.next() {
            Some(c) => {
                out.push(c);
            },
            None => {
                assert(out@ =~= s@);
                return out;
            },
        }
    }
}

/// Reads a settle window such as `20s`, `5m`, `5min` or `1h`, in seconds.
pub fn parse_duration_with_units(s: &str) -> (r: Result<u64, DurationError>)
    ensures
        match r {
            Ok(v) => (exists|k: int, w: int| duration_split(s@, k, w)) && forall|k: int, w: int|
                duration_split(s@, k, w) ==> v == split_secs(s@, k, w),
            Err(e) => e == DurationError::InvalidDurationFormat && forall|k: int, w: int|
                duration_split(s@, k, w) ==> split_secs(s@, k, w) > u64::MAX,
        },
{
    let t = chars_of(s);
    let n = t.len();
    let mut i: usize = 0;
    let mut val: u64 = 0;
    let mut overflow = false;
    while i < n && is_digit_char(t[i])
        invariant
            t@ == s@,
            n == t@.len(),
            i <= n,
            forall|p: int| 0 <= p < i ==> is_digit(#[trigger] t@[p]),
            !overflow ==> val == decimal(t@.subrange(0, i as int)),
            overflow ==> decimal(t@.subrange(0, i as int)) > u64::MAX,
        decreases n - i,
    {
        let d = (t[i] as u32 - '0' as u32) as u64;
        assert(t@.subrange(0, i + 1) =~= t@.subrange(0, i as int).push(t@[i as int]));
        proof {
            lemma_decimal_push(t@.subrange(0, i as int), t@[i as int]);
        }
        if !overflow {
            if val > u64::MAX / 10 || (val == u64::MAX / 10 && d > u64::MAX % 10) {
                overflow = true;
            } else {
                val = val * 10 + d;
            }
        }
        i = i + 1;
    }
    let mut j: usize = i;
    while j < n && is_space_char(t[j])
        invariant
            t@ == s@,
            n == t@.len(),
            i <= j <= n,
            forall|p: int| i <= p < j ==> is_space(#[trigger] t@[p]),
        decreases n - j,
    {
        j = j + 1;
    }
    let ghost u = t@.subrange(j as int, n as int);
    let mult: u64 = if n - j == 1 && t[j] == 's' {
        1
    } else if n - j == 1 && t[j] == 'm' {
        60
    } else if n - j == 3 && t[j] == 'm' && t[j + 1] == 'i' && t[j + 2] == 'n' {
        60
    } else if n - j == 1 && t[j] == 'h' {
        3600
    } else {
        0
    };
    let ghost tt = t@;
    proof {
        if mult == 0 {
            assert forall|k: int, w: int| duration_split(tt, k, w) implies false by {
                lemma_split_unique(tt, k, w, i as int, j as int);
            }
        } else {
            assert(unit_secs(u) == Some(mult as nat));
        }
    }
    if mult == 0 || i == 0 {
        proof {
            assert forall|k: int, w: int| duration_split(tt, k, w) implies false by {
                lemma_split_unique(tt, k, w, i as int, j as int);
            }
        }
        return Err(DurationError::InvalidDurationFormat);
    }
    assert(duration_split(tt, i as int, j as int));
    assert forall|k: int, w: int| duration_split(tt, k, w) implies k == i && w == j by {
        lemma_split_unique(tt, k, w, i as int, j as int);
    }
    if overflow {
        assert(split_secs(tt, i as int, j as int) >= decimal(tt.subrange(0, i as int))) by (nonlinear_arith)
            requires mult >= 1, split_secs(tt, i as int, j as int) == decimal(tt.subrange(0, i as int)) * mult;
        return Err(DurationError::InvalidDurationFormat);
    }
    match val.checked_mul(mult) {
        Some(v) => Ok(v),
        None => Err(DurationError::InvalidDurationFormat),
    }
}

} // verus!
