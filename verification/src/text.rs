//! String helpers used throughout the crate, verified against `Seq<char>` models.

use vstd::prelude::*;

verus! {

/// ASCII lower-casing of one character; other characters are unchanged.
pub open spec fn ascii_lower_char(c: char) -> char {
    if 'A' <= c && c <= 'Z' {
        ((c as u32) + 32) as char
    } else {
        c
    }
}

/// ASCII lower-casing of a whole character sequence.
pub open spec fn ascii_lower(s: Seq<char>) -> Seq<char> {
    s.map_values(|c: char| ascii_lower_char(c))
}

/// The view of an optional string.
pub open spec fn opt_view(o: Option<String>) -> Option<Seq<char>> {
    match o {
        Some(s) => Some(s@),
        None => None,
    }
}

/// Every character of `s` is ASCII.
pub open spec fn is_ascii_seq(s: Seq<char>) -> bool {
    forall|i: int| 0 <= i < s.len() ==> (#[trigger] s[i] as u32) < 128
}

/// The decimal digit for `d` below ten.
pub open spec fn digit_char(d: nat) -> char {
    ((d + 48) as u32) as char
}

/// The decimal numeral of `n`, without sign or leading zeros.
pub open spec fn decimal(n: nat) -> Seq<char>
    decreases n,
{
    if n < 10 {
        seq![digit_char(n)]
    } else {
        decimal(n / 10).push(digit_char(n % 10))
    }
}

/// Appends one character to a `String` (`String::push`).
#[verifier::external_body]
pub(crate) fn push_char(s: &mut String, c: char)
    ensures
        final(s)@ == old(s)@.push(c),
{
    s.push(c);
}

/// Lower-cases the ASCII letters of `s`, as `str::to_ascii_lowercase` does.
pub fn to_ascii_lowercase(s: &str) -> (r: String)
    ensures
        r@ == ascii_lower(s@),
{
    let mut r = String::new();
    let n = s.unicode_len();
    let mut i: usize = 0;
    while i < n
        invariant
            n == s@.len(),
            i <= n,
            r@ == ascii_lower(s@.subrange(0, i as int)),
        decreases n - i,
    {
        let c = s.get_char(i);
        let lc = if 'A' <= c && c <= 'Z' {
            ((c as u8) + 32) as char
        } else {
            c
        };
        push_char(&mut r, lc);
        i = i + 1;
        assert(s@.subrange(0, i as int) =~= s@.subrange(0, i - 1).push(c));
    }
    assert(s@.subrange(0, n as int) =~= s@);
    r
}

/// Character-wise equality of two string slices.
pub fn str_eq(a: &str, b: &str) -> (r: bool)
    ensures
        r == (a@ == b@),
{
    let n = a.unicode_len();
    if n != b.unicode_len() {
        return false;
    }
    let mut i: usize = 0;
    while i < n
        invariant
            n == a@.len(),
            n == b@.len(),
            i <= n,
            forall|j: int| 0 <= j < i ==> a@[j] == b@[j],
        decreases n - i,
    {
        if a.get_char(i) != b.get_char(i) {
            return false;
        }
        i = i + 1;
    }
    assert(a@ =~= b@);
    true
}

/// The characters of a string slice.
pub fn chars_of(s: &str) -> (r: Vec<char>)
    ensures
        r@ == s@,
{
    let n = s.unicode_len();
    let mut r: Vec<char> = Vec::new();
    let mut i: usize = 0;
    while i < n
        invariant
            n == s@.len(),
            i <= n,
            r@ == s@.subrange(0, i as int),
        decreases n - i,
    {
        r.push(s.get_char(i));
        i = i + 1;
        assert(r@ =~= s@.subrange(0, i as int));
    }
    assert(r@ =~= s@);
    r
}

/// `n` occurs in `h` at position `i`.
pub open spec fn occurs_at(h: Seq<char>, n: Seq<char>, i: int) -> bool {
    0 <= i && i + n.len() <= h.len() && h.subrange(i, i + n.len()) == n
}

/// `n` occurs somewhere in `h` (`str::contains`).
pub open spec fn seq_contains(h: Seq<char>, n: Seq<char>) -> bool {
    exists|i: int| #[trigger] occurs_at(h, n, i)
}

fn occurs_at_exec(h: &Vec<char>, n: &Vec<char>, i: usize) -> (r: bool)
    requires
        i + n@.len() <= h@.len(),
    ensures
        r == occurs_at(h@, n@, i as int),
{
    let mut j: usize = 0;
    while j < n.len()
        invariant
            i + n@.len() <= h@.len(),
            h@.len() == h.len(),
            j <= n@.len(),
            forall|k: int| 0 <= k < j ==> h@[i + k] == n@[k],
        decreases n.len() - j,
    {
        if h[i + j] != n[j] {
            assert(h@.subrange(i as int, i + n@.len())[j as int] != n@[j as int]);
            return false;
        }
        j = j + 1;
    }
    assert(h@.subrange(i as int, i + n@.len()) =~= n@);
    true
}

/// Whether `needle` occurs in `hay`.
pub fn str_contains(hay: &str, needle: &str) -> (r: bool)
    ensures
        r == seq_contains(hay@, needle@),
{
    let h = chars_of(hay);
    let n = chars_of(needle);
    if n.len() > h.len() {
        assert forall|i: int| !occurs_at(hay@, needle@, i) by {}
        return false;
    }
    let last = h.len() - n.len();
    let mut i: usize = 0;
    loop
        invariant
            h@ == hay@,
            n@ == needle@,
            i <= last,
            last + n@.len() == h@.len(),
            forall|k: int| 0 <= k < i ==> !occurs_at(hay@, needle@, k),
        ensures
            forall|k: int| 0 <= k <= last ==> !occurs_at(hay@, needle@, k),
        decreases last - i,
    {
        if occurs_at_exec(&h, &n, i) {
            return true;
        }
        if i == last {
            break;
        }
        i = i + 1;
    }
    assert forall|k: int| !occurs_at(hay@, needle@, k) by {
        if occurs_at(hay@, needle@, k) {
            assert(0 <= k <= last);
        }
    }
    false
}

/// Whether `s` begins with `p` (`str::starts_with`).
pub fn str_starts_with(s: &str, p: &str) -> (r: bool)
    ensures
        r == p@.is_prefix_of(s@),
{
    let h = chars_of(s);
    let n = chars_of(p);
    if n.len() > h.len() {
        return false;
    }
    let r = occurs_at_exec(&h, &n, 0);
    assert(r == p@.is_prefix_of(s@));
    r
}

/// Whether `s` ends with `p` (`str::ends_with`).
pub fn str_ends_with(s: &str, p: &str) -> (r: bool)
    ensures
        r == p@.is_suffix_of(s@),
{
    let h = chars_of(s);
    let n = chars_of(p);
    if n.len() > h.len() {
        return false;
    }
    let r = occurs_at_exec(&h, &n, h.len() - n.len());
    assert(r == p@.is_suffix_of(s@));
    r
}

/// `s` with every occurrence of the non-empty `p` removed, scanning left to right
/// as `str::replace(p, "")` does.
pub open spec fn remove_all(s: Seq<char>, p: Seq<char>) -> Seq<char>
    recommends
        p.len() > 0,
    decreases s.len(),
{
    if p.len() == 0 || s.len() < p.len() {
        s
    } else if s.subrange(0, p.len() as int) == p {
        remove_all(s.subrange(p.len() as int, s.len() as int), p)
    } else {
        seq![s[0]] + remove_all(s.subrange(1, s.len() as int), p)
    }
}

/// Removes every occurrence of the non-empty `pat` from `s`.
pub fn str_remove_all(s: &str, pat: &str) -> (r: String)
    requires
        pat@.len() > 0,
    ensures
        r@ == remove_all(s@, pat@),
{
    let h = chars_of(s);
    let n = chars_of(pat);
    let mut r = String::new();
    let mut i: usize = 0;
    assert(h@.subrange(0, h@.len() as int) =~= h@);
    while i < h.len()
        invariant
            h@ == s@,
            n@ == pat@,
            n@.len() > 0,
            i <= h@.len(),
            r@ + remove_all(h@.subrange(i as int, h@.len() as int), n@) == remove_all(h@, n@),
        decreases h.len() - i,
    {
        let ghost rest = h@.subrange(i as int, h@.len() as int);
        if n.len() <= h.len() - i && occurs_at_exec(&h, &n, i) {
            assert(rest.subrange(0, n@.len() as int) =~= h@.subrange(i as int, i + n@.len()));
            assert(rest.subrange(n@.len() as int, rest.len() as int) =~= h@.subrange(i + n@.len(), h@.len() as int));
            i = i + n.len();
        } else {
            if n.len() <= h.len() - i {
                assert(rest.subrange(0, n@.len() as int) =~= h@.subrange(i as int, i + n@.len()));
            }
            assert(rest.subrange(1, rest.len() as int) =~= h@.subrange(i + 1, h@.len() as int));
            proof {
                if rest.len() < n@.len() {
                    assert(remove_all(rest, n@) == rest);
                    assert(rest =~= seq![rest[0]] + rest.subrange(1, rest.len() as int));
                    assert(remove_all(rest.subrange(1, rest.len() as int), n@) == rest.subrange(1, rest.len() as int));
                }
            }
            push_char(&mut r, h[i]);
            i = i + 1;
            assert(r@ + remove_all(h@.subrange(i as int, h@.len() as int), n@) =~= remove_all(h@, n@));
        }
    }
    assert(h@.subrange(i as int, h@.len() as int) =~= Seq::<char>::empty());
    assert(r@ =~= remove_all(h@, n@));
    r
}

/// `s` with every occurrence of `p` replaced by `rep`, scanning left to right, as
/// `str::replace` makes it; an empty `p` occurs before each character and at the end.
pub open spec fn replace_all(s: Seq<char>, p: Seq<char>, rep: Seq<char>) -> Seq<char>
    decreases s.len(),
{
    if p.len() == 0 {
        if s.len() == 0 {
            rep
        } else {
            rep + seq![s[0]] + replace_all(s.subrange(1, s.len() as int), p, rep)
        }
    } else if s.len() < p.len() {
        s
    } else if s.subrange(0, p.len() as int) == p {
        rep + replace_all(s.subrange(p.len() as int, s.len() as int), p, rep)
    } else {
        seq![s[0]] + replace_all(s.subrange(1, s.len() as int), p, rep)
    }
}

/// `s` with every occurrence of `pat` replaced by `rep`.
pub fn str_replace_all(s: &str, pat: &str, rep: &str) -> (r: String)
    ensures
        r@ == replace_all(s@, pat@, rep@),
{
    let h = chars_of(s);
    let n = chars_of(pat);
    let mut r = String::new();
    let mut i: usize = 0;
    assert(h@.subrange(0, h@.len() as int) =~= h@);
    while i < h.len()
        invariant
            h@ == s@,
            n@ == pat@,
            i <= h@.len(),
            r@ + replace_all(h@.subrange(i as int, h@.len() as int), n@, rep@) == replace_all(h@, n@, rep@),
        decreases h.len() - i,
    {
        let ghost rest = h@.subrange(i as int, h@.len() as int);
        if n.len() == 0 {
            assert(rest.subrange(1, rest.len() as int) =~= h@.subrange(i + 1, h@.len() as int));
            r.append(rep);
            push_char(&mut r, h[i]);
            i = i + 1;
            assert(r@ + replace_all(h@.subrange(i as int, h@.len() as int), n@, rep@) =~= replace_all(h@, n@, rep@));
        } else if n.len() <= h.len() - i && occurs_at_exec(&h, &n, i) {
            assert(rest.subrange(0, n@.len() as int) =~= h@.subrange(i as int, i + n@.len()));
            assert(rest.subrange(n@.len() as int, rest.len() as int) =~= h@.subrange(i + n@.len(), h@.len() as int));
            r.append(rep);
            i = i + n.len();
            assert(r@ + replace_all(h@.subrange(i as int, h@.len() as int), n@, rep@) =~= replace_all(h@, n@, rep@));
        } else {
            if n.len() <= h.len() - i {
                assert(rest.subrange(0, n@.len() as int) =~= h@.subrange(i as int, i + n@.len()));
            }
            assert(rest.subrange(1, rest.len() as int) =~= h@.subrange(i + 1, h@.len() as int));
            proof {
                if rest.len() < n@.len() {
                    assert(replace_all(rest, n@, rep@) == rest);
                    assert(rest =~= seq![rest[0]] + rest.subrange(1, rest.len() as int));
                    assert(replace_all(rest.subrange(1, rest.len() as int), n@, rep@) == rest.subrange(1, rest.len() as int));
                }
            }
            push_char(&mut r, h[i]);
            i = i + 1;
            assert(r@ + replace_all(h@.subrange(i as int, h@.len() as int), n@, rep@) =~= replace_all(h@, n@, rep@));
        }
    }
    assert(h@.subrange(i as int, h@.len() as int) =~= Seq::<char>::empty());
    if n.len() == 0 {
        r.append(rep);
    }
    assert(r@ =~= replace_all(h@, n@, rep@));
    r
}

/// The pieces of `s` between the occurrences of the non-empty `sep`, scanning
/// left to right; `cur` is the start of the first piece, already read.
pub open spec fn split_from(s: Seq<char>, sep: Seq<char>, cur: Seq<char>) -> Seq<Seq<char>>
    decreases s.len(),
{
    if sep.len() == 0 || s.len() < sep.len() {
        seq![cur + s]
    } else if s.subrange(0, sep.len() as int) == sep {
        seq![cur] + split_from(s.subrange(sep.len() as int, s.len() as int), sep, Seq::empty())
    } else {
        split_from(s.subrange(1, s.len() as int), sep, cur.push(s[0]))
    }
}

/// The pieces of `s` between the occurrences of `sep`, as `str::split` gives them.
pub open spec fn split_seq(s: Seq<char>, sep: Seq<char>) -> Seq<Seq<char>> {
    split_from(s, sep, Seq::empty())
}

/// The views of a list of strings.
pub open spec fn views(v: Seq<String>) -> Seq<Seq<char>> {
    v.map_values(|x: String| x@)
}

/// Splits `s` at each occurrence of the non-empty `sep`.
pub fn str_split(s: &str, sep: &str) -> (r: Vec<String>)
    requires
        sep@.len() > 0,
    ensures
        views(r@) == split_seq(s@, sep@),
{
    let h = chars_of(s);
    let n = chars_of(sep);
    let mut parts: Vec<String> = Vec::new();
    let mut cur = String::new();
    let mut i: usize = 0;
    assert(h@.subrange(0, h@.len() as int) =~= h@);
    while i < h.len()
        invariant
            h@ == s@,
            n@ == sep@,
            n@.len() > 0,
            i <= h@.len(),
            views(parts@) + split_from(h@.subrange(i as int, h@.len() as int), n@, cur@) == split_seq(h@, n@),
        decreases h.len() - i,
    {
        let ghost rest = h@.subrange(i as int, h@.len() as int);
        if n.len() <= h.len() - i && occurs_at_exec(&h, &n, i) {
            assert(rest.subrange(0, n@.len() as int) =~= h@.subrange(i as int, i + n@.len()));
            assert(rest.subrange(n@.len() as int, rest.len() as int) =~= h@.subrange(i + n@.len(), h@.len() as int));
            let mut piece = String::new();
            std::mem::swap(&mut piece, &mut cur);
            let ghost before = parts@;
            parts.push(piece);
            assert(views(parts@) =~= views(before) + seq![piece@]);
            i = i + n.len();
            assert(views(parts@) + split_from(h@.subrange(i as int, h@.len() as int), n@, cur@) =~= split_seq(h@, n@));
        } else {
            if n.len() <= h.len() - i {
                assert(rest.subrange(0, n@.len() as int) =~= h@.subrange(i as int, i + n@.len()));
            }
            assert(rest.subrange(1, rest.len() as int) =~= h@.subrange(i + 1, h@.len() as int));
            proof {
                if rest.len() < n@.len() {
                    assert(split_from(rest, n@, cur@) == seq![cur@ + rest]);
                    assert(cur@ + rest =~= cur@.push(rest[0]) + rest.subrange(1, rest.len() as int));
                    assert(split_from(rest.subrange(1, rest.len() as int), n@, cur@.push(rest[0])) == seq![cur@.push(rest[0]) + rest.subrange(1, rest.len() as int)]);
                }
            }
            push_char(&mut cur, h[i]);
            i = i + 1;
        }
    }
    assert(h@.subrange(i as int, h@.len() as int) =~= Seq::<char>::empty());
    assert(cur@ + Seq::<char>::empty() =~= cur@);
    let ghost before = parts@;
    parts.push(cur);
    assert(views(parts@) =~= views(before) + seq![views(parts@).last()]);
    parts
}

/// Appends the decimal numeral of `n`.
pub fn push_decimal(s: &mut String, n: u64)
    ensures
        final(s)@ == old(s)@ + decimal(n as nat),
    decreases n,
{
    if n >= 10 {
        push_decimal(s, n / 10);
    }
    let d = (n % 10) as u8;
    push_char(s, (d + 48) as char);
    assert(digit_char((n % 10) as nat) == ((d + 48) as char));
}

/// The decimal numeral of `n`.
pub fn decimal_string(n: u64) -> (r: String)
    ensures
        r@ == decimal(n as nat),
{
    let mut r = String::new();
    push_decimal(&mut r, n);
    assert(r@ =~= decimal(n as nat));
    r
}

/// `c` is an ASCII decimal digit.
pub open spec fn is_digit(c: char) -> bool {
    '0' <= c && c <= '9'
}

/// The number that the ASCII decimal digits of `s` denote.
pub open spec fn digits_value(s: Seq<char>) -> nat
    decreases s.len(),
{
    if s.len() == 0 {
        0
    } else {
        digits_value(s.drop_last()) * 10 + ((s.last() as u32) - 48) as nat
    }
}

/// How an unsigned integer no larger than `max` is read from `s`, as `str::parse`
/// reads it: an optional `+`, then one or more decimal digits.
pub open spec fn parse_unsigned(s: Seq<char>, max: nat) -> Option<nat> {
    let d = unsigned_digits(s);
    if d.len() > 0 && all_digits(d) && digits_value(d) <= max {
        Some(digits_value(d))
    } else {
        None
    }
}

/// `s` without a leading `+`.
pub open spec fn unsigned_digits(s: Seq<char>) -> Seq<char> {
    if s.len() > 0 && s[0] == '+' { s.drop_first() } else { s }
}

/// Every character of `s` is a decimal digit.
pub open spec fn all_digits(s: Seq<char>) -> bool {
    forall|i: int| 0 <= i < s.len() ==> is_digit(#[trigger] s[i])
}

/// Digits never make a number smaller when more are appended.
pub proof fn lemma_digits_value_grows(s: Seq<char>, k: int)
    requires
        0 <= k <= s.len(),
        forall|i: int| 0 <= i < s.len() ==> is_digit(#[trigger] s[i]),
    ensures
        digits_value(s.subrange(0, k)) <= digits_value(s),
    decreases s.len() - k,
{
    if k < s.len() {
        lemma_digits_value_grows(s, k + 1);
        assert(s.subrange(0, k + 1).drop_last() =~= s.subrange(0, k));
    } else {
        assert(s.subrange(0, k) =~= s);
    }
}

proof fn lemma_digit_char(d: nat)
    requires
        d < 10,
    ensures
        digit_char(d) as u32 == d + 48,
        is_digit(digit_char(d)),
{
    assert(((d + 48) as u32) as char as u32 == d + 48);
}

/// A decimal numeral is a non-empty run of digits denoting its number.
pub proof fn lemma_decimal_digits(n: nat)
    ensures
        decimal(n).len() > 0,
        all_digits(decimal(n)),
        digits_value(decimal(n)) == n,
    decreases n,
{
    lemma_digit_char(n % 10);
    if n < 10 {
        assert(decimal(n).drop_last() =~= Seq::<char>::empty());
        assert(decimal(n).last() == digit_char(n));
        assert(n % 10 == n);
        assert(digits_value(decimal(n)) == digits_value(decimal(n).drop_last()) * 10 + n);
    } else {
        assert((n / 10) * 10 + n % 10 == n) by (nonlinear_arith);
        lemma_decimal_digits(n / 10);
        let s = decimal(n);
        assert(s.drop_last() =~= decimal(n / 10));
        assert(s.last() == digit_char(n % 10));
        assert(digits_value(s) == digits_value(decimal(n / 10)) * 10 + n % 10);
        assert forall|i: int| 0 <= i < s.len() implies is_digit(#[trigger] s[i]) by {
            if i < s.len() - 1 {
                assert(s[i] == decimal(n / 10)[i]);
            }
        }
    }
}

/// Reading back the decimal numeral of a number gives the number.
pub proof fn lemma_decimal_parses(n: nat, max: nat)
    requires
        n <= max,
    ensures
        parse_unsigned(decimal(n), max) == Some(n),
{
    lemma_decimal_digits(n);
    assert(is_digit(decimal(n)[0]));
    assert(unsigned_digits(decimal(n)) == decimal(n));
}

/// Reads an unsigned integer no larger than `max` from `s`, as `str::parse` does.
pub fn parse_decimal(s: &str, max: u64) -> (r: Option<u64>)
    ensures
        match parse_unsigned(s@, max as nat) {
            Some(v) => r == Some(v as u64),
            None => r is None,
        },
{
    let chars = chars_of(s);
    let mut i: usize = 0;
    if chars.len() > 0 && chars[0] == '+' {
        i = 1;
    }
    let ghost d = unsigned_digits(s@);
    let start = i;
    assert(d =~= chars@.subrange(start as int, chars@.len() as int));
    if i == chars.len() {
        return None;
    }
    let mut acc: u64 = 0;
    while i < chars.len()
        invariant
            chars@ == s@,
            start <= i <= chars@.len(),
            d == chars@.subrange(start as int, chars@.len() as int),
            d == unsigned_digits(s@),
            forall|j: int| start <= j < i ==> is_digit(#[trigger] chars@[j]),
            acc as nat == digits_value(chars@.subrange(start as int, i as int)),
            acc <= max,
        decreases chars.len() - i,
    {
        let c = chars[i];
        if !('0' <= c && c <= '9') {
            assert(d[i - start] == c);
            assert(!is_digit(d[i - start]));
            assert(!all_digits(d));
            return None;
        }
        let digit = ((c as u32) - 48) as u64;
        assert(chars@.subrange(start as int, i + 1).drop_last() =~= chars@.subrange(start as int, i as int));
        assert(chars@.subrange(start as int, i + 1).last() == c);
        assert(digits_value(chars@.subrange(start as int, i + 1)) == acc * 10 + digit);
        let next = match acc.checked_mul(10) {
            Some(t) => t.checked_add(digit),
            None => None,
        };
        let next = match next {
            Some(v) => v,
            None => {
                proof {
                    assert(acc * 10 + digit > u64::MAX);
                    if all_digits(d) {
                        lemma_digits_value_grows(d, i + 1 - start);
                        assert(d.subrange(0, i + 1 - start) =~= chars@.subrange(start as int, i + 1));
                        assert(digits_value(d) > max);
                    }
                }
                return None;
            },
        };
        if next > max {
            proof {
                if all_digits(d) {
                    lemma_digits_value_grows(d, i + 1 - start);
                    assert(d.subrange(0, i + 1 - start) =~= chars@.subrange(start as int, i + 1));
                }
            }
            return None;
        }
        acc = next;
        i = i + 1;
    }
    assert(chars@.subrange(start as int, i as int) =~= d);
    Some(acc)
}

} // verus!
