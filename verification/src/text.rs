use vstd::prelude::*;
use vstd::utf8::{decode_utf8, encode_utf8, is_char_boundary};

verus! {

/// The view of an optional string.
pub open spec fn opt_view(s: Option<String>) -> Option<Seq<char>> {
    match s {
        Some(t) => Some(t@),
        None => None,
    }
}

/// The character of digit `d` (upper-case for the letters of radix 16).
pub open spec fn digit_char(d: nat) -> char {
    if d < 10 {
        (('0' as nat) + d) as char
    } else {
        (('A' as nat) + (d - 10)) as char
    }
}

/// The decimal representation of `n`, without sign or leading zeros.
pub open spec fn decimal(n: nat) -> Seq<char>
    decreases n,
{
    if n < 10 {
        seq![digit_char(n)]
    } else {
        decimal(n / 10).push(digit_char(n % 10))
    }
}

fn digit_str(d: u64) -> (s: &'static str)
    requires
        d < 16,
    ensures
        s@ == seq![digit_char(d as nat)],
{
    proof {
        reveal_strlit("0");
        reveal_strlit("1");
        reveal_strlit("2");
        reveal_strlit("3");
        reveal_strlit("4");
        reveal_strlit("5");
        reveal_strlit("6");
        reveal_strlit("7");
        reveal_strlit("8");
        reveal_strlit("9");
        reveal_strlit("A");
        reveal_strlit("B");
        reveal_strlit("C");
        reveal_strlit("D");
        reveal_strlit("E");
        reveal_strlit("F");
    }
    match d {
        0 => "0",
        1 => "1",
        2 => "2",
        3 => "3",
        4 => "4",
        5 => "5",
        6 => "6",
        7 => "7",
        8 => "8",
        9 => "9",
        10 => "A",
        11 => "B",
        12 => "C",
        13 => "D",
        14 => "E",
        _ => "F",
    }
}

/// Appends the decimal representation of `n` to `out`.
pub fn push_decimal(out: &mut String, n: u64)
    ensures
        final(out)@ == old(out)@ + decimal(n as nat),
    decreases n,
{
    if n >= 10 {
        push_decimal(out, n / 10);
    }
    out.append(digit_str(n % 10));
}

/// The decimal representation of `n`, as `n.to_string()` writes it.
pub fn u64_to_string(n: u64) -> (r: String)
    ensures
        r@ == decimal(n as nat),
{
    let mut s = String::new();
    push_decimal(&mut s, n);
    s
}


/// The decimal representation of a signed integer, with a leading `-` when negative.
pub open spec fn decimal_int(i: int) -> Seq<char> {
    if i < 0 {
        seq!['-'] + decimal((-i) as nat)
    } else {
        decimal(i as nat)
    }
}

/// The decimal representation of `n`, as `n.to_string()` writes it.
pub fn i64_to_string(n: i64) -> (r: String)
    ensures
        r@ == decimal_int(n as int),
{
    let mut s = String::new();
    if n < 0 {
        proof {
            reveal_strlit("-");
        }
        s.append("-");
        let m: u64 = if n == i64::MIN {
            9223372036854775808u64
        } else {
            (-n) as u64
        };
        push_decimal(&mut s, m);
    } else {
        push_decimal(&mut s, n as u64);
    }
    s
}

/// The upper-case hexadecimal representation of `n`, without leading zeros.
pub open spec fn hex(n: nat) -> Seq<char>
    decreases n,
{
    if n < 16 {
        seq![digit_char(n)]
    } else {
        hex(n / 16).push(digit_char(n % 16))
    }
}

/// `k` zeros.
pub open spec fn zeros(k: nat) -> Seq<char> {
    Seq::new(k, |i: int| '0')
}

/// `s` padded on the left with `'0'` up to `width` characters.
pub open spec fn zero_padded(s: Seq<char>, width: nat) -> Seq<char> {
    if s.len() < width {
        zeros((width - s.len()) as nat) + s
    } else {
        s
    }
}

fn push_hex(out: &mut String, n: u64)
    ensures
        final(out)@ == old(out)@ + hex(n as nat),
    decreases n,
{
    if n >= 16 {
        push_hex(out, n / 16);
    }
    out.append(digit_str(n % 16));
}

/// `n` in upper-case hexadecimal, zero-padded to six digits (`format!("{:06X}", n)`).
pub fn hex6(n: u32) -> (r: String)
    ensures
        r@ == zero_padded(hex(n as nat), 6),
{
    let mut digits = String::new();
    push_hex(&mut digits, n as u64);
    let len = digits.as_str().unicode_len();
    let mut r = String::new();
    let mut k: usize = len;
    proof {
        reveal_strlit("0");
    }
    while k < 6
        invariant
            len == hex(n as nat).len(),
            digits@ == hex(n as nat),
            "0"@ == seq!['0'],
            len <= k <= 6 || (len > 6 && k == len),
            r@ == zeros((k - len) as nat),
        decreases 6 - k,
    {
        r.append("0");
        assert(r@ =~= zeros((k + 1 - len) as nat));
        k = k + 1;
    }
    r.append(digits.as_str());
    assert(r@ =~= zero_padded(hex(n as nat), 6));
    r
}

/// The characters of `s`.
pub fn chars_of(s: &str) -> (v: Vec<char>)
    ensures
        v@ == s@,
{
    let n = s.unicode_len();
    let mut v: Vec<char> = Vec::new();
    let mut i: usize = 0;
    while i < n
        invariant
            n == s@.len(),
            i <= n,
            v@ == s@.subrange(0, i as int),
        decreases n - i,
    {
        let c = s.get_char(i);
        v.push(c);
        assert(v@ =~= s@.subrange(0, i + 1));
        i = i + 1;
    }
    assert(v@ =~= s@);
    v
}

/// Unicode `White_Space`, the property that `char::is_whitespace` tests.
pub open spec fn is_white_space(c: char) -> bool {
    let u = c as u32;
    (0x9 <= u && u <= 0xD) || u == 0x20 || u == 0x85 || u == 0xA0 || u == 0x1680 || (0x2000 <= u
        && u <= 0x200A) || u == 0x2028 || u == 0x2029 || u == 0x202F || u == 0x205F || u == 0x3000
}

/// Whether `c` is Unicode white space.
pub fn is_whitespace(c: char) -> (r: bool)
    ensures
        r == is_white_space(c),
{
    let u = c as u32;
    (0x9 <= u && u <= 0xD) || u == 0x20 || u == 0x85 || u == 0xA0 || u == 0x1680 || (0x2000 <= u
        && u <= 0x200A) || u == 0x2028 || u == 0x2029 || u == 0x202F || u == 0x205F || u == 0x3000
}

/// `s` without its leading white space.
pub open spec fn trim_start(s: Seq<char>) -> Seq<char>
    decreases s.len(),
{
    if s.len() > 0 && is_white_space(s[0]) {
        trim_start(s.drop_first())
    } else {
        s
    }
}

/// `s` without its trailing white space.
pub open spec fn trim_end(s: Seq<char>) -> Seq<char>
    decreases s.len(),
{
    if s.len() > 0 && is_white_space(s.last()) {
        trim_end(s.drop_last())
    } else {
        s
    }
}

/// `s` without leading and trailing white space, as `str::trim` leaves it.
pub open spec fn trimmed(s: Seq<char>) -> Seq<char> {
    trim_end(trim_start(s))
}

/// `s` without leading and trailing white space.
pub fn trim(s: &str) -> (r: &str)
    ensures
        r@ == trimmed(s@),
{
    let v = chars_of(s);
    let n = v.len();
    let mut i: usize = 0;
    assert(s@.subrange(0, n as int) =~= s@);
    while i < n && is_whitespace(v[i])
        invariant
            v@ == s@,
            n == s@.len(),
            i <= n,
            trim_start(s@) == trim_start(s@.subrange(i as int, n as int)),
        decreases n - i,
    {
        assert(s@.subrange(i as int, n as int).drop_first() =~= s@.subrange(i + 1, n as int));
        i = i + 1;
    }
    assert(trim_start(s@.subrange(i as int, n as int)) == s@.subrange(i as int, n as int));
    let mut j: usize = n;
    while j > i && is_whitespace(v[j - 1])
        invariant
            v@ == s@,
            n == s@.len(),
            i <= j <= n,
            trimmed(s@) == trim_end(s@.subrange(i as int, j as int)),
        decreases j - i,
    {
        assert(s@.subrange(i as int, j as int).drop_last() =~= s@.subrange(i as int, j - 1));
        j = j - 1;
    }
    s.substring_char(i, j)
}

/// Index of the first `c` in `s`, or `s.len()` when `c` does not occur.
pub open spec fn find_char(s: Seq<char>, c: char) -> nat
    decreases s.len(),
{
    if s.len() == 0 {
        0
    } else if s[0] == c {
        0
    } else {
        1 + find_char(s.drop_first(), c)
    }
}

/// What `find_char` is: the first position holding `c`, or the length.
pub proof fn lemma_find_char(s: Seq<char>, c: char)
    ensures
        find_char(s, c) <= s.len(),
        forall|k: int| 0 <= k < find_char(s, c) ==> s[k] != c,
        find_char(s, c) < s.len() ==> s[find_char(s, c) as int] == c,
    decreases s.len(),
{
    if s.len() > 0 && s[0] != c {
        lemma_find_char(s.drop_first(), c);
        assert forall|k: int| 0 <= k < find_char(s, c) implies s[k] != c by {
            if k > 0 {
                assert(s[k] == s.drop_first()[k - 1]);
            }
        }
    }
}

/// The first `c` is where the first character equal to `c` stands.
pub proof fn lemma_find_char_at(s: Seq<char>, c: char, i: int)
    requires
        0 <= i <= s.len(),
        i < s.len() ==> s[i] == c,
        forall|k: int| 0 <= k < i ==> s[k] != c,
    ensures
        find_char(s, c) == i,
{
    lemma_find_char(s, c);
    let f = find_char(s, c) as int;
    if f < i {
        assert(s[f] == c);
    }
    if f > i {
        assert(s[i] == c);
    }
}

/// Position of the first `c` in `s` (the length of `s` when absent).
pub fn find(s: &Vec<char>, c: char) -> (r: usize)
    ensures
        r == find_char(s@, c),
{
    let mut i: usize = 0;
    while i < s.len() && s[i] != c
        invariant
            i <= s.len(),
            forall|k: int| 0 <= k < i ==> s@[k] != c,
        decreases s.len() - i,
    {
        i = i + 1;
    }
    proof {
        lemma_find_char(s@, c);
        let f = find_char(s@, c);
        if f < i {
            assert(s@[f as int] == c);
        }
        if f > i {
            assert(s@[i as int] == c);
        }
    }
    i
}

/// `s` with `prefix` removed, when `s` starts with it.
pub open spec fn strip_prefix_spec(s: Seq<char>, prefix: Seq<char>) -> Option<Seq<char>> {
    if prefix.is_prefix_of(s) {
        Some(s.subrange(prefix.len() as int, s.len() as int))
    } else {
        None
    }
}

/// Whether `s` starts with `prefix`.
pub fn starts_with(s: &str, prefix: &str) -> (r: bool)
    ensures
        r == prefix@.is_prefix_of(s@),
{
    let sv = chars_of(s);
    let pv = chars_of(prefix);
    if pv.len() > sv.len() {
        return false;
    }
    let mut i: usize = 0;
    while i < pv.len()
        invariant
            pv@ == prefix@,
            sv@ == s@,
            pv.len() <= sv.len(),
            i <= pv.len(),
            forall|k: int| 0 <= k < i ==> pv@[k] == sv@[k],
        decreases pv.len() - i,
    {
        if pv[i] != sv[i] {
            return false;
        }
        i = i + 1;
    }
    true
}

/// `s` without `prefix`, or `None` when `s` does not start with it (`str::strip_prefix`).
pub fn strip_prefix<'a>(s: &'a str, prefix: &str) -> (r: Option<&'a str>)
    ensures
        match r {
            Some(rest) => strip_prefix_spec(s@, prefix@) == Some(rest@),
            None => strip_prefix_spec(s@, prefix@) is None,
        },
{
    if starts_with(s, prefix) {
        let n = s.unicode_len();
        let p = prefix.unicode_len();
        Some(s.substring_char(p, n))
    } else {
        None
    }
}

/// The value of `c` as a digit (`char::to_digit(36)`), or 36 when it is none.
pub open spec fn digit_value(c: char) -> nat {
    if '0' <= c && c <= '9' {
        (c as nat - '0' as nat) as nat
    } else if 'a' <= c && c <= 'z' {
        (c as nat - 'a' as nat + 10) as nat
    } else if 'A' <= c && c <= 'Z' {
        (c as nat - 'A' as nat + 10) as nat
    } else {
        36
    }
}

/// The number that the digit string `s` writes in `radix`.
pub open spec fn digits_value(s: Seq<char>, radix: nat) -> nat
    decreases s.len(),
{
    if s.len() == 0 {
        0
    } else {
        digits_value(s.drop_last(), radix) * radix + digit_value(s.last())
    }
}

/// `s` after an optional leading `+`.
pub open spec fn unsigned_body(s: Seq<char>) -> Seq<char> {
    if s.len() > 0 && s[0] == '+' {
        s.drop_first()
    } else {
        s
    }
}

/// The number that `s` writes as an unsigned integer in `radix`, read the way
/// `u64::from_str_radix` reads it: an optional `+`, then at least one digit
/// valid in `radix`.  `None` when `s` has no such form.
pub open spec fn unsigned_value(s: Seq<char>, radix: nat) -> Option<nat> {
    let d = unsigned_body(s);
    if d.len() > 0 && (forall|i: int| 0 <= i < d.len() ==> digit_value(#[trigger] d[i]) < radix) {
        Some(digits_value(d, radix))
    } else {
        None
    }
}

/// What `u64::from_str_radix(s, radix)` gives, with the error dropped.
pub open spec fn parse_u64_spec(s: Seq<char>, radix: nat) -> Option<u64> {
    match unsigned_value(s, radix) {
        Some(v) => if v <= u64::MAX {
            Some(v as u64)
        } else {
            None
        },
        None => None,
    }
}

fn char_digit(c: char) -> (r: u64)
    ensures
        r == digit_value(c),
{
    if '0' <= c && c <= '9' {
        (c as u64) - ('0' as u64)
    } else if 'a' <= c && c <= 'z' {
        (c as u64) - ('a' as u64) + 10
    } else if 'A' <= c && c <= 'Z' {
        (c as u64) - ('A' as u64) + 10
    } else {
        36
    }
}

/// Parses `s` as an unsigned integer in `radix` (`u64::from_str_radix(s, radix).ok()`).
pub fn parse_u64_radix(s: &str, radix: u64) -> (r: Option<u64>)
    requires
        2 <= radix <= 36,
    ensures
        r == parse_u64_spec(s@, radix as nat),
{
    let v = chars_of(s);
    let start: usize = if v.len() > 0 && v[0] == '+' {
        1
    } else {
        0
    };
    let ghost d = unsigned_body(s@);
    assert(d =~= v@.subrange(start as int, v.len() as int));
    if start >= v.len() {
        return None;
    }
    let mut acc: u64 = 0;
    let mut overflow = false;
    let mut i: usize = start;
    while i < v.len()
        invariant
            v@ == s@,
            start <= i <= v.len(),
            d == v@.subrange(start as int, v.len() as int),
            d == unsigned_body(s@),
            2 <= radix <= 36,
            forall|k: int| 0 <= k < i - start ==> digit_value(#[trigger] d[k]) < radix,
            !overflow ==> acc == digits_value(d.subrange(0, i - start), radix as nat),
            overflow ==> digits_value(d.subrange(0, i - start), radix as nat) > u64::MAX,
        decreases v.len() - i,
    {
        let dv = char_digit(v[i]);
        if dv >= radix {
            assert(digit_value(d[i - start]) >= radix);
            return None;
        }
        let ghost prev = d.subrange(0, i - start);
        let ghost next = d.subrange(0, i + 1 - start);
        assert(next.drop_last() =~= prev);
        assert(next.last() == v@[i as int]);
        assert(digits_value(next, radix as nat) == digits_value(prev, radix as nat) * radix + dv);
        if overflow {
            assert(digits_value(prev, radix as nat) * radix + dv > u64::MAX) by (nonlinear_arith)
                requires
                    digits_value(prev, radix as nat) > u64::MAX,
                    radix >= 2,
            ;
        } else {
            match acc.checked_mul(radix) {
                Some(m) => match m.checked_add(dv) {
                    Some(a) => {
                        acc = a;
                    },
                    None => {
                        overflow = true;
                    },
                },
                None => {
                    assert(acc * radix + dv > u64::MAX) by (nonlinear_arith)
                        requires
                            acc * radix > u64::MAX,
                    ;
                    overflow = true;
                },
            }
        }
        i = i + 1;
    }
    assert(d.subrange(0, i - start) =~= d);
    if overflow {
        None
    } else {
        Some(acc)
    }
}

/// Parses a decimal unsigned integer (`s.parse::<u64>().ok()`).
pub fn parse_u64(s: &str) -> (r: Option<u64>)
    ensures
        r == parse_u64_spec(s@, 10),
{
    parse_u64_radix(s, 10)
}


/// The number of bytes of the UTF-8 encoding of `s` (what `str::len` counts).
pub open spec fn utf8_len(s: Seq<char>) -> nat {
    encode_utf8(s).len()
}

/// Whether byte offset `n` of the UTF-8 encoding of `s` starts a character or ends the text.
pub open spec fn is_boundary_at(s: Seq<char>, n: int) -> bool {
    is_char_boundary(encode_utf8(s), n)
}

/// The characters encoded by the first `n` bytes of `s` (`&s[..n]`).
pub open spec fn byte_prefix(s: Seq<char>, n: int) -> Seq<char> {
    decode_utf8(encode_utf8(s).subrange(0, n))
}

/// `s` when it holds at most `max` bytes; otherwise its first `max` bytes followed by `...`.
pub open spec fn ellipsized(s: Seq<char>, max: nat) -> Seq<char> {
    if utf8_len(s) > max {
        byte_prefix(s, max as int) + seq!['.', '.', '.']
    } else {
        s
    }
}

/// The number of bytes of `s` (`str::len`).
pub fn byte_len(s: &str) -> (r: usize)
    ensures
        r == utf8_len(s@),
{
    s.as_bytes().len()
}

/// `s` cut to `max` bytes with `...` appended when it is longer
/// (`format!("{}...", &s[..max])`, or `s` itself).
pub fn ellipsize(s: &str, max: usize) -> (r: String)
    requires
        utf8_len(s@) > max ==> is_boundary_at(s@, max as int),
    ensures
        r@ == ellipsized(s@, max as nat),
{
    if byte_len(s) > max {
        let (head, _tail) = s.split_at(max);
        proof {
            vstd::utf8::encode_utf8_decode_utf8(head@);
            reveal_strlit("...");
        }
        let mut r = head.to_owned();
        r.append("...");
        r
    } else {
        s.to_owned()
    }
}

/// Whether the strings `a` and `b` are equal.
pub fn str_eq(a: &str, b: &str) -> (r: bool)
    ensures
        r == (a@ == b@),
{
    if a.unicode_len() != b.unicode_len() {
        return false;
    }
    let r = starts_with(a, b);
    if r {
        assert(a@ =~= b@);
    }
    r
}


proof fn lemma_digit_char_value(d: nat, radix: nat)
    requires
        d < radix <= 16,
    ensures
        digit_value(digit_char(d)) == d,
        digit_value(digit_char(d)) < radix,
        digit_char(d) != '+',
{
    if d < 10 {
        assert((('0' as nat) + d) as char as nat == ('0' as nat) + d);
    } else {
        assert((('A' as nat) + (d - 10)) as char as nat == ('A' as nat) + (d - 10));
    }
}

proof fn lemma_digits_value_push(s: Seq<char>, c: char, radix: nat)
    ensures
        digits_value(s.push(c), radix) == digits_value(s, radix) * radix + digit_value(c),
{
    assert(s.push(c).drop_last() =~= s);
}

/// The digits of `n` in `radix` (at most sixteen), most significant first.
pub open spec fn digits_in(n: nat, radix: nat) -> Seq<char>
    decreases n,
{
    if radix < 2 || n < radix {
        seq![digit_char(n)]
    } else {
        proof {
            assert(n / radix < n) by (nonlinear_arith)
                requires
                    n >= radix >= 2,
            ;
        }
        digits_in(n / radix, radix).push(digit_char(n % radix))
    }
}

proof fn lemma_digits_in(n: nat, radix: nat)
    requires
        2 <= radix <= 16,
    ensures
        digits_in(n, radix).len() > 0,
        digits_in(n, radix)[0] != '+',
        forall|i: int|
            0 <= i < digits_in(n, radix).len() ==> digit_value(#[trigger] digits_in(n, radix)[i])
                < radix,
        digits_value(digits_in(n, radix), radix) == n,
    decreases n,
{
    if n < radix {
        lemma_digit_char_value(n, radix);
        let one = seq![digit_char(n)];
        assert(one.drop_last() =~= Seq::<char>::empty());
        assert(one.last() == digit_char(n));
        assert(digits_value(one, radix) == digits_value(one.drop_last(), radix) * radix
            + digit_value(one.last()));
        assert(digits_value(Seq::<char>::empty(), radix) == 0);
        assert(digits_value(Seq::<char>::empty(), radix) * radix == 0) by (nonlinear_arith)
            requires
                digits_value(Seq::<char>::empty(), radix) == 0,
        ;
    } else {
        let q = n / radix;
        let r = n % radix;
        assert(q < n) by (nonlinear_arith)
            requires
                q == n / radix,
                n >= radix >= 2,
        ;
        lemma_digits_in(q, radix);
        lemma_digit_char_value(r, radix);
        let prefix = digits_in(q, radix);
        lemma_digits_value_push(prefix, digit_char(r), radix);
        assert(q * radix + r == n) by (nonlinear_arith)
            requires
                q == n / radix,
                r == n % radix,
                radix > 0,
        ;
        assert forall|i: int| 0 <= i < prefix.push(digit_char(r)).len() implies digit_value(
            #[trigger] prefix.push(digit_char(r))[i],
        ) < radix by {
            if i < prefix.len() {
                assert(prefix.push(digit_char(r))[i] == prefix[i]);
            }
        }
    }
}

proof fn lemma_decimal_is_digits(n: nat)
    ensures
        decimal(n) == digits_in(n, 10),
    decreases n,
{
    if n >= 10 {
        lemma_decimal_is_digits(n / 10);
    }
}

proof fn lemma_hex_is_digits(n: nat)
    ensures
        hex(n) == digits_in(n, 16),
    decreases n,
{
    if n >= 16 {
        lemma_hex_is_digits(n / 16);
    }
}

proof fn lemma_zeros_value(k: nat, radix: nat)
    ensures
        digits_value(zeros(k), radix) == 0,
    decreases k,
{
    if k > 0 {
        let z = zeros(k);
        lemma_zeros_value((k - 1) as nat, radix);
        assert(z.drop_last() =~= zeros((k - 1) as nat));
        assert(z.last() == '0');
        assert(digits_value(zeros((k - 1) as nat), radix) * radix == 0) by (nonlinear_arith)
            requires
                digits_value(zeros((k - 1) as nat), radix) == 0,
        ;
    }
}

proof fn lemma_leading_zeros(k: nat, s: Seq<char>, radix: nat)
    requires
        radix >= 2,
    ensures
        digits_value(zeros(k) + s, radix) == digits_value(s, radix),
    decreases s.len(), k,
{
    let z = zeros(k);
    if s.len() == 0 {
        lemma_zeros_value(k, radix);
        assert(z + s =~= z);
    } else {
        lemma_leading_zeros(k, s.drop_last(), radix);
        assert((z + s).drop_last() =~= z + s.drop_last());
        assert((z + s).last() == s.last());
    }
}

/// Writing a number in decimal and reading it back gives the number
/// (`n.to_string().parse::<u64>() == Ok(n)`).
pub proof fn lemma_decimal_round_trip(n: u64)
    ensures
        parse_u64_spec(decimal(n as nat), 10) == Some(n),
{
    lemma_decimal_is_digits(n as nat);
    lemma_digits_in(n as nat, 10);
}

/// A number written in upper-case hexadecimal, zero-padded to any width,
/// reads back as the number in radix 16.
pub proof fn lemma_hex_round_trip(n: u64, width: nat)
    ensures
        parse_u64_spec(zero_padded(hex(n as nat), width), 16) == Some(n),
{
    lemma_hex_is_digits(n as nat);
    lemma_digits_in(n as nat, 16);
    let h = hex(n as nat);
    let p = zero_padded(h, width);
    if h.len() < width {
        let k = (width - h.len()) as nat;
        lemma_leading_zeros(k, h, 16);
        assert(p[0] == '0');
        assert forall|i: int| 0 <= i < p.len() implies digit_value(#[trigger] p[i]) < 16 by {
            if i >= k {
                assert(p[i] == h[i - k]);
            }
        }
    }
}

proof fn lemma_trim_start_fixed(t: Seq<char>)
    requires
        t.len() == 0 || !is_white_space(t[0]),
    ensures
        trim_start(t) == t,
{
}

proof fn lemma_trim_end_keeps_start(t: Seq<char>)
    requires
        t.len() == 0 || !is_white_space(t[0]),
    ensures
        trim_end(t).len() == 0 || !is_white_space(trim_end(t)[0]),
        trim_end(t).len() == 0 || trim_end(t)[0] == t[0],
    decreases t.len(),
{
    if t.len() > 0 && is_white_space(t.last()) {
        lemma_trim_end_keeps_start(t.drop_last());
    }
}

proof fn lemma_trim_start_no_leading(t: Seq<char>)
    ensures
        trim_start(t).len() == 0 || !is_white_space(trim_start(t)[0]),
    decreases t.len(),
{
    if t.len() > 0 && is_white_space(t[0]) {
        lemma_trim_start_no_leading(t.drop_first());
    }
}

proof fn lemma_trim_end_idempotent(t: Seq<char>)
    ensures
        trim_end(trim_end(t)) == trim_end(t),
    decreases t.len(),
{
    if t.len() > 0 && is_white_space(t.last()) {
        lemma_trim_end_idempotent(t.drop_last());
    }
}

/// Trimming a trimmed text changes nothing.
pub proof fn lemma_trim_idempotent(s: Seq<char>)
    ensures
        trimmed(trimmed(s)) == trimmed(s),
{
    let t = trim_start(s);
    lemma_trim_start_no_leading(s);
    lemma_trim_end_keeps_start(t);
    lemma_trim_start_fixed(trim_end(t));
    lemma_trim_end_idempotent(t);
}

} // verus!
