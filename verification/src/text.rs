//! Character-level text helpers: number formatting, searching and
//! splitting, each proved against a short specification.
use vstd::prelude::*;

verus! {

/// The lower-case character of a digit below sixteen.
pub open spec fn digit_char(d: nat) -> char {
    if d == 0 { '0' } else if d == 1 { '1' } else if d == 2 { '2' } else if d == 3 { '3' }
    else if d == 4 { '4' } else if d == 5 { '5' } else if d == 6 { '6' } else if d == 7 { '7' }
    else if d == 8 { '8' } else if d == 9 { '9' } else if d == 10 { 'a' } else if d == 11 { 'b' }
    else if d == 12 { 'c' } else if d == 13 { 'd' } else if d == 14 { 'e' } else { 'f' }
}

/// Decimal digits of a natural number, most significant first, without leading zeros.
pub open spec fn decimal_nat(n: nat) -> Seq<char>
    decreases n,
{
    if n < 10 {
        seq![digit_char(n)]
    } else {
        decimal_nat(n / 10).push(digit_char(n % 10))
    }
}

/// Lower-case hexadecimal digits of a natural number, without leading zeros.
pub open spec fn hex_nat(n: nat) -> Seq<char>
    decreases n,
{
    if n < 16 {
        seq![digit_char(n)]
    } else {
        hex_nat(n / 16).push(digit_char(n % 16))
    }
}

/// How an integer is written in decimal: a minus sign for negative values.
pub open spec fn decimal_int(i: int) -> Seq<char> {
    if i < 0 {
        seq!['-'] + decimal_nat((-i) as nat)
    } else {
        decimal_nat(i as nat)
    }
}

/// `s` preceded by as many zeros as make it `width` characters long.
pub open spec fn pad_zeros(s: Seq<char>, width: nat) -> Seq<char> {
    if s.len() < width {
        Seq::new((width - s.len()) as nat, |j: int| '0') + s
    } else {
        s
    }
}

/// An integer written in decimal in a field of `width` characters filled with
/// zeros after the sign, as the `{:0w}` format does.
pub open spec fn zero_padded(i: int, width: nat) -> Seq<char> {
    if i < 0 {
        seq!['-'] + pad_zeros(decimal_nat((-i) as nat), if width > 0 { (width - 1) as nat } else { 0 })
    } else {
        pad_zeros(decimal_nat(i as nat), width)
    }
}

pub proof fn lemma_decimal_nat_len(n: nat)
    ensures
        decimal_nat(n).len() >= 1,
        n < 10 <==> decimal_nat(n).len() == 1,
    decreases n,
{
    if n >= 10 {
        lemma_decimal_nat_len(n / 10);
    }
}

/// The digit character of `d`.
pub fn digit(d: u64) -> (c: char)
    requires
        d < 16,
    ensures
        c == digit_char(d as nat),
{
    if d == 0 { '0' } else if d == 1 { '1' } else if d == 2 { '2' } else if d == 3 { '3' }
    else if d == 4 { '4' } else if d == 5 { '5' } else if d == 6 { '6' } else if d == 7 { '7' }
    else if d == 8 { '8' } else if d == 9 { '9' } else if d == 10 { 'a' } else if d == 11 { 'b' }
    else if d == 12 { 'c' } else if d == 13 { 'd' } else if d == 14 { 'e' } else { 'f' }
}

/// Appends the decimal digits of `n`.
pub fn push_decimal(n: u64, out: &mut Vec<char>)
    ensures
        final(out)@ == old(out)@ + decimal_nat(n as nat),
    decreases n,
{
    if n >= 10 {
        push_decimal(n / 10, out);
    }
    let ghost mid = out@;
    out.push(digit(n % 10));
    proof {
        if n >= 10 {
            assert(out@ =~= old(out)@ + decimal_nat(n as nat));
        } else {
            assert(out@ =~= old(out)@ + decimal_nat(n as nat));
        }
    }
}

/// Appends the hexadecimal digits of `n`.
pub fn push_hex(n: u64, out: &mut Vec<char>)
    ensures
        final(out)@ == old(out)@ + hex_nat(n as nat),
    decreases n,
{
    if n >= 16 {
        push_hex(n / 16, out);
    }
    out.push(digit(n % 16));
    proof {
        assert(out@ =~= old(out)@ + hex_nat(n as nat));
    }
}

/// The magnitude of a signed value.
pub fn magnitude(v: i64) -> (m: u64)
    ensures
        m as int == if v < 0 { -v } else { v as int },
{
    if v == i64::MIN {
        9223372036854775808u64
    } else if v < 0 {
        (-v) as u64
    } else {
        v as u64
    }
}

/// Appends `v` written in decimal.
pub fn push_int(v: i64, out: &mut Vec<char>)
    ensures
        final(out)@ == old(out)@ + decimal_int(v as int),
{
    if v < 0 {
        out.push('-');
    }
    let ghost mid = out@;
    push_decimal(magnitude(v), out);
    proof {
        assert(out@ =~= old(out)@ + decimal_int(v as int));
    }
}

/// Appends `count` zero characters.
pub fn push_zeros(count: usize, out: &mut Vec<char>)
    ensures
        final(out)@ == old(out)@ + Seq::new(count as nat, |j: int| '0'),
{
    let mut i: usize = 0;
    while i < count
        invariant
            i <= count,
            out@ == old(out)@ + Seq::new(i as nat, |j: int| '0'),
        decreases count - i,
    {
        out.push('0');
        i = i + 1;
        assert(out@ =~= old(out)@ + Seq::new(i as nat, |j: int| '0'));
    }
}

/// Appends `v` in decimal in a zero-filled field of `width` characters.
pub fn push_zero_padded(v: i64, width: usize, out: &mut Vec<char>)
    ensures
        final(out)@ == old(out)@ + zero_padded(v as int, width as nat),
{
    let mut digits: Vec<char> = Vec::new();
    push_decimal(magnitude(v), &mut digits);
    assert(digits@ =~= decimal_nat(if v < 0 { -v } else { v as int } as nat));
    let field: usize = if v < 0 {
        if width > 0 { width - 1 } else { 0 }
    } else {
        width
    };
    if v < 0 {
        out.push('-');
    }
    let ghost with_sign = out@;
    if digits.len() < field {
        push_zeros(field - digits.len(), out);
    }
    let ghost with_zeros = out@;
    append_chars(out, &digits);
    proof {
        assert(out@ =~= old(out)@ + zero_padded(v as int, width as nat));
    }
}

/// Appends all characters of `src`.
pub fn append_chars(out: &mut Vec<char>, src: &Vec<char>)
    ensures
        final(out)@ == old(out)@ + src@,
{
    let mut i: usize = 0;
    while i < src.len()
        invariant
            i <= src.len(),
            out@ == old(out)@ + src@.subrange(0, i as int),
        decreases src.len() - i,
    {
        out.push(src[i]);
        i = i + 1;
        assert(out@ =~= old(out)@ + src@.subrange(0, i as int));
    }
    assert(src@.subrange(0, src@.len() as int) =~= src@);
}

/// Appends one character to a string.
#[verifier::external_body]
pub fn string_push(s: &mut String, c: char)
    ensures
        final(s)@ == old(s)@.push(c),
{
    s.push(c);
}

/// A string holding exactly the characters of `chars`.
pub fn string_of(chars: &Vec<char>) -> (s: String)
    ensures
        s@ == chars@,
{
    let mut s = String::new();
    let mut i: usize = 0;
    while i < chars.len()
        invariant
            i <= chars.len(),
            s@ == chars@.subrange(0, i as int),
        decreases chars.len() - i,
    {
        string_push(&mut s, chars[i]);
        i = i + 1;
        assert(s@ =~= chars@.subrange(0, i as int));
    }
    assert(chars@.subrange(0, chars@.len() as int) =~= chars@);
    s
}

/// The characters of a string slice.
pub fn chars_of(s: &str) -> (v: Vec<char>)
    ensures
        v@ == s@,
{
    let mut v: Vec<char> = Vec::new();
    for c in it: s.chars()
        invariant
            v@ == it.seq().subrange(0, it.index() as int),
    {
        v.push(c);
    }
    v
}


/// Whether `needle` occurs in `hay` starting at position `i`.
pub open spec fn occurs_at(hay: Seq<char>, needle: Seq<char>, i: int) -> bool {
    &&& 0 <= i
    &&& i + needle.len() <= hay.len()
    &&& hay.subrange(i, i + needle.len()) == needle
}

/// Whether `needle` is a contiguous part of `hay`.
pub open spec fn contains_seq(hay: Seq<char>, needle: Seq<char>) -> bool {
    exists|i: int| occurs_at(hay, needle, i)
}

/// Whether `needle` occurs in `hay` at position `i`.
pub fn matches_at(hay: &Vec<char>, needle: &Vec<char>, i: usize) -> (r: bool)
    requires
        i + needle@.len() <= hay@.len(),
    ensures
        r == occurs_at(hay@, needle@, i as int),
{
    let mut j: usize = 0;
    while j < needle.len()
        invariant
            j <= needle@.len(),
            i + needle.len() <= hay.len(),
            forall|k: int| 0 <= k < j ==> hay@[i + k] == needle@[k],
        decreases needle.len() - j,
    {
        assert(i + j < hay@.len());
        if hay[i + j] != needle[j] {
            assert(hay@.subrange(i as int, i + needle@.len())[j as int] != needle@[j as int]);
            return false;
        }
        j = j + 1;
    }
    assert(hay@.subrange(i as int, i + needle@.len()) =~= needle@);
    true
}

/// Whether `needle` is a contiguous part of `hay`.
pub fn contains_chars(hay: &Vec<char>, needle: &Vec<char>) -> (r: bool)
    ensures
        r == contains_seq(hay@, needle@),
{
    if needle.len() > hay.len() {
        assert forall|i: int| !occurs_at(hay@, needle@, i) by {}
        return false;
    }
    if needle.len() == 0 {
        assert(hay@.subrange(0, 0) =~= needle@);
        assert(occurs_at(hay@, needle@, 0));
        return true;
    }
    let last = hay.len() - needle.len();
    let mut i: usize = 0;
    while i <= last
        invariant
            last == hay.len() - needle.len(),
            needle.len() <= hay.len(),
            needle.len() > 0,
            i <= last + 1,
            forall|k: int| 0 <= k < i ==> !occurs_at(hay@, needle@, k),
        decreases last + 1 - i,
    {
        if matches_at(hay, needle, i) {
            return true;
        }
        i = i + 1;
    }
    assert forall|k: int| !occurs_at(hay@, needle@, k) by {}
    false
}

/// Whether `prefix` begins `s`.
pub fn starts_with_chars(s: &Vec<char>, prefix: &Vec<char>) -> (r: bool)
    ensures
        r == prefix@.is_prefix_of(s@),
{
    if prefix.len() > s.len() {
        return false;
    }
    let r = matches_at(s, prefix, 0);
    proof {
        if r {
            assert forall|k: int| 0 <= k < prefix@.len() implies prefix@[k] == s@[k] by {
                assert(s@.subrange(0, prefix@.len() as int)[k] == s@[k]);
            }
        } else {
            if prefix@.is_prefix_of(s@) {
                assert(s@.subrange(0, prefix@.len() as int) =~= prefix@);
            }
        }
    }
    r
}

/// Whether two character sequences are equal.
pub fn chars_equal(a: &Vec<char>, b: &Vec<char>) -> (r: bool)
    ensures
        r == (a@ == b@),
{
    if a.len() != b.len() {
        return false;
    }
    let mut i: usize = 0;
    while i < a.len()
        invariant
            a@.len() == b@.len(),
            i <= a@.len(),
            forall|k: int| 0 <= k < i ==> a@[k] == b@[k],
        decreases a.len() - i,
    {
        if a[i] != b[i] {
            return false;
        }
        i = i + 1;
    }
    assert(a@ =~= b@);
    true
}

/// Whether two strings hold the same characters.
pub fn str_equal(a: &str, b: &str) -> (r: bool)
    ensures
        r == (a@ == b@),
{
    chars_equal(&chars_of(a), &chars_of(b))
}

/// The position of the first `c` in `s`, if any.
pub open spec fn first_index_of(s: Seq<char>, c: char) -> Option<int> {
    if exists|i: int| 0 <= i < s.len() && s[i] == c {
        Some(choose|i: int| 0 <= i < s.len() && s[i] == c && forall|j: int| 0 <= j < i ==> s[j] != c)
    } else {
        None
    }
}

/// The parts of `s` before and after the first `c`, as `str::split_once` gives them.
pub open spec fn split_once_spec(s: Seq<char>, c: char) -> Option<(Seq<char>, Seq<char>)> {
    match first_index_of(s, c) {
        Some(i) => Some((s.subrange(0, i), s.subrange(i + 1, s.len() as int))),
        None => None,
    }
}

/// Splitting at the first `c` of `a + c + b`, where `a` holds no `c`, gives `a` and `b`.
pub proof fn lemma_split_once_at(a: Seq<char>, c: char, b: Seq<char>)
    requires
        !a.contains(c),
    ensures
        split_once_spec(a + seq![c] + b, c) == Some((a, b)),
{
    let s = a + seq![c] + b;
    let n = a.len() as int;
    assert(s[n] == c);
    assert forall|j: int| 0 <= j < n implies s[j] != c by {
        assert(s[j] == a[j]);
    }
    assert(0 <= n < s.len() && s[n] == c && forall|j: int| 0 <= j < n ==> s[j] != c);
    let k = choose|i: int| 0 <= i < s.len() && s[i] == c && forall|j: int| 0 <= j < i ==> s[j] != c;
    if k < n {
        assert(s[k] == a[k]);
    } else if k > n {
        assert(s[n] != c);
    }
    assert(k == n);
    assert(s.subrange(0, k) =~= a);
    assert(s.subrange(k + 1, s.len() as int) =~= b);
}

/// A text without `c` does not split at `c`.
pub proof fn lemma_split_once_none(s: Seq<char>, c: char)
    requires
        !s.contains(c),
    ensures
        split_once_spec(s, c) is None,
{
}

/// The decimal digits of a number are digits, at least one, and denote it.
pub proof fn lemma_decimal_digits(n: nat)
    ensures
        decimal_nat(n).len() > 0,
        all_digits(decimal_nat(n)),
        digits_value(decimal_nat(n)) == n,
    decreases n,
{
    let d = n % 10;
    assert(is_digit(digit_char(d)) && digit_char(d) as int - '0' as int == d) by {
        assert(d < 10);
    }
    if n >= 10 {
        lemma_decimal_digits(n / 10);
        let s = decimal_nat(n / 10);
        let t = s.push(digit_char(d));
        assert(t.drop_last() =~= s);
        assert(t.last() == digit_char(d));
        assert forall|i: int| 0 <= i < t.len() implies is_digit(#[trigger] t[i]) by {
            if i < s.len() {
                assert(t[i] == s[i]);
            }
        }
        assert(digits_value(t) == digits_value(s) * 10 + d);
    } else {
        let t = seq![digit_char(n)];
        assert(t.drop_last() =~= Seq::<char>::empty());
        assert(digits_value(Seq::<char>::empty()) == 0);
    }
}

/// Zeros in front of digits do not change the number they denote.
pub proof fn lemma_leading_zeros_value(k: nat, s: Seq<char>)
    ensures
        digits_value(Seq::new(k, |j: int| '0') + s) == digits_value(s),
    decreases s.len(), k,
{
    let z = Seq::new(k, |j: int| '0');
    if s.len() == 0 {
        assert(z + s =~= z);
        if k > 0 {
            let z1 = Seq::new((k - 1) as nat, |j: int| '0');
            assert(z.drop_last() =~= z1 + Seq::<char>::empty());
            lemma_leading_zeros_value((k - 1) as nat, Seq::<char>::empty());
            assert(z1 + Seq::<char>::empty() =~= z1);
        }
    } else {
        assert((z + s).drop_last() =~= z + s.drop_last());
        assert((z + s).last() == s.last());
        lemma_leading_zeros_value(k, s.drop_last());
    }
}

/// The number written in a zero-filled field is the number itself.
pub proof fn lemma_zero_padded_value(n: nat, width: nat)
    ensures
        digits_value(zero_padded(n as int, width)) == n,
{
    lemma_decimal_digits(n);
    let d = decimal_nat(n);
    if d.len() < width {
        lemma_leading_zeros_value((width - d.len()) as nat, d);
    }
}

/// The position of the first `c` in `s`, if any.
pub fn find_char(s: &Vec<char>, c: char) -> (r: Option<usize>)
    ensures
        match r {
            Some(i) => i < s.len() && first_index_of(s@, c) == Some(i as int),
            None => first_index_of(s@, c) is None,
        },
{
    let mut i: usize = 0;
    while i < s.len()
        invariant
            i <= s@.len(),
            forall|j: int| 0 <= j < i ==> s@[j] != c,
        decreases s.len() - i,
    {
        if s[i] == c {
            proof {
                let w = choose|k: int| 0 <= k < s@.len() && s@[k] == c && forall|j: int| 0 <= j < k ==> s@[j] != c;
                assert(0 <= i < s@.len() && s@[i as int] == c && forall|j: int| 0 <= j < i ==> s@[j] != c);
                if w < i {
                } else if w > i {
                    assert(s@[i as int] != c);
                }
            }
            return Some(i);
        }
        i = i + 1;
    }
    None
}

/// The characters of `s` from `start` up to `end`.
pub fn sub_chars(s: &Vec<char>, start: usize, end: usize) -> (r: Vec<char>)
    requires
        start <= end <= s@.len(),
    ensures
        r@ == s@.subrange(start as int, end as int),
{
    let mut r: Vec<char> = Vec::new();
    let mut i = start;
    while i < end
        invariant
            start <= i <= end,
            end <= s@.len(),
            r@ == s@.subrange(start as int, i as int),
        decreases end - i,
    {
        r.push(s[i]);
        i = i + 1;
        assert(r@ =~= s@.subrange(start as int, i as int));
    }
    r
}

/// Splits `s` around the first `c`, as `str::split_once` does.
pub fn split_once(s: &Vec<char>, c: char) -> (r: Option<(Vec<char>, Vec<char>)>)
    ensures
        match r {
            Some((a, b)) => split_once_spec(s@, c) == Some((a@, b@)),
            None => split_once_spec(s@, c) is None,
        },
{
    match find_char(s, c) {
        Some(i) => Some((sub_chars(s, 0, i), sub_chars(s, i + 1, s.len()))),
        None => None,
    }
}

/// `s` with every single quote doubled, as `replace('\'', "''")` does.
pub open spec fn double_quotes(s: Seq<char>) -> Seq<char>
    decreases s.len(),
{
    if s.len() == 0 {
        seq![]
    } else if s.last() == '\'' {
        double_quotes(s.drop_last()) + seq!['\'', '\'']
    } else {
        double_quotes(s.drop_last()).push(s.last())
    }
}

/// Appends `s` with every single quote doubled.
pub fn push_doubling_quotes(s: &Vec<char>, out: &mut Vec<char>)
    ensures
        final(out)@ == old(out)@ + double_quotes(s@),
{
    let mut i: usize = 0;
    while i < s.len()
        invariant
            i <= s@.len(),
            out@ == old(out)@ + double_quotes(s@.subrange(0, i as int)),
        decreases s.len() - i,
    {
        let ghost before = out@;
        if s[i] == '\'' {
            out.push('\'');
            out.push('\'');
        } else {
            out.push(s[i]);
        }
        proof {
            let p = s@.subrange(0, i + 1);
            assert(p.drop_last() =~= s@.subrange(0, i as int));
            assert(p.last() == s@[i as int]);
        }
        i = i + 1;
        assert(out@ =~= old(out)@ + double_quotes(s@.subrange(0, i as int)));
    }
    assert(s@.subrange(0, s@.len() as int) =~= s@);
}


/// Whether `c` is an ASCII decimal digit.
pub open spec fn is_digit(c: char) -> bool {
    '0' <= c && c <= '9'
}

/// Whether every character of `s` is a decimal digit.
pub open spec fn all_digits(s: Seq<char>) -> bool {
    forall|i: int| 0 <= i < s.len() ==> is_digit(#[trigger] s[i])
}

/// The number written by a sequence of decimal digits.
pub open spec fn digits_value(s: Seq<char>) -> nat
    decreases s.len(),
{
    if s.len() == 0 {
        0
    } else {
        digits_value(s.drop_last()) * 10 + ((s.last() as int - '0' as int) as nat)
    }
}

/// What `str::parse::<u16>` gives: an optional `+`, then one or more decimal
/// digits whose value fits in sixteen bits.
pub open spec fn parse_u16_spec(s: Seq<char>) -> Option<u16> {
    let d = if s.len() > 0 && s[0] == '+' { s.drop_first() } else { s };
    if d.len() > 0 && all_digits(d) && digits_value(d) <= 65535 {
        Some(digits_value(d) as u16)
    } else {
        None
    }
}

/// Parses a sixteen-bit unsigned number as `str::parse::<u16>` does.
pub fn parse_u16(s: &Vec<char>) -> (r: Option<u16>)
    ensures
        r == parse_u16_spec(s@),
{
    let start: usize = if s.len() > 0 && s[0] == '+' { 1 } else { 0 };
    let ghost d = if s@.len() > 0 && s@[0] == '+' { s@.drop_first() } else { s@ };
    assert(d =~= s@.subrange(start as int, s@.len() as int));
    if start >= s.len() {
        return None;
    }
    let mut value: u32 = 0;
    let mut i = start;
    while i < s.len()
        invariant
            start <= i <= s@.len(),
            d == s@.subrange(start as int, s@.len() as int),
            d == (if s@.len() > 0 && s@[0] == '+' { s@.drop_first() } else { s@ }),
            forall|k: int| start <= k < i ==> is_digit(#[trigger] s@[k]),
            value == if digits_value(s@.subrange(start as int, i as int)) < 65536 {
                digits_value(s@.subrange(start as int, i as int))
            } else {
                65536
            },
        decreases s.len() - i,
    {
        let c = s[i];
        if c < '0' || c > '9' {
            assert(d[i - start] == c);
            assert(!is_digit(d[i - start]));
            assert(!all_digits(d));
            return None;
        }
        let dv: u32 = (c as u32) - ('0' as u32);
        proof {
            let p = s@.subrange(start as int, i + 1);
            assert(p.drop_last() =~= s@.subrange(start as int, i as int));
            assert(p.last() == c);
        }
        let next: u32 = value * 10 + dv;
        value = if next < 65536 { next } else { 65536 };
        i = i + 1;
    }
    assert(s@.subrange(start as int, i as int) =~= d);
    assert forall|k: int| 0 <= k < d.len() implies is_digit(#[trigger] d[k]) by {
        assert(d[k] == s@[start + k]);
    }
    assert(all_digits(d));
    if value <= 65535 {
        Some(value as u16)
    } else {
        None
    }
}

/// `s` with every leading repetition of `p` removed, as `str::trim_start_matches` does.
pub open spec fn trim_start_all(s: Seq<char>, p: Seq<char>) -> Seq<char>
    decreases s.len(),
{
    if p.len() > 0 && p.is_prefix_of(s) {
        trim_start_all(s.subrange(p.len() as int, s.len() as int), p)
    } else {
        s
    }
}

/// Removes every leading repetition of `p` from `s`.
pub fn trim_start_matches(s: &Vec<char>, p: &Vec<char>) -> (r: Vec<char>)
    ensures
        r@ == trim_start_all(s@, p@),
{
    let mut cur = sub_chars(s, 0, s.len());
    assert(cur@ =~= s@);
    if p.len() == 0 {
        return cur;
    }
    while starts_with_chars(&cur, p)
        invariant
            p@.len() > 0,
            trim_start_all(cur@, p@) == trim_start_all(s@, p@),
        decreases cur@.len(),
    {
        cur = sub_chars(&cur, p.len(), cur.len());
    }
    cur
}

/// The pieces of `s` between occurrences of `c`, as `str::split` yields them.
pub open spec fn split_all(s: Seq<char>, c: char) -> Seq<Seq<char>>
    decreases s.len(),
{
    match first_index_of(s, c) {
        Some(i) => if 0 <= i < s.len() {
            seq![s.subrange(0, i)] + split_all(s.subrange(i + 1, s.len() as int), c)
        } else {
            seq![s]
        },
        None => seq![s],
    }
}

proof fn lemma_first_index_bounds(s: Seq<char>, c: char)
    ensures
        first_index_of(s, c) matches Some(i) ==> 0 <= i < s.len() && s[i] == c
            && forall|j: int| 0 <= j < i ==> s[j] != c,
{
    if exists|i: int| 0 <= i < s.len() && s[i] == c {
        let w = choose|i: int| 0 <= i < s.len() && s[i] == c;
        // The least witness exists: search downwards from any witness.
        let mut k = w;
        assert(0 <= k < s.len() && s[k] == c);
        lemma_least_witness(s, c, w);
    }
}

proof fn lemma_least_witness(s: Seq<char>, c: char, w: int)
    requires
        0 <= w < s.len(),
        s[w] == c,
    ensures
        exists|i: int| 0 <= i < s.len() && s[i] == c && forall|j: int| 0 <= j < i ==> s[j] != c,
    decreases w,
{
    if exists|j: int| 0 <= j < w && s[j] == c {
        let j = choose|j: int| 0 <= j < w && s[j] == c;
        lemma_least_witness(s, c, j);
    } else {
        assert(forall|j: int| 0 <= j < w ==> s[j] != c);
    }
}

/// Splits `s` at every `c`, as `str::split` does.
pub fn split_char(s: &Vec<char>, c: char) -> (r: Vec<Vec<char>>)
    ensures
        r@.len() == split_all(s@, c).len(),
        forall|i: int| 0 <= i < r@.len() ==> #[trigger] r@[i]@ == split_all(s@, c)[i],
{
    let mut out: Vec<Vec<char>> = Vec::new();
    let mut rest = sub_chars(s, 0, s.len());
    assert(rest@ =~= s@);
    loop
        invariant
            split_all(s@, c) == out@.map_values(|v: Vec<char>| v@) + split_all(rest@, c),
        decreases rest@.len(),
    {
        proof { lemma_first_index_bounds(rest@, c); }
        match find_char(&rest, c) {
            Some(i) => {
                let head = sub_chars(&rest, 0, i);
                let tail = sub_chars(&rest, i + 1, rest.len());
                let ghost old_out = out@;
                out.push(head);
                assert(out@.map_values(|v: Vec<char>| v@) =~= old_out.map_values(|v: Vec<char>| v@).push(head@));
                assert(split_all(rest@, c) =~= seq![head@] + split_all(tail@, c));
                assert(split_all(s@, c) =~= out@.map_values(|v: Vec<char>| v@) + split_all(tail@, c));
                rest = tail;
            },
            None => {
                let ghost old_out = out@;
                out.push(rest);
                assert(out@.map_values(|v: Vec<char>| v@) =~= split_all(s@, c));
                return out;
            },
        }
    }
}


/// The parts joined with `sep` between neighbours, as `[..].join(sep)` does.
pub open spec fn join_with(parts: Seq<Seq<char>>, sep: Seq<char>) -> Seq<char>
    decreases parts.len(),
{
    if parts.len() == 0 {
        seq![]
    } else if parts.len() == 1 {
        parts[0]
    } else {
        join_with(parts.drop_last(), sep) + sep + parts.last()
    }
}

/// Joins the parts with `sep` between neighbours.
pub fn join_chars(parts: &Vec<Vec<char>>, sep: &Vec<char>) -> (r: Vec<char>)
    ensures
        r@ == join_with(parts@.map_values(|v: Vec<char>| v@), sep@),
{
    let ghost views = parts@.map_values(|v: Vec<char>| v@);
    let mut out: Vec<char> = Vec::new();
    let mut i: usize = 0;
    while i < parts.len()
        invariant
            i <= parts@.len(),
            views == parts@.map_values(|v: Vec<char>| v@),
            out@ == join_with(views.subrange(0, i as int), sep@),
        decreases parts.len() - i,
    {
        let ghost before = out@;
        if i > 0 {
            append_chars(&mut out, sep);
        }
        append_chars(&mut out, &parts[i]);
        proof {
            let p = views.subrange(0, i + 1);
            assert(p.drop_last() =~= views.subrange(0, i as int));
            assert(p.last() == parts@[i as int]@);
            if i == 0 {
                assert(out@ =~= join_with(p, sep@));
            } else {
                assert(out@ =~= join_with(p, sep@));
            }
        }
        i = i + 1;
    }
    assert(views.subrange(0, parts@.len() as int) =~= views);
    out
}

/// The lower-case form of a text, as `str::to_lowercase` gives it.
pub uninterp spec fn lowercase(s: Seq<char>) -> Seq<char>;

/// Lower-cases a text with `str::to_lowercase`; the result stands under the
/// name `lowercase`.
#[verifier::external_body]
pub fn to_lowercase(s: &str) -> (r: String)
    ensures
        r@ == lowercase(s@),
{
    s.to_lowercase()
}

} // verus!
