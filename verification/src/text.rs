//! Character-level text building blocks shared by the encoders and templates.

use vstd::prelude::*;
use vstd::string::*;

verus! {

/// The characters of a string slice, in order (`str::chars` collected).
#[verifier::external_body]
pub(crate) fn chars_of(s: &str) -> (v: Vec<char>)
    ensures
        v@ == s@,
{
    s.chars().collect()
}

/// Appends one character (`String::push`).
#[verifier::external_body]
pub(crate) fn push_char(s: &mut String, c: char)
    ensures
        final(s)@ == old(s)@.push(c),
{
    s.push(c)
}

/// Appends a string slice.
pub fn push_str(s: &mut String, t: &str)
    ensures
        final(s)@ == old(s)@ + t@,
{
    s.append(t);
}

/// A string holding exactly the given characters.
pub fn string_from_chars(cs: &[char]) -> (res: String)
    ensures
        res@ == cs@,
{
    let mut res = String::new();
    let mut i: usize = 0;
    while i < cs.len()
        invariant
            i <= cs@.len(),
            res@ == cs@.subrange(0, i as int),
        decreases cs@.len() - i,
    {
        push_char(&mut res, cs[i]);
        i = i + 1;
        assert(res@ =~= cs@.subrange(0, i as int));
    }
    assert(res@ =~= cs@);
    res
}

/// The decimal digit character for `d` (`d < 10`).
pub open spec fn digit_char(d: nat) -> char {
    (48 + d) as char
}

/// The decimal representation of `n`, without sign or leading zeros.
pub open spec fn decimal(n: nat) -> Seq<char>
    decreases n,
{
    if n < 10 {
        seq![digit_char(n)]
    } else {
        decimal(n / 10).push(digit_char(n % 10))
    }
}

/// Every character of a decimal representation is a digit (`0` to `9`, code points 48 to 57).
pub proof fn lemma_decimal_digits(n: nat)
    ensures
        forall|j: int| 0 <= j < decimal(n).len() ==> 48 <= (#[trigger] decimal(n)[j]) as int <= 57,
    decreases n,
{
    if n >= 10 {
        lemma_decimal_digits(n / 10);
        let d = decimal(n / 10);
        assert(decimal(n) == d.push(digit_char(n % 10)));
        assert((digit_char(n % 10)) as int == 48 + n % 10);
    } else {
        assert((digit_char(n)) as int == 48 + n);
    }
}

/// The digit character of a value below ten.
pub fn digit(d: u64) -> (c: char)
    requires
        d < 10,
    ensures
        c == digit_char(d as nat),
{
    let b: u8 = 48u8 + (d as u8);
    b as char
}

/// Appends the decimal representation of `n` (what `{}` prints for an unsigned integer).
pub fn write_decimal(out: &mut String, n: u64)
    ensures
        final(out)@ == old(out)@ + decimal(n as nat),
    decreases n,
{
    if n < 10 {
        push_char(out, digit(n));
        assert(decimal(n as nat) =~= seq![digit_char(n as nat)]);
    } else {
        write_decimal(out, n / 10);
        push_char(out, digit(n % 10));
    }
}

/// The decimal representation of `n` as a new string.
pub fn u64_to_decimal(n: u64) -> (res: String)
    ensures
        res@ == decimal(n as nat),
{
    let mut s = String::new();
    write_decimal(&mut s, n);
    assert(s@ =~= decimal(n as nat));
    s
}

} // verus!

verus! {

/// The lowercase hexadecimal digit character for `d` (`d < 16`).
pub open spec fn hex_lower_char(d: nat) -> char {
    if d < 10 {
        (48 + d) as char
    } else {
        (87 + d) as char
    }
}

/// The uppercase hexadecimal digit character for `d` (`d < 16`).
pub open spec fn hex_upper_char(d: nat) -> char {
    if d < 10 {
        (48 + d) as char
    } else {
        (55 + d) as char
    }
}

/// The lowest `width` hexadecimal digits of `n`, lowercase, most significant first.
pub open spec fn hex_fixed(n: nat, width: nat) -> Seq<char>
    decreases width,
{
    if width == 0 {
        seq![]
    } else {
        hex_fixed(n / 16, (width - 1) as nat).push(hex_lower_char(n % 16))
    }
}

/// The lowercase hexadecimal digit of a value below sixteen.
pub fn hex_digit_lower(d: u64) -> (c: char)
    requires
        d < 16,
    ensures
        c == hex_lower_char(d as nat),
{
    let b: u8 = if d < 10 { 48u8 + (d as u8) } else { 87u8 + (d as u8) };
    b as char
}

/// Appends the lowest `width` lowercase hexadecimal digits of `n`
/// (`{:0width$x}` for a value that fits in `width` digits).
pub fn write_hex_fixed(out: &mut String, n: u128, width: u32)
    ensures
        final(out)@ == old(out)@ + hex_fixed(n as nat, width as nat),
    decreases width,
{
    if width == 0 {
        assert(hex_fixed(n as nat, 0) =~= Seq::<char>::empty());
        assert(old(out)@ + Seq::<char>::empty() =~= old(out)@);
    } else {
        write_hex_fixed(out, n / 16, width - 1);
        push_char(out, hex_digit_lower((n % 16) as u64));
    }
}

/// The decimal representation of a signed integer (what `{}` prints for it).
pub open spec fn signed_decimal(n: int) -> Seq<char> {
    if n < 0 {
        seq!['-'] + decimal((-n) as nat)
    } else {
        decimal(n as nat)
    }
}

/// Appends the decimal representation of a signed 64-bit integer.
pub fn write_signed_decimal(out: &mut String, n: i64)
    ensures
        final(out)@ == old(out)@ + signed_decimal(n as int),
{
    if n < 0 {
        push_char(out, '-');
        let m: u64 = if n == i64::MIN { 9223372036854775808u64 } else { (-n) as u64 };
        assert(m == -(n as int));
        write_decimal(out, m);
        assert(old(out)@ + signed_decimal(n as int) =~= old(out)@.push('-') + decimal(m as nat));
    } else {
        write_decimal(out, n as u64);
    }
}

/// Concatenation of `parts` with `sep` between consecutive parts (`join`).
pub open spec fn join(parts: Seq<Seq<char>>, sep: Seq<char>) -> Seq<char>
    decreases parts.len(),
{
    if parts.len() == 0 {
        seq![]
    } else if parts.len() == 1 {
        parts[0]
    } else {
        join(parts.drop_last(), sep) + sep + parts.last()
    }
}

/// The views of a sequence of strings.
pub open spec fn views(v: Seq<String>) -> Seq<Seq<char>> {
    v.map_values(|s: String| s@)
}

/// Joins strings with a separator (`[String]::join`).
pub fn join_strings(parts: &Vec<String>, sep: &str) -> (res: String)
    ensures
        res@ == join(views(parts@), sep@),
{
    let mut res = String::new();
    let mut i: usize = 0;
    while i < parts.len()
        invariant
            i <= parts@.len(),
            res@ == join(views(parts@.subrange(0, i as int)), sep@),
        decreases parts@.len() - i,
    {
        let ghost prev = parts@.subrange(0, i as int);
        if i > 0 {
            push_str(&mut res, sep);
        }
        push_str(&mut res, parts[i].as_str());
        proof {
            let next = parts@.subrange(0, i + 1);
            assert(views(next).drop_last() =~= views(prev));
            assert(views(next).last() == parts@[i as int]@);
            if i == 0 {
                assert(views(prev).len() == 0);
                assert(res@ =~= parts@[0]@);
            }
        }
        i = i + 1;
    }
    assert(parts@.subrange(0, parts@.len() as int) =~= parts@);
    res
}

/// Whether `s` begins with `prefix`.
pub open spec fn has_prefix(s: Seq<char>, prefix: Seq<char>) -> bool {
    prefix.len() <= s.len() && s.subrange(0, prefix.len() as int) == prefix
}

/// `str::starts_with` for a string pattern.
pub fn starts_with(s: &str, prefix: &str) -> (r: bool)
    ensures
        r == has_prefix(s@, prefix@),
{
    let a = chars_of(s);
    let b = chars_of(prefix);
    if b.len() > a.len() {
        return false;
    }
    let mut i: usize = 0;
    while i < b.len()
        invariant
            b@.len() <= a@.len(),
            i <= b@.len(),
            a@ == s@,
            b@ == prefix@,
            forall|j: int| 0 <= j < i ==> a@[j] == b@[j],
        decreases b@.len() - i,
    {
        if a[i] != b[i] {
            assert(s@.subrange(0, prefix@.len() as int)[i as int] != prefix@[i as int]);
            return false;
        }
        i = i + 1;
    }
    assert(s@.subrange(0, prefix@.len() as int) =~= prefix@);
    true
}

/// Whether `needle` occurs in `s` as a contiguous run of characters.
pub open spec fn contains_seq(s: Seq<char>, needle: Seq<char>) -> bool {
    exists|i: int|
        0 <= i && i + needle.len() <= s.len() && #[trigger] s.subrange(i, i + needle.len())
            == needle
}

/// `str::contains` for a string pattern.
pub fn contains_str(s: &str, needle: &str) -> (r: bool)
    ensures
        r == contains_seq(s@, needle@),
{
    let a = chars_of(s);
    let b = chars_of(needle);
    if b.len() > a.len() {
        return false;
    }
    let mut i: usize = 0;
    while i <= a.len() - b.len()
        invariant
            a@ == s@,
            b@ == needle@,
            b@.len() <= a@.len(),
            i <= a@.len() - b@.len() + 1,
            forall|k: int| 0 <= k < i ==> #[trigger] a@.subrange(k, k + b@.len()) != b@,
        decreases a@.len() - i,
    {
        let mut j: usize = 0;
        let mut ok = true;
        while j < b.len()
            invariant
                a@ == s@,
                b@ == needle@,
                i + b@.len() <= a@.len(),
                j <= b@.len(),
                ok == (forall|m: int| 0 <= m < j ==> a@[i + m] == b@[m]),
            decreases b@.len() - j,
        {
            assert(i + j < a.len());
            if a[i + j] != b[j] {
                ok = false;
            }
            j = j + 1;
        }
        if ok {
            assert(a@.subrange(i as int, i + b@.len()) =~= b@);
            return true;
        }
        assert(a@.subrange(i as int, i + b@.len()) != b@) by {
            let m = choose|m: int| 0 <= m < b@.len() && a@[i + m] != b@[m];
            assert(a@.subrange(i as int, i + b@.len())[m] != b@[m]);
        }
        i = i + 1;
    }
    assert forall|k: int| 0 <= k && k + b@.len() <= a@.len() implies #[trigger] a@.subrange(
        k,
        k + b@.len(),
    ) != b@ by {
        assert(k < i);
    }
    false
}

} // verus!

verus! {

/// Character-wise equality of two string slices.
pub fn str_eq(a: &str, b: &str) -> (r: bool)
    ensures
        r == (a@ == b@),
{
    let x = chars_of(a);
    let y = chars_of(b);
    if x.len() != y.len() {
        return false;
    }
    let mut i: usize = 0;
    while i < x.len()
        invariant
            x@ == a@,
            y@ == b@,
            x@.len() == y@.len(),
            i <= x@.len(),
            forall|j: int| 0 <= j < i ==> x@[j] == y@[j],
        decreases x@.len() - i,
    {
        if x[i] != y[i] {
            return false;
        }
        i = i + 1;
    }
    assert(x@ =~= y@);
    true
}

} // verus!

verus! {

/// Length in bytes of the UTF-8 encoding of `s` (what `str::len` counts).
pub open spec fn utf8_len(s: Seq<char>) -> nat {
    vstd::utf8::encode_utf8(s).len()
}

/// `s` with every occurrence of `pat` replaced by `rep`, occurrences taken from the left
/// without overlap (`str::replace`); `pat` is not empty.
pub open spec fn replaced(s: Seq<char>, pat: Seq<char>, rep: Seq<char>) -> Seq<char>
    decreases s.len(),
{
    if s.len() == 0 || pat.len() == 0 {
        s
    } else if has_prefix(s, pat) {
        rep + replaced(s.skip(pat.len() as int), pat, rep)
    } else {
        seq![s[0]] + replaced(s.skip(1), pat, rep)
    }
}

/// Whether `b` occurs in `a` starting at position `i`.
fn occurs_at(a: &Vec<char>, i: usize, b: &Vec<char>) -> (r: bool)
    requires
        i <= a@.len(),
    ensures
        r == has_prefix(a@.skip(i as int), b@),
{
    let alen = a.len();
    if b.len() > alen - i {
        return false;
    }
    let mut j: usize = 0;
    while j < b.len()
        invariant
            alen == a@.len(),
            i + b@.len() <= a@.len(),
            j <= b@.len(),
            forall|m: int| 0 <= m < j ==> a@[i + m] == b@[m],
        decreases b@.len() - j,
    {
        if a[i + j] != b[j] {
            assert(a@.skip(i as int).subrange(0, b@.len() as int)[j as int] != b@[j as int]);
            return false;
        }
        j = j + 1;
    }
    assert(a@.skip(i as int).subrange(0, b@.len() as int) =~= b@);
    true
}

/// Replaces every occurrence of a non-empty pattern (`str::replace`).
pub fn replace_all(s: &str, pat: &str, rep: &str) -> (r: String)
    requires
        pat@.len() > 0,
    ensures
        r@ == replaced(s@, pat@, rep@),
{
    let a = chars_of(s);
    let b = chars_of(pat);
    let mut out = String::new();
    let mut i: usize = 0;
    assert(a@.skip(0) =~= a@);
    assert(out@ + replaced(a@, b@, rep@) =~= replaced(a@, b@, rep@));
    while i < a.len()
        invariant
            a@ == s@,
            b@ == pat@,
            b@.len() > 0,
            i <= a@.len(),
            out@ + replaced(a@.skip(i as int), b@, rep@) == replaced(a@, b@, rep@),
        decreases a@.len() - i,
    {
        let ghost rest = a@.skip(i as int);
        let ghost prev = out@;
        if occurs_at(&a, i, &b) {
            push_str(&mut out, rep);
            proof {
                let tail = replaced(a@.skip(i + b@.len()), b@, rep@);
                assert(rest.skip(b@.len() as int) =~= a@.skip(i + b@.len()));
                assert(replaced(rest, b@, rep@) == rep@ + tail);
                assert(out@ + tail =~= prev + (rep@ + tail));
            }
            i = i + b.len();
        } else {
            push_char(&mut out, a[i]);
            proof {
                let tail = replaced(a@.skip(i + 1), b@, rep@);
                assert(rest.skip(1) =~= a@.skip(i + 1));
                assert(rest[0] == a@[i as int]);
                assert(replaced(rest, b@, rep@) == seq![rest[0]] + tail);
                assert(out@ + tail =~= prev + (seq![rest[0]] + tail));
            }
            i = i + 1;
        }
    }
    assert(a@.skip(i as int) =~= Seq::<char>::empty());
    assert(out@ + Seq::<char>::empty() =~= out@);
    out
}

} // verus!

verus! {

/// Whether every character is ASCII.
pub open spec fn is_ascii_text(s: Seq<char>) -> bool {
    forall|i: int| 0 <= i < s.len() ==> (#[trigger] s[i] as u32) < 128
}

/// The ASCII lowercase of a character: `A`-`Z` become `a`-`z`, others stay.
pub open spec fn ascii_lower_char(c: char) -> char {
    if 'A' <= c && c <= 'Z' {
        ((c as u32) + 32) as char
    } else {
        c
    }
}

/// The ASCII uppercase of a character: `a`-`z` become `A`-`Z`, others stay.
pub open spec fn ascii_upper_char(c: char) -> char {
    if 'a' <= c && c <= 'z' {
        ((c as u32) - 32) as char
    } else {
        c
    }
}

/// Characterwise ASCII lowercase.
pub open spec fn ascii_lower(s: Seq<char>) -> Seq<char> {
    s.map_values(|c: char| ascii_lower_char(c))
}

/// Characterwise ASCII uppercase.
pub open spec fn ascii_upper(s: Seq<char>) -> Seq<char> {
    s.map_values(|c: char| ascii_upper_char(c))
}

/// Text of `str::to_lowercase` (full Unicode lowercase mapping).
pub uninterp spec fn lowercase_text(s: Seq<char>) -> Seq<char>;

/// Text of `str::to_uppercase` (full Unicode uppercase mapping).
pub uninterp spec fn uppercase_text(s: Seq<char>) -> Seq<char>;

/// `str::to_lowercase`. On ASCII text the Unicode mapping lowers `A`-`Z` and keeps every
/// other character.
#[verifier::external_body]
pub(crate) fn to_lowercase(s: &str) -> (r: String)
    ensures
        r@ == lowercase_text(s@),
        is_ascii_text(s@) ==> r@ == ascii_lower(s@),
{
    s.to_lowercase()
}

/// `str::to_uppercase`. On ASCII text the Unicode mapping raises `a`-`z` and keeps every
/// other character.
#[verifier::external_body]
pub(crate) fn to_uppercase(s: &str) -> (r: String)
    ensures
        r@ == uppercase_text(s@),
        is_ascii_text(s@) ==> r@ == ascii_upper(s@),
{
    s.to_uppercase()
}

} // verus!

verus! {

/// What `str::to_lowercase` yields: the ASCII lowercase for ASCII text, the Unicode mapping
/// otherwise.
pub open spec fn lower_of(s: Seq<char>) -> Seq<char> {
    if is_ascii_text(s) {
        ascii_lower(s)
    } else {
        lowercase_text(s)
    }
}

/// What `str::to_uppercase` yields: the ASCII uppercase for ASCII text, the Unicode mapping
/// otherwise.
pub open spec fn upper_of(s: Seq<char>) -> Seq<char> {
    if is_ascii_text(s) {
        ascii_upper(s)
    } else {
        uppercase_text(s)
    }
}

} // verus!

verus! {

/// The pieces of `s` between occurrences of `sep` (`str::split` with a character): one more
/// piece than there are separators; pieces may be empty.
pub open spec fn split_char(s: Seq<char>, sep: char) -> Seq<Seq<char>>
    decreases s.len(),
{
    if s.len() == 0 {
        seq![seq![]]
    } else {
        let init = split_char(s.drop_last(), sep);
        if s.last() == sep {
            init.push(seq![])
        } else {
            init.update(init.len() - 1, init.last().push(s.last()))
        }
    }
}

/// There is always at least one piece.
pub proof fn lemma_split_char_nonempty_pub(s: Seq<char>, sep: char)
    ensures
        split_char(s, sep).len() >= 1,
{
    lemma_split_char_nonempty(s, sep);
}

proof fn lemma_split_char_nonempty(s: Seq<char>, sep: char)
    ensures
        split_char(s, sep).len() >= 1,
    decreases s.len(),
{
    if s.len() > 0 {
        lemma_split_char_nonempty(s.drop_last(), sep);
    }
}

/// Splits at every occurrence of a character (`str::split`), keeping empty pieces.
pub fn split_at_char(s: &str, sep: char) -> (r: Vec<String>)
    ensures
        views(r@) == split_char(s@, sep),
{
    let a = chars_of(s);
    let mut done: Vec<String> = Vec::new();
    let mut cur = String::new();
    let mut i: usize = 0;
    proof {
        assert(a@.subrange(0, 0) =~= Seq::<char>::empty());
    }
    while i < a.len()
        invariant
            a@ == s@,
            i <= a@.len(),
            views(done@).push(cur@) == split_char(a@.subrange(0, i as int), sep),
        decreases a@.len() - i,
    {
        let ghost pre = a@.subrange(0, i as int);
        let ghost next = a@.subrange(0, i + 1);
        proof {
            assert(next.drop_last() =~= pre);
            assert(next.last() == a@[i as int]);
            lemma_split_char_nonempty(pre, sep);
        }
        if a[i] == sep {
            let mut piece = String::new();
            std::mem::swap(&mut piece, &mut cur);
            let ghost old_done = views(done@);
            done.push(piece);
            proof {
                assert(views(done@) =~= old_done.push(piece@));
                assert(views(done@).push(cur@) =~= split_char(pre, sep).push(seq![]));
            }
        } else {
            let ghost old_cur = cur@;
            push_char(&mut cur, a[i]);
            proof {
                let sp = split_char(pre, sep);
                assert(sp.last() == old_cur);
                assert(views(done@).push(cur@) =~= sp.update(sp.len() - 1, sp.last().push(a@[i as int])));
            }
        }
        i = i + 1;
    }
    assert(a@.subrange(0, a@.len() as int) =~= a@);
    let ghost fin = views(done@);
    done.push(cur);
    proof {
        assert(views(done@) =~= fin.push(cur@));
    }
    done
}

/// `s` with `pat` removed from its start as many times as it occurs there
/// (`str::trim_start_matches`).
pub open spec fn trim_prefix_all(s: Seq<char>, pat: Seq<char>) -> Seq<char>
    decreases s.len(),
{
    if pat.len() > 0 && has_prefix(s, pat) {
        trim_prefix_all(s.skip(pat.len() as int), pat)
    } else {
        s
    }
}

/// Removes every leading occurrence of a pattern (`str::trim_start_matches`).
pub fn trim_start_matches(s: &str, pat: &str) -> (r: String)
    ensures
        r@ == trim_prefix_all(s@, pat@),
{
    let a = chars_of(s);
    let b = chars_of(pat);
    let mut i: usize = 0;
    assert(a@.skip(0) =~= a@);
    if b.len() == 0 {
        return s.to_owned();
    }
    while i < a.len() && occurs_at_pub(&a, i, &b)
        invariant
            a@ == s@,
            b@ == pat@,
            b@.len() > 0,
            i <= a@.len(),
            trim_prefix_all(a@.skip(i as int), b@) == trim_prefix_all(a@, b@),
        decreases a@.len() - i,
    {
        proof {
            assert(a@.skip(i as int).skip(b@.len() as int) =~= a@.skip(i + b@.len()));
        }
        i = i + b.len();
    }
    proof {
        if i == a@.len() {
            assert(a@.skip(i as int).len() == 0);
            assert(!has_prefix(a@.skip(i as int), b@));
        }
    }
    let rest = string_from_chars(slice_from(&a, i).as_slice());
    rest
}

/// Whether `b` occurs in `a` at position `i`.
pub fn occurs_at_pub(a: &Vec<char>, i: usize, b: &Vec<char>) -> (r: bool)
    requires
        i <= a@.len(),
    ensures
        r == has_prefix(a@.skip(i as int), b@),
{
    occurs_at(a, i, b)
}

/// The characters of `a` from position `i` on.
pub fn slice_from(a: &Vec<char>, i: usize) -> (r: Vec<char>)
    requires
        i <= a@.len(),
    ensures
        r@ == a@.skip(i as int),
{
    let mut r: Vec<char> = Vec::new();
    let mut j: usize = i;
    while j < a.len()
        invariant
            i <= j <= a@.len(),
            r@ == a@.subrange(i as int, j as int),
        decreases a@.len() - j,
    {
        r.push(a[j]);
        j = j + 1;
        assert(r@ =~= a@.subrange(i as int, j as int));
    }
    assert(a@.subrange(i as int, a@.len() as int) =~= a@.skip(i as int));
    r
}

} // verus!

verus! {

/// Whether every character is an ASCII digit.
pub open spec fn all_digits(s: Seq<char>) -> bool {
    forall|i: int| 0 <= i < s.len() ==> '0' <= #[trigger] s[i] && s[i] <= '9'
}

/// The number a run of decimal digits denotes.
pub open spec fn digits_value(s: Seq<char>) -> nat
    decreases s.len(),
{
    if s.len() == 0 {
        0
    } else {
        digits_value(s.drop_last()) * 10 + ((s.last() as u32) - ('0' as u32)) as nat
    }
}

/// What `str::parse::<u32>` accepts: an optional `+` and at least one decimal digit, with a
/// value that fits in 32 bits.
pub open spec fn parsed_u32(s: Seq<char>) -> Option<u32> {
    let d = if s.len() > 0 && s[0] == '+' { s.skip(1) } else { s };
    if d.len() > 0 && all_digits(d) && digits_value(d) <= u32::MAX {
        Some(digits_value(d) as u32)
    } else {
        None
    }
}

proof fn lemma_digits_value_grows(s: Seq<char>, i: int)
    requires
        0 <= i <= s.len(),
        all_digits(s),
    ensures
        digits_value(s.subrange(0, i)) <= digits_value(s),
    decreases s.len() - i,
{
    if i < s.len() {
        lemma_digits_value_grows(s, i + 1);
        assert(s.subrange(0, i + 1).drop_last() =~= s.subrange(0, i));
        assert('0' <= s[i] && s[i] <= '9');
    } else {
        assert(s.subrange(0, i) =~= s);
    }
}

/// Parses an unsigned 32-bit decimal number (`str::parse::<u32>`).
pub fn parse_u32(s: &str) -> (r: Option<u32>)
    ensures
        r == parsed_u32(s@),
{
    let a = chars_of(s);
    let start: usize = if a.len() > 0 && a[0] == '+' { 1 } else { 0 };
    let ghost d = if s@.len() > 0 && s@[0] == '+' { s@.skip(1) } else { s@ };
    assert(d =~= a@.skip(start as int));
    assert(parsed_u32(s@) == (if d.len() > 0 && all_digits(d) && digits_value(d) <= u32::MAX {
        Some(digits_value(d) as u32)
    } else {
        None
    }));
    if start >= a.len() {
        return None;
    }
    let mut value: u64 = 0;
    let mut i: usize = start;
    while i < a.len()
        invariant
            a@ == s@,
            d == a@.skip(start as int),
            parsed_u32(s@) == (if d.len() > 0 && all_digits(d) && digits_value(d) <= u32::MAX {
                Some(digits_value(d) as u32)
            } else {
                None
            }),
            start <= i <= a@.len(),
            all_digits(d.subrange(0, i - start)),
            value == digits_value(d.subrange(0, i - start)),
            value <= u32::MAX,
        decreases a@.len() - i,
    {
        let c = a[i];
        let ghost pre = d.subrange(0, i - start);
        let ghost next = d.subrange(0, i - start + 1);
        assert(next.drop_last() =~= pre);
        assert(next.last() == c);
        if c < '0' || c > '9' {
            assert(!all_digits(d)) by {
                assert(d[i - start] == c);
            }
            return None;
        }
        let digit = (c as u32 - '0' as u32) as u64;
        value = value * 10 + digit;
        if value > 4294967295u64 {
            proof {
                assert(all_digits(next));
                if all_digits(d) {
                    lemma_digits_value_grows(d, i - start + 1);
                    assert(digits_value(d) > u32::MAX);
                }
            }
            return None;
        }
        i = i + 1;
    }
    assert(d.subrange(0, d.len() as int) =~= d);
    Some(value as u32)
}

} // verus!

verus! {

/// Whether a string slice has no characters.
pub fn str_is_empty(s: &str) -> (r: bool)
    ensures
        r == (s@.len() == 0),
{
    chars_of(s).len() == 0
}

} // verus!

verus! {

/// The lowercase hexadecimal representation of `n` without leading zeros (`{:x}`).
pub open spec fn hex_lower(n: nat) -> Seq<char>
    decreases n,
{
    if n < 16 {
        seq![hex_lower_char(n)]
    } else {
        hex_lower(n / 16).push(hex_lower_char(n % 16))
    }
}

/// Appends the lowercase hexadecimal representation of `n` (`{:x}`).
pub fn write_hex(out: &mut String, n: u64)
    ensures
        final(out)@ == old(out)@ + hex_lower(n as nat),
    decreases n,
{
    if n < 16 {
        push_char(out, hex_digit_lower(n));
        assert(hex_lower(n as nat) =~= seq![hex_lower_char(n as nat)]);
    } else {
        write_hex(out, n / 16);
        push_char(out, hex_digit_lower(n % 16));
    }
}

} // verus!
