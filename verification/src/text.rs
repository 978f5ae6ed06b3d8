//! Text building blocks: characters, numbers, and views of optional and repeated text.

use vstd::prelude::*;

verus! {

/// `String::push` appends one character and changes nothing else.
pub assume_specification[ String::push ](s: &mut String, c: char)
    ensures
        final(s)@ == old(s)@.push(c),
;

/// What `str`'s `Debug` prints for a string with these characters: the quoted,
/// escaped form that `{:?}` gives.
pub uninterp spec fn debug_text(s: Seq<char>) -> Seq<char>;

/// `<str as Debug>::fmt`, by way of `{:?}`: the text is a function of the
/// characters alone. Which characters are escaped is not stated.
#[verifier::external_body]
pub(crate) fn quoted(s: &str) -> (r: String)
    ensures
        r@ == debug_text(s@),
{
    format!("{s:?}")
}

/// The view of each element.
pub open spec fn views<T: View>(s: Seq<T>) -> Seq<T::V> {
    s.map_values(|t: T| t@)
}

/// The view of an optional value.
pub open spec fn opt_view<T: View>(o: Option<T>) -> Option<T::V> {
    match o {
        Some(t) => Some(t@),
        None => None,
    }
}

/// The characters of `s`, in order.
pub fn chars_of(s: &str) -> (v: Vec<char>)
    ensures
        v@ == s@,
{
    let mut v: Vec<char> = Vec::new();
    for c in it: s.chars()
        invariant
            v@ == it.seq().take(it.index() as int),
    {
        v.push(c);
    }
    assert(v@ == s@);
    v
}

/// The string with these characters.
pub fn string_of(chars: &[char]) -> (s: String)
    ensures
        s@ == chars@,
{
    let mut s = String::new();
    let mut i: usize = 0;
    while i < chars.len()
        invariant
            i <= chars@.len(),
            s@ == chars@.take(i as int),
        decreases chars@.len() - i,
    {
        s.push(chars[i]);
        i += 1;
        assert(chars@.take(i as int) == chars@.take(i - 1).push(chars@[i - 1]));
    }
    assert(s@ == chars@);
    s
}

/// Whether two strings have the same characters.
pub fn same_text(a: &str, b: &str) -> (r: bool)
    ensures
        r == (a@ == b@),
{
    let x = a.as_bytes();
    let y = b.as_bytes();
    proof {
        vstd::utf8::encode_utf8_decode_utf8(a@);
        vstd::utf8::encode_utf8_decode_utf8(b@);
    }
    if x.len() != y.len() {
        return false;
    }
    let mut i: usize = 0;
    while i < x.len()
        invariant
            i <= x@.len(),
            x@.len() == y@.len(),
            x@ == vstd::utf8::encode_utf8(a@),
            y@ == vstd::utf8::encode_utf8(b@),
            forall|k: int| 0 <= k < i ==> x@[k] == y@[k],
        decreases x@.len() - i,
    {
        if x[i] != y[i] {
            return false;
        }
        i += 1;
    }
    assert(x@ == y@);
    true
}

/// Whether two optional strings are both absent or have the same characters.
pub fn same_opt_text(a: &Option<String>, b: &Option<String>) -> (r: bool)
    ensures
        r == (opt_view(*a) == opt_view(*b)),
{
    match (a, b) {
        (Some(x), Some(y)) => same_text(x.as_str(), y.as_str()),
        (None, None) => true,
        _ => false,
    }
}

/// A copy of a list of strings.
pub fn copy_all(v: &Vec<String>) -> (r: Vec<String>)
    ensures
        r@ == v@,
{
    let mut r: Vec<String> = Vec::new();
    let mut i: usize = 0;
    while i < v.len()
        invariant
            i <= v@.len(),
            r@ == v@.take(i as int),
        decreases v@.len() - i,
    {
        r.push(v[i].clone());
        i += 1;
        assert(v@.take(i as int) == v@.take(i - 1).push(v@[i - 1]));
    }
    assert(r@ == v@);
    r
}

/// The digit `d` in base sixteen, lower case.
pub open spec fn digit(d: nat) -> char {
    if d < 10 {
        (48 + d) as char
    } else {
        (87 + d) as char
    }
}

/// `n` in decimal, without leading zeros.
pub open spec fn decimal(n: nat) -> Seq<char>
    decreases n,
{
    if n < 10 {
        seq![digit(n)]
    } else {
        decimal(n / 10).push(digit(n % 10))
    }
}

/// `n` in decimal, filled with leading zeros to at least `width` characters.
pub open spec fn zero_padded(n: nat, width: nat) -> Seq<char> {
    let d = decimal(n);
    if d.len() < width {
        Seq::new((width - d.len()) as nat, |i: int| '0') + d
    } else {
        d
    }
}

/// `n` as four digits in base sixteen.
pub open spec fn hex4(n: u16) -> Seq<char> {
    seq![
        digit((n / 4096) as nat),
        digit((n / 256 % 16) as nat),
        digit((n / 16 % 16) as nat),
        digit((n % 16) as nat),
    ]
}

/// The digit `d` in base sixteen, lower case.
pub fn digit_char(d: u8) -> (c: char)
    requires
        d < 16,
    ensures
        c == digit(d as nat),
{
    if d < 10 {
        (48 + d) as char
    } else {
        (87 + d) as char
    }
}

/// Appends `n` in decimal.
pub fn push_decimal(s: &mut String, n: u64)
    ensures
        final(s)@ == old(s)@ + decimal(n as nat),
    decreases n,
{
    if n >= 10 {
        push_decimal(s, n / 10);
    }
    s.push(digit_char((n % 10) as u8));
}

/// `n` in decimal.
pub fn decimal_text(n: u64) -> (s: String)
    ensures
        s@ == decimal(n as nat),
{
    let mut s = String::new();
    push_decimal(&mut s, n);
    s
}

/// A number in decimal, with a sign if it is below zero.
pub open spec fn signed(n: int) -> Seq<char> {
    if n < 0 {
        "-"@ + decimal((-n) as nat)
    } else {
        decimal(n as nat)
    }
}

/// A number in decimal, with a sign if it is below zero.
pub fn signed_text(n: i32) -> (s: String)
    ensures
        s@ == signed(n as int),
{
    if n < 0 {
        "-".to_owned().concat(decimal_text((-(n as i64)) as u64).as_str())
    } else {
        decimal_text(n as u64)
    }
}

/// Appends `n` in decimal, filled with leading zeros to at least `width` characters.
pub fn push_zero_padded(s: &mut String, n: u64, width: usize)
    ensures
        final(s)@ == old(s)@ + zero_padded(n as nat, width as nat),
{
    let d = decimal_text(n);
    let len: usize = d.as_str().unicode_len();
    let ghost start = s@;
    let mut i: usize = len;
    while i < width
        invariant
            len == decimal(n as nat).len(),
            len <= i,
            len < width ==> i <= width,
            width <= len ==> i == len,
            s@ == start + Seq::new((i - len) as nat, |k: int| '0'),
        decreases width - i,
    {
        s.push('0');
        i += 1;
        assert(s@ == start + Seq::new((i - len) as nat, |k: int| '0'));
    }
    s.append(d.as_str());
    assert(s@ == start + zero_padded(n as nat, width as nat));
}

/// `n` as four digits in base sixteen.
pub fn hex4_text(n: u16) -> (s: String)
    ensures
        s@ == hex4(n),
{
    let mut s = String::new();
    s.push(digit_char((n / 4096) as u8));
    s.push(digit_char((n / 256 % 16) as u8));
    s.push(digit_char((n / 16 % 16) as u8));
    s.push(digit_char((n % 16) as u8));
    s
}

/// `n` in base sixteen, without leading zeros.
pub open spec fn hexadecimal(n: nat) -> Seq<char>
    decreases n,
{
    if n < 16 {
        seq![digit(n)]
    } else {
        hexadecimal(n / 16).push(digit(n % 16))
    }
}

/// A character in printable ASCII: as it is, or escaped.
pub open spec fn escaped_char(c: char) -> Seq<char> {
    if c == '\t' {
        seq!['\\', 't']
    } else if c == '\r' {
        seq!['\\', 'r']
    } else if c == '\n' {
        seq!['\\', 'n']
    } else if c == '\'' || c == '"' || c == '\\' {
        seq!['\\', c]
    } else if ' ' <= c <= '~' {
        seq![c]
    } else {
        seq!['\\', 'u', '{'] + hexadecimal(c as nat) + seq!['}']
    }
}

/// A text in printable ASCII, other characters escaped.
pub open spec fn escaped(s: Seq<char>) -> Seq<char>
    decreases s.len(),
{
    if s.len() == 0 {
        Seq::empty()
    } else {
        escaped(s.drop_last()) + escaped_char(s.last())
    }
}

/// Appends `n` in base sixteen.
fn push_hexadecimal(s: &mut String, n: u32)
    ensures
        final(s)@ == old(s)@ + hexadecimal(n as nat),
    decreases n,
{
    if n >= 16 {
        push_hexadecimal(s, n / 16);
    }
    s.push(digit_char((n % 16) as u8));
}

/// Appends a character in printable ASCII.
fn push_escaped(s: &mut String, c: char)
    ensures
        final(s)@ == old(s)@ + escaped_char(c),
{
    let n: u32 = c as u32;
    if c == '\t' {
        s.push('\\');
        s.push('t');
    } else if c == '\r' {
        s.push('\\');
        s.push('r');
    } else if c == '\n' {
        s.push('\\');
        s.push('n');
    } else if c == '\'' || c == '"' || c == '\\' {
        s.push('\\');
        s.push(c);
    } else if 32 <= n && n <= 126 {
        s.push(c);
    } else {
        s.push('\\');
        s.push('u');
        s.push('{');
        push_hexadecimal(s, n);
        s.push('}');
    }
    assert(s@ == old(s)@ + escaped_char(c));
}

/// A text in printable ASCII, other characters escaped.
pub fn escape(chars: &Vec<char>) -> (s: String)
    ensures
        s@ == escaped(chars@),
{
    let mut s = String::new();
    let mut i: usize = 0;
    assert(chars@.take(0) == Seq::<char>::empty());
    while i < chars.len()
        invariant
            i <= chars@.len(),
            s@ == escaped(chars@.take(i as int)),
        decreases chars@.len() - i,
    {
        push_escaped(&mut s, chars[i]);
        i += 1;
        assert(chars@.take(i as int).drop_last() == chars@.take(i - 1));
    }
    assert(chars@.take(i as int) == chars@);
    s
}

/// The place of the first `c` in `s`.
pub open spec fn find(s: Seq<char>, c: char) -> Option<int>
    decreases s.len(),
{
    if s.len() == 0 {
        None
    } else if s[0] == c {
        Some(0)
    } else {
        match find(s.skip(1), c) {
            Some(i) => Some(i + 1),
            None => None,
        }
    }
}

/// The pieces of `s` between the occurrences of `c`.
pub open spec fn split(s: Seq<char>, c: char) -> Seq<Seq<char>>
    decreases s.len(),
{
    match find(s, c) {
        Some(i) => if 0 <= i < s.len() {
            seq![s.take(i)] + split(s.skip(i + 1), c)
        } else {
            seq![s]
        },
        None => seq![s],
    }
}

/// `find` gives the first place, and none only where there is none.
pub proof fn find_is_first(s: Seq<char>, c: char)
    ensures
        match find(s, c) {
            Some(i) => 0 <= i < s.len() && s[i] == c && forall|j: int| 0 <= j < i ==> s[j] != c,
            None => forall|j: int| 0 <= j < s.len() ==> s[j] != c,
        },
    decreases s.len(),
{
    if s.len() > 0 && s[0] != c {
        find_is_first(s.skip(1), c);
        let t = s.skip(1);
        assert forall|j: int| 1 <= j < s.len() implies s[j] == t[j - 1] by {}
    }
}

/// The place of a first occurrence is what `find` gives.
pub proof fn find_at(s: Seq<char>, c: char, i: int)
    requires
        0 <= i < s.len(),
        s[i] == c,
        forall|j: int| 0 <= j < i ==> s[j] != c,
    ensures
        find(s, c) == Some(i),
{
    find_is_first(s, c);
}

/// The place of the first `c`.
pub fn find_char(s: &Vec<char>, c: char) -> (r: Option<usize>)
    ensures
        match r {
            Some(i) => find(s@, c) == Some(i as int) && i < s@.len(),
            None => find(s@, c) is None,
        },
{
    let mut i: usize = 0;
    while i < s.len()
        invariant
            i <= s@.len(),
            forall|j: int| 0 <= j < i ==> s@[j] != c,
        decreases s@.len() - i,
    {
        if s[i] == c {
            proof {
                find_at(s@, c, i as int);
            }
            return Some(i);
        }
        i += 1;
    }
    proof {
        find_is_first(s@, c);
    }
    None
}

/// The characters from `from` up to `to`.
pub fn slice_chars(s: &Vec<char>, from: usize, to: usize) -> (r: Vec<char>)
    requires
        from <= to <= s@.len(),
    ensures
        r@ == s@.subrange(from as int, to as int),
{
    let mut r: Vec<char> = Vec::new();
    let mut i: usize = from;
    while i < to
        invariant
            from <= i <= to <= s@.len(),
            r@ == s@.subrange(from as int, i as int),
        decreases to - i,
    {
        r.push(s[i]);
        i += 1;
        assert(r@ == s@.subrange(from as int, i as int));
    }
    r
}

/// The pieces of `s` between the occurrences of `c`.
pub fn split_chars(s: &Vec<char>, c: char) -> (r: Vec<Vec<char>>)
    ensures
        views(r@) == split(s@, c),
{
    let mut parts: Vec<Vec<char>> = Vec::new();
    let mut cur: Vec<char> = Vec::new();
    let mut i: usize = 0;
    assert(cur@ + s@.skip(0) == s@);
    while i < s.len()
        invariant
            i <= s@.len(),
            forall|j: int| 0 <= j < cur@.len() ==> cur@[j] != c,
            split(s@, c) == views(parts@) + split(cur@ + s@.skip(i as int), c),
        decreases s@.len() - i,
    {
        let ghost whole = cur@ + s@.skip(i as int);
        let ghost done = views(parts@);
        if s[i] == c {
            proof {
                find_at(whole, c, cur@.len() as int);
                assert(whole.take(cur@.len() as int) == cur@);
                assert(whole.skip(cur@.len() as int + 1) == s@.skip(i + 1));
                assert(Seq::<char>::empty() + s@.skip(i + 1) == s@.skip(i + 1));
            }
            let ghost piece = cur@;
            parts.push(cur);
            cur = Vec::new();
            proof {
                assert(views(parts@) == done.push(piece));
                assert(done + (seq![piece] + split(s@.skip(i + 1), c)) == done.push(piece) + split(
                    s@.skip(i + 1),
                    c,
                ));
                assert(cur@ + s@.skip(i + 1) == s@.skip(i + 1));
            }
        } else {
            proof {
                assert(cur@.push(s@[i as int]) + s@.skip(i + 1) == whole);
            }
            cur.push(s[i]);
        }
        i += 1;
    }
    proof {
        find_is_first(cur@, c);
        assert(cur@ + s@.skip(i as int) == cur@);
        assert(split(cur@, c) == seq![cur@]);
    }
    let ghost done = views(parts@);
    let ghost piece = cur@;
    parts.push(cur);
    assert(views(parts@) == done + seq![piece]);
    parts
}

/// Whether a character counts as white space.
pub open spec fn is_space(c: char) -> bool {
    let n = c as u32;
    9 <= n <= 13 || n == 32 || n == 0x85 || n == 0xa0 || n == 0x1680 || 0x2000 <= n <= 0x200a || n
        == 0x2028 || n == 0x2029 || n == 0x202f || n == 0x205f || n == 0x3000
}

/// A text without the white space around it.
pub open spec fn trimmed(s: Seq<char>) -> Seq<char>
    decreases s.len(),
{
    if s.len() == 0 {
        s
    } else if is_space(s[0]) {
        trimmed(s.skip(1))
    } else if is_space(s.last()) {
        trimmed(s.drop_last())
    } else {
        s
    }
}

/// Whether a character counts as white space.
fn space(c: char) -> (r: bool)
    ensures
        r == is_space(c),
{
    let n: u32 = c as u32;
    9 <= n && n <= 13 || n == 32 || n == 0x85 || n == 0xa0 || n == 0x1680 || 0x2000 <= n && n
        <= 0x200a || n == 0x2028 || n == 0x2029 || n == 0x202f || n == 0x205f || n == 0x3000
}

/// A text without the white space around it.
pub fn trim(s: &Vec<char>) -> (r: Vec<char>)
    ensures
        r@ == trimmed(s@),
{
    let mut from: usize = 0;
    let mut to: usize = s.len();
    assert(s@.subrange(0, to as int) == s@);
    while from < to && space(s[from])
        invariant
            from <= to <= s@.len(),
            trimmed(s@) == trimmed(s@.subrange(from as int, to as int)),
        decreases to - from,
    {
        assert(s@.subrange(from as int, to as int).skip(1) == s@.subrange(from + 1, to as int));
        from += 1;
    }
    while from < to && space(s[to - 1])
        invariant
            from <= to <= s@.len(),
            from < to ==> !is_space(s@[from as int]),
            trimmed(s@) == trimmed(s@.subrange(from as int, to as int)),
        decreases to - from,
    {
        assert(s@.subrange(from as int, to as int).drop_last() == s@.subrange(
            from as int,
            to - 1,
        ));
        to -= 1;
    }
    slice_chars(s, from, to)
}

/// Whether `s` starts with `prefix`.
pub fn starts_with(s: &Vec<char>, prefix: &Vec<char>) -> (r: bool)
    ensures
        r == prefix@.is_prefix_of(s@),
{
    if s.len() < prefix.len() {
        return false;
    }
    let mut i: usize = 0;
    while i < prefix.len()
        invariant
            i <= prefix@.len() <= s@.len(),
            forall|k: int| 0 <= k < i ==> s@[k] == prefix@[k],
        decreases prefix@.len() - i,
    {
        if s[i] != prefix[i] {
            assert(s@.subrange(0, prefix@.len() as int)[i as int] != prefix@[i as int]);
            return false;
        }
        i += 1;
    }
    assert(s@.subrange(0, prefix@.len() as int) =~= prefix@);
    true
}

/// A letter in lower case; any other character as it is.
pub open spec fn lower(c: char) -> char {
    if 'A' <= c <= 'Z' {
        (c as u32 + 32) as char
    } else {
        c
    }
}

/// A text with spaces added on the right, to at least `width` characters.
pub open spec fn padded(s: Seq<char>, width: nat) -> Seq<char> {
    if s.len() < width {
        s + Seq::new((width - s.len()) as nat, |i: int| ' ')
    } else {
        s
    }
}

/// A text with spaces added on the right, to at least `width` characters.
pub fn pad(s: &str, width: usize) -> (r: String)
    ensures
        r@ == padded(s@, width as nat),
{
    let mut r = s.to_owned();
    let len: usize = s.unicode_len();
    let mut i: usize = len;
    assert(r@ == s@ + Seq::new(0, |k: int| ' '));
    while i < width
        invariant
            len == s@.len(),
            len <= i,
            len < width ==> i <= width,
            width <= len ==> i == len,
            r@ == s@ + Seq::new((i - len) as nat, |k: int| ' '),
        decreases width - i,
    {
        r.push(' ');
        i += 1;
        assert(r@ == s@ + Seq::new((i - len) as nat, |k: int| ' '));
    }
    assert(r@ == padded(s@, width as nat));
    r
}

/// A line without the carriage return at its end.
pub open spec fn without_cr(s: Seq<char>) -> Seq<char> {
    if s.len() > 0 && s.last() == '\r' {
        s.drop_last()
    } else {
        s
    }
}

/// The lines of a text: each ends in a newline, with or without a carriage return before it,
/// but the last, which may also end with the text.
pub open spec fn lines_of(s: Seq<char>) -> Seq<Seq<char>> {
    let pieces = split(s, '\n');
    let ended = pieces.drop_last().map_values(|p: Seq<char>| without_cr(p));
    if pieces.last().len() > 0 {
        ended.push(pieces.last())
    } else {
        ended
    }
}

/// A text always has a first piece.
proof fn split_is_not_empty(s: Seq<char>, c: char)
    ensures
        split(s, c).len() > 0,
{
}

/// The lines of a text.
pub fn lines(s: &str) -> (r: Vec<String>)
    ensures
        views(r@) == lines_of(s@),
{
    let pieces = split_chars(&chars_of(s), '\n');
    let ghost all = views(pieces@);
    proof {
        split_is_not_empty(s@, '\n');
        assert(all.len() == pieces@.len());
    }
    let n: usize = pieces.len() - 1;
    let mut r: Vec<String> = Vec::new();
    let mut i: usize = 0;
    while i < n
        invariant
            i <= n,
            n + 1 == pieces@.len(),
            all == views(pieces@),
            r@.len() == i,
            forall|k: int| 0 <= k < i ==> (#[trigger] r@[k])@ == without_cr(all[k]),
        decreases n - i,
    {
        let piece = &pieces[i];
        let len: usize = piece.len();
        if len > 0 && piece[len - 1] == '\r' {
            let cut = slice_chars(piece, 0, len - 1);
            assert(cut@ == piece@.drop_last());
            r.push(string_of(cut.as_slice()));
        } else {
            r.push(string_of(piece.as_slice()));
        }
        i += 1;
    }
    assert(views(r@) =~= all.drop_last().map_values(|p: Seq<char>| without_cr(p)));
    if pieces[n].len() > 0 {
        let ghost ended = views(r@);
        let last = string_of(pieces[n].as_slice());
        r.push(last);
        assert(views(r@) == ended.push(all.last()));
    }
    r
}

/// The words of a text: what stands between white space.
pub open spec fn words_of(s: Seq<char>) -> Seq<Seq<char>> {
    split(
        s.map_values(
            |c: char|
                if is_space(c) {
                    ' '
                } else {
                    c
                },
        ),
        ' ',
    ).filter(|w: Seq<char>| w.len() > 0)
}

/// The words of a text.
pub fn words(s: &str) -> (r: Vec<String>)
    ensures
        views(r@) == words_of(s@),
{
    let chars = chars_of(s);
    let mut spaced: Vec<char> = Vec::new();
    let mut i: usize = 0;
    while i < chars.len()
        invariant
            i <= chars@.len(),
            spaced@.len() == i,
            forall|k: int|
                0 <= k < i ==> #[trigger] spaced@[k] == (if is_space(chars@[k]) {
                    ' '
                } else {
                    chars@[k]
                }),
        decreases chars@.len() - i,
    {
        if space(chars[i]) {
            spaced.push(' ');
        } else {
            spaced.push(chars[i]);
        }
        i += 1;
    }
    assert(spaced@ =~= s@.map_values(
        |c: char|
            if is_space(c) {
                ' '
            } else {
                c
            },
    ));
    let pieces = split_chars(&spaced, ' ');
    let ghost all = views(pieces@);
    let ghost keep = |w: Seq<char>| w.len() > 0;
    let mut r: Vec<String> = Vec::new();
    let mut j: usize = 0;
    assert(all.take(0).filter(keep) == Seq::<Seq<char>>::empty()) by {
        reveal(Seq::filter);
    }
    assert(views(r@) =~= Seq::<Seq<char>>::empty());
    while j < pieces.len()
        invariant
            j <= pieces@.len(),
            all == views(pieces@),
            keep == (|w: Seq<char>| w.len() > 0),
            views(r@) == all.take(j as int).filter(keep),
        decreases pieces@.len() - j,
    {
        let ghost before = views(r@);
        proof {
            reveal(Seq::filter);
            assert(all.take(j + 1).drop_last() == all.take(j as int));
            assert(all.take(j + 1).last() == pieces@[j as int]@);
        }
        if pieces[j].len() > 0 {
            r.push(string_of(pieces[j].as_slice()));
            assert(views(r@) == before.push(pieces@[j as int]@));
        }
        j += 1;
    }
    assert(all.take(j as int) == all);
    r
}

/// The digits are the usual ones, in order.
pub proof fn digits_are_the_usual_ones(d: nat)
    requires
        d < 16,
    ensures
        digit(d) == "0123456789abcdef"@[d as int],
{
    reveal_strlit("0123456789abcdef");
}

/// The value of a number's digits, the first weighing most.
pub open spec fn value_in(base: int, digits: Seq<char>) -> int
    decreases digits.len(),
{
    if digits.len() == 0 {
        0
    } else {
        base * value_in(base, digits.drop_last()) + "0123456789abcdef"@.index_of(digits.last())
    }
}

proof fn a_digit_has_its_place(d: nat)
    requires
        d < 16,
    ensures
        "0123456789abcdef"@.index_of(digit(d)) == d,
{
    reveal_strlit("0123456789abcdef");
    digits_are_the_usual_ones(d);
    let all = "0123456789abcdef"@;
    assert(all[d as int] == digit(d));
    let i = all.index_of(digit(d));
    assert(all[i] == digit(d));
    assert(forall|a: int, b: int| 0 <= a < b < 16 ==> all[a] != all[b]);
}

/// A number in decimal reads back as that number, digit by digit, and has no zero in front
/// unless it is zero.
pub proof fn a_decimal_is_its_number(n: nat)
    ensures
        value_in(10, decimal(n)) == n,
        decimal(n).len() > 0,
        decimal(n)[0] == '0' ==> n == 0,
    decreases n,
{
    a_digit_has_its_place(n % 10);
    if n < 10 {
        assert(seq![digit(n)].drop_last() =~= Seq::empty());
        assert(value_in(10, seq![digit(n)].drop_last()) == 0);
    } else {
        a_decimal_is_its_number(n / 10);
        assert(decimal(n).drop_last() =~= decimal(n / 10));
    }
}

/// A number in hexadecimal reads back as that number, digit by digit, and has no zero in front
/// unless it is zero.
pub proof fn a_hexadecimal_is_its_number(n: nat)
    ensures
        value_in(16, hexadecimal(n)) == n,
        hexadecimal(n).len() > 0,
        hexadecimal(n)[0] == '0' ==> n == 0,
    decreases n,
{
    a_digit_has_its_place(n % 16);
    if n < 16 {
        assert(seq![digit(n)].drop_last() =~= Seq::empty());
        assert(value_in(16, seq![digit(n)].drop_last()) == 0);
    } else {
        a_hexadecimal_is_its_number(n / 16);
        assert(hexadecimal(n).drop_last() =~= hexadecimal(n / 16));
    }
}

/// Four digits read back as their number.
pub proof fn four_digits_are_their_number(n: u16)
    ensures
        hex4(n).len() == 4,
        value_in(16, hex4(n)) == n,
{
    let s = hex4(n);
    a_digit_has_its_place((n / 4096) as nat);
    a_digit_has_its_place((n / 256 % 16) as nat);
    a_digit_has_its_place((n / 16 % 16) as nat);
    a_digit_has_its_place((n % 16) as nat);
    assert(s.drop_last().drop_last().drop_last().drop_last() =~= Seq::empty());
    assert(value_in(16, s.drop_last().drop_last().drop_last().drop_last()) == 0);
    assert(value_in(16, s.drop_last().drop_last().drop_last()) == n / 4096);
    assert(value_in(16, s.drop_last().drop_last()) == n / 256) by {
        assert(n / 256 == 16 * (n / 4096) + n / 256 % 16);
    }
    assert(value_in(16, s.drop_last()) == n / 16) by {
        assert(n / 16 == 16 * (n / 256) + n / 16 % 16);
    }
}

/// Zeros in front change nothing but the length, which is at least the width asked for, and no
/// more than that unless the number needs it.
pub proof fn padding_keeps_the_number(n: nat, width: nat)
    ensures
        value_in(10, zero_padded(n, width)) == n,
        zero_padded(n, width).len() >= width,
        zero_padded(n, width).len() > width ==> zero_padded(n, width) == decimal(n),
{
    a_decimal_is_its_number(n);
    if decimal(n).len() < width {
        zeros_weigh_nothing((width - decimal(n).len()) as nat, decimal(n));
    }
}

proof fn zeros_weigh_nothing(k: nat, digits: Seq<char>)
    ensures
        value_in(10, Seq::new(k, |i: int| '0') + digits) == value_in(10, digits),
    decreases k + digits.len(),
{
    let zeros = Seq::new(k, |i: int| '0');
    if digits.len() > 0 {
        zeros_weigh_nothing(k, digits.drop_last());
        assert((zeros + digits).drop_last() =~= zeros + digits.drop_last());
    } else if k > 0 {
        zeros_weigh_nothing((k - 1) as nat, digits);
        let fewer = Seq::new((k - 1) as nat, |i: int| '0');
        assert((zeros + digits).drop_last() =~= fewer + digits);
        a_digit_has_its_place(0);
    } else {
        assert(zeros + digits =~= digits);
    }
}

/// Pieces put together with a character between each two.
pub open spec fn joined_by(pieces: Seq<Seq<char>>, c: char) -> Seq<char>
    decreases pieces.len(),
{
    if pieces.len() == 0 {
        Seq::empty()
    } else if pieces.len() == 1 {
        pieces[0]
    } else {
        pieces[0] + seq![c] + joined_by(pieces.skip(1), c)
    }
}

/// Splitting takes a text apart at every occurrence of the character, and loses nothing: the
/// pieces do not hold it, and put together with it between them they are the text again.
pub proof fn splitting_loses_nothing(s: Seq<char>, c: char)
    ensures
        split(s, c).len() > 0,
        joined_by(split(s, c), c) == s,
        forall|i: int| 0 <= i < split(s, c).len() ==> !(#[trigger] split(s, c)[i]).contains(c),
    decreases s.len(),
{
    find_is_first(s, c);
    if let Some(i) = find(s, c) {
        let rest = s.skip(i + 1);
        splitting_loses_nothing(rest, c);
        let all = split(s, c);
        assert(all.skip(1) =~= split(rest, c));
        assert(s =~= s.take(i) + seq![c] + rest);
        assert forall|k: int| 0 <= k < all.len() implies !(#[trigger] all[k]).contains(c) by {
            if k > 0 {
                assert(all[k] == split(rest, c)[k - 1]);
            }
        }
    }
}

/// Splitting undoes joining: pieces that do not hold the character come apart again.
pub proof fn splitting_undoes_joining(pieces: Seq<Seq<char>>, c: char)
    requires
        pieces.len() > 0,
        forall|i: int| 0 <= i < pieces.len() ==> !(#[trigger] pieces[i]).contains(c),
    ensures
        split(joined_by(pieces, c), c) == pieces,
    decreases pieces.len(),
{
    let s = joined_by(pieces, c);
    let first = pieces[0];
    assert(!first.contains(c));
    if pieces.len() == 1 {
        find_is_first(s, c);
        assert(pieces =~= seq![first]);
    } else {
        let more = pieces.skip(1);
        assert forall|i: int| 0 <= i < more.len() implies !(#[trigger] more[i]).contains(c) by {
            assert(more[i] == pieces[i + 1]);
        }
        splitting_undoes_joining(more, c);
        let n = first.len() as int;
        assert(s[n] == c);
        assert forall|j: int| 0 <= j < n implies s[j] != c by {
            assert(s[j] == first[j]);
            assert(first.contains(first[j]));
        }
        find_at(s, c, n);
        assert(s.take(n) =~= first);
        assert(s.skip(n + 1) =~= joined_by(more, c));
        assert(pieces =~= seq![first] + more);
    }
}

/// Whether `t` is the part of `s` between two places, and all that is left out is white space.
pub open spec fn leaves_out_only_space(s: Seq<char>, t: Seq<char>, from: int, to: int) -> bool {
    &&& 0 <= from <= to <= s.len()
    &&& t == s.subrange(from, to)
    &&& forall|i: int| 0 <= i < from ==> is_space(#[trigger] s[i])
    &&& forall|i: int| to <= i < s.len() ==> is_space(#[trigger] s[i])
}

/// Trimming takes white space off both ends and nothing else.
pub proof fn trimming_takes_only_space(s: Seq<char>)
    ensures
        trimmed(s).len() > 0 ==> !is_space(trimmed(s)[0]) && !is_space(trimmed(s).last()),
        exists|from: int, to: int| leaves_out_only_space(s, trimmed(s), from, to),
{
    let (from, to) = ends_of_trimmed(s);
    assert(leaves_out_only_space(s, trimmed(s), from, to));
}

#[verifier::spinoff_prover]
proof fn ends_of_trimmed(s: Seq<char>) -> (r: (int, int))
    ensures
        leaves_out_only_space(s, trimmed(s), r.0, r.1),
        trimmed(s).len() > 0 ==> !is_space(trimmed(s)[0]) && !is_space(trimmed(s).last()),
    decreases s.len(),
{
    if s.len() == 0 {
        assert(s =~= s.subrange(0, 0));
        (0, 0)
    } else if is_space(s[0]) {
        let rest = s.skip(1);
        let (from, to) = ends_of_trimmed(rest);
        assert(rest.subrange(from, to) =~= s.subrange(from + 1, to + 1));
        assert forall|i: int| 0 <= i < from + 1 implies is_space(#[trigger] s[i]) by {
            if i > 0 {
                assert(rest[i - 1] == s[i]);
            }
        }
        assert forall|i: int| to + 1 <= i < s.len() implies is_space(#[trigger] s[i]) by {
            assert(rest[i - 1] == s[i]);
        }
        (from + 1, to + 1)
    } else if is_space(s.last()) {
        let rest = s.drop_last();
        let (from, to) = ends_of_trimmed(rest);
        assert(rest.subrange(from, to) =~= s.subrange(from, to));
        assert forall|i: int| 0 <= i < from implies is_space(#[trigger] s[i]) by {
            assert(rest[i] == s[i]);
        }
        assert forall|i: int| to <= i < s.len() implies is_space(#[trigger] s[i]) by {
            if i < rest.len() {
                assert(rest[i] == s[i]);
            }
        }
        (from, to)
    } else {
        assert(s =~= s.subrange(0, s.len() as int));
        (0, s.len() as int)
    }
}

/// Padding adds spaces at the end, as many as are missing.
pub proof fn padding_adds_spaces_at_the_end(s: Seq<char>, width: nat)
    ensures
        s.is_prefix_of(padded(s, width)),
        padded(s, width).len() == (if s.len() < width {
            width
        } else {
            s.len()
        }),
        forall|i: int| s.len() <= i < padded(s, width).len() ==> padded(s, width)[i] == ' ',
{
    assert(s =~= padded(s, width).subrange(0, s.len() as int));
}

/// Whether a text has this part in it.
pub open spec fn shows(s: Seq<char>, part: Seq<char>) -> bool {
    exists|k: int| 0 <= k && shows_at(s, part, k)
}

/// Whether a text has this part in it at a place.
pub open spec fn shows_at(s: Seq<char>, part: Seq<char>, k: int) -> bool {
    0 <= k && k + part.len() <= s.len() && s.subrange(k, k + part.len()) == part
}

/// What is put behind a text is part of it.
pub proof fn what_is_added_shows(s: Seq<char>, a: Seq<char>, b: Seq<char>)
    ensures
        shows(s + a, a),
        shows(s + a + b, a + b),
{
    assert((s + a).subrange(s.len() as int, (s + a).len() as int) =~= a);
    assert(shows_at(s + a, a, s.len() as int));
    assert((s + a + b).subrange(s.len() as int, (s + a + b).len() as int) =~= a + b);
    assert(shows_at(s + a + b, a + b, s.len() as int));
}

/// What a text shows, it still shows with more behind it, or in front of it.
pub proof fn what_shows_stays(s: Seq<char>, part: Seq<char>, more: Seq<char>)
    requires
        shows(s, part),
    ensures
        shows(s + more, part),
        shows(more + s, part),
{
    let k = choose|k: int| 0 <= k && shows_at(s, part, k);
    assert((s + more).subrange(k, k + part.len()) =~= s.subrange(k, k + part.len()));
    assert(shows_at(s + more, part, k));
    assert((more + s).subrange(more.len() + k, more.len() + k + part.len()) =~= s.subrange(
        k,
        k + part.len(),
    ));
    assert(shows_at(more + s, part, more.len() + k));
}

/// What a text starts with, it still starts with, with more behind it.
pub proof fn a_start_stays(s: Seq<char>, part: Seq<char>, more: Seq<char>)
    requires
        shows_at(s, part, 0),
    ensures
        shows_at(s + more, part, 0),
{
    assert((s + more).subrange(0, part.len() as int) =~= s.subrange(0, part.len() as int));
}

/// The lines of a text are what stands before each newline, and what follows the last if it is not
/// empty; so lines without a newline or a carriage return come apart again.
pub proof fn lines_come_apart(lines: Seq<Seq<char>>)
    requires
        forall|i: int|
            0 <= i < lines.len() ==> !(#[trigger] lines[i]).contains('\n') && !lines[i].contains(
                '\r',
            ),
    ensures
        lines.len() > 0 && lines.last().len() > 0 ==> lines_of(joined_by(lines, '\n')) == lines,
        lines_of(joined_by(lines.push(Seq::empty()), '\n')) == lines,
{
    let ended = lines.push(Seq::empty());
    assert forall|i: int| 0 <= i < ended.len() implies !(#[trigger] ended[i]).contains('\n') by {
        if i < lines.len() {
            assert(ended[i] == lines[i]);
        }
    }
    splitting_undoes_joining(ended, '\n');
    assert forall|i: int| 0 <= i < lines.len() implies without_cr(#[trigger] lines[i])
        == lines[i] by {
        if lines[i].len() > 0 && lines[i].last() == '\r' {
            assert(lines[i].contains(lines[i][lines[i].len() - 1]));
        }
    }
    assert(ended.drop_last() =~= lines);
    assert(lines.map_values(|p: Seq<char>| without_cr(p)) =~= lines);
    if lines.len() > 0 && lines.last().len() > 0 {
        splitting_undoes_joining(lines, '\n');
        let front = lines.drop_last();
        assert(front.map_values(|p: Seq<char>| without_cr(p)) =~= front) by {
            assert forall|i: int| 0 <= i < front.len() implies without_cr(#[trigger] front[i])
                == front[i] by {
                assert(front[i] == lines[i]);
            }
        }
        assert(front.push(lines.last()) =~= lines);
    }
}

/// Among the characters of ASCII the white space is the space and the five controls from the tab to
/// the carriage return.
pub proof fn ascii_space_is_the_usual(c: char)
    requires
        c as u32 <= 127,
    ensures
        is_space(c) <==> c == ' ' || '\t' <= c <= '\r',
{
}

} // verus!
