//! Text helpers: comparison, decimal rendering, whitespace trimming and joining.
use vstd::prelude::*;

verus! {

/// Whether two string slices hold the same characters.
pub fn same_text(a: &str, b: &str) -> (r: bool)
    ensures
        r == (a@ == b@),
{
    let n = a.unicode_len();
    if n != b.unicode_len() {
        return false;
    }
    let mut i: usize = 0;
    while i < n
        invariant
            n == a@.len(),
            n == b@.len(),
            i <= n,
            forall|j: int| 0 <= j < i ==> a@[j] == b@[j],
        decreases n - i,
    {
        if a.get_char(i) != b.get_char(i) {
            return false;
        }
        i = i + 1;
    }
    assert(a@ =~= b@);
    true
}

/// Appends one character through `String::push`, which appends the given char
/// to the end of the string.
#[verifier::external_body]
fn push_char(s: &mut String, c: char)
    ensures
        final(s)@ == old(s)@.push(c),
{
    s.push(c);
}

/// The decimal digit character for `d < 10`.
pub open spec fn digit_char(d: nat) -> char {
    (48 + d) as char
}

/// The decimal rendering of a natural number, without sign or leading zeros.
pub open spec fn decimal_text(n: nat) -> Seq<char>
    decreases n,
{
    if n < 10 {
        seq![digit_char(n)]
    } else {
        decimal_text(n / 10).push(digit_char(n % 10))
    }
}

/// Whether `c` is one of the digits `0` to `9`.
pub open spec fn is_decimal_digit(c: char) -> bool {
    '0' <= c && c <= '9'
}

/// The number that a text of decimal digits denotes, read from the left.
pub open spec fn decimal_value(s: Seq<char>) -> int
    decreases s.len(),
{
    if s.len() == 0 {
        0
    } else {
        decimal_value(s.drop_last()) * 10 + (s.last() as int - 48)
    }
}

/// The decimal rendering of `n` is a non-empty run of digits, without a leading
/// zero unless `n` is zero, and reading it back gives `n`.
pub proof fn lemma_decimal_text_reads_back(n: nat)
    ensures
        decimal_text(n).len() > 0,
        forall|i: int| 0 <= i < decimal_text(n).len() ==> is_decimal_digit(#[trigger] decimal_text(n)[i]),
        decimal_text(n)[0] == '0' ==> n == 0,
        decimal_value(decimal_text(n)) == n,
    decreases n,
{
    let d: nat = n % 10;
    assert(digit_char(d) as int == 48 + d);
    if n < 10 {
        assert(decimal_text(n).drop_last() =~= Seq::<char>::empty());
        assert(decimal_value(Seq::<char>::empty()) == 0);
        assert(decimal_text(n).last() == digit_char(d));
    } else {
        lemma_decimal_text_reads_back(n / 10);
        assert(decimal_text(n).drop_last() =~= decimal_text(n / 10));
        assert(decimal_text(n).last() == digit_char(d));
        assert(decimal_value(decimal_text(n)) == (n / 10) * 10 + d);
    }
}

/// Two numbers with the same decimal rendering are the same number.
pub proof fn lemma_decimal_text_injective(a: nat, b: nat)
    ensures
        decimal_text(a) == decimal_text(b) ==> a == b,
{
    lemma_decimal_text_reads_back(a);
    lemma_decimal_text_reads_back(b);
}

/// Whether `c` is an ASCII capital letter.
pub open spec fn is_ascii_upper(c: char) -> bool {
    'A' <= c && c <= 'Z'
}

/// Whether `c` is an ASCII small letter.
pub open spec fn is_ascii_lower(c: char) -> bool {
    'a' <= c && c <= 'z'
}

/// The capital of an ASCII small letter; any other character is kept.
pub open spec fn to_ascii_upper(c: char) -> char {
    if is_ascii_lower(c) {
        (c as int - 32) as char
    } else {
        c
    }
}

/// The small letter of an ASCII capital; any other character is kept.
pub open spec fn to_ascii_lower(c: char) -> char {
    if is_ascii_upper(c) {
        (c as int + 32) as char
    } else {
        c
    }
}

/// A text with every ASCII small letter made a capital.
pub open spec fn upper_text(s: Seq<char>) -> Seq<char> {
    s.map_values(|c: char| to_ascii_upper(c))
}

/// A text with every ASCII capital made a small letter.
pub open spec fn lower_text(s: Seq<char>) -> Seq<char> {
    s.map_values(|c: char| to_ascii_lower(c))
}

/// The SCREAMING_SNAKE_CASE form of a CamelCase name: an underscore before every
/// capital but the first character, and every letter a capital.
pub open spec fn screaming_snake_text(name: Seq<char>) -> Seq<char>
    decreases name.len(),
{
    if name.len() == 0 {
        Seq::empty()
    } else if name.len() > 1 && is_ascii_upper(name.last()) {
        screaming_snake_text(name.drop_last()) + seq!['_', name.last()]
    } else {
        screaming_snake_text(name.drop_last()).push(to_ascii_upper(name.last()))
    }
}

/// A part of a name that starts with a capital is set off by an underscore: the
/// SCREAMING_SNAKE_CASE form of two parts joined is the forms of the two parts
/// with an underscore between them.
pub proof fn lemma_screaming_snake_join(a: Seq<char>, b: Seq<char>)
    requires
        a.len() > 0,
        b.len() > 0,
        is_ascii_upper(b[0]),
    ensures
        screaming_snake_text(a + b) == screaming_snake_text(a) + seq!['_'] + screaming_snake_text(b),
    decreases b.len(),
{
    assert((a + b).drop_last() =~= a + b.drop_last());
    if b.len() == 1 {
        assert(a + b.drop_last() =~= a);
        assert(b.drop_last() =~= Seq::<char>::empty());
        assert(screaming_snake_text(Seq::<char>::empty()) =~= Seq::<char>::empty());
        assert(to_ascii_upper(b.last()) == b[0]);
        assert(screaming_snake_text(b) =~= seq![b[0]]);
    } else {
        lemma_screaming_snake_join(a, b.drop_last());
    }
}

/// A single word, with no capital after its first character, becomes its
/// letters in capitals.
pub proof fn lemma_screaming_snake_word(w: Seq<char>)
    requires
        forall|i: int| 1 <= i < w.len() ==> !is_ascii_upper(#[trigger] w[i]),
    ensures
        screaming_snake_text(w) == upper_text(w),
    decreases w.len(),
{
    if w.len() > 0 {
        lemma_screaming_snake_word(w.drop_last());
        assert(upper_text(w) =~= upper_text(w.drop_last()).push(to_ascii_upper(w.last())));
    } else {
        assert(upper_text(w) =~= Seq::<char>::empty());
    }
}

/// Renders `n` in decimal, as `n.to_string()` does.
pub fn decimal_string(n: u32) -> (s: String)
    ensures
        s@ == decimal_text(n as nat),
    decreases n,
{
    let d: u8 = (n % 10) as u8;
    let c: char = (48u8 + d) as char;
    if n < 10 {
        let mut s = String::new();
        push_char(&mut s, c);
        assert(s@ =~= seq![digit_char(n as nat)]);
        s
    } else {
        let mut s = decimal_string(n / 10);
        push_char(&mut s, c);
        s
    }
}

/// Whether `c` has the Unicode property White_Space, which is what
/// `char::is_whitespace` and the `trim` family of `str` test.
pub open spec fn is_white_space(c: char) -> bool {
    let u = c as u32;
    ||| 0x9 <= u <= 0xd
    ||| u == 0x20
    ||| u == 0x85
    ||| u == 0xa0
    ||| u == 0x1680
    ||| 0x2000 <= u <= 0x200a
    ||| u == 0x2028
    ||| u == 0x2029
    ||| u == 0x202f
    ||| u == 0x205f
    ||| u == 0x3000
}

/// Tests the White_Space property of one character.
pub fn white_space(c: char) -> (r: bool)
    ensures
        r == is_white_space(c),
{
    let u = c as u32;
    (0x9 <= u && u <= 0xd) || u == 0x20 || u == 0x85 || u == 0xa0 || u == 0x1680 || (0x2000 <= u
        && u <= 0x200a) || u == 0x2028 || u == 0x2029 || u == 0x202f || u == 0x205f || u == 0x3000
}

/// The text without its leading white space.
pub open spec fn trim_start_text(s: Seq<char>) -> Seq<char>
    decreases s.len(),
{
    if s.len() > 0 && is_white_space(s[0]) {
        trim_start_text(s.drop_first())
    } else {
        s
    }
}

/// The text without its trailing white space.
pub open spec fn trim_end_text(s: Seq<char>) -> Seq<char>
    decreases s.len(),
{
    if s.len() > 0 && is_white_space(s.last()) {
        trim_end_text(s.drop_last())
    } else {
        s
    }
}

/// The text without white space at either end.
pub open spec fn trim_text(s: Seq<char>) -> Seq<char> {
    trim_end_text(trim_start_text(s))
}

/// Dropping a run of leading white space and then trimming gives the same text.
proof fn lemma_trim_start_skip(s: Seq<char>, k: int)
    requires
        0 <= k <= s.len(),
        forall|j: int| 0 <= j < k ==> is_white_space(#[trigger] s[j]),
    ensures
        trim_start_text(s) == trim_start_text(s.skip(k)),
    decreases k,
{
    if k > 0 {
        assert(s.drop_first().skip(k - 1) =~= s.skip(k));
        assert forall|j: int| 0 <= j < k - 1 implies is_white_space(#[trigger] s.drop_first()[j]) by {
            assert(s.drop_first()[j] == s[j + 1]);
        }
        lemma_trim_start_skip(s.drop_first(), k - 1);
    } else {
        assert(s.skip(0) =~= s);
    }
}

/// Dropping a run of trailing white space and then trimming gives the same text.
proof fn lemma_trim_end_take(s: Seq<char>, k: int)
    requires
        0 <= k <= s.len(),
        forall|j: int| k <= j < s.len() ==> is_white_space(#[trigger] s[j]),
    ensures
        trim_end_text(s) == trim_end_text(s.take(k)),
    decreases s.len() - k,
{
    if k < s.len() {
        assert(s.drop_last().take(k) =~= s.take(k));
        assert forall|j: int| k <= j < s.drop_last().len() implies is_white_space(
            #[trigger] s.drop_last()[j],
        ) by {
            assert(s.drop_last()[j] == s[j]);
        }
        lemma_trim_end_take(s.drop_last(), k);
    } else {
        assert(s.take(k) =~= s);
    }
}

/// `s.trim_start()`: the slice without its leading white space.
pub fn trim_start(s: &str) -> (r: &str)
    ensures
        r@ == trim_start_text(s@),
{
    let n = s.unicode_len();
    let mut i: usize = 0;
    while i < n && white_space(s.get_char(i))
        invariant
            n == s@.len(),
            i <= n,
            forall|j: int| 0 <= j < i ==> is_white_space(#[trigger] s@[j]),
        decreases n - i,
    {
        i = i + 1;
    }
    proof {
        lemma_trim_start_skip(s@, i as int);
        assert(s@.subrange(i as int, n as int) =~= s@.skip(i as int));
    }
    s.substring_char(i, n)
}

/// `s.trim_end()`: the slice without its trailing white space.
pub fn trim_end(s: &str) -> (r: &str)
    ensures
        r@ == trim_end_text(s@),
{
    let n = s.unicode_len();
    let mut k: usize = n;
    while k > 0 && white_space(s.get_char(k - 1))
        invariant
            n == s@.len(),
            k <= n,
            forall|j: int| k <= j < n ==> is_white_space(#[trigger] s@[j]),
        decreases k,
    {
        k = k - 1;
    }
    proof {
        lemma_trim_end_take(s@, k as int);
        assert(s@.subrange(0, k as int) =~= s@.take(k as int));
    }
    s.substring_char(0, k)
}

/// `s.trim()`: the slice without white space at either end.
pub fn trim(s: &str) -> (r: &str)
    ensures
        r@ == trim_text(s@),
{
    trim_end(trim_start(s))
}

/// The lines joined with a newline between each two of them.
pub open spec fn join_lines_text(lines: Seq<Seq<char>>) -> Seq<char>
    decreases lines.len(),
{
    if lines.len() == 0 {
        Seq::empty()
    } else if lines.len() == 1 {
        lines[0]
    } else {
        join_lines_text(lines.drop_last()) + seq!['\n'] + lines.last()
    }
}

/// `lines.join("\n")`.
pub fn join_lines(lines: &Vec<String>) -> (r: String)
    ensures
        r@ == join_lines_text(lines@.map_values(|l: String| l@)),
{
    let ghost views = lines@.map_values(|l: String| l@);
    let mut r = String::new();
    let mut i: usize = 0;
    while i < lines.len()
        invariant
            i <= lines.len(),
            views == lines@.map_values(|l: String| l@),
            r@ == join_lines_text(views.take(i as int)),
        decreases lines.len() - i,
    {
        assert(views.take(i + 1).drop_last() =~= views.take(i as int));
        if i != 0 {
            push_char(&mut r, '\n');
        }
        r.append(lines[i].as_str());
        i = i + 1;
    }
    assert(views.take(lines.len() as int) =~= views);
    r
}

} // verus!
