//! Text as sequences of characters: the scanning rules shared by the parsers
//! of tool output, environment switches and device names.

use crate::decimal::{digits_value, is_read_as_zero, lemma_power_step, proper, rounds_to_zero};
use vstd::arithmetic::power::pow;
use vstd::prelude::*;

verus! {

/// Characters with the Unicode `White_Space` property.
pub open spec fn white(c: char) -> bool {
    let n = c as int;
    ||| 0x9 <= n <= 0xd
    ||| n == 0x20
    ||| n == 0x85
    ||| n == 0xa0
    ||| n == 0x1680
    ||| 0x2000 <= n <= 0x200a
    ||| n == 0x2028
    ||| n == 0x2029
    ||| n == 0x202f
    ||| n == 0x205f
    ||| n == 0x3000
}

pub open spec fn digit_char(c: char) -> bool {
    '0' as int <= c as int <= '9' as int
}

/// A set of characters that a scan strips or looks for.
#[derive(Debug, Clone, Copy, PartialEq, Eq, Structural)]
pub enum CharClass {
    /// White space.
    White,
    /// The `*` and `+` that mark a mode's current and preferred rate.
    RateMark,
    /// A double quote.
    Quote,
    /// The null character.
    Null,
}

pub open spec fn in_class(class: CharClass, c: char) -> bool {
    match class {
        CharClass::White => white(c),
        CharClass::RateMark => c == '*' || c == '+',
        CharClass::Quote => c == '"',
        CharClass::Null => c as int == 0,
    }
}

/// Whether `c` belongs to `class`.
pub fn is_in_class(class: CharClass, c: char) -> (b: bool)
    ensures
        b == in_class(class, c),
{
    match class {
        CharClass::White => is_white(c),
        CharClass::RateMark => c == '*' || c == '+',
        CharClass::Quote => c == '"',
        CharClass::Null => c as u32 == 0,
    }
}

/// Whether `c` is white space.
pub fn is_white(c: char) -> (b: bool)
    ensures
        b == white(c),
{
    let n: u32 = c as u32;
    (0x9 <= n && n <= 0xd) || n == 0x20 || n == 0x85 || n == 0xa0 || n == 0x1680 || (0x2000 <= n
        && n <= 0x200a) || n == 0x2028 || n == 0x2029 || n == 0x202f || n == 0x205f || n == 0x3000
}

fn is_digit(c: char) -> (b: bool)
    ensures
        b == digit_char(c),
{
    let n: u32 = c as u32;
    48 <= n && n <= 57
}

/// The characters of `s`.
pub fn chars_of(s: &str) -> (v: Vec<char>)
    ensures
        v@ == s@,
{
    let mut v: Vec<char> = Vec::new();
    for c in it: s.chars()
        invariant
            it.seq() == s@,
            v@ == s@.take(it.index() as int),
    {
        v.push(c);
    }
    assert(s@.take(s@.len() as int) == s@);
    v
}

/// Appends one character, by `String::push`, of which the contract says that
/// the text grows by that character at its end.
#[verifier::external_body]
fn push_char(s: &mut String, c: char)
    ensures
        final(s)@ == old(s)@.push(c),
{
    s.push(c);
}

/// The text made of the characters `v`.
pub fn string_of(v: &[char]) -> (s: String)
    ensures
        s@ == v@,
{
    let mut s = String::new();
    for i in 0..v.len()
        invariant
            s@ == v@.take(i as int),
    {
        assert(v@.take(i as int + 1) == v@.take(i as int).push(v@[i as int]));
        push_char(&mut s, v[i]);
    }
    assert(v@.take(v@.len() as int) == v@);
    s
}

/// Taking one character more adds that character at the end.
pub proof fn lemma_take_step(s: Seq<char>, i: int)
    requires
        0 <= i < s.len(),
    ensures
        s.take(i + 1).drop_last() == s.take(i),
        s.take(i + 1).last() == s[i],
        s.take(i + 1) == s.take(i).push(s[i]),
        s.take(s.len() as int) == s,
{
    assert(s.take(i + 1).drop_last() =~= s.take(i));
    assert(s.take(i + 1) =~= s.take(i).push(s[i]));
    assert(s.take(s.len() as int) =~= s);
}

// ---- ASCII case ----

pub open spec fn lower(c: char) -> char {
    if 'A' as int <= c as int <= 'Z' as int {
        (c as int + 32) as char
    } else {
        c
    }
}

pub open spec fn upper(c: char) -> char {
    if 'a' as int <= c as int <= 'z' as int {
        (c as int - 32) as char
    } else {
        c
    }
}

/// Every ASCII capital replaced by its small letter.
pub open spec fn lower_all(s: Seq<char>) -> Seq<char> {
    s.map_values(|c: char| lower(c))
}

/// Every ASCII small letter replaced by its capital.
pub open spec fn upper_all(s: Seq<char>) -> Seq<char> {
    s.map_values(|c: char| upper(c))
}

/// `from` replaced by `to` wherever it stands.
pub open spec fn replaced(s: Seq<char>, from: char, to: char) -> Seq<char> {
    s.map_values(|c: char| if c == from { to } else { c })
}

fn to_lower(c: char) -> (r: char)
    ensures
        r == lower(c),
{
    let n: u32 = c as u32;
    if 65 <= n && n <= 90 {
        let b: u8 = n as u8;
        (b + 32) as char
    } else {
        c
    }
}

fn to_upper(c: char) -> (r: char)
    ensures
        r == upper(c),
{
    let n: u32 = c as u32;
    if 97 <= n && n <= 122 {
        let b: u8 = n as u8;
        (b - 32) as char
    } else {
        c
    }
}

/// `v` in ASCII small letters.
pub fn lowered(v: &[char]) -> (r: Vec<char>)
    ensures
        r@ == lower_all(v@),
{
    let mut r: Vec<char> = Vec::new();
    for i in 0..v.len()
        invariant
            r@ == lower_all(v@.take(i as int)),
    {
        r.push(to_lower(v[i]));
        proof {
            lemma_take_step(v@, i as int);
            assert(r@ =~= lower_all(v@.take(i as int + 1)));
        }
    }
    assert(v@.take(v@.len() as int) == v@);
    r
}

/// `v` in ASCII capitals.
pub fn uppered(v: &[char]) -> (r: Vec<char>)
    ensures
        r@ == upper_all(v@),
{
    let mut r: Vec<char> = Vec::new();
    for i in 0..v.len()
        invariant
            r@ == upper_all(v@.take(i as int)),
    {
        r.push(to_upper(v[i]));
        proof {
            lemma_take_step(v@, i as int);
            assert(r@ =~= upper_all(v@.take(i as int + 1)));
        }
    }
    assert(v@.take(v@.len() as int) == v@);
    r
}

/// `v` with `to` in place of `from`.
pub fn with_replaced(v: &[char], from: char, to: char) -> (r: Vec<char>)
    ensures
        r@ == replaced(v@, from, to),
{
    let mut r: Vec<char> = Vec::new();
    for i in 0..v.len()
        invariant
            r@ == replaced(v@.take(i as int), from, to),
    {
        if v[i] == from {
            r.push(to);
        } else {
            r.push(v[i]);
        }
        proof {
            lemma_take_step(v@, i as int);
            assert(r@ =~= replaced(v@.take(i as int + 1), from, to));
        }
    }
    assert(v@.take(v@.len() as int) == v@);
    r
}

// ---- Trimming ----

/// `s` without the characters of `class` at its front.
pub open spec fn strip_front(s: Seq<char>, class: CharClass) -> Seq<char>
    decreases s.len(),
{
    if s.len() > 0 && in_class(class, s[0]) {
        strip_front(s.skip(1), class)
    } else {
        s
    }
}

/// `s` without the characters of `class` at its end.
pub open spec fn strip_back(s: Seq<char>, class: CharClass) -> Seq<char>
    decreases s.len(),
{
    if s.len() > 0 && in_class(class, s.last()) {
        strip_back(s.drop_last(), class)
    } else {
        s
    }
}

/// `s` without the characters of `class` at either end.
pub open spec fn stripped(s: Seq<char>, class: CharClass) -> Seq<char> {
    strip_back(strip_front(s, class), class)
}

/// `v` without the characters of `class` at its front.
pub fn trim_front(v: &[char], class: CharClass) -> (r: Vec<char>)
    ensures
        r@ == strip_front(v@, class),
{
    let mut i: usize = 0;
    assert(v@.skip(0) == v@);
    while i < v.len() && is_in_class(class, v[i])
        invariant
            i <= v.len(),
            strip_front(v@.skip(i as int), class) == strip_front(v@, class),
        decreases v.len() - i,
    {
        assert(v@.skip(i as int).skip(1) =~= v@.skip(i as int + 1));
        i = i + 1;
    }
    let r: Vec<char> = copied(v, i, v.len());
    assert(r@ =~= v@.skip(i as int));
    r
}

/// `v` without the characters of `class` at its end.
pub fn trim_back(v: &[char], class: CharClass) -> (r: Vec<char>)
    ensures
        r@ == strip_back(v@, class),
{
    let mut n: usize = v.len();
    assert(v@.take(n as int) == v@);
    while n > 0 && is_in_class(class, v[n - 1])
        invariant
            n <= v.len(),
            strip_back(v@.take(n as int), class) == strip_back(v@, class),
        decreases n,
    {
        assert(v@.take(n as int).drop_last() =~= v@.take(n as int - 1));
        n = n - 1;
    }
    let r: Vec<char> = copied(v, 0, n);
    assert(r@ =~= v@.take(n as int));
    r
}

/// `v` without the characters of `class` at either end.
pub fn trimmed(v: &[char], class: CharClass) -> (r: Vec<char>)
    ensures
        r@ == stripped(v@, class),
{
    let front: Vec<char> = trim_front(v, class);
    trim_back(front.as_slice(), class)
}

/// The characters of `v` from `from` up to, not with, `to`.
pub fn copied(v: &[char], from: usize, to: usize) -> (r: Vec<char>)
    requires
        from <= to <= v@.len(),
    ensures
        r@ == v@.subrange(from as int, to as int),
{
    let mut r: Vec<char> = Vec::new();
    for i in from..to
        invariant
            from <= to <= v@.len(),
            r@ == v@.subrange(from as int, i as int),
    {
        r.push(v[i]);
        assert(r@ =~= v@.subrange(from as int, i as int + 1));
    }
    r
}

// ---- Searching ----

/// Whether `p` stands somewhere in `s`.
pub open spec fn occurs(p: Seq<char>, s: Seq<char>) -> bool {
    exists|i: int| #[trigger] occurs_at(p, s, i)
}

pub open spec fn occurs_at(p: Seq<char>, s: Seq<char>, i: int) -> bool {
    0 <= i && i + p.len() <= s.len() && s.subrange(i, i + p.len()) == p
}

/// Whether `v` holds the characters of `t` from `at` on.
fn matches_at(v: &[char], t: &[char], at: usize) -> (b: bool)
    requires
        at + t@.len() <= v@.len(),
    ensures
        b == occurs_at(t@, v@, at as int),
{
    let n: usize = v.len();
    for i in 0..t.len()
        invariant
            at + t@.len() <= n,
            n == v@.len(),
            forall|j: int| 0 <= j < i ==> v@[at + j] == t@[j],
    {
        if v[at + i] != t[i] {
            assert(v@.subrange(at as int, at + t@.len())[i as int] != t@[i as int]);
            return false;
        }
    }
    assert(v@.subrange(at as int, at + t@.len()) =~= t@);
    true
}

/// Whether `t` occurs in `v`.
pub fn contains_text(v: &[char], t: &str) -> (b: bool)
    ensures
        b == occurs(t@, v@),
{
    let p: Vec<char> = chars_of(t);
    if p.len() > v.len() {
        assert forall|i: int| !#[trigger] occurs_at(p@, v@, i) by {}
        return false;
    }
    let last: usize = v.len() - p.len();
    let mut i: usize = 0;
    while i <= last
        invariant
            last + p@.len() == v@.len(),
            i <= last + 1,
            p@ == t@,
            forall|j: int| 0 <= j < i ==> !#[trigger] occurs_at(p@, v@, j),
        decreases last + 1 - i,
    {
        if matches_at(v, p.as_slice(), i) {
            return true;
        }
        if i == last {
            assert forall|j: int| !#[trigger] occurs_at(p@, v@, j) by {}
            return false;
        }
        i = i + 1;
    }
    assert forall|j: int| !#[trigger] occurs_at(p@, v@, j) by {}
    false
}

/// Whether the character `c` stands in `v`.
pub fn contains_char(v: &[char], c: char) -> (b: bool)
    ensures
        b == v@.contains(c),
{
    for i in 0..v.len()
        invariant
            forall|j: int| 0 <= j < i ==> v@[j] != c,
    {
        if v[i] == c {
            assert(v@[i as int] == c);
            return true;
        }
    }
    false
}

/// Whether `v` begins with `t`.
pub fn begins_with(v: &[char], t: &str) -> (b: bool)
    ensures
        b == t@.is_prefix_of(v@),
{
    let p: Vec<char> = chars_of(t);
    if p.len() > v.len() {
        return false;
    }
    let r: bool = matches_at(v, p.as_slice(), 0);
    assert(v@.subrange(0, p@.len() as int) == p@ <==> p@.is_prefix_of(v@));
    r
}

/// Whether `v` is exactly `t`.
pub fn is_text(v: &[char], t: &str) -> (b: bool)
    ensures
        b == (v@ == t@),
{
    let p: Vec<char> = chars_of(t);
    if p.len() != v.len() {
        return false;
    }
    let r: bool = matches_at(v, p.as_slice(), 0);
    assert(v@.subrange(0, v@.len() as int) =~= v@);
    r
}

// ---- Splitting ----

/// The character sequences behind a list of character vectors.
pub open spec fn views(v: Seq<Vec<char>>) -> Seq<Seq<char>> {
    v.map_values(|w: Vec<char>| w@)
}

/// The pieces of `s` between the occurrences of `c`; one more than there are
/// occurrences.
pub open spec fn split_on(s: Seq<char>, c: char) -> Seq<Seq<char>>
    decreases s.len(),
{
    if s.len() == 0 {
        seq![Seq::<char>::empty()]
    } else {
        let r = split_on(s.drop_last(), c);
        if s.last() == c {
            r.push(Seq::<char>::empty())
        } else {
            r.drop_last().push(r.last().push(s.last()))
        }
    }
}

pub proof fn lemma_split_nonempty(s: Seq<char>, c: char)
    ensures
        split_on(s, c).len() > 0,
    decreases s.len(),
{
    if s.len() > 0 {
        lemma_split_nonempty(s.drop_last(), c);
    }
}

/// The pieces of `v` between the occurrences of `c`.
pub fn split_char(v: &[char], c: char) -> (r: Vec<Vec<char>>)
    ensures
        views(r@) == split_on(v@, c),
{
    let mut done: Vec<Vec<char>> = Vec::new();
    let mut piece: Vec<char> = Vec::new();
    assert(v@.take(0) =~= Seq::<char>::empty());
    assert(views(done@).push(piece@) =~= split_on(v@.take(0), c));
    for i in 0..v.len()
        invariant
            views(done@).push(piece@) == split_on(v@.take(i as int), c),
    {
        let ghost before = views(done@).push(piece@);
        let ghost done0 = views(done@);
        let ghost piece0 = piece@;
        proof {
            lemma_take_step(v@, i as int);
            assert(before.drop_last() =~= done0);
            assert(before.last() == piece0);
        }
        if v[i] == c {
            done.push(piece);
            piece = Vec::new();
            assert(views(done@) =~= done0.push(piece0));
            assert(piece@ =~= Seq::<char>::empty());
        } else {
            piece.push(v[i]);
        }
    }
    assert(v@.take(v@.len() as int) =~= v@);
    let ghost done0 = views(done@);
    let ghost piece0 = piece@;
    done.push(piece);
    assert(views(done@) =~= done0.push(piece0));
    done
}

/// The maximal runs of characters that are not white space.
pub open spec fn words_of(s: Seq<char>) -> Seq<Seq<char>>
    decreases s.len(),
{
    if s.len() == 0 {
        Seq::empty()
    } else {
        let r = words_of(s.drop_last());
        let c = s.last();
        if white(c) {
            r
        } else if s.len() > 1 && !white(s[s.len() - 2]) {
            r.drop_last().push(r.last().push(c))
        } else {
            r.push(seq![c])
        }
    }
}

/// The words of `v`.
pub fn words(v: &[char]) -> (r: Vec<Vec<char>>)
    ensures
        views(r@) == words_of(v@),
{
    let mut done: Vec<Vec<char>> = Vec::new();
    let mut word: Vec<char> = Vec::new();
    let mut open: bool = false;
    assert(views(done@) =~= words_of(v@.take(0)));
    for i in 0..v.len()
        invariant
            open == (i > 0 && !white(v@[i as int - 1])),
            open ==> views(done@).push(word@) == words_of(v@.take(i as int)),
            !open ==> views(done@) == words_of(v@.take(i as int)) && word@.len() == 0,
    {
        let ghost done0 = views(done@);
        let ghost word0 = word@;
        proof {
            lemma_take_step(v@, i as int);
            let t = v@.take(i as int + 1);
            assert(t.len() > 1 ==> t[t.len() - 2] == v@[i as int - 1]);
            assert(done0.push(word0).drop_last() =~= done0);
        }
        if is_white(v[i]) {
            if open {
                done.push(word);
                word = Vec::new();
                assert(views(done@) =~= done0.push(word0));
            }
            open = false;
        } else {
            word.push(v[i]);
            open = true;
            assert(word0.len() == 0 ==> word@ =~= seq![v@[i as int]]);
        }
    }
    assert(v@.take(v@.len() as int) =~= v@);
    if open {
        let ghost done0 = views(done@);
        let ghost word0 = word@;
        done.push(word);
        assert(views(done@) =~= done0.push(word0));
    }
    done
}

/// A terminated line without the carriage return in front of its line feed.
pub open spec fn chomp(s: Seq<char>) -> Seq<char> {
    if s.len() > 0 && s.last() == '\r' {
        s.drop_last()
    } else {
        s
    }
}

/// The lines of `s`. A line ends at a line feed, with or without a carriage
/// return before it; what follows the last line feed is a line if it is not
/// empty.
pub open spec fn lines_of(s: Seq<char>) -> Seq<Seq<char>> {
    let pieces = split_on(s, '\n');
    let done = pieces.drop_last().map_values(|p: Seq<char>| chomp(p));
    if pieces.last().len() == 0 {
        done
    } else {
        done.push(pieces.last())
    }
}

/// The lines of `v`.
pub fn lines(v: &[char]) -> (r: Vec<Vec<char>>)
    ensures
        views(r@) == lines_of(v@),
{
    let pieces: Vec<Vec<char>> = split_char(v, '\n');
    proof {
        lemma_split_nonempty(v@, '\n');
        assert(pieces@.len() == split_on(v@, '\n').len());
    }
    let ghost p = split_on(v@, '\n');
    let n: usize = pieces.len() - 1;
    let mut out: Vec<Vec<char>> = Vec::new();
    for i in 0..n
        invariant
            n == pieces@.len() - 1,
            views(pieces@) == p,
            views(out@) == p.take(i as int).map_values(|q: Seq<char>| chomp(q)),
    {
        let piece: &Vec<char> = &pieces[i];
        assert(piece@ == p[i as int]);
        let ghost out0 = views(out@);
        let mut k: usize = piece.len();
        if k > 0 && piece[k - 1] == '\r' {
            k = k - 1;
        }
        let line: Vec<char> = copied(piece.as_slice(), 0, k);
        assert(line@ =~= chomp(p[i as int]));
        out.push(line);
        proof {
            assert(views(out@) =~= out0.push(chomp(p[i as int])));
            assert(p.take(i as int + 1) =~= p.take(i as int).push(p[i as int]));
            assert(views(out@) =~= p.take(i as int + 1).map_values(|q: Seq<char>| chomp(q)));
        }
    }
    assert(p.take(n as int) =~= p.drop_last());
    assert(views(out@) =~= p.drop_last().map_values(|q: Seq<char>| chomp(q)));
    let tail: &Vec<char> = &pieces[n];
    assert(tail@ == p.last());
    if tail.len() > 0 {
        let ghost out0 = views(out@);
        let t: Vec<char> = copied(tail.as_slice(), 0, tail.len());
        assert(t@ =~= p.last());
        out.push(t);
        assert(views(out@) =~= out0.push(p.last()));
    }
    out
}

// ---- Numbers ----

/// The decimal digit `d`.
pub open spec fn digit(d: int) -> char {
    (48 + d) as char
}

/// `n` in decimal.
pub open spec fn dec(n: nat) -> Seq<char>
    decreases n,
{
    if n < 10 {
        seq![digit(n as int)]
    } else {
        dec(n / 10).push(digit((n % 10) as int))
    }
}

/// `n` in decimal, with a minus sign where it is negative.
pub open spec fn signed_dec(n: int) -> Seq<char> {
    if n < 0 {
        seq!['-'] + dec((-n) as nat)
    } else {
        dec(n as nat)
    }
}

/// `n` in decimal.
pub fn dec_text(n: u64) -> (s: String)
    ensures
        s@ == dec(n as nat),
    decreases n,
{
    let mut s = if n < 10 {
        String::new()
    } else {
        dec_text(n / 10)
    };
    let d: u8 = (n % 10) as u8;
    push_char(&mut s, (48 + d) as char);
    assert(n < 10 ==> s@ =~= dec(n as nat));
    s
}

/// `n` in decimal, with a minus sign where it is negative.
pub fn signed_text(n: i64) -> (s: String)
    ensures
        s@ == signed_dec(n as int),
{
    if n < 0 {
        let m: u64 = if n == i64::MIN {
            9_223_372_036_854_775_808
        } else {
            (-n) as u64
        };
        let mut s = String::new();
        push_char(&mut s, '-');
        let t: String = dec_text(m);
        let r: String = s.concat(t.as_str());
        assert(r@ =~= signed_dec(n as int));
        r
    } else {
        dec_text(n as u64)
    }
}

/// The hexadecimal digit `d`, in small letters.
pub open spec fn hex_digit(d: int) -> char {
    if d < 10 {
        (48 + d) as char
    } else {
        (87 + d) as char
    }
}

/// `n` in hexadecimal, with at least `width` digits.
pub open spec fn hex(n: nat, width: nat) -> Seq<char>
    decreases n, width,
{
    if n < 16 && width <= 1 {
        seq![hex_digit(n as int)]
    } else {
        hex(n / 16, if width == 0 { 0 } else { (width - 1) as nat }).push(
            hex_digit((n % 16) as int),
        )
    }
}

/// `n` in hexadecimal, with at least `width` digits.
pub fn hex_text(n: u64, width: u8) -> (s: String)
    ensures
        s@ == hex(n as nat, width as nat),
    decreases n, width,
{
    let mut s = if n < 16 && width <= 1 {
        String::new()
    } else {
        hex_text(
            n / 16,
            if width == 0 {
                0
            } else {
                width - 1
            },
        )
    };
    let d: u8 = (n % 16) as u8;
    if d < 10 {
        push_char(&mut s, (48 + d) as char);
    } else {
        push_char(&mut s, (87 + d) as char);
    }
    assert(n < 16 && width <= 1 ==> s@ =~= hex(n as nat, width as nat));
    s
}

pub open spec fn all_digits(s: Seq<char>) -> bool {
    forall|i: int| 0 <= i < s.len() ==> digit_char(#[trigger] s[i])
}

/// The number that the decimal digits `s` write.
pub open spec fn value(s: Seq<char>) -> nat
    decreases s.len(),
{
    if s.len() == 0 {
        0
    } else {
        value(s.drop_last()) * 10 + (s.last() as int - 48) as nat
    }
}

/// The number that `s` writes as digits behind an optional plus sign, if it is
/// at most `max`.
pub open spec fn unsigned_of(s: Seq<char>, max: nat) -> Option<nat> {
    let body = if s.len() > 0 && s[0] == '+' {
        s.skip(1)
    } else {
        s
    };
    if body.len() > 0 && all_digits(body) && value(body) <= max {
        Some(value(body))
    } else {
        None
    }
}

/// The number that `s` writes as digits behind an optional sign, if it fits in
/// 32 bits with sign.
pub open spec fn signed_of(s: Seq<char>) -> Option<int> {
    if s.len() > 0 && s[0] == '-' {
        let body = s.skip(1);
        if body.len() > 0 && all_digits(body) && value(body) <= 0x8000_0000 {
            Some(-(value(body) as int))
        } else {
            None
        }
    } else {
        match unsigned_of(s, 0x7fff_ffff) {
            Some(n) => Some(n as int),
            None => None,
        }
    }
}

proof fn lemma_dec_is_digits(n: nat)
    ensures
        dec(n).len() > 0,
        all_digits(dec(n)),
        value(dec(n)) == n,
    decreases n,
{
    let d = digit((n % 10) as int);
    assert(d as int == 48 + n % 10);
    if n < 10 {
        assert(dec(n).drop_last() =~= Seq::<char>::empty());
        assert(value(dec(n).drop_last()) == 0);
    } else {
        lemma_dec_is_digits(n / 10);
        assert(dec(n).drop_last() =~= dec(n / 10));
    }
}

/// A number that was written in decimal is read back, wherever it is within the
/// reader's limit.
pub proof fn law_written_numbers_are_read_back(n: nat, max: nat)
    requires
        n <= max,
    ensures
        unsigned_of(dec(n), max) == Some(n),
{
    lemma_dec_is_digits(n);
    assert(digit_char(dec(n)[0]));
}

/// The number that the digits of `v` from `from` on write, if there is at least
/// one, all of them are digits and the number is at most `max`.
fn digits_from(v: &[char], from: usize, max: u64) -> (r: Option<u64>)
    requires
        from <= v@.len(),
    ensures
        match r {
            Some(n) => v@.skip(from as int).len() > 0 && all_digits(v@.skip(from as int)) && n
                == value(v@.skip(from as int)) && n <= max,
            None => v@.skip(from as int).len() == 0 || !all_digits(v@.skip(from as int))
                || value(v@.skip(from as int)) > max,
        },
{
    let ghost body = v@.skip(from as int);
    if from == v.len() {
        return None;
    }
    let mut n: u128 = 0;
    let mut over: bool = false;
    assert(body.take(0) =~= Seq::<char>::empty());
    for i in from..v.len()
        invariant
            from <= v@.len(),
            body == v@.skip(from as int),
            all_digits(body.take(i - from)),
            !over ==> n == value(body.take(i - from)) && n <= max,
            over ==> value(body.take(i - from)) > max,
    {
        let c: char = v[i];
        proof {
            lemma_take_step(body, i - from);
            assert(body[i - from] == c);
        }
        if !is_digit(c) {
            assert(!digit_char(body[i - from]));
            return None;
        }
        let ghost t = body.take(i - from + 1);
        assert(all_digits(t)) by {
            assert forall|k: int| 0 <= k < t.len() implies digit_char(#[trigger] t[k]) by {
                if k < i - from {
                    assert(t[k] == body.take(i - from)[k]);
                }
            }
        }
        assert(value(t) == value(body.take(i - from)) * 10 + (c as int - 48));
        if !over {
            n = n * 10 + (c as u32 - 48) as u128;
            if n > max as u128 {
                over = true;
            }
        }
    }
    assert(body.take(v@.len() - from) =~= body);
    if over {
        None
    } else {
        Some(n as u64)
    }
}

/// Reads an unsigned number.
fn parse_up_to(v: &[char], max: u64) -> (r: Option<u64>)
    ensures
        r == (match unsigned_of(v@, max as nat) {
            Some(n) => Some(n as u64),
            None => None,
        }),
{
    if v.len() > 0 && v[0] == '+' {
        digits_from(v, 1, max)
    } else {
        assert(v@.skip(0) =~= v@);
        digits_from(v, 0, max)
    }
}

/// Reads a number that fits in a `usize`.
pub fn parse_usize(v: &[char]) -> (r: Option<usize>)
    ensures
        r == (match unsigned_of(v@, usize::MAX as nat) {
            Some(n) => Some(n as usize),
            None => None,
        }),
{
    match parse_up_to(v, usize::MAX as u64) {
        Some(n) => Some(n as usize),
        None => None,
    }
}

/// Reads an unsigned 32-bit number.
pub fn parse_u32(v: &[char]) -> (r: Option<u32>)
    ensures
        r == (match unsigned_of(v@, 0xffff_ffff) {
            Some(n) => Some(n as u32),
            None => None,
        }),
{
    match parse_up_to(v, 0xffff_ffff) {
        Some(n) => Some(n as u32),
        None => None,
    }
}

/// Reads a signed 32-bit number.
pub fn parse_i32(v: &[char]) -> (r: Option<i32>)
    ensures
        r == (match signed_of(v@) {
            Some(n) => Some(n as i32),
            None => None,
        }),
{
    if v.len() > 0 && v[0] == '-' {
        match digits_from(v, 1, 0x8000_0000) {
            Some(n) => {
                if n == 0x8000_0000 {
                    Some(i32::MIN)
                } else {
                    Some(-(n as i32))
                }
            },
            None => None,
        }
    } else {
        assert(v@.skip(0) =~= v@);
        let d: Option<u64> = if v.len() > 0 && v[0] == '+' {
            digits_from(v, 1, 0x7fff_ffff)
        } else {
            digits_from(v, 0, 0x7fff_ffff)
        };
        match d {
            Some(n) => Some(n as i32),
            None => None,
        }
    }
}

// ---- Decimal fractions ----

/// Digits with at most one point among them, and at least one digit.
pub open spec fn mantissa(s: Seq<char>) -> bool {
    &&& forall|i: int| 0 <= i < s.len() ==> digit_char(#[trigger] s[i]) || s[i] == '.'
    &&& forall|i: int, j: int| 0 <= i < j < s.len() ==> !(#[trigger] s[i] == '.' && #[trigger] s[j]
        == '.')
    &&& exists|i: int| 0 <= i < s.len() && digit_char(#[trigger] s[i])
}

pub open spec fn unsigned_part(s: Seq<char>) -> Seq<char> {
    if s.len() > 0 && (s[0] == '+' || s[0] == '-') {
        s.skip(1)
    } else {
        s
    }
}

/// An optional sign and at least one digit.
pub open spec fn exponent(s: Seq<char>) -> bool {
    let body = unsigned_part(s);
    body.len() > 0 && all_digits(body)
}

pub open spec fn exponent_mark(c: char) -> bool {
    c == 'e' || c == 'E'
}

/// A mantissa, and behind an `e` an exponent where there is one.
pub open spec fn number(s: Seq<char>) -> bool {
    ||| mantissa(s)
    ||| exists|k: int|
        0 <= k < s.len() && #[trigger] exponent_mark(s[k]) && mantissa(s.take(k)) && exponent(
            s.skip(k + 1),
        )
}

pub open spec fn number_word(s: Seq<char>) -> bool {
    lower_all(s) == "inf"@ || lower_all(s) == "infinity"@ || lower_all(s) == "nan"@
}

/// What reads as a floating-point number: an optional sign, then a number or
/// one of the words for infinity and for no number.
pub open spec fn rate_text(s: Seq<char>) -> bool {
    number(unsigned_part(s)) || number_word(unsigned_part(s))
}

/// The place of the first exponent mark in `s`, or its length.
pub open spec fn mark(s: Seq<char>) -> int
    decreases s.len(),
{
    if s.len() == 0 || exponent_mark(s[0]) {
        0
    } else {
        1 + mark(s.skip(1))
    }
}

/// The number that the digits of a mantissa write, as if it had no point.
pub open spec fn mantissa_value(s: Seq<char>) -> int
    decreases s.len(),
{
    if s.len() == 0 {
        0
    } else if digit_char(s.last()) {
        10 * mantissa_value(s.drop_last()) + (s.last() as int - 48)
    } else {
        mantissa_value(s.drop_last())
    }
}

/// How many characters stand behind a mantissa's point.
pub open spec fn places(s: Seq<char>) -> nat
    decreases s.len(),
{
    if !s.contains('.') || s.last() == '.' {
        0
    } else {
        places(s.drop_last()) + 1
    }
}

/// The number that an exponent writes.
pub open spec fn exponent_value(s: Seq<char>) -> int {
    let n = value(unsigned_part(s)) as int;
    if s.len() > 0 && s[0] == '-' {
        -n
    } else {
        n
    }
}

/// The power of ten that a number's digits are multiplied by.
pub open spec fn power_of(s: Seq<char>) -> int {
    (if mark(s) < s.len() {
        exponent_value(s.skip(mark(s) + 1))
    } else {
        0
    }) - places(s.take(mark(s)))
}

/// Whether a rate is read as zero.
pub open spec fn zero_rate(s: Seq<char>) -> bool {
    let body = unsigned_part(s);
    number(body) && rounds_to_zero(mantissa_value(body.take(mark(body))), power_of(body))
}

/// The place of the first exponent mark in `v`, or its length.
fn mark_place(v: &[char]) -> (k: usize)
    ensures
        k <= v@.len(),
        forall|j: int| 0 <= j < k ==> !exponent_mark(#[trigger] v@[j]),
        k < v@.len() ==> exponent_mark(v@[k as int]),
        k == mark(v@),
{
    for i in 0..v.len()
        invariant
            forall|j: int| 0 <= j < i ==> !exponent_mark(#[trigger] v@[j]),
    {
        if v[i] == 'e' || v[i] == 'E' {
            proof {
                lemma_mark(v@, i as int);
            }
            return i;
        }
    }
    proof {
        lemma_mark(v@, v@.len() as int);
    }
    v.len()
}

proof fn lemma_mark(s: Seq<char>, k: int)
    requires
        0 <= k <= s.len(),
        forall|j: int| 0 <= j < k ==> !exponent_mark(#[trigger] s[j]),
        k < s.len() ==> exponent_mark(s[k]),
    ensures
        mark(s) == k,
    decreases k,
{
    if k > 0 {
        let rest = s.skip(1);
        assert(!exponent_mark(s[0]));
        assert forall|j: int| 0 <= j < k - 1 implies !exponent_mark(#[trigger] rest[j]) by {
            assert(!exponent_mark(s[j + 1]));
        }
        lemma_mark(rest, k - 1);
    }
}

/// A mantissa's digits, lowest first, without the zeros in front of it.
fn mantissa_digits(v: &[char]) -> (d: Vec<u8>)
    ensures
        proper(d@),
        digits_value(d@) == mantissa_value(v@),
{
    let mut d: Vec<u8> = Vec::new();
    let mut i: usize = v.len();
    proof {
        lemma_power_step(0);
        reveal(pow);
        let m = mantissa_value(v@);
        assert(m * pow(10, 0) == m) by (nonlinear_arith)
            requires
                pow(10, 0) == 1,
        ;
        assert(v@.take(i as int) =~= v@);
    }
    while i > 0
        invariant
            i <= v@.len(),
            forall|j: int| 0 <= j < d@.len() ==> #[trigger] d@[j] < 10,
            mantissa_value(v@.take(i as int)) * pow(10, d@.len()) + digits_value(d@)
                == mantissa_value(v@),
        decreases i,
    {
        i = i - 1;
        let c: char = v[i];
        let ghost front = v@.take(i + 1);
        let ghost before = d@;
        assert(front.drop_last() =~= v@.take(i as int));
        if is_digit(c) {
            d.push(c as u8 - 48);
            proof {
                assert(d@.drop_last() =~= before);
                let n = before.len();
                let p = pow(10, n);
                let m = mantissa_value(v@.take(i as int));
                let digit = c as int - 48;
                lemma_power_step(n);
                assert(m * (10 * p) + digit * p == (10 * m + digit) * p) by (nonlinear_arith);
            }
        }
    }
    assert(v@.take(0) =~= Seq::<char>::empty());
    assert(0 * pow(10, d@.len()) == 0);
    while d.len() > 0 && d[d.len() - 1] == 0
        invariant
            forall|j: int| 0 <= j < d@.len() ==> #[trigger] d@[j] < 10,
            digits_value(d@) == mantissa_value(v@),
        decreases d@.len(),
    {
        let ghost before = d@;
        d.pop();
        proof {
            assert(d@ =~= before.drop_last());
            let p = pow(10, (before.len() - 1) as nat);
            assert(0 * p == 0);
        }
    }
    d
}

/// How many characters stand behind a mantissa's point.
fn places_of(v: &[char]) -> (n: usize)
    ensures
        n == places(v@),
        n <= v@.len(),
{
    let mut found: bool = false;
    let mut n: usize = 0;
    for i in 0..v.len()
        invariant
            found == v@.take(i as int).contains('.'),
            n == places(v@.take(i as int)),
            n <= i,
    {
        let ghost front = v@.take(i + 1);
        proof {
            assert(front.drop_last() =~= v@.take(i as int));
            assert(front[i as int] == v@[i as int]);
            if v@.take(i as int).contains('.') {
                let j = v@.take(i as int).index_of('.');
                assert(front[j] == '.');
            }
            if front.contains('.') && front.last() != '.' {
                let j = front.index_of('.');
                assert(v@.take(i as int)[j] == '.');
            }
        }
        if v[i] == '.' {
            found = true;
            n = 0;
        } else if found {
            n = n + 1;
        }
    }
    assert(v@.take(v@.len() as int) =~= v@);
    n
}

/// The number that digits write, or the largest one where it does not fit.
fn capped_value(v: &[char]) -> (n: u64)
    requires
        all_digits(v@),
    ensures
        n == value(v@) || (n == u64::MAX && value(v@) >= u64::MAX),
{
    let mut n: u64 = 0;
    for i in 0..v.len()
        invariant
            all_digits(v@),
            n == value(v@.take(i as int)) || (n == u64::MAX && value(v@.take(i as int))
                >= u64::MAX),
    {
        proof {
            lemma_take_step(v@, i as int);
        }
        assert(digit_char(v@[i as int]));
        let d: u64 = (v[i] as u32 - 48) as u64;
        n = if n <= (u64::MAX - d) / 10 {
            n * 10 + d
        } else {
            u64::MAX
        };
    }
    assert(v@.take(v@.len() as int) =~= v@);
    n
}

fn is_mantissa(v: &[char]) -> (b: bool)
    ensures
        b == mantissa(v@),
{
    let mut point: bool = false;
    let mut digits: bool = false;
    for i in 0..v.len()
        invariant
            forall|j: int| 0 <= j < i ==> digit_char(#[trigger] v@[j]) || v@[j] == '.',
            !point ==> forall|j: int| 0 <= j < i ==> #[trigger] v@[j] != '.',
            forall|j: int, k: int|
                0 <= j < k < i ==> !(#[trigger] v@[j] == '.' && #[trigger] v@[k] == '.'),
            point ==> exists|j: int| 0 <= j < i && #[trigger] v@[j] == '.',
            digits == exists|j: int| 0 <= j < i && digit_char(#[trigger] v@[j]),
    {
        let c: char = v[i];
        if is_digit(c) {
            digits = true;
            assert(digit_char(v@[i as int]));
        } else if c == '.' {
            if point {
                let ghost j = choose|j: int| 0 <= j < i && #[trigger] v@[j] == '.';
                assert(v@[j] == '.' && v@[i as int] == '.');
                return false;
            }
            point = true;
            assert(v@[i as int] == '.');
        } else {
            assert(!(digit_char(v@[i as int]) || v@[i as int] == '.'));
            return false;
        }
    }
    digits
}

fn body_of(v: &[char]) -> (r: Vec<char>)
    ensures
        r@ == unsigned_part(v@),
{
    if v.len() > 0 && (v[0] == '+' || v[0] == '-') {
        let r: Vec<char> = copied(v, 1, v.len());
        assert(r@ =~= v@.skip(1));
        r
    } else {
        let r: Vec<char> = copied(v, 0, v.len());
        assert(r@ =~= v@);
        r
    }
}

fn is_exponent(v: &[char]) -> (b: bool)
    ensures
        b == exponent(v@),
{
    let body: Vec<char> = body_of(v);
    if body.len() == 0 {
        return false;
    }
    for i in 0..body.len()
        invariant
            body@ == unsigned_part(v@),
            body@.len() > 0,
            forall|j: int| 0 <= j < i ==> digit_char(#[trigger] body@[j]),
    {
        if !is_digit(body[i]) {
            assert(!digit_char(body@[i as int]));
            return false;
        }
    }
    true
}

fn is_number(v: &[char]) -> (b: bool)
    ensures
        b == number(v@),
{
    let k: usize = mark_place(v);
    if k == v.len() {
        let b: bool = is_mantissa(v);
        assert(v@.take(k as int) =~= v@);
        return b;
    }
    let front: Vec<char> = copied(v, 0, k);
    let back: Vec<char> = copied(v, k + 1, v.len());
    let b: bool = is_mantissa(front.as_slice()) && is_exponent(back.as_slice());
    proof {
        assert(front@ =~= v@.take(k as int));
        assert(back@ =~= v@.skip(k as int + 1));
        assert(!mantissa(v@)) by {
            assert(!digit_char(v@[k as int]) && v@[k as int] != '.');
        }
        if number(v@) {
            let j = choose|j: int|
                0 <= j < v@.len() && #[trigger] exponent_mark(v@[j]) && mantissa(v@.take(j))
                    && exponent(v@.skip(j + 1));
            if j > k {
                assert(v@.take(j)[k as int] == v@[k as int]);
                assert(!digit_char(v@.take(j)[k as int]) && v@.take(j)[k as int] != '.');
            }
            assert(j == k);
        }
    }
    b
}

/// Whether `v` reads as a floating-point number.
pub fn is_rate(v: &[char]) -> (b: bool)
    ensures
        b == rate_text(v@),
{
    let body: Vec<char> = body_of(v);
    if is_number(body.as_slice()) {
        return true;
    }
    let low: Vec<char> = lowered(body.as_slice());
    is_text(low.as_slice(), "inf") || is_text(low.as_slice(), "infinity") || is_text(
        low.as_slice(),
        "nan",
    )
}

/// Whether `v` is read as zero.
pub fn is_zero_rate(v: &[char]) -> (b: bool)
    ensures
        b == zero_rate(v@),
{
    let body: Vec<char> = body_of(v);
    if !is_number(body.as_slice()) {
        return false;
    }
    let k: usize = mark_place(body.as_slice());
    let front: Vec<char> = copied(body.as_slice(), 0, k);
    assert(front@ =~= body@.take(k as int));
    let digits: Vec<u8> = mantissa_digits(front.as_slice());
    let behind: usize = places_of(front.as_slice());
    if k == body.len() {
        return is_read_as_zero(digits, behind as u64, false, 0, Ghost(0));
    }
    let back: Vec<char> = copied(body.as_slice(), k + 1, body.len());
    proof {
        assert(back@ =~= body@.skip(k as int + 1));
        lemma_exponent_behind_mark(body@, k as int);
    }
    let negative: bool = back[0] == '-';
    let tail: Vec<char> = body_of(back.as_slice());
    let size: u64 = capped_value(tail.as_slice());
    is_read_as_zero(digits, behind as u64, negative, size, Ghost(value(tail@)))
}

/// What stands behind the mark of a number is an exponent.
proof fn lemma_exponent_behind_mark(s: Seq<char>, k: int)
    requires
        number(s),
        0 <= k < s.len(),
        exponent_mark(s[k]),
        forall|j: int| 0 <= j < k ==> !exponent_mark(#[trigger] s[j]),
    ensures
        exponent(s.skip(k + 1)),
        s.skip(k + 1).len() > 0,
{
    assert(!mantissa(s)) by {
        assert(!digit_char(s[k]) && s[k] != '.');
    }
    let j = choose|j: int|
        0 <= j < s.len() && #[trigger] exponent_mark(s[j]) && mantissa(s.take(j)) && exponent(
            s.skip(j + 1),
        );
    if j > k {
        assert(s.take(j)[k] == s[k]);
        assert(!digit_char(s.take(j)[k]) && s.take(j)[k] != '.');
    }
    assert(j == k);
}

// ---- Switches ----

/// The values that turn a switch of the environment on.
pub open spec fn switched_on(s: Seq<char>) -> bool {
    let v = lower_all(s);
    v == "1"@ || v == "true"@ || v == "yes"@ || v == "on"@
}

/// Whether the value of a switch turns it on.
pub fn is_switched_on(value: &str) -> (b: bool)
    ensures
        b == switched_on(value@),
{
    let v: Vec<char> = chars_of(value);
    let low: Vec<char> = lowered(v.as_slice());
    let n: &[char] = low.as_slice();
    is_text(n, "1") || is_text(n, "true") || is_text(n, "yes") || is_text(n, "on")
}

// ---- UTF-16 ----

/// The UTF-16 units of a character.
pub open spec fn utf16_char(c: char) -> Seq<u16> {
    let n = c as int;
    if n < 0x10000 {
        seq![n as u16]
    } else {
        seq![(0xd800 + (n - 0x10000) / 0x400) as u16, (0xdc00 + (n - 0x10000) % 0x400) as u16]
    }
}

/// The UTF-16 units of `s`.
pub open spec fn utf16(s: Seq<char>) -> Seq<u16>
    decreases s.len(),
{
    if s.len() == 0 {
        Seq::empty()
    } else {
        utf16(s.drop_last()) + utf16_char(s.last())
    }
}

fn push_utf16(r: &mut Vec<u16>, c: char)
    ensures
        final(r)@ == old(r)@ + utf16_char(c),
{
    let ghost r0 = r@;
    let n: u32 = c as u32;
    if n < 0x10000 {
        r.push(n as u16);
    } else {
        let m: u32 = n - 0x10000;
        r.push((0xd800 + m / 0x400) as u16);
        r.push((0xdc00 + m % 0x400) as u16);
    }
    assert(r@ =~= r0 + utf16_char(c));
}

/// `s` in UTF-16, with a zero at the end.
pub fn wide_text(s: &str) -> (r: Vec<u16>)
    ensures
        r@ == utf16(s@).push(0u16),
{
    let v: Vec<char> = chars_of(s);
    let mut r: Vec<u16> = Vec::new();
    assert(r@ =~= utf16(v@.take(0)));
    for i in 0..v.len()
        invariant
            r@ == utf16(v@.take(i as int)),
    {
        proof {
            lemma_take_step(v@, i as int);
        }
        push_utf16(&mut r, v[i]);
    }
    assert(v@.take(v@.len() as int) =~= v@);
    r.push(0);
    r
}

/// The character of a UTF-16 pair.
pub open spec fn paired(high: u16, low: u16) -> char {
    (0x10000 + (high - 0xd800) * 0x400 + (low - 0xdc00)) as char
}

/// The text that UTF-16 units stand for. Half of a pair that stands alone is
/// read as U+FFFD.
pub open spec fn from_utf16(s: Seq<u16>) -> Seq<char>
    decreases s.len(),
{
    if s.len() == 0 {
        Seq::empty()
    } else if s[0] < 0xd800 || s[0] >= 0xe000 {
        seq![s[0] as char] + from_utf16(s.skip(1))
    } else if s[0] < 0xdc00 && s.len() > 1 && 0xdc00 <= s[1] < 0xe000 {
        seq![paired(s[0], s[1])] + from_utf16(s.skip(2))
    } else {
        seq!['\u{fffd}'] + from_utf16(s.skip(1))
    }
}

/// The character with the given code, by `char::from_u32`: there is one for each
/// code up to 0x10ffff that is no half of a UTF-16 pair.
#[verifier::external_body]
fn char_of(n: u32) -> (r: Option<char>)
    ensures
        match r {
            Some(c) => c == n as char && !(0xd800 <= n < 0xe000 || n > 0x10ffff),
            None => 0xd800 <= n < 0xe000 || n > 0x10ffff,
        },
{
    char::from_u32(n)
}

/// The text that UTF-16 units stand for.
pub fn text_of_wide(v: &[u16]) -> (r: Vec<char>)
    ensures
        r@ == from_utf16(v@),
{
    let mut r: Vec<char> = Vec::new();
    let n: usize = v.len();
    let mut i: usize = 0;
    assert(v@.skip(0) =~= v@);
    while i < n
        invariant
            n == v@.len(),
            i <= n,
            r@ + from_utf16(v@.skip(i as int)) == from_utf16(v@),
        decreases n - i,
    {
        let unit: u32 = v[i] as u32;
        let ghost done = r@;
        let ghost rest = v@.skip(i as int);
        assert(rest[0] == v@[i as int]);
        let mut c: Option<char> = char_of(unit);
        let mut width: usize = 1;
        if 0xd800 <= unit && unit < 0xdc00 && n - i > 1 {
            let low: u32 = v[i + 1] as u32;
            assert(rest[1] == v@[i + 1]);
            if 0xdc00 <= low && low < 0xe000 {
                c = char_of(0x10000 + (unit - 0xd800) * 0x400 + (low - 0xdc00));
                width = 2;
            }
        }
        let c: char = match c {
            Some(c) => c,
            None => '\u{fffd}',
        };
        r.push(c);
        proof {
            if width == 2 {
                assert(c == paired(rest[0], rest[1]));
            } else if unit < 0xd800 || unit >= 0xe000 {
                assert(c == rest[0] as char);
            }
            assert(from_utf16(rest) == seq![c] + from_utf16(rest.skip(width as int)));
            assert(rest.skip(width as int) =~= v@.skip(i + width));
            assert(r@ + from_utf16(v@.skip(i + width)) =~= done + from_utf16(rest));
        }
        i = i + width;
    }
    assert(v@.skip(n as int) =~= Seq::<u16>::empty());
    assert(r@ =~= from_utf16(v@));
    r
}

/// A decimal number ends in its last digit, behind the number without it; one below ten is
/// its digit alone.
pub proof fn law_decimals_end_in_their_last_digit(n: nat, d: nat)
    requires
        d < 10,
    ensures
        n > 0 ==> dec(10 * n + d) == dec(n).push((('0' as u32) + d) as char),
        dec(d) == seq![(('0' as u32) + d) as char],
        n > 0 ==> signed_dec(-(n as int)) == seq!['-'] + dec(n),
        signed_dec(n as int) == dec(n),
{
    assert((10 * n + d) / 10 == n && (10 * n + d) % 10 == d);
}

/// A text without the character that it is split at is one piece, and a piece behind that
/// character is one more.
pub proof fn law_pieces_stand_between_characters(a: Seq<char>, b: Seq<char>, c: char)
    requires
        !b.contains(c),
    ensures
        split_on(b, c) == seq![b],
        split_on(a.push(c) + b, c) == split_on(a, c).push(b),
    decreases b.len(),
{
    if b.len() == 0 {
        assert(b =~= Seq::<char>::empty());
        assert(a.push(c) + b =~= a.push(c));
        assert(a.push(c).drop_last() =~= a);
    } else {
        let f = b.drop_last();
        assert(!f.contains(c)) by {
            if f.contains(c) {
                let i = f.index_of(c);
                assert(b[i] == c);
            }
        }
        assert(b[b.len() - 1] == b.last());
        law_pieces_stand_between_characters(a, f, c);
        let whole = a.push(c) + b;
        assert(whole.drop_last() =~= a.push(c) + f);
        assert(whole.last() == b.last());
        assert(f.push(b.last()) =~= b);
        assert(seq![f].drop_last().push(f.push(b.last())) =~= seq![b]);
        assert(split_on(a, c).push(f).drop_last() =~= split_on(a, c));
    }
}

/// Digits are neither of the characters of a geometry.
pub proof fn lemma_decimals_are_digits(n: nat)
    ensures
        dec(n).len() > 0,
        !dec(n).contains('x'),
        !dec(n).contains('+'),
        !dec(n).contains('-'),
        dec(n)[0] != '-',
{
    lemma_dec_is_digits(n);
    assert forall|i: int| 0 <= i < dec(n).len() implies digit_char(#[trigger] dec(n)[i]) by {}
    assert(digit_char(dec(n)[0]));
}

/// A number with a sign that was written in decimal is read back.
pub proof fn law_written_signed_numbers_are_read_back(n: i32)
    ensures
        signed_of(signed_dec(n as int)) == Some(n as int),
        !signed_dec(n as int).contains('+'),
{
    let m: nat = if n < 0 {
        (-(n as int)) as nat
    } else {
        n as nat
    };
    lemma_dec_is_digits(m);
    lemma_decimals_are_digits(m);
    if n < 0 {
        let s = signed_dec(n as int);
        assert(s.skip(1) =~= dec(m));
        if s.contains('+') {
            let i = s.index_of('+');
            assert(dec(m)[i - 1] == '+');
        }
    } else {
        law_written_numbers_are_read_back(m, 0x7fff_ffff);
    }
}

/// Stripping takes characters of the class off both ends and leaves the rest: what is left
/// stands whole in the text, has none of them at either end, and everything around it is of
/// the class.
pub proof fn law_stripping_leaves_the_middle(s: Seq<char>, class: CharClass)
    ensures
        ({
            let m = stripped(s, class);
            &&& m.len() > 0 ==> !in_class(class, m[0]) && !in_class(class, m.last())
            &&& exists|i: int|
                0 <= i && i + m.len() <= s.len() && #[trigger] s.subrange(i, i + m.len()) == m && (
                forall|j: int| 0 <= j < i ==> in_class(class, #[trigger] s[j])) && (forall|j: int|
                    i + m.len() <= j < s.len() ==> in_class(class, #[trigger] s[j]))
        }),
{
    let f = strip_front(s, class);
    lemma_strip_front_drops(s, class);
    lemma_strip_back_drops(f, class);
    let m = stripped(s, class);
    let i = s.len() - f.len();
    assert(s.subrange(i, i + m.len()) =~= m) by {
        assert forall|k: int| 0 <= k < m.len() implies s[i + k] == m[k] by {
            assert(f[k] == s[i + k]);
            assert(m[k] == f[k]);
        }
    }
    assert forall|j: int| i + m.len() <= j < s.len() implies in_class(class, #[trigger] s[j]) by {
        assert(f[j - i] == s[j]);
    }
    if m.len() > 0 {
        assert(m[0] == f[0]);
    }
}

proof fn lemma_strip_front_drops(s: Seq<char>, class: CharClass)
    ensures
        ({
            let f = strip_front(s, class);
            &&& f.len() <= s.len()
            &&& f == s.skip(s.len() - f.len())
            &&& f.len() > 0 ==> !in_class(class, f[0])
            &&& forall|j: int| 0 <= j < s.len() - f.len() ==> in_class(class, #[trigger] s[j])
        }),
    decreases s.len(),
{
    if s.len() > 0 && in_class(class, s[0]) {
        let t = s.skip(1);
        lemma_strip_front_drops(t, class);
        let f = strip_front(s, class);
        assert(f =~= s.skip(s.len() - f.len()));
        assert forall|j: int| 0 <= j < s.len() - f.len() implies in_class(
            class,
            #[trigger] s[j],
        ) by {
            if j > 0 {
                assert(t[j - 1] == s[j]);
            }
        }
    } else {
        assert(s.skip(0) =~= s);
    }
}

proof fn lemma_strip_back_drops(s: Seq<char>, class: CharClass)
    ensures
        ({
            let b = strip_back(s, class);
            &&& b.len() <= s.len()
            &&& b == s.take(b.len() as int)
            &&& b.len() > 0 ==> !in_class(class, b.last())
            &&& forall|j: int| b.len() <= j < s.len() ==> in_class(class, #[trigger] s[j])
        }),
    decreases s.len(),
{
    if s.len() > 0 && in_class(class, s.last()) {
        let t = s.drop_last();
        lemma_strip_back_drops(t, class);
        let b = strip_back(s, class);
        assert(b =~= s.take(b.len() as int));
        assert forall|j: int| b.len() <= j < s.len() implies in_class(class, #[trigger] s[j]) by {
            if j < t.len() {
                assert(t[j] == s[j]);
            }
        }
    } else {
        assert(s.take(s.len() as int) =~= s);
    }
}

/// Words are what stands between white space: a word behind white space is one more word,
/// white space at the end makes none, and a text without white space is one word.
pub proof fn law_words_stand_between_white_space(a: Seq<char>, w: char, b: Seq<char>)
    requires
        white(w),
        b.len() > 0,
        forall|i: int| 0 <= i < b.len() ==> !white(#[trigger] b[i]),
    ensures
        words_of(b) == seq![b],
        words_of(a.push(w)) == words_of(a),
        words_of(a.push(w) + b) == words_of(a).push(b),
    decreases b.len(),
{
    assert(a.push(w).drop_last() =~= a);
    let f = b.drop_last();
    let whole = a.push(w) + b;
    assert(whole.drop_last() =~= a.push(w) + f);
    assert(whole.last() == b.last());
    assert(!white(b[b.len() - 1]));
    if f.len() == 0 {
        assert(f =~= Seq::<char>::empty());
        assert(words_of(f) =~= Seq::<Seq<char>>::empty());
        assert(a.push(w) + f =~= a.push(w));
        assert(seq![b.last()] =~= b);
        assert(whole[whole.len() - 2] == w);
        assert(words_of(b) =~= seq![b]);
    } else {
        assert forall|i: int| 0 <= i < f.len() implies !white(#[trigger] f[i]) by {
            assert(f[i] == b[i]);
        }
        law_words_stand_between_white_space(a, w, f);
        assert(!white(b[b.len() - 2]));
        assert(whole[whole.len() - 2] == b[b.len() - 2]);
        assert(f.push(b.last()) =~= b);
        assert(seq![f].drop_last().push(b) =~= seq![b]);
        assert(words_of(a).push(f).drop_last() =~= words_of(a));
    }
}

/// Lines end at line feeds: a line and its line feed in front of a text are one more line in
/// front of its lines, without the carriage return that may stand before the line feed.
pub proof fn law_lines_end_at_line_feeds(a: Seq<char>, b: Seq<char>)
    requires
        !b.contains('\n'),
        b.len() > 0,
    ensures
        lines_of(b) == seq![b],
        lines_of(Seq::<char>::empty()) == Seq::<Seq<char>>::empty(),
        lines_of(a.push('\n') + b) == lines_of(a.push('\n')).push(b),
        !a.contains('\n') && (a.len() == 0 || a.last() != '\r') ==> lines_of(a.push('\n')) == seq![a],
        !a.contains('\n') ==> lines_of(a.push('\r').push('\n')) == seq![a],
{
    law_pieces_stand_between_characters(a, b, '\n');
    let none = Seq::<char>::empty();
    law_pieces_stand_between_characters(a, none, '\n');
    assert(a.push('\n') + none =~= a.push('\n'));
    let e = seq![b];
    assert(e.drop_last() =~= Seq::<Seq<char>>::empty());
    assert(lines_of(b) =~= seq![b]);
    assert(split_on(none, '\n').drop_last() =~= Seq::<Seq<char>>::empty());
    assert(lines_of(none) =~= Seq::<Seq<char>>::empty());
    let s = split_on(a, '\n');
    assert(s.push(b).drop_last() =~= s);
    assert(s.push(none).drop_last() =~= s);
    if !a.contains('\n') {
        law_pieces_stand_between_characters(none, a, '\n');
        assert(lines_of(a.push('\n')) =~= seq![chomp(a)]);
        let r = a.push('\r');
        assert(!r.contains('\n')) by {
            if r.contains('\n') {
                let i = r.index_of('\n');
                assert(i < a.len());
                assert(a[i] == '\n');
            }
        }
        law_pieces_stand_between_characters(none, r, '\n');
        law_pieces_stand_between_characters(r, none, '\n');
        assert(r.push('\n') + none =~= r.push('\n'));
        assert(seq![r].push(none).drop_last() =~= seq![r]);
        assert(r.drop_last() =~= a);
        assert(lines_of(r.push('\n')) =~= seq![chomp(r)]);
    }
}

/// Letters change their size and nothing else does: a letter made small and then large is the
/// large one, and the other way round.
pub proof fn law_only_letters_change_their_size(c: char)
    ensures
        'A' <= c <= 'Z' ==> 'a' <= lower(c) <= 'z' && lower(c) as int - 'a' as int == c as int
            - 'A' as int && upper(lower(c)) == c,
        'a' <= c <= 'z' ==> 'A' <= upper(c) <= 'Z' && upper(c) as int - 'A' as int == c as int
            - 'a' as int && lower(upper(c)) == c,
        !('A' <= c <= 'Z') ==> lower(c) == c,
        !('a' <= c <= 'z') ==> upper(c) == c,
{
}

/// A text occurs where it stands between two others.
pub proof fn law_a_text_occurs_between_others(a: Seq<char>, p: Seq<char>, b: Seq<char>)
    ensures
        occurs(p, a + p + b),
        p.len() > (a + b).len() ==> !occurs(p, a + b),
{
    let s = a + p + b;
    let i = a.len() as int;
    assert(s.subrange(i, i + p.len()) =~= p);
    assert(occurs_at(p, s, i));
}

proof fn lemma_utf16_first(s: Seq<char>)
    requires
        s.len() > 0,
    ensures
        utf16(s) == utf16_char(s[0]) + utf16(s.skip(1)),
    decreases s.len(),
{
    if s.len() == 1 {
        assert(s.drop_last() =~= Seq::<char>::empty());
        assert(s.skip(1) =~= Seq::<char>::empty());
        assert(utf16(s.drop_last()) =~= Seq::<u16>::empty());
        assert(utf16(s.skip(1)) =~= Seq::<u16>::empty());
        assert(utf16(s) =~= utf16_char(s[0]) + utf16(s.skip(1)));
    } else {
        lemma_utf16_first(s.drop_last());
        assert(s.drop_last().skip(1) =~= s.skip(1).drop_last());
        assert(s.skip(1).last() == s.last());
        assert(utf16(s) =~= utf16_char(s[0]) + utf16(s.skip(1)));
    }
}

proof fn lemma_codes(c: char)
    ensures
        0 <= c as int <= 0x10ffff,
        !(0xd800 <= c as int <= 0xdfff),
{
}

/// A text that was written in UTF-16 is read back.
pub proof fn law_wide_texts_are_read_back(s: Seq<char>)
    ensures
        from_utf16(utf16(s)) == s,
    decreases s.len(),
{
    if s.len() > 0 {
        lemma_utf16_first(s);
        let t = s.skip(1);
        law_wide_texts_are_read_back(t);
        let u = utf16_char(s[0]);
        let w = u + utf16(t);
        let n = s[0] as int;
        lemma_codes(s[0]);
        assert(utf16(s) == w);
        if n < 0x10000 {
            assert(w[0] == n as u16);
            assert(w.skip(1) =~= utf16(t));
            assert(seq![s[0]] + t =~= s);
        } else {
            let h = (n - 0x10000) / 0x400;
            let l = (n - 0x10000) % 0x400;
            assert(n - 0x10000 == h * 0x400 + l);
            assert(0 <= h < 0x400 && 0 <= l < 0x400);
            assert(w[0] == 0xd800 + h && w[1] == 0xdc00 + l);
            assert(w.skip(2) =~= utf16(t));
            assert(paired(w[0], w[1]) == s[0]);
            assert(seq![s[0]] + t =~= s);
        }
    } else {
        assert(s =~= Seq::<char>::empty());
    }
}

/// A number in hexadecimal ends in its last digit, from 0 to 9 and then from a to f, behind
/// the number without it; it is filled up with zeros in front.
pub proof fn law_hexadecimals_end_in_their_last_digit(n: nat, d: nat)
    requires
        d < 16,
    ensures
        n > 0 ==> hex(16 * n + d, 1) == hex(n, 0).push(hex_digit(d as int)),
        hex(d, 1) == seq![hex_digit(d as int)],
        d < 10 ==> hex_digit(d as int) as int == '0' as int + d,
        d >= 10 ==> hex_digit(d as int) as int == 'a' as int + (d - 10),
        hex(0, 0) == seq!['0'],
        hex(d, 2) == seq!['0', hex_digit(d as int)],
{
    assert((16 * n + d) / 16 == n && (16 * n + d) % 16 == d);
    reveal_with_fuel(hex, 3);
    assert(hex(d, 2) =~= seq!['0', hex_digit(d as int)]);
}

/// A switch is on for one and for the words true, yes and on, in letters of either size, and
/// for nothing else.
pub proof fn law_what_turns_a_switch_on(s: Seq<char>, t: Seq<char>)
    requires
        lower_all(s) == lower_all(t),
    ensures
        switched_on(s) == switched_on(t),
        switched_on(s) ==> 1 <= s.len() <= 4,
        t == "1"@ || t == "true"@ || t == "yes"@ || t == "on"@ ==> switched_on(s),
        t == "0"@ || t == "false"@ || t == "no"@ || t == "off"@ || t.len() == 0 ==> !switched_on(s),
{
    reveal_strlit("1");
    reveal_strlit("true");
    reveal_strlit("yes");
    reveal_strlit("on");
    reveal_strlit("0");
    reveal_strlit("false");
    reveal_strlit("no");
    reveal_strlit("off");
    assert(lower_all("1"@) =~= "1"@);
    assert(lower_all("true"@) =~= "true"@);
    assert(lower_all("yes"@) =~= "yes"@);
    assert(lower_all("on"@) =~= "on"@);
    assert(lower_all("0"@) =~= "0"@);
    assert(lower_all("false"@) =~= "false"@);
    assert(lower_all("no"@) =~= "no"@);
    assert(lower_all("off"@) =~= "off"@);
    assert(lower_all(s).len() == s.len());
    assert("0"@[0] == '0' && "1"@[0] == '1');
    assert("off"@[0] == 'o' && "yes"@[0] == 'y');
    assert("no"@[0] == 'n' && "on"@[0] == 'o');
}

/// A rate can be a whole number, a number with a fraction, or one of the words for infinity
/// and for no number, in letters of either size. A sign in front of one of these makes no
/// difference, and an empty text is no rate.
pub proof fn law_what_reads_as_a_rate(a: nat, b: nat, s: Seq<char>)
    ensures
        rate_text(dec(a)),
        rate_text(dec(a) + seq!['.'] + dec(b)),
        lower_all(s) == "inf"@ || lower_all(s) == "infinity"@ || lower_all(s) == "nan"@ ==> rate_text(
            s,
        ),
        s.len() == 0 ==> !rate_text(s),
        s.len() > 0 && s[0] != '+' && s[0] != '-' ==> rate_text(seq!['+'] + s) == rate_text(s)
            && rate_text(seq!['-'] + s) == rate_text(s),
{
    lemma_dec_is_digits(a);
    lemma_dec_is_digits(b);
    let d = dec(a);
    let f = dec(a) + seq!['.'] + dec(b);
    lemma_decimals_are_digits(a);
    assert forall|i: int| 0 <= i < d.len() implies digit_char(#[trigger] d[i]) by {}
    assert(digit_char(d[0]));
    assert(mantissa(d));
    assert(f[0] == d[0]);
    assert forall|i: int| 0 <= i < f.len() implies digit_char(#[trigger] f[i]) || f[i] == '.' by {
        if i < d.len() {
            assert(f[i] == d[i]);
        } else if i > d.len() {
            assert(f[i] == dec(b)[i - d.len() - 1]);
            assert(digit_char(dec(b)[i - d.len() - 1]));
        }
    }
    assert forall|i: int, j: int| 0 <= i < j < f.len() implies !(#[trigger] f[i] == '.'
        && #[trigger] f[j] == '.') by {
        if i < d.len() {
            assert(f[i] == d[i]);
            assert(digit_char(d[i]));
        } else {
            assert(f[j] == dec(b)[j - d.len() - 1]);
            assert(digit_char(dec(b)[j - d.len() - 1]));
        }
    }
    assert(mantissa(f));
    reveal_strlit("inf");
    reveal_strlit("infinity");
    reveal_strlit("nan");
    if number_word(s) {
        assert(lower_all(s).len() == s.len());
        assert(lower_all(s)[0] == 'i' || lower_all(s)[0] == 'n');
    }
    if s.len() == 0 {
        assert(lower_all(s).len() == 0);
    }
    assert((seq!['+'] + s).skip(1) =~= s);
    assert((seq!['-'] + s).skip(1) =~= s);
}

} // verus!
