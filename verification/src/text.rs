//! Text: comparison, concatenation, decimal numbers and lines.

use vstd::prelude::*;

verus! {

/// `<str as PartialEq>::eq`: whether two texts have the same characters.
pub assume_specification[ <str as PartialEq>::eq ](a: &str, b: &str) -> (r: bool)
    ensures
        r == (a@ == b@),
;

/// `String::push`: appends one character.
pub assume_specification[ String::push ](text: &mut String, c: char)
    ensures
        final(text)@ == old(text)@.push(c),
;

/// What an optional text holds.
pub open spec fn opt_text(text: Option<String>) -> Option<Seq<char>> {
    match text {
        Some(s) => Some(s@),
        None => None,
    }
}

/// Whether two texts have the same characters.
pub fn same_text(a: &str, b: &str) -> (r: bool)
    ensures
        r == (a@ == b@),
{
    *a == *b
}

/// The two texts, one behind the other.
pub fn join(a: &str, b: &str) -> (r: String)
    ensures
        r@ == a@ + b@,
{
    let mut text = a.to_owned();
    text.append(b);
    text
}

// ---------------------------------------------------------------------------
// Decimal numbers
// ---------------------------------------------------------------------------

/// The decimal digit for a number below ten.
pub open spec fn digit(d: nat) -> char {
    (48 + d) as u8 as char
}

/// The decimal digits of a number, without leading zeros.
pub open spec fn decimal_text(n: nat) -> Seq<char>
    decreases n,
{
    if n < 10 {
        seq![digit(n)]
    } else {
        decimal_text(n / 10).push(digit(n % 10))
    }
}

/// The number in decimal digits.
pub fn decimal(n: u64) -> (r: String)
    ensures
        r@ == decimal_text(n as nat),
    decreases n,
{
    if n < 10 {
        let mut text = String::new();
        text.push((48 + n as u8) as char);
        assert(text@ =~= decimal_text(n as nat));
        text
    } else {
        let mut text = decimal(n / 10);
        text.push((48 + (n % 10) as u8) as char);
        text
    }
}

/// Different numbers have different decimal digits.
pub proof fn lemma_decimal_injective(a: nat, b: nat)
    requires
        decimal_text(a) == decimal_text(b),
    ensures
        a == b,
    decreases a,
{
    let s = decimal_text(a);
    let t = decimal_text(b);
    lemma_decimal_len(a);
    lemma_decimal_len(b);
    assert(s.last() == digit(a % 10));
    assert(t.last() == digit(b % 10));
    lemma_digit_injective(a % 10, b % 10);
    if a >= 10 {
        assert(s.drop_last() =~= decimal_text(a / 10));
        assert(t.drop_last() =~= decimal_text(b / 10));
        lemma_decimal_injective(a / 10, b / 10);
        assert(a == 10 * (a / 10) + a % 10);
        assert(b == 10 * (b / 10) + b % 10);
    }
}

/// Different numbers below ten have different digits.
proof fn lemma_digit_injective(a: nat, b: nat)
    requires
        a < 10,
        b < 10,
        digit(a) == digit(b),
    ensures
        a == b,
{
    assert(digit(a) as int == 48 + a);
    assert(digit(b) as int == 48 + b);
}

/// A number has one decimal digit exactly where it is below ten.
proof fn lemma_decimal_len(n: nat)
    ensures
        decimal_text(n).len() >= 1,
        decimal_text(n).len() == 1 <==> n < 10,
    decreases n,
{
    if n >= 10 {
        lemma_decimal_len(n / 10);
    }
}

// ---------------------------------------------------------------------------
// Lines
// ---------------------------------------------------------------------------

/// How many characters stand before the first line feed.
pub open spec fn line_end(t: Seq<char>) -> nat
    decreases t.len(),
{
    if t.len() == 0 || t[0] == '\n' {
        0
    } else {
        1 + line_end(t.drop_first())
    }
}

/// The line without the carriage return at its end, where it has one.
pub open spec fn without_return(line: Seq<char>) -> Seq<char> {
    if line.len() > 0 && line.last() == '\r' {
        line.drop_last()
    } else {
        line
    }
}

/// The lines of a text. A line ends before a line feed, or before a carriage
/// return with a line feed behind it. The last line needs no line feed.
pub open spec fn text_lines(t: Seq<char>) -> Seq<Seq<char>>
    decreases t.len(),
{
    if t.len() == 0 {
        Seq::empty()
    } else {
        let n = line_end(t);
        if n >= t.len() {
            seq![t]
        } else {
            seq![without_return(t.take(n as int))] + text_lines(t.skip(n as int + 1))
        }
    }
}

/// What a list of texts holds.
pub open spec fn texts(list: Seq<String>) -> Seq<Seq<char>> {
    list.map_values(|s: String| s@)
}

/// The end of a line that is followed by a line feed.
proof fn lemma_line_end(line: Seq<char>, rest: Seq<char>)
    requires
        !line.contains('\n'),
    ensures
        line_end(line + seq!['\n'] + rest) == line.len(),
        line_end(line) == line.len(),
    decreases line.len(),
{
    let t = line + seq!['\n'] + rest;
    if line.len() > 0 {
        let tail = line.drop_first();
        assert(line[0] != '\n') by {
            assert(line.contains(line[0]));
        }
        assert forall|i: int| 0 <= i < tail.len() implies tail[i] != '\n' by {
            assert(line.contains(line[i + 1]));
        }
        lemma_line_end(tail, rest);
        assert(t.drop_first() =~= tail + seq!['\n'] + rest);
    }
}

/// The first line of a text is the one before its first line feed.
proof fn lemma_first_line(line: Seq<char>, rest: Seq<char>)
    requires
        !line.contains('\n'),
    ensures
        text_lines(line + seq!['\n'] + rest) == seq![without_return(line)] + text_lines(rest),
{
    let t = line + seq!['\n'] + rest;
    lemma_line_end(line, rest);
    assert(t.take(line.len() as int) =~= line);
    assert(t.skip(line.len() as int + 1) =~= rest);
}

/// Whether a text consists of whole lines, each with its line feed.
pub open spec fn whole_lines(t: Seq<char>) -> bool {
    t.len() == 0 || t.last() == '\n'
}

/// A line written behind whole lines is one more line, and the others stay.
pub proof fn lemma_append_line(t: Seq<char>, line: Seq<char>)
    requires
        whole_lines(t),
        !line.contains('\n'),
        !line.contains('\r'),
    ensures
        text_lines(t + line + seq!['\n']) == text_lines(t).push(line),
        whole_lines(t + line + seq!['\n']),
    decreases t.len(),
{
    let all = t + line + seq!['\n'];
    if line.len() > 0 {
        assert(line.contains(line.last()));
    }
    if t.len() == 0 {
        assert(all =~= line + seq!['\n'] + Seq::<char>::empty());
        lemma_first_line(line, Seq::empty());
        assert(text_lines(all) =~= text_lines(t).push(line));
    } else {
        let n = line_end(t) as int;
        lemma_line_end_bound(t);
        let first = t.take(n);
        let rest = t.skip(n + 1);
        assert(t =~= first + seq!['\n'] + rest);
        lemma_first_line(first, rest);
        lemma_append_line(rest, line);
        assert(all =~= first + seq!['\n'] + (rest + line + seq!['\n']));
        lemma_first_line(first, rest + line + seq!['\n']);
        assert(text_lines(all) =~= text_lines(t).push(line));
    }
}

/// The lines of a text behind whole lines come behind those lines.
pub proof fn lemma_lines_concat(t: Seq<char>, more: Seq<char>)
    requires
        whole_lines(t),
    ensures
        text_lines(t + more) == text_lines(t) + text_lines(more),
    decreases t.len(),
{
    if t.len() == 0 {
        assert(t + more =~= more);
        assert(text_lines(t) + text_lines(more) =~= text_lines(more));
    } else {
        let n = line_end(t) as int;
        lemma_line_end_bound(t);
        let first = t.take(n);
        let rest = t.skip(n + 1);
        assert(t =~= first + seq!['\n'] + rest);
        lemma_first_line(first, rest);
        lemma_lines_concat(rest, more);
        assert(t + more =~= first + seq!['\n'] + (rest + more));
        lemma_first_line(first, rest + more);
        assert(text_lines(t + more) =~= text_lines(t) + text_lines(more));
    }
}

/// A text of whole lines has a line feed, and none stands before `line_end`.
proof fn lemma_line_end_bound(t: Seq<char>)
    ensures
        line_end(t) <= t.len(),
        line_end(t) < t.len() ==> t[line_end(t) as int] == '\n',
        line_end(t) == t.len() ==> (t.len() > 0 ==> t.last() != '\n'),
        !t.take(line_end(t) as int).contains('\n'),
    decreases t.len(),
{
    if t.len() > 0 && t[0] != '\n' {
        let tail = t.drop_first();
        lemma_line_end_bound(tail);
        let n = line_end(t) as int;
        assert forall|i: int| 0 <= i < n implies t[i] != '\n' by {
            if i > 0 {
                assert(tail.take(n - 1).contains(tail.take(n - 1)[i - 1]));
            }
        }
    }
}

/// The first `n` characters as a text.
fn text_of(chars: &Vec<char>, n: usize) -> (r: String)
    requires
        n <= chars@.len(),
    ensures
        r@ == chars@.take(n as int),
{
    let mut text = String::new();
    for i in 0..n
        invariant
            n <= chars@.len(),
            text@ =~= chars@.take(i as int),
    {
        text.push(chars[i]);
    }
    text
}

/// The lines of a text.
pub fn lines(content: &str) -> (r: Vec<String>)
    ensures
        texts(r@) == text_lines(content@),
{
    let mut done: Vec<String> = Vec::new();
    let mut current: Vec<char> = Vec::new();
    assert(current@ + content@.skip(0) =~= content@);
    assert(texts(done@) + text_lines(content@) =~= text_lines(content@));
    for c in it: content.chars()
        invariant
            it.seq() == content@,
            !current@.contains('\n'),
            text_lines(content@) == texts(done@) + text_lines(
                current@ + content@.skip(it.index() as int),
            ),
    {
        let ghost rest = content@.skip(it.index() as int);
        let ghost before = current@;
        assert(rest =~= seq![c] + rest.drop_first());
        assert(rest.drop_first() =~= content@.skip(it.index() + 1));
        if c == '\n' {
            proof {
                lemma_first_line(current@, rest.drop_first());
                assert(current@ + rest =~= current@ + seq!['\n'] + rest.drop_first());
            }
            let mut n: usize = current.len();
            if n > 0 && current[n - 1] == '\r' {
                n = n - 1;
            }
            let line = text_of(&current, n);
            assert(line@ =~= without_return(current@));
            let ghost old_done = done@;
            done.push(line);
            assert(texts(done@) =~= texts(old_done) + seq![without_return(current@)]);
            current = Vec::new();
            assert(current@ + content@.skip(it.index() + 1) =~= content@.skip(it.index() + 1));
            assert(texts(old_done) + (seq![without_return(before)] + text_lines(rest.drop_first()))
                =~= texts(done@) + text_lines(rest.drop_first()));
        } else {
            current.push(c);
            assert(before + rest =~= current@ + rest.drop_first());
        }
    }
    assert(current@ + content@.skip(content@.len() as int) =~= current@);
    if current.len() > 0 {
        proof {
            lemma_line_end(current@, Seq::empty());
        }
        let line = text_of(&current, current.len());
        assert(line@ =~= current@);
        let ghost old_done = done@;
        done.push(line);
        assert(texts(done@) =~= texts(old_done) + seq![current@]);
    }
    done
}

// ---------------------------------------------------------------------------
// What texts, numbers and lines are
// ---------------------------------------------------------------------------

/// A text that may be missing keeps its characters, and a missing one stays missing.
pub proof fn law_optional_text_keeps_its_characters(text: String, list: Seq<String>, i: int)
    ensures
        opt_text(Some(text)) == Some(text@),
        opt_text(None) is None,
        texts(list).len() == list.len(),
        0 <= i < list.len() ==> texts(list)[i] == list[i]@,
{
}

/// The number that a sequence of decimal digits stands for.
pub open spec fn digits_value(digits: Seq<char>) -> int
    decreases digits.len(),
{
    if digits.len() == 0 {
        0
    } else {
        10 * digits_value(digits.drop_last()) + (digits.last() as int - '0' as int)
    }
}

/// The decimal text of a number consists of digits that stand for it, with no zero in
/// front but for zero itself.
pub proof fn law_decimal_text_stands_for_the_number(n: nat)
    ensures
        digits_value(decimal_text(n)) == n,
        decimal_text(n).len() > 0,
        forall|i: int|
            0 <= i < decimal_text(n).len() ==> '0' <= #[trigger] decimal_text(n)[i] <= '9',
        n > 0 ==> decimal_text(n)[0] != '0',
    decreases n,
{
    if n < 10 {
        assert(decimal_text(n).drop_last() =~= Seq::<char>::empty());
        assert(digits_value(decimal_text(n).drop_last()) == 0);
        assert(digit(n) as int == 48 + n);
    } else {
        law_decimal_text_stands_for_the_number(n / 10);
        assert(decimal_text(n).drop_last() =~= decimal_text(n / 10));
        assert(digit(n % 10) as int == 48 + n % 10);
        assert(n == 10 * (n / 10) + n % 10);
        assert(decimal_text(n)[0] == decimal_text(n / 10)[0]);
    }
}

/// A text without a line feed is one line, and the empty text none. A line feed ends a
/// line and is no part of it. A carriage return before the line feed is no part of it
/// either, and elsewhere it is.
pub proof fn law_lines_end_at_line_feeds(line: Seq<char>, rest: Seq<char>)
    requires
        !line.contains('\n'),
    ensures
        text_lines(Seq::empty()) == Seq::<Seq<char>>::empty(),
        line.len() > 0 ==> text_lines(line) == seq![line],
        text_lines(line + seq!['\r', '\n'] + rest) == seq![line] + text_lines(rest),
        !(line.len() > 0 && line.last() == '\r') ==> text_lines(line + seq!['\n'] + rest)
            == seq![line] + text_lines(rest),
{
    lemma_line_end(line, rest);
    lemma_first_line(line, rest);
    let returned = line.push('\r');
    assert(!returned.contains('\n')) by {
        assert forall|i: int| 0 <= i < returned.len() implies returned[i] != '\n' by {
            if i < line.len() {
                assert(line.contains(line[i]));
            }
        }
    }
    lemma_first_line(returned, rest);
    assert(line + seq!['\r', '\n'] + rest =~= returned + seq!['\n'] + rest);
    assert(returned.drop_last() =~= line);
}

} // verus!
