//! Text editing on `String` values, as the input fields of the screens use it.
use vstd::prelude::*;

verus! {

/// `String::push` appends the given character to the end of the string (std documentation).
pub assume_specification[ String::push ](s: &mut String, ch: char)
    ensures
        final(s)@ == old(s)@.push(ch),
;

/// `String::pop` removes the last character and returns it, or returns `None` and leaves the
/// string as it was when the string is empty (std documentation).
pub assume_specification[ String::pop ](s: &mut String) -> (res: Option<char>)
    ensures
        old(s)@.len() == 0 ==> res is None && final(s)@ == old(s)@,
        old(s)@.len() > 0 ==> res == Some(old(s)@.last()) && final(s)@ == old(s)@.drop_last(),
;

/// `String::clear` truncates the string, removing all of its contents (std documentation).
pub assume_specification[ String::clear ](s: &mut String)
    ensures
        final(s)@ == Seq::<char>::empty(),
;

/// What a text field holds after one more character is typed into it.
pub open spec fn typed(text: Seq<char>, c: char) -> Seq<char> {
    text.push(c)
}

/// What a text field holds after its last character is erased; an empty field stays empty.
pub open spec fn erased(text: Seq<char>) -> Seq<char> {
    if text.len() == 0 {
        text
    } else {
        text.drop_last()
    }
}

/// Erasing right after typing gives back the text as it was.
pub proof fn law_erase_undoes_type(text: Seq<char>, c: char)
    ensures
        erased(typed(text, c)) == text,
{
    assert(text.push(c).drop_last() =~= text);
}

/// The character of the decimal digit `d`.
pub open spec fn digit_char(d: nat) -> char {
    (48 + d) as char
}

/// The decimal numeral of `n`, with no leading zeros ("0" for zero).
pub open spec fn decimal(n: nat) -> Seq<char>
    decreases n,
{
    if n < 10 {
        seq![digit_char(n)]
    } else {
        decimal(n / 10).push(digit_char(n % 10))
    }
}

/// Whether every character of `text` is a decimal digit.
pub open spec fn all_digits(text: Seq<char>) -> bool {
    forall|i: int| 0 <= i < text.len() ==> '0' <= #[trigger] text[i] <= '9'
}

/// The number that a string of decimal digits reads as.
pub open spec fn numeral_value(text: Seq<char>) -> nat
    decreases text.len(),
{
    if text.len() == 0 {
        0
    } else {
        numeral_value(text.drop_last()) * 10 + ((text.last() as int - 48) as nat)
    }
}

/// The decimal numeral of `n` is made of digits only, starts with a non-zero digit unless it is
/// "0", and reads back as `n`.
pub proof fn law_decimal_reads_back(n: nat)
    ensures
        all_digits(decimal(n)),
        numeral_value(decimal(n)) == n,
        decimal(n).len() >= 1,
        n > 0 ==> decimal(n)[0] != '0',
    decreases n,
{
    if n < 10 {
        assert(decimal(n) == seq![digit_char(n)]);
        assert(seq![digit_char(n)].drop_last() =~= Seq::<char>::empty());
        assert(digit_char(n) as int == 48 + n);
        assert(numeral_value(Seq::<char>::empty()) == 0);
        assert(numeral_value(seq![digit_char(n)]) == n);
    } else {
        law_decimal_reads_back(n / 10);
        let d = decimal(n / 10);
        let c = digit_char(n % 10);
        assert(decimal(n) == d.push(c));
        assert(d.push(c).drop_last() =~= d);
        assert(d.push(c)[0] == d[0]);
        assert(c as int == 48 + n % 10);
        assert((n / 10) * 10 + n % 10 == n);
        assert(numeral_value(d.push(c)) == numeral_value(d) * 10 + ((c as int - 48) as nat));
        assert(numeral_value(d.push(c)) == n);
    }
}

/// Appends the decimal numeral of `n` to `s`.
pub fn push_decimal(s: &mut String, n: u64)
    ensures
        final(s)@ == old(s)@ + decimal(n as nat),
    decreases n,
{
    if n >= 10 {
        push_decimal(s, n / 10);
    }
    let d: u8 = (n % 10) as u8;
    let c: char = (48u8 + d) as char;
    s.push(c);
    proof {
        if n >= 10 {
            assert(old(s)@ + decimal((n / 10) as nat) + seq![c] =~= old(s)@ + decimal(n as nat));
        } else {
            assert(old(s)@ + seq![c] =~= old(s)@ + decimal(n as nat));
        }
    }
}

/// The decimal numeral of `n`.
pub fn decimal_string(n: u64) -> (res: String)
    ensures
        res@ == decimal(n as nat),
{
    let mut s = String::new();
    push_decimal(&mut s, n);
    assert(Seq::<char>::empty() + decimal(n as nat) =~= decimal(n as nat));
    s
}

/// The pieces of `text` between its newline characters: one more piece than there are
/// newlines.
pub open spec fn newline_pieces(text: Seq<char>) -> Seq<Seq<char>>
    decreases text.len(),
{
    if text.len() == 0 {
        seq![Seq::<char>::empty()]
    } else {
        let pieces = newline_pieces(text.drop_last());
        if text.last() == '\n' {
            pieces.push(Seq::<char>::empty())
        } else {
            pieces.update(pieces.len() - 1, pieces.last().push(text.last()))
        }
    }
}

/// A line ended by a newline loses the carriage return before that newline, if it has one.
pub open spec fn without_carriage_return(line: Seq<char>) -> Seq<char> {
    if line.len() > 0 && line.last() == '\r' {
        line.drop_last()
    } else {
        line
    }
}

/// The lines of `text` as `str::lines` gives them: the text is split at each newline, a
/// carriage return right before a newline goes with it, and the last piece is a line only when
/// it is not empty (so a final newline ends the last line rather than starting another).
pub open spec fn text_lines(text: Seq<char>) -> Seq<Seq<char>> {
    let pieces = newline_pieces(text);
    let ended = pieces.drop_last().map_values(|line: Seq<char>| without_carriage_return(line));
    if pieces.last().len() == 0 {
        ended
    } else {
        ended.push(pieces.last())
    }
}

/// The length of the longest of `lines`, or 0 when there are none.
pub open spec fn longest(lines: Seq<Seq<char>>) -> nat
    decreases lines.len(),
{
    if lines.len() == 0 {
        0
    } else {
        let rest = longest(lines.drop_last());
        if lines.last().len() > rest {
            lines.last().len()
        } else {
            rest
        }
    }
}

/// A text always has at least one piece.
pub proof fn lemma_pieces_not_empty(text: Seq<char>)
    ensures
        newline_pieces(text).len() >= 1,
        newline_pieces(text).len() <= text.len() + 1,
    decreases text.len(),
{
    if text.len() > 0 {
        lemma_pieces_not_empty(text.drop_last());
    }
}

/// The number of lines of `text` and the length of its longest line, in characters.
pub fn line_stats(text: &str) -> (res: (usize, usize))
    ensures
        res.0 == text_lines(text@).len(),
        res.1 == longest(text_lines(text@)),
{
    let n = text.unicode_len();
    let mut count: usize = 0;
    let mut cur: usize = 0;
    let mut ends_in_cr = false;
    let mut widest: usize = 0;
    proof {
        assert(text@.take(0) =~= Seq::<char>::empty());
        assert(newline_pieces(Seq::<char>::empty()).drop_last().map_values(
            |line: Seq<char>| without_carriage_return(line),
        ) =~= Seq::<Seq<char>>::empty());
    }
    for i in 0..n
        invariant
            n == text@.len(),
            count + cur <= i,
            count == newline_pieces(text@.take(i as int)).len() - 1,
            cur == newline_pieces(text@.take(i as int)).last().len(),
            ends_in_cr == (cur > 0 && newline_pieces(text@.take(i as int)).last().last() == '\r'),
            widest == longest(
                newline_pieces(text@.take(i as int)).drop_last().map_values(
                    |line: Seq<char>| without_carriage_return(line),
                ),
            ),
    {
        let ghost prefix = text@.take(i as int);
        let ghost pieces = newline_pieces(prefix);
        let c = text.get_char(i);
        proof {
            lemma_pieces_not_empty(prefix);
            assert(text@.take(i + 1).drop_last() =~= prefix);
            assert(text@.take(i + 1).last() == c);
        }
        if c == '\n' {
            let len = if ends_in_cr {
                cur - 1
            } else {
                cur
            };
            if len > widest {
                widest = len;
            }
            count = count + 1;
            cur = 0;
            ends_in_cr = false;
            proof {
                let next = newline_pieces(text@.take(i + 1));
                assert(next == pieces.push(Seq::<char>::empty()));
                assert(next.drop_last() =~= pieces);
                let f = |line: Seq<char>| without_carriage_return(line);
                assert(pieces.map_values(f) =~= pieces.drop_last().map_values(f).push(
                    f(pieces.last()),
                ));
                assert(pieces.map_values(f).drop_last() =~= pieces.drop_last().map_values(f));
            }
        } else {
            cur = cur + 1;
            ends_in_cr = c == '\r';
            proof {
                let next = newline_pieces(text@.take(i + 1));
                assert(next == pieces.update(pieces.len() - 1, pieces.last().push(c)));
                assert(next.drop_last() =~= pieces.drop_last());
            }
        }
    }
    proof {
        assert(text@.take(n as int) =~= text@);
        lemma_pieces_not_empty(text@);
    }
    if cur > 0 {
        count = count + 1;
        if cur > widest {
            widest = cur;
        }
        proof {
            let pieces = newline_pieces(text@);
            let f = |line: Seq<char>| without_carriage_return(line);
            let ended = pieces.drop_last().map_values(f);
            assert(ended.push(pieces.last()).drop_last() =~= ended);
        }
    }
    (count, widest)
}

} // verus!
