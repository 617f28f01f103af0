//! Building text: numbers, padding, joined lists.

use vstd::prelude::*;
use vstd::string::{StrSliceExecFns, StringExecFns};

verus! {

/// The character of a decimal digit.
pub open spec fn digit_char(d: nat) -> char {
    if d == 0 {
        '0'
    } else if d == 1 {
        '1'
    } else if d == 2 {
        '2'
    } else if d == 3 {
        '3'
    } else if d == 4 {
        '4'
    } else if d == 5 {
        '5'
    } else if d == 6 {
        '6'
    } else if d == 7 {
        '7'
    } else if d == 8 {
        '8'
    } else {
        '9'
    }
}

/// A number in decimal, without leading zeros.
pub open spec fn decimal(n: nat) -> Seq<char>
    decreases n,
{
    if n < 10 {
        seq![digit_char(n)]
    } else {
        decimal(n / 10).push(digit_char(n % 10))
    }
}

/// The text of one decimal digit.
fn digit_text(d: usize) -> (text: &'static str)
    requires
        d < 10,
    ensures
        text@ == seq![digit_char(d as nat)],
{
    proof {
        reveal_strlit("0");
        reveal_strlit("1");
        reveal_strlit("2");
        reveal_strlit("3");
        reveal_strlit("4");
        reveal_strlit("5");
        reveal_strlit("6");
        reveal_strlit("7");
        reveal_strlit("8");
        reveal_strlit("9");
    }
    let text = if d == 0 {
        "0"
    } else if d == 1 {
        "1"
    } else if d == 2 {
        "2"
    } else if d == 3 {
        "3"
    } else if d == 4 {
        "4"
    } else if d == 5 {
        "5"
    } else if d == 6 {
        "6"
    } else if d == 7 {
        "7"
    } else if d == 8 {
        "8"
    } else {
        "9"
    };
    assert(text@ =~= seq![digit_char(d as nat)]);
    text
}

/// Writes a number in decimal.
pub fn decimal_text(n: usize) -> (text: String)
    ensures
        text@ == decimal(n as nat),
    decreases n,
{
    if n < 10 {
        String::from_str(digit_text(n))
    } else {
        let front = decimal_text(n / 10);
        let ghost before = front@;
        let text = front.concat(digit_text(n % 10));
        assert(text@ =~= before.push(digit_char((n % 10) as nat)));
        text
    }
}

/// `width` spaces.
pub open spec fn padding(width: nat) -> Seq<char> {
    Seq::new(width, |i: int| ' ')
}

/// Makes `width` spaces.
pub fn padding_text(width: usize) -> (text: String)
    ensures
        text@ == padding(width as nat),
{
    proof {
        reveal_strlit(" ");
    }
    let mut text = String::new();
    let mut i: usize = 0;
    while i < width
        invariant
            i <= width,
            text@ =~= padding(i as nat),
            " "@ =~= seq![' '],
        decreases width - i,
    {
        text.append(" ");
        i += 1;
    }
    text
}

/// The parts put together, with `sep` between each two.
pub open spec fn join(parts: Seq<Seq<char>>, sep: Seq<char>) -> Seq<char>
    decreases parts.len(),
{
    if parts.len() == 0 {
        Seq::empty()
    } else if parts.len() == 1 {
        parts[0]
    } else {
        join(parts.drop_last(), sep) + sep + parts.last()
    }
}

/// Puts the parts together, with `sep` between each two.
pub fn join_text(parts: &Vec<String>, sep: &str) -> (text: String)
    ensures
        text@ == join(parts.deep_view(), sep@),
{
    let ghost all = parts.deep_view();
    let mut text = String::new();
    let mut i: usize = 0;
    assert(all.take(0) =~= Seq::empty());
    while i < parts.len()
        invariant
            i <= parts@.len(),
            all == parts.deep_view(),
            text@ == join(all.take(i as int), sep@),
        decreases parts@.len() - i,
    {
        let ghost before = text@;
        let ghost upto = all.take(i + 1);
        proof {
            assert(upto.drop_last() =~= all.take(i as int));
            assert(upto.last() == parts@[i as int]@);
        }
        if i > 0 {
            text.append(sep);
        }
        text.append(parts[i].as_str());
        proof {
            if i == 0 {
                assert(text@ =~= parts@[i as int]@);
            }
        }
        i += 1;
    }
    assert(all.take(i as int) =~= all);
    text
}

/// `text` with `pad` put after each of its line breaks.
pub open spec fn indented(text: Seq<char>, pad: Seq<char>) -> Seq<char>
    decreases text.len(),
{
    if text.len() == 0 {
        Seq::empty()
    } else if text.last() == '\n' {
        indented(text.drop_last(), pad) + seq!['\n'] + pad
    } else {
        indented(text.drop_last(), pad).push(text.last())
    }
}

/// Text without line break stays as it is.
pub proof fn lemma_indented_plain(text: Seq<char>, pad: Seq<char>)
    requires
        forall|i: int| 0 <= i < text.len() ==> text[i] != '\n',
    ensures
        indented(text, pad) == text,
    decreases text.len(),
{
    if text.len() > 0 {
        lemma_indented_plain(text.drop_last(), pad);
        assert(text.drop_last().push(text.last()) =~= text);
    }
}

/// Indenting goes through a text piece by piece.
pub proof fn lemma_indented_add(a: Seq<char>, b: Seq<char>, pad: Seq<char>)
    ensures
        indented(a + b, pad) == indented(a, pad) + indented(b, pad),
    decreases b.len(),
{
    if b.len() == 0 {
        assert(a + b =~= a);
        assert(indented(a, pad) + indented(b, pad) =~= indented(a, pad));
    } else {
        lemma_indented_add(a, b.drop_last(), pad);
        assert((a + b).drop_last() =~= a + b.drop_last());
        assert((a + b).last() == b.last());
        if b.last() == '\n' {
            assert(indented(a, pad) + (indented(b.drop_last(), pad) + seq!['\n'] + pad) =~= (
            indented(a, pad) + indented(b.drop_last(), pad)) + seq!['\n'] + pad);
        } else {
            assert(indented(a, pad) + indented(b.drop_last(), pad).push(b.last()) =~= (indented(
                a,
                pad,
            ) + indented(b.drop_last(), pad)).push(b.last()));
        }
    }
}

/// Puts `pad` after each line break of `text`.
pub fn indented_text(text: &str, pad: &str) -> (out: String)
    ensures
        out@ == indented(text@, pad@),
{
    let n = text.unicode_len();
    let mut out = String::new();
    let mut from: usize = 0;
    let mut index: usize = 0;
    assert(text@.take(0) =~= Seq::empty());
    assert(text@.subrange(0, 0) =~= Seq::empty());
    for c in it: text.chars()
        invariant
            it.seq() == text@,
            n == text@.len(),
            index == it.index(),
            from <= index,
            forall|j: int| from <= j < index ==> text@[j] != '\n',
            out@ == indented(text@.take(from as int), pad@),
    {
        if c == '\n' {
            let line = text.substring_char(from, index + 1);
            proof {
                let piece = text@.subrange(from as int, index + 1);
                let plain = piece.drop_last();
                lemma_indented_plain(plain, pad@);
                assert(piece.last() == '\n');
                lemma_indented_add(text@.take(from as int), piece, pad@);
                assert(text@.take(from as int) + piece =~= text@.take(index + 1));
                assert(indented(piece, pad@) =~= piece + pad@);
            }
            out.append(line);
            out.append(pad);
            from = index + 1;
        }
        index += 1;
    }
    let rest = text.substring_char(from, n);
    proof {
        let piece = text@.subrange(from as int, n as int);
        lemma_indented_plain(piece, pad@);
        lemma_indented_add(text@.take(from as int), piece, pad@);
        assert(text@.take(from as int) + piece =~= text@);
    }
    out.append(rest);
    out
}

} // verus!
