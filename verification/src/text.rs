//! Encodings of field values as query text: comma-joined lists and decimal
//! integers.

use vstd::prelude::*;
use vstd::string::StringExecFns;

verus! {

/// The views of a list of strings, item by item.
pub open spec fn texts(items: Seq<String>) -> Seq<Seq<char>> {
    Seq::new(items.len(), |i: int| items[i]@)
}

/// The items written one after another with a single `,` between
/// neighbours: nothing before the first item and nothing after the last.
pub open spec fn join_comma(items: Seq<Seq<char>>) -> Seq<char>
    decreases items.len(),
{
    if items.len() == 0 {
        Seq::empty()
    } else if items.len() == 1 {
        items[0]
    } else {
        join_comma(items.drop_last()) + seq![','] + items.last()
    }
}

/// The number of commas in `text`.
pub open spec fn commas(text: Seq<char>) -> nat
    decreases text.len(),
{
    if text.len() == 0 {
        0
    } else {
        commas(text.drop_last()) + if text.last() == ',' {
            1nat
        } else {
            0nat
        }
    }
}

/// The number of commas that the items hold themselves.
pub open spec fn commas_within(items: Seq<Seq<char>>) -> nat
    decreases items.len(),
{
    if items.len() == 0 {
        0
    } else {
        commas_within(items.drop_last()) + commas(items.last())
    }
}

/// The commas of two texts put together are those of the one and those of
/// the other.
pub proof fn lemma_commas_concat(a: Seq<char>, b: Seq<char>)
    ensures
        commas(a + b) == commas(a) + commas(b),
    decreases b.len(),
{
    if b.len() == 0 {
        assert(a + b == a);
    } else {
        assert((a + b).drop_last() == a + b.drop_last());
        lemma_commas_concat(a, b.drop_last());
    }
}

/// Joining adds exactly one comma for each item after the first: the joined
/// text holds the commas of its items and `items.len() - 1` more.
pub proof fn lemma_join_comma_count(items: Seq<Seq<char>>)
    ensures
        commas(join_comma(items)) == commas_within(items) + if items.len() > 0 {
            items.len() - 1
        } else {
            0
        },
    decreases items.len(),
{
    if items.len() == 1 {
        assert(commas_within(items.drop_last()) == 0);
    } else if items.len() > 1 {
        let front = items.drop_last();
        let comma = seq![','];
        lemma_join_comma_count(front);
        lemma_commas_concat(join_comma(front) + comma, items.last());
        lemma_commas_concat(join_comma(front), comma);
        assert(commas(comma) == 1) by {
            assert(comma.drop_last().len() == 0);
            assert(commas(comma.drop_last()) == 0);
            assert(comma.last() == ',');
        }
    }
}

/// Joining two lists after one another is joining each and putting one
/// comma between the two texts.
pub proof fn lemma_join_comma_concat(a: Seq<Seq<char>>, b: Seq<Seq<char>>)
    requires
        a.len() > 0,
        b.len() > 0,
    ensures
        join_comma(a + b) == join_comma(a) + seq![','] + join_comma(b),
    decreases b.len(),
{
    assert((a + b).drop_last() == a + b.drop_last());
    if b.len() == 1 {
        assert(a + b.drop_last() == a);
    } else {
        lemma_join_comma_concat(a, b.drop_last());
        assert(join_comma(a + b) == join_comma(a) + seq![','] + join_comma(b));
    }
}

/// Joins `items` with commas.
pub fn join(items: &Vec<String>) -> (joined: String)
    ensures
        joined@ == join_comma(texts(items@)),
{
    let mut joined = String::new();
    let mut i: usize = 0;
    while i < items.len()
        invariant
            i <= items.len(),
            joined@ == join_comma(texts(items@).take(i as int)),
        decreases items.len() - i,
    {
        proof {
            let done = texts(items@).take(i as int);
            let next = texts(items@).take(i + 1);
            assert(next.drop_last() == done);
            assert(next.last() == items@[i as int]@);
            reveal_strlit(",");
            assert(","@ == seq![',']);
        }
        if i > 0 {
            joined.append(",");
        }
        joined.append(items[i].as_str());
        i = i + 1;
    }
    proof {
        assert(texts(items@).take(i as int) == texts(items@));
    }
    joined
}

/// The character that writes the digit `d`, for `0 <= d <= 9`.
pub open spec fn digit_char(d: int) -> char {
    if d == 0 {
        '0'
    } else if d == 1 {
        '1'
    } else if d == 2 {
        '2'
    } else if d == 3 {
        '3'
    } else if d == 4 {
        '4'
    } else if d == 5 {
        '5'
    } else if d == 6 {
        '6'
    } else if d == 7 {
        '7'
    } else if d == 8 {
        '8'
    } else {
        '9'
    }
}

/// The decimal digits of `n`, most significant first, without leading zeros.
pub open spec fn digits(n: nat) -> Seq<char>
    decreases n,
{
    if n < 10 {
        seq![digit_char(n as int)]
    } else {
        digits(n / 10).push(digit_char((n % 10) as int))
    }
}

/// The decimal text of `n`: a `-` for a negative number, then the digits of
/// its magnitude.
pub open spec fn decimal(n: int) -> Seq<char> {
    if n < 0 {
        seq!['-'] + digits((-n) as nat)
    } else {
        digits(n as nat)
    }
}

fn digit_text(d: u32) -> (text: &'static str)
    requires
        d < 10,
    ensures
        text@ == seq![digit_char(d as int)],
{
    proof {
        reveal_strlit("0");
        reveal_strlit("1");
        reveal_strlit("2");
        reveal_strlit("3");
        reveal_strlit("4");
        reveal_strlit("5");
        reveal_strlit("6");
        reveal_strlit("7");
        reveal_strlit("8");
        reveal_strlit("9");
    }
    let text = if d == 0 {
        "0"
    } else if d == 1 {
        "1"
    } else if d == 2 {
        "2"
    } else if d == 3 {
        "3"
    } else if d == 4 {
        "4"
    } else if d == 5 {
        "5"
    } else if d == 6 {
        "6"
    } else if d == 7 {
        "7"
    } else if d == 8 {
        "8"
    } else {
        "9"
    };
    assert(text@ =~= seq![digit_char(d as int)]);
    text
}

fn append_digits(out: &mut String, n: u32)
    ensures
        final(out)@ == old(out)@ + digits(n as nat),
    decreases n,
{
    if n >= 10 {
        append_digits(out, n / 10);
    }
    out.append(digit_text(n % 10));
    assert(out@ =~= old(out)@ + digits(n as nat));
}

/// Writes `n` in decimal.
pub fn decimal_string(n: i32) -> (text: String)
    ensures
        text@ == decimal(n as int),
{
    let mut text = String::new();
    if n < 0 {
        text.append("-");
        proof {
            reveal_strlit("-");
            assert("-"@ =~= seq!['-']);
        }
        let magnitude: u32 = if n == i32::MIN {
            2147483648u32
        } else {
            (-n) as u32
        };
        append_digits(&mut text, magnitude);
    } else {
        append_digits(&mut text, n as u32);
    }
    assert(text@ =~= decimal(n as int));
    text
}

} // verus!
