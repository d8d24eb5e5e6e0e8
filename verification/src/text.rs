//! Text building blocks: decimal numerals, lists with separators, trimming.

use vstd::prelude::*;

verus! {

/// The character that writes the digit `d`.
pub open spec fn digit_char(d: nat) -> char {
    if d == 0 {
        '0'
    } else if d == 1 {
        '1'
    } else if d == 2 {
        '2'
    } else if d == 3 {
        '3'
    } else if d == 4 {
        '4'
    } else if d == 5 {
        '5'
    } else if d == 6 {
        '6'
    } else if d == 7 {
        '7'
    } else if d == 8 {
        '8'
    } else {
        '9'
    }
}

/// The decimal numeral of `n`: most significant digit first, no leading zero.
pub open spec fn decimal(n: nat) -> Seq<char>
    decreases n,
{
    if n < 10 {
        seq![digit_char(n)]
    } else {
        decimal(n / 10).push(digit_char(n % 10))
    }
}

/// The items in order, with `separator` between neighbours.
pub open spec fn join(items: Seq<Seq<char>>, separator: Seq<char>) -> Seq<char>
    decreases items.len(),
{
    if items.len() == 0 {
        Seq::empty()
    } else if items.len() == 1 {
        items[0]
    } else {
        join(items.drop_last(), separator) + separator + items.last()
    }
}

/// The items in order, with `terminator` after each.
pub open spec fn terminated(items: Seq<Seq<char>>, terminator: Seq<char>) -> Seq<char>
    decreases items.len(),
{
    if items.len() == 0 {
        Seq::empty()
    } else {
        terminated(items.drop_last(), terminator) + items.last() + terminator
    }
}

/// `text` without the run of `c` at its end.
pub open spec fn trim_end(text: Seq<char>, c: char) -> Seq<char>
    decreases text.len(),
{
    if text.len() > 0 && text.last() == c {
        trim_end(text.drop_last(), c)
    } else {
        text
    }
}

/// Whether `text` ends in `tail`.
pub open spec fn ends_with(text: Seq<char>, tail: Seq<char>) -> bool {
    text.len() >= tail.len() && text.subrange(text.len() - tail.len(), text.len() as int) == tail
}

/// The texts that a vector of strings holds.
pub open spec fn texts(items: Seq<String>) -> Seq<Seq<char>> {
    Seq::new(items.len(), |i: int| items[i]@)
}

/// A numeral is never empty and ends in the digit of its units.
pub proof fn lemma_decimal_last(n: nat)
    ensures
        decimal(n).len() > 0,
        decimal(n).last() == digit_char(n % 10),
    decreases n,
{
    if n >= 10 {
        lemma_decimal_last(n / 10);
    }
}

/// Different digits are written with different characters.
pub proof fn lemma_digit_char_injective(a: nat, b: nat)
    requires
        a < 10,
        b < 10,
        digit_char(a) == digit_char(b),
    ensures
        a == b,
{
}

/// Different numbers have different numerals.
pub proof fn lemma_decimal_injective(a: nat, b: nat)
    requires
        decimal(a) == decimal(b),
    ensures
        a == b,
    decreases a,
{
    lemma_decimal_last(a);
    lemma_decimal_last(b);
    lemma_digit_char_injective(a % 10, b % 10);
    if a < 10 {
        if b >= 10 {
            lemma_decimal_last(b / 10);
            assert(decimal(b).len() >= 2);
        }
    } else {
        if b < 10 {
            lemma_decimal_last(a / 10);
            assert(decimal(a).len() >= 2);
        } else {
            assert(decimal(a).drop_last() =~= decimal(a / 10));
            assert(decimal(b).drop_last() =~= decimal(b / 10));
            lemma_decimal_injective(a / 10, b / 10);
        }
    }
}

/// A list with a terminator after each item is the list with separators,
/// followed by one terminator.
pub proof fn lemma_terminated_is_join(items: Seq<Seq<char>>, mark: Seq<char>)
    requires
        items.len() > 0,
    ensures
        terminated(items, mark) == join(items, mark) + mark,
    decreases items.len(),
{
    if items.len() == 1 {
        assert(items.drop_last().len() == 0);
        assert(terminated(items.drop_last(), mark) =~= Seq::<char>::empty());
        assert(terminated(items, mark) =~= join(items, mark) + mark);
    } else {
        lemma_terminated_is_join(items.drop_last(), mark);
        assert(terminated(items, mark) =~= join(items, mark) + mark);
    }
}

/// A joined list ends as its last item ends.
pub proof fn lemma_join_last(items: Seq<Seq<char>>, separator: Seq<char>)
    requires
        items.len() > 0,
        items.last().len() > 0,
    ensures
        join(items, separator).len() > 0,
        join(items, separator).last() == items.last().last(),
{
}

/// Trimming takes nothing from a text that does not end in `c`.
pub proof fn lemma_trim_end_fixed(text: Seq<char>, c: char)
    requires
        text.len() == 0 || text.last() != c,
    ensures
        trim_end(text, c) == text,
{
}

/// Where no item ends in `c`, trimming `c` from the list with `c` after each
/// item leaves the list with `c` between the items.
pub proof fn lemma_trim_terminated(items: Seq<Seq<char>>, c: char)
    requires
        forall|i: int|
            0 <= i < items.len() ==> (#[trigger] items[i]).len() > 0 && items[i].last() != c,
    ensures
        trim_end(terminated(items, seq![c]), c) == join(items, seq![c]),
{
    if items.len() > 0 {
        let mark = seq![c];
        let joined = join(items, mark);
        lemma_terminated_is_join(items, mark);
        lemma_join_last(items, mark);
        assert((joined + mark).last() == c);
        assert((joined + mark).drop_last() =~= joined);
        lemma_trim_end_fixed(joined, c);
    }
}

/// The text of the digit `d`.
fn digit_text(d: usize) -> (text: &'static str)
    requires
        d < 10,
    ensures
        text@ == seq![digit_char(d as nat)],
{
    proof {
        reveal_strlit("0");
        reveal_strlit("1");
        reveal_strlit("2");
        reveal_strlit("3");
        reveal_strlit("4");
        reveal_strlit("5");
        reveal_strlit("6");
        reveal_strlit("7");
        reveal_strlit("8");
        reveal_strlit("9");
    }
    let text = if d == 0 {
        "0"
    } else if d == 1 {
        "1"
    } else if d == 2 {
        "2"
    } else if d == 3 {
        "3"
    } else if d == 4 {
        "4"
    } else if d == 5 {
        "5"
    } else if d == 6 {
        "6"
    } else if d == 7 {
        "7"
    } else if d == 8 {
        "8"
    } else {
        "9"
    };
    assert(text@ =~= seq![digit_char(d as nat)]);
    text
}

/// Writes `n` in decimal.
pub fn decimal_string(n: usize) -> (text: String)
    ensures
        text@ == decimal(n as nat),
    decreases n,
{
    if n < 10 {
        String::from_str(digit_text(n))
    } else {
        let mut text = decimal_string(n / 10);
        text.append(digit_text(n % 10));
        assert(text@ =~= decimal(n as nat));
        text
    }
}

/// Writes the items in order, with `separator` between neighbours.
pub fn join_strings(items: &Vec<String>, separator: &str) -> (text: String)
    ensures
        text@ == join(texts(items@), separator@),
{
    let mut text = String::new();
    let mut i: usize = 0;
    while i < items.len()
        invariant
            i <= items.len(),
            text@ == join(texts(items@).take(i as int), separator@),
        decreases items.len() - i,
    {
        let ghost before = texts(items@).take(i as int);
        let ghost after = texts(items@).take(i + 1);
        assert(after.drop_last() =~= before);
        assert(after.last() == items@[i as int]@);
        if i > 0 {
            text.append(separator);
        }
        text.append(items[i].as_str());
        assert(text@ =~= join(after, separator@));
        i += 1;
    }
    assert(texts(items@).take(i as int) =~= texts(items@));
    text
}

/// Returns `text` without the run of `c` at its end.
pub fn trim_end_matches(text: &str, c: char) -> (trimmed: &str)
    ensures
        trimmed@ == trim_end(text@, c),
{
    let mut end = text.unicode_len();
    assert(text@.take(end as int) =~= text@);
    while end > 0 && text.get_char(end - 1) == c
        invariant
            end <= text@.len(),
            trim_end(text@, c) == trim_end(text@.take(end as int), c),
        decreases end,
    {
        assert(text@.take(end as int).drop_last() =~= text@.take(end - 1));
        end -= 1;
    }
    proof {
        lemma_trim_end_fixed(text@.take(end as int), c);
    }
    let trimmed = text.substring_char(0, end);
    assert(trimmed@ =~= text@.take(end as int));
    trimmed
}

} // verus!
