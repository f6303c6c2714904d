//! How a board names its cards: a prefix taken from the board's own identifier, a hyphen, and
//! the card's number in at least three decimal digits ("PRJ-007", "PRJ-1234").

use crate::text::alphabetic;
use crate::text::is_alphabetic;
use crate::text::push_char;
use crate::text::to_uppercase;
use crate::text::uppercase;
use vstd::prelude::*;

verus! {

/// The decimal digit for `d`, which is below ten.
pub open spec fn digit(d: nat) -> char {
    if d == 0 {
        '0'
    } else if d == 1 {
        '1'
    } else if d == 2 {
        '2'
    } else if d == 3 {
        '3'
    } else if d == 4 {
        '4'
    } else if d == 5 {
        '5'
    } else if d == 6 {
        '6'
    } else if d == 7 {
        '7'
    } else if d == 8 {
        '8'
    } else {
        '9'
    }
}

/// The number that a decimal digit stands for; zero for any other character.
pub open spec fn digit_value(c: char) -> nat {
    if c == '1' {
        1
    } else if c == '2' {
        2
    } else if c == '3' {
        3
    } else if c == '4' {
        4
    } else if c == '5' {
        5
    } else if c == '6' {
        6
    } else if c == '7' {
        7
    } else if c == '8' {
        8
    } else if c == '9' {
        9
    } else {
        0
    }
}

/// `n` in decimal digits, without leading zeros.
pub open spec fn decimal(n: nat) -> Seq<char>
    decreases n,
{
    if n < 10 {
        seq![digit(n)]
    } else {
        decimal(n / 10).push(digit(n % 10))
    }
}

/// `count` zeros.
pub open spec fn zeros(count: nat) -> Seq<char> {
    Seq::new(count, |i: int| '0')
}

/// `n` in decimal digits, with zeros in front where it has fewer than three.
pub open spec fn number_text(n: nat) -> Seq<char> {
    let digits = decimal(n);
    if digits.len() >= 3 {
        digits
    } else {
        zeros((3 - digits.len()) as nat) + digits
    }
}

/// The number that a text of decimal digits stands for.
pub open spec fn number_of(text: Seq<char>) -> nat
    decreases text.len(),
{
    if text.len() == 0 {
        0
    } else {
        number_of(text.drop_last()) * 10 + digit_value(text.last())
    }
}

/// The identifier of card number `n` on a board with this prefix.
pub open spec fn card_id_text(prefix: Seq<char>, n: nat) -> Seq<char> {
    prefix + seq!['-'] + number_text(n)
}

/// The first three of `letters`, or all of them where there are no more than three.
pub open spec fn first_three(letters: Seq<char>) -> Seq<char> {
    if letters.len() <= 3 {
        letters
    } else {
        letters.take(3)
    }
}

/// The alphabetic characters of a text, in their order.
pub open spec fn letters_of(text: Seq<char>) -> Seq<char> {
    text.filter(|c: char| alphabetic(c))
}

/// The prefix of a board's card identifiers: the first three alphabetic characters of the
/// board's identifier (fewer where it has fewer), in upper case.
pub open spec fn prefix_text(board_id: Seq<char>) -> Seq<char> {
    uppercase(first_three(letters_of(board_id)))
}

/// The letters of a text with one more character at its end.
proof fn lemma_letters_of_push(text: Seq<char>, c: char)
    ensures
        letters_of(text.push(c)) == if alphabetic(c) {
            letters_of(text).push(c)
        } else {
            letters_of(text)
        },
{
    text.lemma_filter_push(c, |c: char| alphabetic(c));
}

/// Reading the decimal digits of `n` gives `n` back.
pub proof fn lemma_number_of_decimal(n: nat)
    ensures
        number_of(decimal(n)) == n,
        decimal(n).len() >= 1,
    decreases n,
{
    if n < 10 {
        assert(seq![digit(n)].drop_last() =~= Seq::<char>::empty());
        assert(number_of(Seq::<char>::empty()) == 0);
        assert(seq![digit(n)].last() == digit(n));
    } else {
        lemma_number_of_decimal(n / 10);
        assert(decimal(n / 10).push(digit(n % 10)).drop_last() =~= decimal(n / 10));
    }
}

/// Zeros in front of a text of digits do not change the number it stands for.
pub proof fn lemma_number_of_leading_zeros(count: nat, digits: Seq<char>)
    ensures
        number_of(zeros(count) + digits) == number_of(digits),
    decreases digits.len(),
{
    if digits.len() == 0 {
        assert(zeros(count) + digits =~= zeros(count));
        lemma_number_of_zeros(count);
    } else {
        lemma_number_of_leading_zeros(count, digits.drop_last());
        assert((zeros(count) + digits).drop_last() =~= zeros(count) + digits.drop_last());
    }
}

/// A text of zeros stands for zero.
pub proof fn lemma_number_of_zeros(count: nat)
    ensures
        number_of(zeros(count)) == 0,
    decreases count,
{
    if count > 0 {
        lemma_number_of_zeros((count - 1) as nat);
        assert(zeros(count).drop_last() =~= zeros((count - 1) as nat));
    }
}

/// Reading the text of a card number gives the number back.
pub proof fn lemma_number_of_number_text(n: nat)
    ensures
        number_of(number_text(n)) == n,
{
    lemma_number_of_decimal(n);
    if decimal(n).len() < 3 {
        lemma_number_of_leading_zeros((3 - decimal(n).len()) as nat, decimal(n));
    }
}

/// The text of a card number has at least three characters, and as many as the number has
/// digits where those are more.
pub proof fn lemma_number_text_length(n: nat)
    ensures
        number_text(n).len() >= 3,
        number_text(n).len() >= decimal(n).len(),
        n < 1000 ==> number_text(n).len() == 3,
{
    lemma_number_of_decimal(n);
    if n < 10 {
    } else if n < 100 {
        assert(decimal(n / 10).len() == 1);
    } else if n < 1000 {
        assert(decimal(n / 10 / 10).len() == 1);
        assert(decimal(n / 10).len() == 2);
    }
}

/// Two card numbers under one prefix give two identifiers: no identifier is issued twice as
/// long as the number grows.
pub proof fn lemma_card_id_text_injective(prefix: Seq<char>, a: nat, b: nat)
    requires
        card_id_text(prefix, a) == card_id_text(prefix, b),
    ensures
        a == b,
{
    let start = prefix.len() + 1;
    let left = card_id_text(prefix, a);
    let right = card_id_text(prefix, b);
    assert(left.subrange(start as int, left.len() as int) =~= number_text(a));
    assert(right.subrange(start as int, right.len() as int) =~= number_text(b));
    lemma_number_of_number_text(a);
    lemma_number_of_number_text(b);
}

/// The decimal digit for `d`.
fn digit_char(d: u32) -> (c: char)
    requires
        d < 10,
    ensures
        c == digit(d as nat),
{
    if d == 0 {
        '0'
    } else if d == 1 {
        '1'
    } else if d == 2 {
        '2'
    } else if d == 3 {
        '3'
    } else if d == 4 {
        '4'
    } else if d == 5 {
        '5'
    } else if d == 6 {
        '6'
    } else if d == 7 {
        '7'
    } else if d == 8 {
        '8'
    } else {
        '9'
    }
}

/// Appends `n` in decimal digits to `out`.
fn push_decimal(out: &mut String, n: u32)
    ensures
        final(out)@ == old(out)@ + decimal(n as nat),
    decreases n,
{
    if n >= 10 {
        push_decimal(out, n / 10);
    }
    push_char(out, digit_char(n % 10));
    assert(out@ =~= old(out)@ + decimal(n as nat));
}

/// The identifier of card number `number` under `prefix`: the prefix, a hyphen, and the number
/// in at least three digits.
pub fn format_card_id(prefix: &str, number: u32) -> (id: String)
    ensures
        id@ == card_id_text(prefix@, number as nat),
{
    let mut id = String::new();
    id.append(prefix);
    push_char(&mut id, '-');
    if number < 10 {
        push_char(&mut id, '0');
        push_char(&mut id, '0');
    } else if number < 100 {
        push_char(&mut id, '0');
    }
    let ghost padded = id@;
    push_decimal(&mut id, number);
    proof {
        let n = number as nat;
        if n < 10 {
            assert(decimal(n).len() == 1);
        } else if n < 100 {
            assert(decimal(n / 10).len() == 1);
            assert(decimal(n).len() == 2);
        } else {
            lemma_number_of_decimal(n / 100);
            assert(decimal(n / 10) == decimal(n / 10 / 10).push(digit(n / 10 % 10)));
            assert(n / 10 / 10 == n / 100);
            assert(decimal(n).len() >= 3);
        }
        if n >= 100 {
            assert(padded =~= prefix@ + seq!['-']);
        } else {
            assert(padded =~= prefix@ + seq!['-'] + zeros((3 - decimal(n).len()) as nat));
        }
        assert(id@ =~= card_id_text(prefix@, n));
    }
    id
}

/// The prefix that a board with this identifier gives to its cards.
pub fn generate_prefix(board_id: &str) -> (prefix: String)
    ensures
        prefix@ == prefix_text(board_id@),
{
    let mut letters = String::new();
    let mut count: usize = 0;
    for c in it: board_id.chars()
        invariant
            it.seq() == board_id@,
            count == letters@.len(),
            letters@ == first_three(letters_of(board_id@.take(it.index() as int))),
    {
        proof {
            let i = it.index() as int;
            let before = board_id@.take(i);
            assert(board_id@.take(i + 1) =~= before.push(c));
            lemma_letters_of_push(before, c);
            if alphabetic(c) && count >= 3 {
                assert(letters_of(before).push(c).take(3) =~= letters_of(before).take(3));
            }
        }
        if count < 3 && is_alphabetic(c) {
            push_char(&mut letters, c);
            count += 1;
        }
    }
    proof {
        assert(board_id@.take(board_id@.len() as int) =~= board_id@);
    }
    to_uppercase(letters.as_str())
}

} // verus!
