//! Decimal notation of balances.

use crate::asset::AssetBalance;
use vstd::prelude::*;

verus! {

/// The character for the digit `d`.
pub open spec fn digit_char(d: nat) -> char
    recommends
        d < 10,
{
    ('0' as nat + d) as char
}

/// The number that the digit `c` stands for.
pub open spec fn digit_value(c: char) -> nat
    recommends
        '0' <= c <= '9',
{
    (c as nat - '0' as nat) as nat
}

/// The decimal notation of `n`: its digits, the most significant first, without leading zeros.
pub open spec fn decimal_text(n: nat) -> Seq<char>
    decreases n,
{
    if n < 10 {
        seq![digit_char(n)]
    } else {
        decimal_text(n / 10).push(digit_char(n % 10))
    }
}

/// The number that a sequence of digits stands for.
pub open spec fn decimal_value(text: Seq<char>) -> nat
    decreases text.len(),
{
    if text.len() == 0 {
        0
    } else {
        decimal_value(text.drop_last()) * 10 + digit_value(text.last())
    }
}

/// Reading the decimal notation of `n` gives `n` back. The notation consists of digits alone, and
/// starts with a zero only where it is that single zero.
pub proof fn law_decimal_text_reads_back(n: nat)
    ensures
        decimal_value(decimal_text(n)) == n,
        decimal_text(n).len() >= 1,
        forall|i: int|
            0 <= i < decimal_text(n).len() ==> '0' <= #[trigger] decimal_text(n)[i] <= '9',
        decimal_text(n)[0] == '0' ==> n == 0,
    decreases n,
{
    if n < 10 {
        assert(decimal_text(n).drop_last() =~= Seq::<char>::empty());
        assert(decimal_value(Seq::<char>::empty()) == 0);
        assert(decimal_text(n).last() == digit_char(n));
    } else {
        law_decimal_text_reads_back(n / 10);
        let text = decimal_text(n);
        assert(text.drop_last() =~= decimal_text(n / 10));
        assert(text.last() == digit_char(n % 10));
        assert forall|i: int| 0 <= i < text.len() implies '0' <= #[trigger] text[i] <= '9' by {
            if i < text.len() - 1 {
                assert(text[i] == decimal_text(n / 10)[i]);
            }
        }
        assert(text[0] == decimal_text(n / 10)[0]);
    }
}

/// Different amounts are written differently.
pub proof fn law_decimal_text_is_injective(a: nat, b: nat)
    requires
        decimal_text(a) == decimal_text(b),
    ensures
        a == b,
{
    law_decimal_text_reads_back(a);
    law_decimal_text_reads_back(b);
}

/// Returns the digit `d` as text.
fn digit_text(d: u8) -> (text: &'static str)
    requires
        d < 10,
    ensures
        text@ == seq![digit_char(d as nat)],
{
    proof {
        reveal_strlit("0");
        reveal_strlit("1");
        reveal_strlit("2");
        reveal_strlit("3");
        reveal_strlit("4");
        reveal_strlit("5");
        reveal_strlit("6");
        reveal_strlit("7");
        reveal_strlit("8");
        reveal_strlit("9");
    }
    match d {
        0 => "0",
        1 => "1",
        2 => "2",
        3 => "3",
        4 => "4",
        5 => "5",
        6 => "6",
        7 => "7",
        8 => "8",
        _ => "9",
    }
}

/// Returns the decimal notation of `amount`.
pub fn amount_text(amount: AssetBalance) -> (text: String)
    ensures
        text@ == decimal_text(amount as nat),
    decreases amount,
{
    if amount < 10 {
        digit_text(amount as u8).to_owned()
    } else {
        let mut text = amount_text(amount / 10);
        text.append(digit_text((amount % 10) as u8));
        assert(text@ =~= decimal_text(amount as nat));
        text
    }
}

/// Reading digits from left to right, ten times what was read plus the next digit, gives the number
/// that they stand for. `read` is that step.
pub(crate) proof fn lemma_reading_digits(text: Seq<char>, read: spec_fn(int, char) -> int)
    requires
        forall|n: int, c: char| #[trigger] read(n, c) == n * 10 + (c as int - '0' as int),
        forall|i: int| 0 <= i < text.len() ==> '0' <= #[trigger] text[i] <= '9',
    ensures
        text.fold_left(0int, read) == decimal_value(text),
    decreases text.len(),
{
    if text.len() > 0 {
        let rest = text.drop_last();
        assert forall|i: int| 0 <= i < rest.len() implies '0' <= #[trigger] rest[i] <= '9' by {
            assert(rest[i] == text[i]);
        }
        lemma_reading_digits(rest, read);
        assert('0' <= text[text.len() - 1] <= '9');
    }
}

/// The text of an amount consists of digits alone, has a leading zero only where it is that single
/// zero, and read from left to right gives the amount.
pub proof fn law_amount_text_is_decimal(amount: AssetBalance, text: String)
    requires
        call_ensures(amount_text, (amount,), text),
    ensures
        text@.len() >= 1,
        forall|i: int| 0 <= i < text@.len() ==> '0' <= #[trigger] text@[i] <= '9',
        text@[0] == '0' ==> text@.len() == 1,
        text@.fold_left(0int, |n: int, c: char| n * 10 + (c as int - '0' as int)) == amount,
{
    law_decimal_text_reads_back(amount as nat);
    lemma_reading_digits(text@, |n: int, c: char| n * 10 + (c as int - '0' as int));
}

} // verus!
