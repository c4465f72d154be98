//! Base58 notation of addresses.

use vstd::prelude::*;

verus! {

/// The character for the digit `d` of base 58: the digits without zero, the capital letters
/// without I and O, and the small letters without l, in this order.
pub open spec fn base58_char(d: nat) -> char
    recommends
        d < 58,
{
    if d < 9 {
        ('1' as nat + d) as char
    } else if d < 17 {
        ('A' as nat + (d - 9)) as char
    } else if d < 22 {
        ('J' as nat + (d - 17)) as char
    } else if d < 33 {
        ('P' as nat + (d - 22)) as char
    } else if d < 44 {
        ('a' as nat + (d - 33)) as char
    } else {
        ('m' as nat + (d - 44)) as char
    }
}

/// The digits of `n` in base 58, the most significant first. Zero has none.
pub open spec fn base58_digits(n: nat) -> Seq<char>
    decreases n,
{
    if n == 0 {
        Seq::empty()
    } else {
        base58_digits(n / 58).push(base58_char(n % 58))
    }
}

/// The number that `data` stands for, the most significant byte first.
pub open spec fn big_endian(data: Seq<u8>) -> nat
    decreases data.len(),
{
    if data.len() == 0 {
        0
    } else {
        big_endian(data.drop_last()) * 256 + data.last() as nat
    }
}

/// How many zero bytes `data` starts with.
pub open spec fn leading_zeros(data: Seq<u8>) -> nat
    decreases data.len(),
{
    if data.len() == 0 || data[0] != 0 {
        0
    } else {
        1 + leading_zeros(data.drop_first())
    }
}

/// The Base58 notation of `data`: a `1` for each leading zero byte, and the digits of the number
/// that `data` stands for.
pub open spec fn base58_text(data: Seq<u8>) -> Seq<char> {
    Seq::new(leading_zeros(data), |i: int| '1') + base58_digits(big_endian(data))
}

/// Calls `bs58::encode` with its default settings, which are Bitcoin's alphabet and no checksum,
/// and `into_string` on the builder that it returns. The contract claims that the text is the
/// Base58 notation of the bytes.
#[verifier::external_body]
pub(crate) fn base58_encode(data: &Vec<u8>) -> (text: String)
    ensures
        text@ == base58_text(data@),
{
    bs58::encode(data).into_string()
}

/// Different digits have different characters.
proof fn lemma_base58_char_is_injective(a: nat, b: nat)
    requires
        a < 58,
        b < 58,
        base58_char(a) == base58_char(b),
    ensures
        a == b,
{
    assert(base58_char(a) as nat == base58_char(b) as nat);
}

/// The digits of a positive number start with a digit other than zero.
proof fn lemma_base58_digits_start(n: nat)
    requires
        n > 0,
    ensures
        base58_digits(n).len() > 0,
        base58_digits(n)[0] != '1',
    decreases n,
{
    if n < 58 {
        assert(base58_digits(n / 58) =~= Seq::<char>::empty());
        assert(base58_digits(n)[0] == base58_char(n));
        if base58_char(n) == '1' {
            lemma_base58_char_is_injective(n, 0);
        }
    } else {
        lemma_base58_digits_start(n / 58);
        assert(base58_digits(n)[0] == base58_digits(n / 58)[0]);
    }
}

/// Different numbers have different digits.
proof fn lemma_base58_digits_are_injective(a: nat, b: nat)
    requires
        base58_digits(a) == base58_digits(b),
    ensures
        a == b,
    decreases a,
{
    if a == 0 || b == 0 {
        if a > 0 {
            lemma_base58_digits_start(a);
        }
        if b > 0 {
            lemma_base58_digits_start(b);
        }
    } else {
        assert(base58_digits(a).drop_last() =~= base58_digits(a / 58));
        assert(base58_digits(b).drop_last() =~= base58_digits(b / 58));
        assert(base58_digits(a).last() == base58_char(a % 58));
        assert(base58_digits(b).last() == base58_char(b % 58));
        lemma_base58_digits_are_injective(a / 58, b / 58);
        lemma_base58_char_is_injective(a % 58, b % 58);
    }
}

/// The bytes of `data` up to `leading_zeros` are zero, and the next one, if any, is not.
proof fn lemma_leading_zeros(data: Seq<u8>)
    ensures
        leading_zeros(data) <= data.len(),
        forall|i: int| 0 <= i < leading_zeros(data) ==> data[i] == 0,
        leading_zeros(data) < data.len() ==> data[leading_zeros(data) as int] != 0,
    decreases data.len(),
{
    if data.len() > 0 && data[0] == 0 {
        let rest = data.drop_first();
        lemma_leading_zeros(rest);
        assert forall|i: int| 0 <= i < leading_zeros(data) implies data[i] == 0 by {
            if i > 0 {
                assert(data[i] == rest[i - 1]);
            }
        }
        if leading_zeros(data) < data.len() {
            assert(data[leading_zeros(data) as int] == rest[leading_zeros(rest) as int]);
        }
    }
}

/// Zero bytes stand for zero.
proof fn lemma_big_endian_of_zeros(data: Seq<u8>)
    requires
        forall|i: int| 0 <= i < data.len() ==> data[i] == 0,
    ensures
        big_endian(data) == 0,
    decreases data.len(),
{
    if data.len() > 0 {
        lemma_big_endian_of_zeros(data.drop_last());
    }
}

/// Bytes with one that is not zero stand for a number other than zero.
proof fn lemma_nonzero_byte(data: Seq<u8>, i: int)
    requires
        0 <= i < data.len(),
        data[i] != 0,
    ensures
        big_endian(data) > 0,
    decreases data.len(),
{
    if i < data.len() - 1 {
        lemma_nonzero_byte(data.drop_last(), i);
    }
}

/// Bytes that stand for zero are all zero.
proof fn lemma_zero_has_only_zeros(data: Seq<u8>)
    requires
        big_endian(data) == 0,
    ensures
        leading_zeros(data) == data.len(),
    decreases data.len(),
{
    lemma_leading_zeros(data);
    if leading_zeros(data) < data.len() {
        lemma_nonzero_byte(data, leading_zeros(data) as int);
    }
}

/// Dropping the last byte keeps the leading zero bytes, unless all bytes are zero.
proof fn lemma_leading_zeros_of_prefix(data: Seq<u8>)
    requires
        leading_zeros(data) < data.len(),
    ensures
        leading_zeros(data.drop_last()) == leading_zeros(data),
    decreases data.len(),
{
    if data[0] == 0 {
        assert(data.drop_last().drop_first() =~= data.drop_first().drop_last());
        lemma_leading_zeros_of_prefix(data.drop_first());
    }
}

/// Bytes with equally many leading zero bytes that stand for the same number are the same.
proof fn lemma_big_endian_is_injective(a: Seq<u8>, b: Seq<u8>)
    requires
        leading_zeros(a) == leading_zeros(b),
        big_endian(a) == big_endian(b),
    ensures
        a == b,
    decreases a.len(),
{
    let k = leading_zeros(a);
    lemma_leading_zeros(a);
    lemma_leading_zeros(b);
    if k == a.len() || k == b.len() {
        if k == a.len() {
            lemma_big_endian_of_zeros(a);
        } else {
            lemma_big_endian_of_zeros(b);
        }
        lemma_zero_has_only_zeros(a);
        lemma_zero_has_only_zeros(b);
        assert(a =~= b);
    } else {
        let x = a.drop_last();
        let y = b.drop_last();
        assert(big_endian(x) == big_endian(y) && a.last() == b.last());
        lemma_leading_zeros_of_prefix(a);
        lemma_leading_zeros_of_prefix(b);
        lemma_big_endian_is_injective(x, y);
        assert(a =~= x.push(a.last()));
        assert(b =~= y.push(b.last()));
    }
}

/// Different addresses are written differently.
pub proof fn law_base58_text_is_injective(a: Seq<u8>, b: Seq<u8>)
    requires
        base58_text(a) == base58_text(b),
    ensures
        a == b,
{
    let text = base58_text(a);
    let (j, k) = (leading_zeros(a), leading_zeros(b));
    let (x, y) = (base58_digits(big_endian(a)), base58_digits(big_endian(b)));
    if big_endian(a) > 0 {
        lemma_base58_digits_start(big_endian(a));
        assert(text[j as int] == x[0]);
    }
    if big_endian(b) > 0 {
        lemma_base58_digits_start(big_endian(b));
        assert(base58_text(b)[k as int] == y[0]);
    }
    assert(j == k);
    assert(x =~= text.subrange(j as int, text.len() as int));
    assert(y =~= text.subrange(k as int, text.len() as int));
    lemma_base58_digits_are_injective(big_endian(a), big_endian(b));
    lemma_big_endian_is_injective(a, b);
}

/// Reading leading `1`s and the digits of `n` from left to right gives `n`. `read` is the step of a
/// reading in base 58.
proof fn lemma_reading_base58(zeros: nat, n: nat, read: spec_fn(int, char) -> int)
    requires
        forall|m: int, d: nat|
            d < 58 ==> #[trigger] read(m, base58_char(d)) == m * 58 + d,
    ensures
        (Seq::new(zeros, |i: int| '1') + base58_digits(n)).fold_left(0int, read) == n,
    decreases n, zeros,
{
    let ones = Seq::new(zeros, |i: int| '1');
    let text = ones + base58_digits(n);
    if n > 0 {
        lemma_reading_base58(zeros, n / 58, read);
        assert(text.drop_last() =~= ones + base58_digits(n / 58));
        assert(text.last() == base58_char(n % 58));
        assert(read((n / 58) as int, base58_char(n % 58)) == (n / 58) * 58 + n % 58);
    } else if zeros > 0 {
        lemma_reading_base58((zeros - 1) as nat, 0, read);
        assert(text.drop_last() =~= Seq::new((zeros - 1) as nat, |i: int| '1') + base58_digits(0));
        assert(text.last() == base58_char(0));
        assert(read(0, base58_char(0)) == 0);
    }
}

/// Reading bytes from left to right gives the number that they stand for. `read` is the step of a
/// reading in base 256.
proof fn lemma_reading_bytes(data: Seq<u8>, read: spec_fn(int, u8) -> int)
    requires
        forall|m: int, b: u8| #[trigger] read(m, b) == m * 256 + b,
    ensures
        data.fold_left(0int, read) == big_endian(data),
    decreases data.len(),
{
    if data.len() > 0 {
        lemma_reading_bytes(data.drop_last(), read);
    }
}

/// The digits of a number are letters and digits other than `0`, `I`, `O` and `l`.
proof fn lemma_base58_digits_are_of_alphabet(n: nat, i: int)
    requires
        0 <= i < base58_digits(n).len(),
    ensures
        ({
            let c = base58_digits(n)[i];
            ||| '1' <= c <= '9'
            ||| 'A' <= c <= 'Z' && c != 'I' && c != 'O'
            ||| 'a' <= c <= 'z' && c != 'l'
        }),
    decreases n,
{
    if i < base58_digits(n).len() - 1 {
        lemma_base58_digits_are_of_alphabet(n / 58, i);
    }
}

/// The notation of bytes that start with exactly `zeros` zero bytes starts with exactly as many
/// `1`s. It consists of letters and digits other than `0`, `I`, `O` and `l`, and read from left to
/// right in base 58 it gives the number that the bytes, read from left to right in base 256, give.
pub proof fn law_base58_text_reads_back(data: Seq<u8>, zeros: int)
    requires
        0 <= zeros <= data.len(),
        forall|i: int| 0 <= i < zeros ==> data[i] == 0,
        zeros < data.len() ==> data[zeros] != 0,
    ensures
        zeros <= base58_text(data).len(),
        forall|i: int| 0 <= i < zeros ==> base58_text(data)[i] == '1',
        zeros < base58_text(data).len() ==> base58_text(data)[zeros] != '1',
        zeros == data.len() <==> zeros == base58_text(data).len(),
        forall|i: int|
            0 <= i < base58_text(data).len() ==> {
                let c = #[trigger] base58_text(data)[i];
                ||| '1' <= c <= '9'
                ||| 'A' <= c <= 'Z' && c != 'I' && c != 'O'
                ||| 'a' <= c <= 'z' && c != 'l'
            },
        base58_text(data).fold_left(
            0int,
            |n: int, c: char|
                n * 58 + (if '1' <= c <= '9' {
                    c as int - '1' as int
                } else if 'A' <= c <= 'H' {
                    c as int - 'A' as int + 9
                } else if 'J' <= c <= 'N' {
                    c as int - 'J' as int + 17
                } else if 'P' <= c <= 'Z' {
                    c as int - 'P' as int + 22
                } else if 'a' <= c <= 'k' {
                    c as int - 'a' as int + 33
                } else {
                    c as int - 'm' as int + 44
                }),
        ) == data.fold_left(0int, |n: int, b: u8| n * 256 + b),
{
    lemma_leading_zeros(data);
    assert(leading_zeros(data) == zeros) by {
        if leading_zeros(data) < zeros {
            assert(data[leading_zeros(data) as int] == 0);
        }
    }
    let text = base58_text(data);
    let number = big_endian(data);
    if number > 0 {
        lemma_base58_digits_start(number);
        assert(text[zeros] == base58_digits(number)[0]);
    } else {
        lemma_zero_has_only_zeros(data);
    }
    if zeros < data.len() {
        lemma_nonzero_byte(data, zeros);
    } else {
        lemma_big_endian_of_zeros(data);
    }
    assert forall|i: int| 0 <= i < text.len() implies {
        let c = #[trigger] text[i];
        ||| '1' <= c <= '9'
        ||| 'A' <= c <= 'Z' && c != 'I' && c != 'O'
        ||| 'a' <= c <= 'z' && c != 'l'
    } by {
        if i >= zeros {
            lemma_base58_digits_are_of_alphabet(number, i - zeros);
            assert(text[i] == base58_digits(number)[i - zeros]);
        }
    }
    let read = |n: int, c: char|
        n * 58 + (if '1' <= c <= '9' {
            c as int - '1' as int
        } else if 'A' <= c <= 'H' {
            c as int - 'A' as int + 9
        } else if 'J' <= c <= 'N' {
            c as int - 'J' as int + 17
        } else if 'P' <= c <= 'Z' {
            c as int - 'P' as int + 22
        } else if 'a' <= c <= 'k' {
            c as int - 'a' as int + 33
        } else {
            c as int - 'm' as int + 44
        });
    lemma_reading_base58(leading_zeros(data), number, read);
    lemma_reading_bytes(data, |n: int, b: u8| n * 256 + b);
}

} // verus!
