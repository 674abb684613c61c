//! What numbers look like as text, and how they are read back.
use vstd::prelude::*;
use vstd::string::*;

use crate::digest::{hex_digit, hex_text};
use crate::ids::{id_digits, low_digits};
use crate::numbers::decimal;

verus! {

/// The number that a decimal digit stands for.
pub open spec fn digit_value(c: char) -> int {
    c as int - '0' as int
}

/// The number that decimal digits stand for.
pub open spec fn decimal_value(s: Seq<char>) -> int
    decreases s.len(),
{
    if s.len() == 0 {
        0
    } else {
        decimal_value(s.drop_last()) * 10 + digit_value(s.last())
    }
}

/// A number is written with decimal digits, without leading zeros, and read back as itself.
pub proof fn numbers_are_read_back(n: nat)
    ensures
        decimal_value(decimal(n)) == n,
        decimal(n).len() > 0,
        forall|i: int| 0 <= i < decimal(n).len() ==> '0' <= #[trigger] decimal(n)[i] <= '9',
        n > 0 ==> decimal(n)[0] != '0',
        n < 10 ==> decimal(n).len() == 1,
    decreases n,
{
    let s = decimal(n);
    if n < 10 {
        assert(s.drop_last() =~= Seq::<char>::empty());
        assert(decimal_value(s.drop_last()) == 0);
    } else {
        numbers_are_read_back(n / 10);
        let front = decimal(n / 10);
        assert(s.drop_last() =~= front);
        assert(s[0] == front[0]);
        assert forall|i: int| 0 <= i < s.len() implies '0' <= #[trigger] s[i] <= '9' by {
            if i < front.len() {
                assert(s[i] == front[i]);
            }
        }
    }
}

/// The number that a hexadecimal digit in lower case stands for.
pub open spec fn hex_value(c: char) -> int {
    if c <= '9' {
        c as int - '0' as int
    } else {
        c as int - 'a' as int + 10
    }
}

/// The number that hexadecimal digits stand for.
pub open spec fn hex_number(s: Seq<char>) -> int
    decreases s.len(),
{
    if s.len() == 0 {
        0
    } else {
        hex_number(s.drop_last()) * 16 + hex_value(s.last())
    }
}

/// Whether a character is a hexadecimal digit in lower case.
pub open spec fn is_lower_hex(c: char) -> bool {
    '0' <= c <= '9' || 'a' <= c <= 'f'
}

proof fn lemma_hex_digit(value: nat)
    requires
        value < 16,
    ensures
        hex_value(hex_digit(value)) == value,
        is_lower_hex(hex_digit(value)),
{
}

spec fn power16(n: nat) -> nat
    decreases n,
{
    if n == 0 {
        1
    } else {
        power16((n - 1) as nat) * 16
    }
}

proof fn lemma_low_digits(value: nat, count: nat)
    requires
        value < power16(count),
    ensures
        low_digits(value, count).len() == count,
        hex_number(low_digits(value, count)) == value,
        forall|i: int| 0 <= i < count ==> is_lower_hex(#[trigger] low_digits(value, count)[i]),
    decreases count,
{
    let s = low_digits(value, count);
    if count == 0 {
        assert(value == 0);
    } else {
        let front = low_digits(value / 16, (count - 1) as nat);
        lemma_low_digits(value / 16, (count - 1) as nat);
        lemma_hex_digit(value % 16);
        assert(s.drop_last() =~= front);
        assert forall|i: int| 0 <= i < count implies is_lower_hex(#[trigger] s[i]) by {
            if i < front.len() {
                assert(s[i] == front[i]);
            }
        }
    }
}

/// An identity is written as its hexadecimal digits in lower case, always as many, and is read
/// back as itself; so two identities are never written alike.
pub proof fn identities_are_read_back(value: u128, other: u128)
    ensures
        id_digits(value).len() == 32,
        hex_number(id_digits(value)) == value,
        forall|i: int| 0 <= i < 32 ==> is_lower_hex(#[trigger] id_digits(value)[i]),
        id_digits(value) == id_digits(other) ==> value == other,
{
    reveal_with_fuel(power16, 33);
    assert(power16(16) == 0x1_0000_0000_0000_0000);
    assert(power16(32) == 0x1_0000_0000_0000_0000 * 0x1_0000_0000_0000_0000);
    lemma_low_digits(value as nat, 32);
    lemma_low_digits(other as nat, 32);
}

/// Bytes are written with two hexadecimal digits each, the higher one first, and are read back
/// as themselves.
pub proof fn bytes_are_read_back(bytes: Seq<u8>)
    ensures
        hex_text(bytes).len() == 2 * bytes.len(),
        forall|i: int|
            0 <= i < bytes.len() ==> #[trigger] bytes[i] == hex_value(hex_text(bytes)[2 * i]) * 16
                + hex_value(hex_text(bytes)[2 * i + 1]),
        forall|i: int| 0 <= i < hex_text(bytes).len() ==> is_lower_hex(#[trigger] hex_text(bytes)[i]),
    decreases bytes.len(),
{
    let s = hex_text(bytes);
    if bytes.len() > 0 {
        let rest = bytes.drop_last();
        bytes_are_read_back(rest);
        let front = hex_text(rest);
        lemma_hex_digit((bytes.last() / 16) as nat);
        lemma_hex_digit((bytes.last() % 16) as nat);
        assert forall|i: int| 0 <= i < bytes.len() implies #[trigger] bytes[i] == hex_value(s[2 * i])
            * 16 + hex_value(s[2 * i + 1]) by {
            if i < rest.len() {
                assert(rest[i] == bytes[i]);
                assert(s[2 * i] == front[2 * i] && s[2 * i + 1] == front[2 * i + 1]);
            }
        }
        assert forall|i: int| 0 <= i < s.len() implies is_lower_hex(#[trigger] s[i]) by {
            if i < front.len() {
                assert(s[i] == front[i]);
            }
        }
    }
}

} // verus!
