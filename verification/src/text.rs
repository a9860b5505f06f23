//! Numbers and addresses as text.
use vstd::prelude::*;
use vstd::string::StringExecFns;

verus! {

/// The character of a decimal digit, as text.
pub open spec fn digit(d: nat) -> Seq<char>
    recommends
        d < 10,
{
    if d == 0 {
        "0"@
    } else if d == 1 {
        "1"@
    } else if d == 2 {
        "2"@
    } else if d == 3 {
        "3"@
    } else if d == 4 {
        "4"@
    } else if d == 5 {
        "5"@
    } else if d == 6 {
        "6"@
    } else if d == 7 {
        "7"@
    } else if d == 8 {
        "8"@
    } else {
        "9"@
    }
}

/// A number in decimal, without leading zeros.
pub open spec fn decimal_text(n: nat) -> Seq<char>
    decreases n,
{
    if n < 10 {
        digit(n)
    } else {
        decimal_text(n / 10) + digit(n % 10)
    }
}

/// An IPv4 address: its four bytes in decimal, with dots in between.
pub open spec fn address_text(ip: [u8; 4]) -> Seq<char> {
    decimal_text(ip@[0] as nat) + "."@ + decimal_text(ip@[1] as nat) + "."@ + decimal_text(
        ip@[2] as nat,
    ) + "."@ + decimal_text(ip@[3] as nat)
}

/// The digit of a number below ten.
fn digit_text(d: u64) -> (text: &'static str)
    requires
        d < 10,
    ensures
        text@ == digit(d as nat),
{
    if d == 0 {
        "0"
    } else if d == 1 {
        "1"
    } else if d == 2 {
        "2"
    } else if d == 3 {
        "3"
    } else if d == 4 {
        "4"
    } else if d == 5 {
        "5"
    } else if d == 6 {
        "6"
    } else if d == 7 {
        "7"
    } else if d == 8 {
        "8"
    } else {
        "9"
    }
}

/// A number in decimal.
pub fn decimal(n: u64) -> (text: String)
    ensures
        text@ == decimal_text(n as nat),
    decreases n,
{
    if n < 10 {
        digit_text(n).to_string()
    } else {
        let mut text = decimal(n / 10);
        text.append(digit_text(n % 10));
        text
    }
}

/// An IPv4 address in dotted decimal.
pub fn address(ip: [u8; 4]) -> (text: String)
    ensures
        text@ == address_text(ip),
{
    let mut text = decimal(ip[0] as u64);
    text.append(".");
    text.append(decimal(ip[1] as u64).as_str());
    text.append(".");
    text.append(decimal(ip[2] as u64).as_str());
    text.append(".");
    text.append(decimal(ip[3] as u64).as_str());
    text
}

/// Two texts, one behind the other.
pub fn joined(front: &str, back: &str) -> (text: String)
    ensures
        text@ == front@ + back@,
{
    let mut text = front.to_string();
    text.append(back);
    text
}

/// The number that decimal digits stand for.
pub open spec fn number_of(digits: Seq<char>) -> nat
    decreases digits.len(),
{
    if digits.len() == 0 {
        0
    } else {
        10 * number_of(digits.drop_last()) + (digits.last() as nat - '0' as nat) as nat
    }
}

/// The decimal text of a number reads back as that number, so different numbers
/// have different texts.
pub proof fn decimal_reads_back(n: nat)
    ensures
        decimal_text(n).len() > 0,
        number_of(decimal_text(n)) == n,
    decreases n,
{
    reveal_strlit("0");
    reveal_strlit("1");
    reveal_strlit("2");
    reveal_strlit("3");
    reveal_strlit("4");
    reveal_strlit("5");
    reveal_strlit("6");
    reveal_strlit("7");
    reveal_strlit("8");
    reveal_strlit("9");
    let last = n % 10;
    assert(digit(last).len() == 1);
    assert(digit(last)[0] as nat == '0' as nat + last);
    if n < 10 {
        assert(digit(n).drop_last() =~= Seq::<char>::empty());
        assert(number_of(Seq::<char>::empty()) == 0);
    } else {
        decimal_reads_back(n / 10);
        assert(decimal_text(n).drop_last() =~= decimal_text(n / 10));
        assert(decimal_text(n).last() == digit(last)[0]);
    }
}

/// Whether a character is a decimal digit.
pub open spec fn is_digit(c: char) -> bool {
    '0' <= c <= '9'
}

/// The decimal text of a number is made of digits alone, and begins with a zero only
/// where it is a single digit.
pub proof fn decimals_are_digits(n: nat)
    ensures
        forall|i: int| 0 <= i < decimal_text(n).len() ==> is_digit(#[trigger] decimal_text(n)[i]),
        decimal_text(n).len() > 0,
        decimal_text(n)[0] == '0' ==> decimal_text(n).len() == 1,
        decimal_text(n).len() == 1 <==> n < 10,
    decreases n,
{
    reveal_strlit("0");
    reveal_strlit("1");
    reveal_strlit("2");
    reveal_strlit("3");
    reveal_strlit("4");
    reveal_strlit("5");
    reveal_strlit("6");
    reveal_strlit("7");
    reveal_strlit("8");
    reveal_strlit("9");
    assert(digit(n % 10).len() == 1);
    assert(is_digit(digit(n % 10)[0]));
    if n >= 10 {
        let front = n / 10;
        decimals_are_digits(front);
        assert(decimal_text(n) =~= decimal_text(front) + digit(n % 10));
        assert(decimal_text(n)[0] == decimal_text(front)[0]);
        if front < 10 {
            assert(front % 10 == front);
            assert(digit(front)[0] == '0' ==> front == 0);
        }
    }
}

/// An address is shown as its four bytes in decimal with dots in between.
pub proof fn addresses_are_dotted(ip: [u8; 4])
    ensures
        address_text(ip) == decimal_text(ip@[0] as nat) + "."@ + decimal_text(ip@[1] as nat) + "."@
            + decimal_text(ip@[2] as nat) + "."@ + decimal_text(ip@[3] as nat),
{
}

} // verus!
