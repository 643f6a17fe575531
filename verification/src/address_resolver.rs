use vstd::prelude::*;
use vstd::string::StringExecFns;

verus! {

/// The character of a decimal digit.
pub open spec fn digit_char(digit: nat) -> char {
    if digit == 0 {
        '0'
    } else if digit == 1 {
        '1'
    } else if digit == 2 {
        '2'
    } else if digit == 3 {
        '3'
    } else if digit == 4 {
        '4'
    } else if digit == 5 {
        '5'
    } else if digit == 6 {
        '6'
    } else if digit == 7 {
        '7'
    } else if digit == 8 {
        '8'
    } else {
        '9'
    }
}

/// A number written in decimal, without leading zeros.
pub open spec fn decimal(n: nat) -> Seq<char>
    decreases n,
{
    if n < 10 {
        seq![digit_char(n)]
    } else {
        decimal(n / 10).push(digit_char(n % 10))
    }
}

/// The text of one decimal digit.
fn digit_text(digit: usize) -> (text: &'static str)
    requires
        digit < 10,
    ensures
        text@ == seq![digit_char(digit as nat)],
{
    proof {
        reveal_strlit("0");
        reveal_strlit("1");
        reveal_strlit("2");
        reveal_strlit("3");
        reveal_strlit("4");
        reveal_strlit("5");
        reveal_strlit("6");
        reveal_strlit("7");
        reveal_strlit("8");
        reveal_strlit("9");
    }
    let text = if digit == 0 {
        "0"
    } else if digit == 1 {
        "1"
    } else if digit == 2 {
        "2"
    } else if digit == 3 {
        "3"
    } else if digit == 4 {
        "4"
    } else if digit == 5 {
        "5"
    } else if digit == 6 {
        "6"
    } else if digit == 7 {
        "7"
    } else if digit == 8 {
        "8"
    } else {
        "9"
    };
    assert(text@ =~= seq![digit_char(digit as nat)]);
    text
}

/// Writes a number in decimal.
pub fn decimal_string(n: usize) -> (text: String)
    ensures
        text@ == decimal(n as nat),
    decreases n,
{
    if n < 10 {
        String::from_str(digit_text(n))
    } else {
        let mut text = decimal_string(n / 10);
        text.append(digit_text(n % 10));
        assert(text@ =~= decimal((n / 10) as nat).push(digit_char((n % 10) as nat)));
        text
    }
}

/// The port on which site `id` listens for its coffee makers: 20000 + id.
pub fn id_to_coffee_port(id: usize) -> (port: String)
    requires
        id + 20000 <= usize::MAX,
    ensures
        port@ == decimal((id + 20000) as nat),
{
    decimal_string(id + 20000)
}

/// The port on which site `id` listens for the previous site of the ring:
/// 10000 + id.
pub fn id_to_server_port(id: usize) -> (port: String)
    requires
        id + 10000 <= usize::MAX,
    ensures
        port@ == decimal((id + 10000) as nat),
{
    decimal_string(id + 10000)
}

/// The address of site `id` on the ring: the local host, at port
/// 10000 + id.
pub fn id_to_address(id: usize) -> (address: String)
    requires
        id + 10000 <= usize::MAX,
    ensures
        address@ == "127.0.0.1:"@ + decimal((id + 10000) as nat),
{
    let port = decimal_string(id + 10000);
    let mut address = String::from_str("127.0.0.1:");
    address.append(port.as_str());
    address
}

} // verus!
