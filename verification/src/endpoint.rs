//! How the target of a connection is written: the address to connect to, and
//! the name under which a connection is known.

use vstd::prelude::*;

verus! {

/// The character of a decimal digit.
pub open spec fn digit(d: nat) -> char {
    if d == 0 {
        '0'
    } else if d == 1 {
        '1'
    } else if d == 2 {
        '2'
    } else if d == 3 {
        '3'
    } else if d == 4 {
        '4'
    } else if d == 5 {
        '5'
    } else if d == 6 {
        '6'
    } else if d == 7 {
        '7'
    } else if d == 8 {
        '8'
    } else {
        '9'
    }
}

/// A number in decimal, without leading zeros.
pub open spec fn decimal(n: nat) -> Seq<char>
    decreases n,
{
    if n < 10 {
        seq![digit(n)]
    } else {
        decimal(n / 10).push(digit(n % 10))
    }
}

/// `host:port`, the address that the socket connects to.
pub open spec fn address_of(host: Seq<char>, port: u16) -> Seq<char> {
    host + seq![':'] + decimal(port as nat)
}

/// `callsign@host:port`, the name of a connection.
pub open spec fn name_of(callsign: Seq<char>, host: Seq<char>, port: u16) -> Seq<char> {
    callsign + seq!['@'] + address_of(host, port)
}

/// One decimal digit as text.
fn digit_text(d: u16) -> (text: &'static str)
    requires
        d < 10,
    ensures
        text@ == seq![digit(d as nat)],
{
    proof {
        reveal_strlit("0");
        reveal_strlit("1");
        reveal_strlit("2");
        reveal_strlit("3");
        reveal_strlit("4");
        reveal_strlit("5");
        reveal_strlit("6");
        reveal_strlit("7");
        reveal_strlit("8");
        reveal_strlit("9");
    }
    let text = if d == 0 {
        "0"
    } else if d == 1 {
        "1"
    } else if d == 2 {
        "2"
    } else if d == 3 {
        "3"
    } else if d == 4 {
        "4"
    } else if d == 5 {
        "5"
    } else if d == 6 {
        "6"
    } else if d == 7 {
        "7"
    } else if d == 8 {
        "8"
    } else {
        "9"
    };
    assert(text@ =~= seq![digit(d as nat)]);
    text
}

/// A port number in decimal.
fn decimal_text(n: u16) -> (text: String)
    ensures
        text@ == decimal(n as nat),
    decreases n,
{
    if n < 10 {
        String::from_str(digit_text(n))
    } else {
        let mut text = decimal_text(n / 10);
        text.append(digit_text(n % 10));
        assert(text@ =~= decimal(n as nat));
        text
    }
}

/// The address to connect to: the host, a colon and the port in decimal.
pub fn address(host: &str, port: u16) -> (text: String)
    ensures
        text@ == address_of(host@, port),
{
    proof {
        reveal_strlit(":");
    }
    let mut text = String::from_str(host);
    text.append(":");
    text.append(decimal_text(port).as_str());
    assert(text@ =~= address_of(host@, port));
    text
}

/// The name of a connection: the callsign, an at sign and the address.
pub fn name(callsign: &str, host: &str, port: u16) -> (text: String)
    ensures
        text@ == name_of(callsign@, host@, port),
{
    proof {
        reveal_strlit("@");
    }
    let mut text = String::from_str(callsign);
    text.append("@");
    text.append(address(host, port).as_str());
    assert(text@ =~= name_of(callsign@, host@, port));
    text
}

} // verus!
