//! The message printed when the server comes up.

use vstd::prelude::*;
use vstd::string::*;

verus! {

/// The digit character of a value below ten.
pub open spec fn decimal_digit(d: int) -> char {
    if d == 0 {
        '0'
    } else if d == 1 {
        '1'
    } else if d == 2 {
        '2'
    } else if d == 3 {
        '3'
    } else if d == 4 {
        '4'
    } else if d == 5 {
        '5'
    } else if d == 6 {
        '6'
    } else if d == 7 {
        '7'
    } else if d == 8 {
        '8'
    } else {
        '9'
    }
}

/// The decimal rendering of a non-negative number, most significant digit
/// first and without leading zeroes.
pub open spec fn decimal_of(n: int) -> Seq<char>
    decreases n,
{
    if n < 10 {
        seq![decimal_digit(n)]
    } else {
        decimal_of(n / 10).push(decimal_digit(n % 10))
    }
}

fn digit_str(d: u16) -> (r: &'static str)
    requires
        d < 10,
    ensures
        r@ == seq![decimal_digit(d as int)],
{
    let r = match d {
        0 => "0",
        1 => "1",
        2 => "2",
        3 => "3",
        4 => "4",
        5 => "5",
        6 => "6",
        7 => "7",
        8 => "8",
        _ => "9",
    };
    proof {
        reveal_strlit("0");
        reveal_strlit("1");
        reveal_strlit("2");
        reveal_strlit("3");
        reveal_strlit("4");
        reveal_strlit("5");
        reveal_strlit("6");
        reveal_strlit("7");
        reveal_strlit("8");
        reveal_strlit("9");
        assert(r@ =~= seq![decimal_digit(d as int)]);
    }
    r
}

/// Renders a port number in decimal.
pub fn u16_to_decimal(n: u16) -> (r: String)
    ensures
        r@ == decimal_of(n as int),
    decreases n,
{
    if n < 10 {
        digit_str(n).to_owned()
    } else {
        let mut r = u16_to_decimal(n / 10);
        r.append(digit_str(n % 10));
        proof {
            assert(decimal_of((n / 10) as int) + seq![decimal_digit((n % 10) as int)]
                =~= decimal_of(n as int));
        }
        r
    }
}

/// What the startup line says for a bound address and a working root.
pub open spec fn startup_message_spec(
    host: Seq<char>,
    port: int,
    workdir: Seq<char>,
) -> Seq<char> {
    "Agentrix server listening on http://"@ + host + ":"@ + decimal_of(port) + " (workdir: "@
        + workdir + ")"@
}

/// Formats the startup line for a bound address and a working root.
pub fn format_startup_message(host: &str, port: u16, workdir: &str) -> (r: String)
    ensures
        r@ == startup_message_spec(host@, port as int, workdir@),
{
    let mut r = "Agentrix server listening on http://".to_owned();
    r.append(host);
    r.append(":");
    r.append(u16_to_decimal(port).as_str());
    r.append(" (workdir: ");
    r.append(workdir);
    r.append(")");
    proof {
        assert(r@ =~= startup_message_spec(host@, port as int, workdir@));
    }
    r
}

} // verus!
