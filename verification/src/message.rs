//! The textual response bodies built from plain values: the counter report
//! `"Request number: {value}"` and the greeting `"Hello {app_name}!"`.

use vstd::prelude::*;

verus! {

/// The decimal digit character for `d`.
pub open spec fn digit_char(d: nat) -> char {
    if d == 0 {
        '0'
    } else if d == 1 {
        '1'
    } else if d == 2 {
        '2'
    } else if d == 3 {
        '3'
    } else if d == 4 {
        '4'
    } else if d == 5 {
        '5'
    } else if d == 6 {
        '6'
    } else if d == 7 {
        '7'
    } else if d == 8 {
        '8'
    } else {
        '9'
    }
}

/// The decimal rendering of `n`: most significant digit first, no sign, no
/// leading zeros (except for `n == 0`, rendered as the single digit `0`).
pub open spec fn spec_decimal(n: nat) -> Seq<char>
    decreases n,
{
    if n < 10 {
        seq![digit_char(n)]
    } else {
        spec_decimal(n / 10).push(digit_char(n % 10))
    }
}

/// Appends the single decimal digit `d` to `s`.
fn append_digit(s: &mut String, d: u64)
    requires
        d < 10,
    ensures
        final(s)@ == old(s)@.push(digit_char(d as nat)),
{
    if d == 0 {
        s.append("0");
        proof {
            reveal_strlit("0");
        }
    } else if d == 1 {
        s.append("1");
        proof {
            reveal_strlit("1");
        }
    } else if d == 2 {
        s.append("2");
        proof {
            reveal_strlit("2");
        }
    } else if d == 3 {
        s.append("3");
        proof {
            reveal_strlit("3");
        }
    } else if d == 4 {
        s.append("4");
        proof {
            reveal_strlit("4");
        }
    } else if d == 5 {
        s.append("5");
        proof {
            reveal_strlit("5");
        }
    } else if d == 6 {
        s.append("6");
        proof {
            reveal_strlit("6");
        }
    } else if d == 7 {
        s.append("7");
        proof {
            reveal_strlit("7");
        }
    } else if d == 8 {
        s.append("8");
        proof {
            reveal_strlit("8");
        }
    } else {
        s.append("9");
        proof {
            reveal_strlit("9");
        }
    }
}

/// Appends the decimal rendering of `n` to `s`.
fn append_decimal(s: &mut String, n: u64)
    ensures
        final(s)@ == old(s)@ + spec_decimal(n as nat),
    decreases n,
{
    if n >= 10 {
        append_decimal(s, n / 10);
        append_digit(s, n % 10);
    } else {
        append_digit(s, n);
    }
}

/// The body of the counter-reporting response for the tally `value`.
pub open spec fn spec_request_number_message(value: nat) -> Seq<char> {
    "Request number: "@ + spec_decimal(value)
}

/// Renders the counter-reporting response body, `"Request number: {value}"`.
/// The tally never goes below zero, so no sign is rendered.
pub fn request_number_message(value: i64) -> (r: String)
    requires
        value >= 0,
    ensures
        r@ == spec_request_number_message(value as nat),
{
    let mut s = String::from_str("Request number: ");
    append_decimal(&mut s, value as u64);
    s
}

/// The body of the greeting response for the application name `app_name`.
pub open spec fn spec_hello_message(app_name: Seq<char>) -> Seq<char> {
    "Hello "@ + app_name + "!"@
}

/// Renders the greeting response body, `"Hello {app_name}!"`.
pub fn hello_message(app_name: &str) -> (r: String)
    ensures
        r@ == spec_hello_message(app_name@),
{
    let mut s = String::from_str("Hello ");
    s.append(app_name);
    s.append("!");
    s
}

} // verus!
