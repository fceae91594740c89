//! Which status codes count as failures, and how a failure is worded.

use vstd::prelude::*;
use vstd::string::StringExecFns;

verus! {

/// A status of the client-error class, 400 to 499.
pub open spec fn is_client_error(status: u16) -> bool {
    400 <= status < 500
}

/// A status of the server-error class, 500 to 599.
pub open spec fn is_server_error(status: u16) -> bool {
    500 <= status < 600
}

/// A status that makes the request count as failed. Every other status,
/// redirections and unassigned numbers included, lets the answer through.
pub open spec fn is_error_status(status: u16) -> bool {
    is_client_error(status) || is_server_error(status)
}

/// Whether `status` makes the request count as failed.
pub fn status_is_error(status: u16) -> (failed: bool)
    ensures
        failed == is_error_status(status),
{
    400 <= status && status < 600
}

/// The character for a digit.
pub open spec fn digit_char(digit: nat) -> char {
    if digit == 0 {
        '0'
    } else if digit == 1 {
        '1'
    } else if digit == 2 {
        '2'
    } else if digit == 3 {
        '3'
    } else if digit == 4 {
        '4'
    } else if digit == 5 {
        '5'
    } else if digit == 6 {
        '6'
    } else if digit == 7 {
        '7'
    } else if digit == 8 {
        '8'
    } else {
        '9'
    }
}

/// A number in decimal, without leading zeros.
pub open spec fn decimal(number: nat) -> Seq<char>
    decreases number,
{
    if number < 10 {
        seq![digit_char(number)]
    } else {
        decimal(number / 10).push(digit_char(number % 10))
    }
}

fn digit_text(digit: u16) -> (text: &'static str)
    requires
        digit < 10,
    ensures
        text@ == seq![digit_char(digit as nat)],
{
    proof {
        reveal_strlit("0");
        reveal_strlit("1");
        reveal_strlit("2");
        reveal_strlit("3");
        reveal_strlit("4");
        reveal_strlit("5");
        reveal_strlit("6");
        reveal_strlit("7");
        reveal_strlit("8");
        reveal_strlit("9");
    }
    let text = if digit == 0 {
        "0"
    } else if digit == 1 {
        "1"
    } else if digit == 2 {
        "2"
    } else if digit == 3 {
        "3"
    } else if digit == 4 {
        "4"
    } else if digit == 5 {
        "5"
    } else if digit == 6 {
        "6"
    } else if digit == 7 {
        "7"
    } else if digit == 8 {
        "8"
    } else {
        "9"
    };
    assert(text@ =~= seq![digit_char(digit as nat)]);
    text
}

/// `number` written in decimal.
pub fn decimal_text(number: u16) -> (text: String)
    ensures
        text@ == decimal(number as nat),
    decreases number,
{
    if number < 10 {
        String::from_str(digit_text(number))
    } else {
        let mut text = decimal_text(number / 10);
        text.append(digit_text(number % 10));
        assert(text@ =~= decimal(number as nat));
        text
    }
}

/// How the failure class of a status is worded.
pub open spec fn class_text(status: u16) -> Seq<char> {
    if is_client_error(status) {
        "HTTP status client error"@
    } else {
        "HTTP status server error"@
    }
}

/// The text of a request that failed by its status: the class, the status
/// in brackets, and the URL that was asked.
pub open spec fn status_failure(status: u16, url: Seq<char>) -> Seq<char> {
    class_text(status) + " ("@ + decimal(status as nat) + ") for url ("@ + url + ")"@
}

/// The text for a request to `url` that was answered with `status`.
pub fn status_failure_text(status: u16, url: &str) -> (text: String)
    ensures
        text@ == status_failure(status, url@),
{
    let mut text = if 400 <= status && status < 500 {
        String::from_str("HTTP status client error")
    } else {
        String::from_str("HTTP status server error")
    };
    text.append(" (");
    text.append(decimal_text(status).as_str());
    text.append(") for url (");
    text.append(url);
    text.append(")");
    text
}

} // verus!
