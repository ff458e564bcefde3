use vstd::prelude::*;
use vstd::string::StringExecFns;

verus! {

/// The standard reason phrase of an HTTP status code, if it has one.
pub uninterp spec fn canonical_reason_of(code: u16) -> Option<Seq<char>>;

/// Relies on `reqwest::StatusCode::from_u16`, which accepts every code in
/// 100..=999, and on `StatusCode::canonical_reason`, which looks the code up
/// in a fixed table of reason phrases.
#[verifier::external_body]
fn canonical_reason(code: u16) -> (r: Option<&'static str>)
    requires
        100 <= code <= 999,
    ensures
        match r {
            Some(s) => canonical_reason_of(code) == Some(s@),
            None => canonical_reason_of(code) is None,
        },
{
    match reqwest::StatusCode::from_u16(code) {
        Ok(status) => status.canonical_reason(),
        Err(_) => None,
    }
}

pub open spec fn digit(d: int) -> char {
    if d == 0 {
        '0'
    } else if d == 1 {
        '1'
    } else if d == 2 {
        '2'
    } else if d == 3 {
        '3'
    } else if d == 4 {
        '4'
    } else if d == 5 {
        '5'
    } else if d == 6 {
        '6'
    } else if d == 7 {
        '7'
    } else if d == 8 {
        '8'
    } else {
        '9'
    }
}

/// The decimal digits of a three-digit code.
pub open spec fn three_digits(code: u16) -> Seq<char> {
    seq![digit(code as int / 100), digit((code as int / 10) % 10), digit(code as int % 10)]
}

/// A status as HTTP prints it: the code, a space, and the reason phrase or
/// `<unknown status code>`.
pub open spec fn status_line(code: u16) -> Seq<char> {
    three_digits(code) + " "@ + match canonical_reason_of(code) {
        Some(reason) => reason,
        None => "<unknown status code>"@,
    }
}

/// Whether the status is a success (2xx).
pub open spec fn is_success(code: u16) -> bool {
    200 <= code <= 299
}

fn digit_text(d: u16) -> (r: &'static str)
    requires
        d <= 9,
    ensures
        r@ == seq![digit(d as int)],
{
    proof {
        reveal_strlit("0");
        reveal_strlit("1");
        reveal_strlit("2");
        reveal_strlit("3");
        reveal_strlit("4");
        reveal_strlit("5");
        reveal_strlit("6");
        reveal_strlit("7");
        reveal_strlit("8");
        reveal_strlit("9");
    }
    if d == 0 {
        "0"
    } else if d == 1 {
        "1"
    } else if d == 2 {
        "2"
    } else if d == 3 {
        "3"
    } else if d == 4 {
        "4"
    } else if d == 5 {
        "5"
    } else if d == 6 {
        "6"
    } else if d == 7 {
        "7"
    } else if d == 8 {
        "8"
    } else {
        "9"
    }
}

/// The status as HTTP prints it, such as `404 Not Found`.
pub fn status_text(code: u16) -> (r: String)
    requires
        100 <= code <= 999,
    ensures
        r@ == status_line(code),
{
    let s = String::from_str(digit_text(code / 100)).concat(digit_text((code / 10) % 10)).concat(
        digit_text(code % 10),
    ).concat(" ");
    let reason = canonical_reason(code);
    let r = match reason {
        Some(phrase) => s.concat(phrase),
        None => s.concat("<unknown status code>"),
    };
    assert(r@ =~= status_line(code));
    r
}

} // verus!
