use vstd::prelude::*;
use httparse::Response;

verus! {

#[verifier::external_type_specification]
#[verifier::external_body]
pub struct ExResponse<'headers, 'buf>(Response<'headers, 'buf>);

/// The decimal digit character of `d`.
pub open spec fn digit_char(d: int) -> char {
    if d == 0 { '0' }
    else if d == 1 { '1' }
    else if d == 2 { '2' }
    else if d == 3 { '3' }
    else if d == 4 { '4' }
    else if d == 5 { '5' }
    else if d == 6 { '6' }
    else if d == 7 { '7' }
    else if d == 8 { '8' }
    else { '9' }
}

/// The three decimal digits of a status code, as an HTTP status line writes it.
pub open spec fn status_digits(code: u16) -> Seq<char> {
    seq![digit_char(code as int / 100), digit_char((code as int / 10) % 10), digit_char(code as int % 10)]
}

/// The status line `HTTP/1.1 <code>`.
pub open spec fn spec_basic_response(code: u16) -> Seq<char> {
    "HTTP/1.1 "@ + status_digits(code)
}

/// The one-character string of the decimal digit `d`.
fn digit_str(d: u16) -> (s: &'static str)
    requires
        d < 10,
    ensures
        s@ == seq![digit_char(d as int)],
{
    proof {
        reveal_strlit("0");
        reveal_strlit("1");
        reveal_strlit("2");
        reveal_strlit("3");
        reveal_strlit("4");
        reveal_strlit("5");
        reveal_strlit("6");
        reveal_strlit("7");
        reveal_strlit("8");
        reveal_strlit("9");
    }
    if d == 0 { "0" }
    else if d == 1 { "1" }
    else if d == 2 { "2" }
    else if d == 3 { "3" }
    else if d == 4 { "4" }
    else if d == 5 { "5" }
    else if d == 6 { "6" }
    else if d == 7 { "7" }
    else if d == 8 { "8" }
    else { "9" }
}

/// The status line of a response with status `code` (an HTTP status code, 100 to 999).
pub fn basic_response(code: u16) -> (line: String)
    requires
        100 <= code <= 999,
    ensures
        line@ == spec_basic_response(code),
{
    let mut line = String::from_str("HTTP/1.1 ");
    line.append(digit_str(code / 100));
    line.append(digit_str((code / 10) % 10));
    line.append(digit_str(code % 10));
    assert(line@ =~= spec_basic_response(code));
    line
}

/// The serialized form of a parsed response; it is always empty.
pub fn response_to_bytes(res: Response) -> (bytes: String)
    ensures
        bytes@ == Seq::<char>::empty(),
{
    String::new()
}

} // verus!
