use vstd::prelude::*;

verus! {

/// The character for the decimal digit `d`.
pub open spec fn digit_char(d: int) -> char {
    if d == 0 {
        '0'
    } else if d == 1 {
        '1'
    } else if d == 2 {
        '2'
    } else if d == 3 {
        '3'
    } else if d == 4 {
        '4'
    } else if d == 5 {
        '5'
    } else if d == 6 {
        '6'
    } else if d == 7 {
        '7'
    } else if d == 8 {
        '8'
    } else {
        '9'
    }
}

/// The decimal numeral of `n`, most significant digit first, without
/// leading zeros.
pub open spec fn dec_digits(n: int) -> Seq<char>
    decreases n,
{
    if n < 10 {
        seq![digit_char(n)]
    } else {
        dec_digits(n / 10) + seq![digit_char(n % 10)]
    }
}

/// The serving URL reported for a session bound to `port`.
pub open spec fn url_chars(port: int) -> Seq<char> {
    "http://localhost:"@ + dec_digits(port)
}

/// The success message reported by a completed start.
pub open spec fn start_message_chars(port: int) -> Seq<char> {
    "Server started at "@ + url_chars(port)
}

fn digit_str(d: u16) -> (r: String)
    requires
        d < 10,
    ensures
        r@ == seq![digit_char(d as int)],
{
    let r = match d {
        0 => String::from_str("0"),
        1 => String::from_str("1"),
        2 => String::from_str("2"),
        3 => String::from_str("3"),
        4 => String::from_str("4"),
        5 => String::from_str("5"),
        6 => String::from_str("6"),
        7 => String::from_str("7"),
        8 => String::from_str("8"),
        _ => String::from_str("9"),
    };
    proof {
        reveal_strlit("0");
        reveal_strlit("1");
        reveal_strlit("2");
        reveal_strlit("3");
        reveal_strlit("4");
        reveal_strlit("5");
        reveal_strlit("6");
        reveal_strlit("7");
        reveal_strlit("8");
        reveal_strlit("9");
        assert(r@ =~= seq![digit_char(d as int)]);
    }
    r
}

fn dec_string(n: u16) -> (r: String)
    ensures
        r@ == dec_digits(n as int),
    decreases n,
{
    if n < 10 {
        digit_str(n)
    } else {
        let hi = dec_string(n / 10);
        let lo = digit_str(n % 10);
        hi.concat(lo.as_str())
    }
}

/// The URL `http://localhost:{port}` as a string.
pub fn format_url(port: u16) -> (r: String)
    ensures
        r@ == url_chars(port as int),
{
    let mut s = String::from_str("http://localhost:");
    let digits = dec_string(port);
    s.append(digits.as_str());
    s
}

/// The message `Server started at http://localhost:{port}`.
pub fn start_message(port: u16) -> (r: String)
    ensures
        r@ == start_message_chars(port as int),
{
    let mut s = String::from_str("Server started at ");
    let url = format_url(port);
    s.append(url.as_str());
    s
}

} // verus!
