//! Settings that the service starts with.

use vstd::prelude::*;
use vstd::string::StringExecFns;

verus! {

/// The address of a PostgreSQL database, made of its five parts.
pub open spec fn postgres_url(
    user: Seq<char>,
    password: Seq<char>,
    host: Seq<char>,
    port: Seq<char>,
    name: Seq<char>,
) -> Seq<char> {
    "postgres://"@ + user + ":"@ + password + "@"@ + host + ":"@ + port + "/"@ + name
}

/// The address under which the store is reached.
pub fn database_url(user: &str, password: &str, host: &str, port: &str, name: &str) -> (url: String)
    ensures
        url@ == postgres_url(user@, password@, host@, port@, name@),
{
    let mut url = String::from_str("postgres://");
    url.append(user);
    url.append(":");
    url.append(password);
    url.append("@");
    url.append(host);
    url.append(":");
    url.append(port);
    url.append("/");
    url.append(name);
    url
}

/// A setting as it was given, or `fallback` where it was not given.
pub fn setting_or(given: Option<String>, fallback: &str) -> (value: String)
    ensures
        value@ == match given {
            Some(text) => text@,
            None => fallback@,
        },
{
    match given {
        Some(text) => text,
        None => String::from_str(fallback),
    }
}

/// The address that the service listens on: as given, or every address of
/// the machine where none is given.
pub fn listen_host(given: Option<String>) -> (host: String)
    ensures
        host@ == match given {
            Some(text) => text@,
            None => "0.0.0.0"@,
        },
{
    setting_or(given, "0.0.0.0")
}

/// Whether a character is one of the ten decimal digits.
pub open spec fn is_digit(c: char) -> bool {
    48 <= c as u32 <= 57
}

/// The number that decimal digits spell; zero for none.
pub open spec fn number(digits: Seq<char>) -> nat
    decreases digits.len(),
{
    if digits.len() == 0 {
        0
    } else {
        number(digits.drop_last()) * 10 + (digits.last() as u32 - 48) as nat
    }
}

/// Whether a text is made of decimal digits alone.
pub open spec fn all_digits(digits: Seq<char>) -> bool {
    forall|i: int| 0 <= i < digits.len() ==> is_digit(#[trigger] digits[i])
}

/// A text without the plus sign that may stand before it.
pub open spec fn unsigned(text: Seq<char>) -> Seq<char> {
    if text.len() > 0 && text[0] == '+' {
        text.drop_first()
    } else {
        text
    }
}

/// The port that a text spells: one or more decimal digits, with or without
/// a plus sign before them, that spell a number up to 65535. Any other text
/// spells none.
pub open spec fn port_number(text: Seq<char>) -> Option<u16> {
    let digits = unsigned(text);
    if digits.len() > 0 && all_digits(digits) && number(digits) <= 65535 {
        Some(number(digits) as u16)
    } else {
        None
    }
}

proof fn number_grows_with_its_digits(digits: Seq<char>, shorter: int)
    requires
        0 <= shorter <= digits.len(),
        all_digits(digits),
    ensures
        number(digits.take(shorter)) <= number(digits),
    decreases digits.len() - shorter,
{
    if shorter < digits.len() {
        number_grows_with_its_digits(digits, shorter + 1);
        assert(digits.take(shorter + 1).drop_last() =~= digits.take(shorter));
    } else {
        assert(digits.take(shorter) =~= digits);
    }
}

/// Reads a port from text.
pub fn parse_port(text: &str) -> (port: Option<u16>)
    ensures
        port == port_number(text@),
{
    let len = text.unicode_len();
    let start: usize = if len > 0 && text.get_char(0) == '+' {
        1
    } else {
        0
    };
    let ghost digits = unsigned(text@);
    if start == len {
        return None;
    }
    let mut value: u32 = 0;
    let mut i: usize = start;
    while i < len
        invariant
            start <= i <= len,
            len == text@.len(),
            digits == unsigned(text@),
            digits == text@.skip(start as int),
            value == number(digits.take(i - start)),
            value <= 65535,
            all_digits(digits.take(i - start)),
        decreases len - i,
    {
        let code = text.get_char(i) as u32;
        if code < 48 || code > 57 {
            proof {
                assert(!is_digit(digits[i - start]));
            }
            return None;
        }
        proof {
            let longer = digits.take(i - start + 1);
            assert(longer.drop_last() =~= digits.take(i - start));
            assert forall|k: int| 0 <= k < longer.len() implies is_digit(#[trigger] longer[k]) by {
                if k < i - start {
                    assert(is_digit(digits.take(i - start)[k]));
                }
            }
        }
        value = value * 10 + (code - 48);
        if value > 65535 {
            proof {
                if all_digits(digits) {
                    number_grows_with_its_digits(digits, i - start + 1);
                }
            }
            return None;
        }
        i += 1;
    }
    proof {
        assert(digits.take(i - start) =~= digits);
    }
    Some(value as u16)
}

/// The port that the service listens on: the port that the given text
/// spells, 8000 where none is given, and `None` where the text spells none.
pub fn listen_port(given: Option<String>) -> (port: Option<u16>)
    ensures
        port == match given {
            Some(text) => port_number(text@),
            None => Some(8000u16),
        },
{
    match given {
        Some(text) => parse_port(text.as_str()),
        None => Some(8000),
    }
}

} // verus!
