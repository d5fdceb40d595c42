//! New users: an identifier and a name that the server makes up.

use vstd::prelude::*;
use vstd::string::StringExecFns;
use crate::ident::{is_random_uuid, uuid_at_random};
use crate::model::User;

verus! {

/// The decimal digit for a value below 10.
pub open spec fn decimal_digit(value: int) -> char {
    seq!['0', '1', '2', '3', '4', '5', '6', '7', '8', '9'][value]
}

/// A number in decimal, without a sign or leading zeros.
pub open spec fn decimal(number: nat) -> Seq<char>
    decreases number,
{
    if number < 10 {
        seq![decimal_digit(number as int)]
    } else {
        decimal(number / 10).push(decimal_digit((number % 10) as int))
    }
}

/// `rand::random::<u32>`: any number may come back.
#[verifier::external_body]
fn number_at_random() -> u32 {
    rand::random::<u32>()
}

fn digit_text(value: u32) -> (text: &'static str)
    requires
        value < 10,
    ensures
        text@ == seq![decimal_digit(value as int)],
{
    proof {
        reveal_strlit("0");
        reveal_strlit("1");
        reveal_strlit("2");
        reveal_strlit("3");
        reveal_strlit("4");
        reveal_strlit("5");
        reveal_strlit("6");
        reveal_strlit("7");
        reveal_strlit("8");
        reveal_strlit("9");
    }
    let text = if value == 0 {
        "0"
    } else if value == 1 {
        "1"
    } else if value == 2 {
        "2"
    } else if value == 3 {
        "3"
    } else if value == 4 {
        "4"
    } else if value == 5 {
        "5"
    } else if value == 6 {
        "6"
    } else if value == 7 {
        "7"
    } else if value == 8 {
        "8"
    } else {
        "9"
    };
    text
}

/// Writes a number in decimal.
pub fn decimal_text(number: u32) -> (text: String)
    ensures
        text@ == decimal(number as nat),
    decreases number,
{
    if number < 10 {
        String::from_str(digit_text(number))
    } else {
        let mut text = decimal_text(number / 10);
        text.append(digit_text(number % 10));
        text
    }
}

/// The user with the given identifier whose name is `number` in decimal.
pub fn named_by_number(user_id: u128, number: u32) -> (user: User)
    ensures
        user@.user_id == user_id,
        user@.username == decimal(number as nat),
{
    User { user_id, username: decimal_text(number) }
}

/// A new user: a random identifier, and a random number for a name.
pub fn new_user() -> (user: User)
    ensures
        is_random_uuid(user@.user_id),
        exists|number: u32| user@.username == decimal(number as nat),
{
    let user_id = uuid_at_random();
    let number = number_at_random();
    named_by_number(user_id, number)
}

} // verus!
