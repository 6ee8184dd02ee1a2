use vstd::prelude::*;
use vstd::string::StringExecFns;

use crate::frontend::Key;

verus! {

/// What `str::to_uppercase` makes of a string.
pub uninterp spec fn upper_of(s: Seq<char>) -> Seq<char>;

/// Relies on `str::to_uppercase`: the upper-case form of a string, which depends on its
/// characters alone.
#[verifier::external_body]
fn to_uppercase(s: &str) -> (r: String)
    ensures
        r@ == upper_of(s@),
{
    s.to_uppercase()
}

/// The control that a browser key name, already upper-cased, stands for.
pub open spec fn key_named(name: Seq<char>) -> Option<Key> {
    if name == "C"@ {
        Some(Key::InsertCoin)
    } else if name == "1"@ {
        Some(Key::SelectOnePlayer)
    } else if name == "2"@ {
        Some(Key::SelectTwoPlayers)
    } else if name == "ARROWLEFT"@ {
        Some(Key::Player1Left)
    } else if name == "ARROWRIGHT"@ {
        Some(Key::Player1Right)
    } else if name == " "@ {
        Some(Key::Player1Shoot)
    } else if name == "A"@ {
        Some(Key::Player2Left)
    } else if name == "D"@ {
        Some(Key::Player2Right)
    } else if name == "S"@ {
        Some(Key::Player2Shoot)
    } else {
        None
    }
}

/// The control that an upper-case browser key name stands for.
pub fn key_from_uppercase(name: &String) -> (r: Option<Key>)
    ensures
        r == key_named(name@),
{
    if *name == String::from_str("C") {
        Some(Key::InsertCoin)
    } else if *name == String::from_str("1") {
        Some(Key::SelectOnePlayer)
    } else if *name == String::from_str("2") {
        Some(Key::SelectTwoPlayers)
    } else if *name == String::from_str("ARROWLEFT") {
        Some(Key::Player1Left)
    } else if *name == String::from_str("ARROWRIGHT") {
        Some(Key::Player1Right)
    } else if *name == String::from_str(" ") {
        Some(Key::Player1Shoot)
    } else if *name == String::from_str("A") {
        Some(Key::Player2Left)
    } else if *name == String::from_str("D") {
        Some(Key::Player2Right)
    } else if *name == String::from_str("S") {
        Some(Key::Player2Shoot)
    } else {
        None
    }
}

/// The control that a browser key name stands for, in any letter case.
pub fn parse_js_key(js_key: String) -> (r: Option<Key>)
    ensures
        r == key_named(upper_of(js_key@)),
{
    let upper = to_uppercase(js_key.as_str());
    key_from_uppercase(&upper)
}

} // verus!
