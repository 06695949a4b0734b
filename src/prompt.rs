use vstd::prelude::*;
use vstd::string::StrSliceExecFns;
use crate::menu::Dish;

verus! {

/// Whether `part` occurs in `text` as a run of consecutive characters.
pub open spec fn occurs_in(part: Seq<char>, text: Seq<char>) -> bool {
    exists|i: int|
        0 <= i && i + part.len() <= text.len() && #[trigger] text.subrange(i, i + part.len())
            == part
}

/// Relies on str::contains with a string pattern: true exactly when `part`
/// matches a sub-slice of `text`.
#[verifier::external_body]
fn contains(text: &str, part: &str) -> (r: bool)
    ensures
        r == occurs_in(part@, text@),
{
    text.contains(part)
}

/// The dish that a line typed at the counter names: chicken, tofu or rice,
/// looked for in that order anywhere in the line.
pub open spec fn dish_named(line: Seq<char>) -> Option<Dish> {
    if occurs_in("chicken"@, line) {
        Some(Dish::ThaiChicken)
    } else if occurs_in("tofu"@, line) {
        Some(Dish::Tofu)
    } else if occurs_in("rice"@, line) {
        Some(Dish::FriedRice)
    } else {
        None
    }
}

/// Reads a dish out of a line of text; `None` when the line names no dish.
pub fn parse_dish(line: &str) -> (r: Option<Dish>)
    ensures
        r == dish_named(line@),
{
    if contains(line, "chicken") {
        Some(Dish::ThaiChicken)
    } else if contains(line, "tofu") {
        Some(Dish::Tofu)
    } else if contains(line, "rice") {
        Some(Dish::FriedRice)
    } else {
        None
    }
}

/// Whether an answer to a yes/no question is yes: exactly the line "y".
pub fn is_yes(answer: &str) -> (r: bool)
    ensures
        r == (answer@ == "y"@),
{
    proof {
        reveal_strlit("y");
    }
    if answer.unicode_len() != 1 {
        return false;
    }
    let c = answer.get_char(0);
    proof {
        if c == 'y' {
            assert(answer@ =~= "y"@);
        }
    }
    c == 'y'
}

} // verus!
