use vstd::prelude::*;

verus! {

/// What `str::trim` leaves of a line: the line without its leading and
/// trailing whitespace.
pub uninterp spec fn trimmed(s: Seq<char>) -> Seq<char>;

/// The text a prompt yields when the user typed `t` (already trimmed): the
/// default when nothing is left, else what was typed.
pub open spec fn text_choice(t: Seq<char>, default: Seq<char>) -> Seq<char> {
    if t.len() == 0 {
        default
    } else {
        t
    }
}

/// The value a numeric prompt yields when the user typed `t` (already
/// trimmed) and `parsed` is what reading `t` as a number gave.
pub open spec fn number_choice<T>(t: Seq<char>, parsed: Option<T>, default: T) -> T {
    if t.len() == 0 {
        default
    } else {
        match parsed {
            Some(v) => v,
            None => default,
        }
    }
}

/// Relies on `str::trim`: the result depends on the characters alone, and an
/// empty line stays empty.
#[verifier::external_body]
fn trim_line(line: &str) -> (r: String)
    ensures
        r@ == trimmed(line@),
        line@.len() == 0 ==> r@.len() == 0,
{
    line.trim().to_string()
}

/// Picks the text of a prompt from a trimmed line and its default.
pub fn choose_text(trimmed_line: &str, default: String) -> (r: String)
    ensures
        r@ == text_choice(trimmed_line@, default@),
{
    if trimmed_line.is_empty() {
        default
    } else {
        trimmed_line.to_owned()
    }
}

/// Picks the value of a numeric prompt from a trimmed line, the result of
/// parsing it, and the default.
pub fn choose_number<T>(trimmed_line: &str, parsed: Option<T>, default: T) -> (r: T)
    ensures
        r == number_choice(trimmed_line@, parsed, default),
{
    if trimmed_line.is_empty() {
        default
    } else {
        match parsed {
            Some(v) => v,
            None => default,
        }
    }
}

/// The trimmed form of a raw input line.
pub fn trim_input(line: &str) -> (r: String)
    ensures
        r@ == trimmed(line@),
{
    trim_line(line)
}

/// The text a prompt yields for the raw line the user typed.
pub fn read_text(line: &str, default: String) -> (r: String)
    ensures
        r@ == text_choice(trimmed(line@), default@),
        line@.len() == 0 ==> r@ == default@,
{
    let t = trim_line(line);
    choose_text(t.as_str(), default)
}

} // verus!
