//! Messages for command errors.
use crate::text::{chars_of, push_chars, string_from_chars};
use vstd::prelude::*;

verus! {

/// The usage shown after an argument error: the command's help text, or a
/// placeholder when it has none.
pub fn usage_text(help_text: Option<&str>) -> (r: String)
    ensures
        r@ == match help_text {
            Some(h) => h@,
            None => "Губы губа губами"@,
        },
{
    match help_text {
        Some(h) => string_from_chars(&chars_of(h)),
        None => string_from_chars(&chars_of("Губы губа губами")),
    }
}

/// The answer to arguments that could not be parsed: the offending input
/// (when known) and the error in bold, then the usage on the next line.
pub fn argument_error_message(input: Option<&str>, error: &str, usage: &str) -> (r: String)
    ensures
        r@ == match input {
            Some(i) => "**Что это за хуйня: `"@ + i@ + "`, "@ + error@ + "**\n"@ + usage@,
            None => "**"@ + error@ + "**\n"@ + usage@,
        },
{
    let mut v: Vec<char> = Vec::new();
    match input {
        Some(i) => {
            push_chars(&mut v, &chars_of("**Что это за хуйня: `"));
            push_chars(&mut v, &chars_of(i));
            push_chars(&mut v, &chars_of("`, "));
        },
        None => {
            push_chars(&mut v, &chars_of("**"));
        },
    }
    push_chars(&mut v, &chars_of(error));
    push_chars(&mut v, &chars_of("**\n"));
    push_chars(&mut v, &chars_of(usage));
    string_from_chars(&v)
}

} // verus!
