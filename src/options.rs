use vstd::prelude::*;

verus! {

/// Which completions the batch waits for.
#[derive(Debug, PartialEq, Eq, Structural, Clone, Copy)]
pub enum Wait {
    ForAll,
    ForAny,
}

/// What the batch does when one of its commands fails.
#[derive(Debug, PartialEq, Eq, Structural, Clone, Copy)]
pub enum OnError {
    Interrupt,
    Ignore,
}

/// The message of a rejected option value.
pub open spec fn rejected_value_message() -> Seq<char> {
    "cannot convert from value"@
}

/// The wait policy that a word names, if it names one.
pub open spec fn wait_named(s: Seq<char>) -> Option<Wait> {
    if s == "for-all"@ || s == "all"@ {
        Some(Wait::ForAll)
    } else if s == "for-any"@ || s == "any"@ {
        Some(Wait::ForAny)
    } else {
        None
    }
}

/// The error policy that a word names, if it names one.
pub open spec fn on_error_named(s: Seq<char>) -> Option<OnError> {
    if s == "int"@ || s == "interrupt"@ || s == "break"@ || s == "stop"@ {
        Some(OnError::Interrupt)
    } else if s == "ignore"@ {
        Some(OnError::Ignore)
    } else {
        None
    }
}

fn same_text(s: &str, word: &str) -> (r: bool)
    ensures
        r == (s@ == word@),
{
    s.to_owned() == word.to_owned()
}

fn rejected_value() -> (r: String)
    ensures
        r@ == rejected_value_message(),
{
    String::from_str("cannot convert from value")
}

impl Wait {
    /// Reads a wait policy: `for-all` or `all`, `for-any` or `any`.
    pub fn from_str(s: &str) -> (r: Result<Wait, String>)
        ensures
            match wait_named(s@) {
                Some(w) => r == Ok::<Wait, String>(w),
                None => r is Err && r->Err_0@ == rejected_value_message(),
            },
    {
        if same_text(s, "for-all") || same_text(s, "all") {
            Ok(Wait::ForAll)
        } else if same_text(s, "for-any") || same_text(s, "any") {
            Ok(Wait::ForAny)
        } else {
            Err(rejected_value())
        }
    }
}

impl OnError {
    /// Reads an error policy: `int`, `interrupt`, `break` or `stop` to
    /// interrupt, `ignore` to go on.
    pub fn from_str(s: &str) -> (r: Result<OnError, String>)
        ensures
            match on_error_named(s@) {
                Some(e) => r == Ok::<OnError, String>(e),
                None => r is Err && r->Err_0@ == rejected_value_message(),
            },
    {
        if same_text(s, "int") || same_text(s, "interrupt") || same_text(s, "break")
            || same_text(s, "stop") {
            Ok(OnError::Interrupt)
        } else if same_text(s, "ignore") {
            Ok(OnError::Ignore)
        } else {
            Err(rejected_value())
        }
    }
}

} // verus!
