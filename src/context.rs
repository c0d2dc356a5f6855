use vstd::prelude::*;

use crate::code::Code;

verus! {

/// A context to wrap around lower errors to allow their classification, along with a
/// message for the user.
#[derive(Debug, Clone)]
pub struct Context {
    /// The identifier of the error.
    pub code: Code,
    /// A description of what went wrong, if available.
    pub message: Option<String>,
}

/// What is shown to the user when a context carries no message.
pub open spec fn fallback_text() -> Seq<char> {
    "Something went wrong"@
}

/// The text that a context displays: its message, or the fallback when the message is
/// absent or empty.
pub open spec fn context_text(c: Context) -> Seq<char> {
    match c.message {
        Some(m) if m@.len() > 0 => m@,
        _ => fallback_text(),
    }
}

impl Default for Context {
    /// An unclassified context without a message.
    fn default() -> (r: Self)
        ensures
            r.code == Code::Unknown,
            r.message is None,
    {
        Context { code: Code::Unknown, message: None }
    }
}

impl From<Code> for Context {
    /// A context that classifies by `code` alone, without a message.
    fn from(code: Code) -> (r: Self)
        ensures
            r.code == code,
            r.message is None,
    {
        Context { code, message: None }
    }
}

impl vstd::std_specs::convert::FromSpecImpl<Code> for Context {
    open spec fn obeys_from_spec() -> bool {
        true
    }

    open spec fn from_spec(code: Code) -> Context {
        Context { code, message: None }
    }
}

impl Context {
    /// Create a new instance with `code` and an owned `message`.
    pub fn new(code: Code, message: String) -> (r: Self)
        ensures
            r.code == code,
            r.message == Some(message),
    {
        Context { code, message: Some(message) }
    }

    /// Create a new instance with `code` and a statically known `message`.
    pub fn new_static(code: Code, message: &'static str) -> (r: Self)
        ensures
            r.code == code,
            r.message matches Some(m) && m@ == message@,
    {
        Context { code, message: Some(String::from_str(message)) }
    }

    /// The text shown to the user: the message, or a fixed fallback when there is none or
    /// it is empty. It is never empty.
    pub fn to_string(&self) -> (r: String)
        ensures
            r@ == context_text(*self),
            r@.len() > 0,
    {
        proof {
            reveal_strlit("Something went wrong");
        }
        match &self.message {
            Some(m) => {
                if m.as_str().unicode_len() > 0 {
                    return m.clone();
                }
            },
            None => {},
        }
        String::from_str("Something went wrong")
    }

    /// A copy of this context, equal to it field by field.
    pub(crate) fn duplicate(&self) -> (r: Self)
        ensures
            r == *self,
    {
        let message = match &self.message {
            Some(m) => Some(m.clone()),
            None => None,
        };
        Context { code: self.code, message }
    }
}

/// A context made from a bare code has no message, and displays the non-empty fallback.
pub proof fn lemma_from_code_displays_fallback(code: Code)
    ensures
        <Context as vstd::std_specs::convert::FromSpec<Code>>::from_spec(code).code == code,
        <Context as vstd::std_specs::convert::FromSpec<Code>>::from_spec(code).message is None,
        context_text(<Context as vstd::std_specs::convert::FromSpec<Code>>::from_spec(code))
            == fallback_text(),
        fallback_text().len() > 0,
{
    reveal_strlit("Something went wrong");
}

/// A context made with a non-empty message displays exactly that message, and one made
/// with an empty message displays the fallback.
pub proof fn lemma_message_displays_itself(code: Code, message: String)
    ensures
        message@.len() == 0 ==> context_text(Context { code, message: Some(message) })
            == fallback_text(),
        message@.len() > 0 ==> context_text(Context { code, message: Some(message) }) == message@,
{
}

} // verus!
