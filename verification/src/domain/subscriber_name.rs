use vstd::prelude::*;

verus! {

/// Whether `text` can be a subscriber's name: it must not be empty.
pub open spec fn valid_name(text: Seq<char>) -> bool {
    text.len() > 0
}

/// The message with which a name is refused.
pub open spec fn invalid_name_message(text: Seq<char>) -> Seq<char> {
    text + " is not a valid subscriber name"@
}

/// The refusal of a name begins with that name, as it was given.
pub proof fn invalid_name_message_names_it(text: Seq<char>)
    ensures
        invalid_name_message(text).len() > text.len(),
        invalid_name_message(text).subrange(0, text.len() as int) == text,
{
    reveal_strlit(" is not a valid subscriber name");
    assert(invalid_name_message(text).subrange(0, text.len() as int) =~= text);
}

/// A subscriber's name, never empty.
#[derive(Debug)]
pub struct SubscriberName(String);

impl View for SubscriberName {
    type V = Seq<char>;

    closed spec fn view(&self) -> Seq<char> {
        self.0@
    }
}

impl SubscriberName {
    #[verifier::type_invariant]
    closed spec fn accepted(self) -> bool {
        valid_name(self.0@)
    }

    /// Accepts exactly the names that are not empty; the name keeps the text as given.
    pub fn parse(s: String) -> (parsed: Result<SubscriberName, String>)
        ensures
            parsed is Ok <==> valid_name(s@),
            parsed matches Ok(name) ==> name@ == s@,
            parsed matches Err(message) ==> message@ == invalid_name_message(s@),
    {
        if s.as_str().is_empty() {
            let mut message = s;
            message.append(" is not a valid subscriber name");
            return Err(message);
        }
        Ok(SubscriberName(s))
    }

    /// The name as text; it is never empty.
    pub fn as_ref(&self) -> (text: &str)
        ensures
            text@ == self@,
            valid_name(text@),
    {
        proof {
            use_type_invariant(self);
        }
        self.0.as_str()
    }
}

} // verus!
