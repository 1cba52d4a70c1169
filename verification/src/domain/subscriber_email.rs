use validator::ValidateEmail;
use vstd::prelude::*;

verus! {

/// Whether the `validator` crate accepts `text` as an e-mail address (the HTML5 rules: a user
/// part, `@`, and a domain name, an IP literal or an internationalised domain name).
pub uninterp spec fn validated_email(text: Seq<char>) -> bool;

/// A character that may stand in the user part of an address.
pub open spec fn is_user_char(c: char) -> bool {
    ||| 'a' <= c <= 'z'
    ||| 'A' <= c <= 'Z'
    ||| '0' <= c <= '9'
    ||| c == '.' || c == '!' || c == '#' || c == '$' || c == '%' || c == '&' || c == '\''
    ||| c == '*' || c == '+' || c == '/' || c == '=' || c == '?' || c == '^' || c == '_'
    ||| c == '`' || c == '{' || c == '|' || c == '}' || c == '~' || c == '-'
}

/// `at` is the position of the last `@` of `text`.
pub open spec fn is_last_at(text: Seq<char>, at: int) -> bool {
    &&& 0 <= at < text.len()
    &&& text[at] == '@'
    &&& forall|j: int| at < j < text.len() ==> text[j] != '@'
}

/// What every address that the validator accepts looks like: its last `@` splits it into a
/// user part of 1 to 64 characters, all of them allowed there, and a domain part of at most
/// 255 characters.
pub open spec fn email_shape(text: Seq<char>) -> bool {
    exists|at: int|
        #![trigger is_last_at(text, at)]
        {
            &&& is_last_at(text, at)
            &&& 1 <= at <= 64
            &&& text.len() - at - 1 <= 255
            &&& forall|i: int| 0 <= i < at ==> is_user_char(#[trigger] text[i])
        }
}

/// Calls `validator::ValidateEmail::validate_email` on a `String`. Its result is named
/// `validated_email`; beside the name, the contract states what the crate's source checks
/// before its regular expressions: an accepted text holds an `@`, and the part before the last
/// one is 1 to 64 characters of `is_user_char`, the part after it at most 255 characters. What
/// the domain part must look like (regular expression, IP literal, IDNA) is left unsaid.
#[verifier::external_body]
fn validate_email(text: &String) -> (valid: bool)
    ensures
        valid == validated_email(text@),
        valid ==> email_shape(text@),
{
    text.validate_email()
}

/// The message with which an address is refused.
pub open spec fn invalid_email_message(text: Seq<char>) -> Seq<char> {
    text + " is not a valid subscriber email"@
}

/// The refusal of an address begins with that address, as it was given.
pub proof fn invalid_email_message_names_it(text: Seq<char>)
    ensures
        invalid_email_message(text).len() > text.len(),
        invalid_email_message(text).subrange(0, text.len() as int) == text,
{
    reveal_strlit(" is not a valid subscriber email");
    assert(invalid_email_message(text).subrange(0, text.len() as int) =~= text);
}

/// An e-mail address that the validator accepted.
#[derive(Debug)]
pub struct SubscriberEmail(String);

impl View for SubscriberEmail {
    type V = Seq<char>;

    closed spec fn view(&self) -> Seq<char> {
        self.0@
    }
}

impl SubscriberEmail {
    #[verifier::type_invariant]
    closed spec fn accepted(self) -> bool {
        validated_email(self.0@) && email_shape(self.0@)
    }

    /// Accepts `s` exactly when the validator does; the address keeps the text as given.
    pub fn parse(s: String) -> (parsed: Result<SubscriberEmail, String>)
        ensures
            parsed is Ok <==> validated_email(s@),
            parsed is Ok ==> email_shape(s@),
            parsed matches Ok(email) ==> email@ == s@,
            parsed matches Err(message) ==> message@ == invalid_email_message(s@),
    {
        if !validate_email(&s) {
            let mut message = s;
            message.append(" is not a valid subscriber email");
            return Err(message);
        }
        Ok(SubscriberEmail(s))
    }

    /// The address as text; it is always one that the validator accepts.
    pub fn as_ref(&self) -> (text: &str)
        ensures
            text@ == self@,
            validated_email(text@),
            email_shape(text@),
    {
        proof {
            use_type_invariant(self);
        }
        self.0.as_str()
    }
}

/// An address without an `@`, or whose last `@` comes first, is never accepted: in particular
/// the empty text, a text without `@`, and one with an empty user part.
pub proof fn email_needs_user_and_at(text: Seq<char>)
    requires
        (forall|i: int| 0 <= i < text.len() ==> text[i] != '@') || (text.len() > 0 && is_last_at(
            text,
            0,
        )),
    ensures
        !email_shape(text),
{
    if email_shape(text) {
        let at = choose|at: int|
            #![trigger is_last_at(text, at)]
            {
                &&& is_last_at(text, at)
                &&& 1 <= at <= 64
                &&& text.len() - at - 1 <= 255
                &&& forall|i: int| 0 <= i < at ==> is_user_char(#[trigger] text[i])
            };
        assert(text[at] == '@');
    }
}

} // verus!
