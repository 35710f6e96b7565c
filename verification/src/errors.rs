use vstd::prelude::*;
use vstd::string::StringExecFns;

verus! {

/// The error surface of the whole crate: a numeric code and a message.
///
/// Remote failures carry the envelope's own code and message; transport and
/// codec failures use HTTP-status-like codes (500, 502).
#[derive(Debug)]
pub struct LarkError {
    code: u64,
    message: String,
}

impl LarkError {
    /// The error's numeric code, for use in contracts.
    pub closed spec fn spec_code(&self) -> u64 {
        self.code
    }

    /// The error's message text, for use in contracts.
    pub closed spec fn spec_message(&self) -> Seq<char> {
        self.message@
    }

    pub fn new(code: u64, message: String) -> (r: LarkError)
        ensures
            r.spec_code() == code,
            r.spec_message() == message@,
    {
        LarkError { code, message }
    }

    pub fn code(&self) -> (r: u64)
        ensures
            r == self.spec_code(),
    {
        self.code
    }

    pub fn message(&self) -> (r: &String)
        ensures
            r@ == self.spec_message(),
    {
        &self.message
    }

    /// The error carried by a failure envelope: its code and message,
    /// verbatim.
    pub fn from_response<T: crate::schema::Response>(response: &T) -> (r: LarkError)
        ensures
            r.spec_code() == response.spec_code(),
            r.spec_message() == response.spec_message(),
    {
        LarkError::new(response.code(), response.message().clone())
    }

    /// The error rendered as text: `[<code>]: <message>`.
    pub fn display_string(&self) -> (r: String)
        ensures
            r@ == "["@ + crate::strutil::spec_dec(self.spec_code() as nat) + "]: "@
                + self.spec_message(),
    {
        let mut s = String::from_str("[");
        crate::strutil::push_u64(&mut s, self.code);
        s.append("]: ");
        s.append(self.message.as_str());
        s
    }
}

/// The error for malformed response bytes: code 500, the codec's own words
/// appended to the message.
pub fn json_error(text: String) -> (r: LarkError)
    ensures
        r.spec_code() == 500,
        r.spec_message() == "json serde error: "@ + text@,
{
    let mut message = String::from_str("json serde error: ");
    message.append(text.as_str());
    LarkError::new(500, message)
}

} // verus!
