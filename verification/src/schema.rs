use vstd::prelude::*;

use crate::container::Method;
use crate::LarkResult;

verus! {

/// Marker for types that can stand as the payload of a response envelope.
pub trait Body {

}

/// A decoded response envelope: a numeric code, a message, and — only on
/// success — a payload.
pub trait Response: Sized {
    type Target;

    /// The envelope's code; `0` is success.
    spec fn spec_code(&self) -> u64;

    /// The envelope's message.
    spec fn spec_message(&self) -> Seq<char>;

    /// The payload carried by the envelope, if any.
    spec fn spec_data(&self) -> Option<Self::Target>;

    fn code(&self) -> (r: u64)
        ensures
            r == self.spec_code(),
    ;

    fn message(&self) -> (r: &String)
        ensures
            r@ == self.spec_message(),
    ;

    /// Consumes the envelope and yields the payload: `Some` only on
    /// success; on failure `None`, whatever stood on the wire.
    fn data(self) -> (r: Option<Self::Target>)
        ensures
            self.spec_code() == 0 ==> r == self.spec_data(),
            self.spec_code() != 0 ==> r is None,
    ;

    /// Success holds exactly when the code is zero.
    fn is_success(&self) -> (r: bool)
        ensures
            r == (self.spec_code() == 0),
    ;
}

/// The nested envelope: `{code, msg, data}`, the payload under `data`.
#[derive(Debug)]
pub struct BodyResponse<T> {
    code: u64,
    message: String,
    data: Option<T>,
}

impl<T> BodyResponse<T> {
    pub fn new(code: u64, message: String, data: Option<T>) -> (r: BodyResponse<T>)
        ensures
            r.spec_code() == code,
            r.spec_message() == message@,
            r.spec_data() == data,
    {
        BodyResponse { code, message, data }
    }
}

impl<T> Response for BodyResponse<T> {
    type Target = T;

    closed spec fn spec_code(&self) -> u64 {
        self.code
    }

    closed spec fn spec_message(&self) -> Seq<char> {
        self.message@
    }

    closed spec fn spec_data(&self) -> Option<T> {
        self.data
    }

    fn code(&self) -> u64 {
        self.code
    }

    fn message(&self) -> &String {
        &self.message
    }

    fn data(self) -> Option<T> {
        if self.code == 0 {
            self.data
        } else {
            None
        }
    }

    fn is_success(&self) -> bool {
        self.code == 0
    }
}

/// The flattened envelope: `{code, msg, ...payload fields}`, the payload's
/// own fields merged into the top level.
#[derive(Debug)]
pub struct FlattenResponse<T> {
    code: u64,
    message: String,
    data: Option<T>,
}

impl<T> FlattenResponse<T> {
    pub fn new(code: u64, message: String, data: Option<T>) -> (r: FlattenResponse<T>)
        ensures
            r.spec_code() == code,
            r.spec_message() == message@,
            r.spec_data() == data,
    {
        FlattenResponse { code, message, data }
    }
}

impl<T> Response for FlattenResponse<T> {
    type Target = T;

    closed spec fn spec_code(&self) -> u64 {
        self.code
    }

    closed spec fn spec_message(&self) -> Seq<char> {
        self.message@
    }

    closed spec fn spec_data(&self) -> Option<T> {
        self.data
    }

    fn code(&self) -> u64 {
        self.code
    }

    fn message(&self) -> &String {
        &self.message
    }

    fn data(self) -> Option<T> {
        if self.code == 0 {
            self.data
        } else {
            None
        }
    }

    fn is_success(&self) -> bool {
        self.code == 0
    }
}

/// The request contract: what a request type exposes so that the execution
/// pipeline can build the concrete call.
pub trait Request {
    spec fn spec_method(&self) -> Method;

    spec fn spec_address(&self) -> Seq<char>;

    spec fn spec_path_params(&self) -> Option<Seq<(Seq<char>, Seq<char>)>>;

    spec fn spec_query_params(&self) -> Option<Seq<(Seq<char>, Seq<char>)>>;

    spec fn spec_headers(&self) -> Option<Seq<(Seq<char>, Seq<char>)>>;

    spec fn spec_request_body(&self) -> Option<Seq<u8>>;

    /// The HTTP verb of the call.
    fn method(&self) -> (r: Method)
        ensures
            r == self.spec_method(),
    ;

    /// The URL template, placeholders unresolved.
    fn address(&self) -> (r: String)
        ensures
            r@ == self.spec_address(),
    ;

    /// The name-to-value pairs that fill the URL template's placeholders;
    /// the last binding of a name wins.
    fn path_params(&self) -> (r: Option<Vec<(String, String)>>)
        ensures
            r.deep_view() == self.spec_path_params(),
    ;

    /// The query parameters, in declaration order, duplicate keys kept.
    fn query_params(&self) -> (r: Option<Vec<(String, String)>>)
        ensures
            r.deep_view() == self.spec_query_params(),
    ;

    /// The request headers, in declaration order.
    fn headers(&self) -> (r: Option<Vec<(String, String)>>)
        ensures
            r.deep_view() == self.spec_headers(),
    ;

    /// The encoded request body, if the request carries one.  An
    /// implementation may fail when its codec does; what it returns on
    /// success is pinned.
    fn body(&self) -> (r: LarkResult<Option<Vec<u8>>>)
        ensures
            r matches Ok(b) ==> b.deep_view() == self.spec_request_body(),
    ;
}

} // verus!
