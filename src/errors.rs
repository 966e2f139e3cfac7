use vstd::prelude::*;

verus! {

/// An error of the WebSocket transport, carried through without being inspected.
#[verifier::external_type_specification]
#[verifier::external_body]
pub struct ExSocketError(tokio_tungstenite::tungstenite::Error);

/// The error that a completion handle's receiving side gives when its sending
/// side was dropped unresolved: the call was abandoned.
#[verifier::external_type_specification]
#[verifier::external_body]
pub struct ExRecvError(tokio::sync::oneshot::error::RecvError);

/// The detail of an error reply of the server.
#[derive(Debug)]
pub struct SurrealInternalError {
    code: i32,
    message: String,
}

impl SurrealInternalError {
    pub fn new(code: i32, message: String) -> (r: Self)
        ensures
            r.code_spec() == code,
            r.message_spec() == message@,
    {
        SurrealInternalError { code, message }
    }

    pub closed spec fn code_spec(&self) -> i32 {
        self.code
    }

    pub closed spec fn message_spec(&self) -> Seq<char> {
        self.message@
    }

    pub fn code(&self) -> (r: i32)
        ensures
            r == self.code_spec(),
    {
        self.code
    }

    pub fn message(&self) -> (r: &str)
        ensures
            r@ == self.message_spec(),
    {
        self.message.as_str()
    }
}

/// An error reply of the server to the call with correlation id `id`.
#[derive(Debug)]
pub struct SurrealError {
    id: String,
    error: SurrealInternalError,
}

impl SurrealError {
    pub fn new(id: String, error: SurrealInternalError) -> (r: Self)
        ensures
            r.id_spec() == id@,
            r.error_spec() == error,
    {
        SurrealError { id, error }
    }

    pub closed spec fn id_spec(&self) -> Seq<char> {
        self.id@
    }

    pub closed spec fn error_spec(&self) -> SurrealInternalError {
        self.error
    }

    pub fn id(&self) -> (r: &str)
        ensures
            r@ == self.id_spec(),
    {
        self.id.as_str()
    }

    pub fn error(&self) -> (r: &SurrealInternalError)
        ensures
            *r == self.error_spec(),
    {
        &self.error
    }
}

} // verus!
