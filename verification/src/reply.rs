//! The response model: a status code plus one of the bodies the service
//! produces. Envelope bodies carry `status: "success" | "fail" | "error"`;
//! `fail` marks a client-correctable condition, `error` an unexpected one.

use vstd::prelude::*;

use crate::model::PeopleModelView;

verus! {

/// The body of a response.
pub enum ReplyBody {
    /// Success envelope of the list operation: the row count and the
    /// projected rows.
    PeopleList { results: usize, peoples: Vec<PeopleModelView> },
    /// Success envelope of the get operation: one projected row under
    /// `data.people`.
    PersonData { people: PeopleModelView },
    /// Fail envelope: a client-correctable condition with its message.
    Fail { message: String },
    /// Error envelope: an unexpected condition with its diagnostic text.
    Error { message: String },
    /// Success body of the create operation: the raw numeric id, not
    /// wrapped in the standard envelope.
    RawId { id: i32 },
    /// Success envelope of the update operation: `{status: "success"}`.
    SuccessOnly,
    /// The empty body of a successful delete.
    Empty,
    /// The health report: `{database_connected: bool}`.
    Health { database_connected: bool },
    /// A plain-text body, as the error-rewriting middleware produces it.
    Text { message: String },
}

/// A response: its HTTP status code and its body.
pub struct Reply {
    pub code: u16,
    pub body: ReplyBody,
}

impl ReplyBody {
    /// The envelope's status word: `"fail"` for a fail envelope, `"error"`
    /// for an error envelope, `"success"` for every success body.
    pub fn status_word(&self) -> (r: &'static str)
        ensures
            self is Fail ==> r@ == ("fail")@,
            self is Error ==> r@ == ("error")@,
            !(self is Fail) && !(self is Error) ==> r@ == ("success")@,
    {
        match self {
            ReplyBody::Fail { .. } => "fail",
            ReplyBody::Error { .. } => "error",
            _ => "success",
        }
    }
}

} // verus!
