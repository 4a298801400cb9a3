use vstd::prelude::*;

verus! {

/// The HTTP statuses that the library's decisions produce.
#[derive(Debug, Clone, Copy, PartialEq, Eq, Structural)]
pub enum Status {
    Success,
    Accepted,
    BadRequest,
    Unauthorized,
    Forbidden,
    InternalServerError,
}

/// The numeric HTTP code of each status.
pub open spec fn status_code(s: Status) -> u16 {
    match s {
        Status::Success => 200,
        Status::Accepted => 202,
        Status::BadRequest => 400,
        Status::Unauthorized => 401,
        Status::Forbidden => 403,
        Status::InternalServerError => 500,
    }
}

impl Status {
    /// The numeric HTTP code, e.g. `403` for `Forbidden`.
    pub fn code(&self) -> (r: u16)
        ensures
            r == status_code(*self),
    {
        match self {
            Status::Success => 200,
            Status::Accepted => 202,
            Status::BadRequest => 400,
            Status::Unauthorized => 401,
            Status::Forbidden => 403,
            Status::InternalServerError => 500,
        }
    }
}

} // verus!
