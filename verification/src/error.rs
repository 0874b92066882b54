use vstd::prelude::*;

verus! {

/// The failure an API request is answered with. Each variant corresponds to
/// one HTTP status: 400, 401, 403, 404, 409 and 500.
#[derive(Debug)]
pub enum ApiError {
    BadRequest(String),
    Unauthorized,
    Forbidden,
    NotFound,
    Conflict(String),
    Internal(String),
}

impl ApiError {
    /// The HTTP status code this error is answered with.
    pub open spec fn spec_status_code(&self) -> u16 {
        match self {
            ApiError::BadRequest(_) => 400,
            ApiError::Unauthorized => 401,
            ApiError::Forbidden => 403,
            ApiError::NotFound => 404,
            ApiError::Conflict(_) => 409,
            ApiError::Internal(_) => 500,
        }
    }

    pub fn status_code(&self) -> (code: u16)
        ensures
            code == self.spec_status_code(),
    {
        match self {
            ApiError::BadRequest(_) => 400,
            ApiError::Unauthorized => 401,
            ApiError::Forbidden => 403,
            ApiError::NotFound => 404,
            ApiError::Conflict(_) => 409,
            ApiError::Internal(_) => 500,
        }
    }

    /// The text a client is told: the message of a bad request or a
    /// conflict, a fixed word for the other refusals, and never the detail
    /// of an internal failure.
    pub open spec fn spec_public_message(&self) -> Seq<char> {
        match self {
            ApiError::BadRequest(m) => m@,
            ApiError::Unauthorized => "unauthorized"@,
            ApiError::Forbidden => "forbidden"@,
            ApiError::NotFound => "not found"@,
            ApiError::Conflict(m) => m@,
            ApiError::Internal(_) => "internal server error"@,
        }
    }

    pub fn public_message(&self) -> (r: String)
        ensures
            r@ == self.spec_public_message(),
    {
        match self {
            ApiError::BadRequest(m) => m.clone(),
            ApiError::Unauthorized => crate::text::owned("unauthorized"),
            ApiError::Forbidden => crate::text::owned("forbidden"),
            ApiError::NotFound => crate::text::owned("not found"),
            ApiError::Conflict(m) => m.clone(),
            ApiError::Internal(_) => crate::text::owned("internal server error"),
        }
    }
}

} // verus!

verus! {

/// An `ApiError` seen as a value: messages as character sequences.
pub ghost enum ErrorView {
    BadRequest(Seq<char>),
    Unauthorized,
    Forbidden,
    NotFound,
    Conflict(Seq<char>),
    Internal(Seq<char>),
}

impl View for ApiError {
    type V = ErrorView;

    open spec fn view(&self) -> ErrorView {
        match self {
            ApiError::BadRequest(m) => ErrorView::BadRequest(m@),
            ApiError::Unauthorized => ErrorView::Unauthorized,
            ApiError::Forbidden => ErrorView::Forbidden,
            ApiError::NotFound => ErrorView::NotFound,
            ApiError::Conflict(m) => ErrorView::Conflict(m@),
            ApiError::Internal(m) => ErrorView::Internal(m@),
        }
    }
}

/// A check's outcome seen as a value.
pub open spec fn check_view(r: Result<(), ApiError>) -> Result<(), ErrorView> {
    match r {
        Ok(()) => Ok(()),
        Err(e) => Err(e@),
    }
}

/// An outcome carrying text, seen as a value.
pub open spec fn text_view(r: Result<String, ApiError>) -> Result<Seq<char>, ErrorView> {
    match r {
        Ok(s) => Ok(s@),
        Err(e) => Err(e@),
    }
}

/// `Err(NotFound)` when a statement affected no row.
pub fn expect_affected(affected: u64) -> (r: Result<(), ApiError>)
    ensures
        check_view(r) == (if affected == 0 {
            Err(ErrorView::NotFound)
        } else {
            Ok::<(), ErrorView>(())
        }),
{
    if affected == 0 {
        Err(ApiError::NotFound)
    } else {
        Ok(())
    }
}

} // verus!
