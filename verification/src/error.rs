//! What the library refuses, and why.

use vstd::prelude::*;
use crate::text::chain;

verus! {

/// Why an operation was refused.
#[derive(Debug)]
pub enum AppError {
    /// The caller may not do this.
    AclError(String),
    /// The command or its input is wrong.
    CmdError(String),
    /// The service is not in a state for this.
    ServiceError(String),
}

pub enum AppErrorView {
    AclError(Seq<char>),
    CmdError(Seq<char>),
    ServiceError(Seq<char>),
}

impl View for AppError {
    type V = AppErrorView;

    open spec fn view(&self) -> AppErrorView {
        match self {
            AppError::AclError(m) => AppErrorView::AclError(m@),
            AppError::CmdError(m) => AppErrorView::CmdError(m@),
            AppError::ServiceError(m) => AppErrorView::ServiceError(m@),
        }
    }
}

impl AppErrorView {
    /// The message shown to the user.
    pub open spec fn message(self) -> Seq<char> {
        match self {
            AppErrorView::AclError(_) => "incorrect rights for the requested operation"@,
            AppErrorView::CmdError(m) => "executing command failed: "@ + m,
            AppErrorView::ServiceError(m) => "running operation for service failed: "@ + m,
        }
    }
}

impl AppError {
    /// The message shown to the user.
    pub fn to_text(&self) -> (r: String)
        ensures
            r@ == self@.message(),
    {
        match self {
            AppError::AclError(_) => "incorrect rights for the requested operation".to_owned(),
            AppError::CmdError(m) => chain("executing command failed: ", m.as_str()),
            AppError::ServiceError(m) => chain(
                "running operation for service failed: ",
                m.as_str(),
            ),
        }
    }
}

/// The result of a check by its views.
pub open spec fn checked(r: Result<(), AppError>) -> Result<(), AppErrorView> {
    match r {
        Ok(_) => Ok(()),
        Err(e) => Err(e@),
    }
}

/// The result of a lookup by its views.
pub open spec fn found(r: Result<String, AppError>) -> Result<Seq<char>, AppErrorView> {
    match r {
        Ok(s) => Ok(s@),
        Err(e) => Err(e@),
    }
}

} // verus!
