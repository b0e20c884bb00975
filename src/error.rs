//! The error that session provisioning reports.

use vstd::prelude::*;

verus! {

/// A platform operation of the session provisioner failed.
#[derive(Clone, Debug, PartialEq, Eq)]
pub enum Error {
    K8sError(String),
}

pub enum ErrorView {
    K8sError(Seq<char>),
}

impl View for Error {
    type V = ErrorView;

    open spec fn view(&self) -> ErrorView {
        match self {
            Error::K8sError(m) => ErrorView::K8sError(m@),
        }
    }
}

impl Error {
    /// The message this error is reported with.
    pub fn to_string(&self) -> (r: String)
        ensures
            r@ == "K8sError: "@ + match self {
                Error::K8sError(m) => m@,
            },
    {
        match self {
            Error::K8sError(m) => crate::text::concat2("K8sError: ", m.as_str()),
        }
    }
}

} // verus!
