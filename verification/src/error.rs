use vstd::prelude::*;

verus! {

/// Why a reconciliation failed.
#[derive(Debug, Clone, PartialEq, Eq)]
pub enum Error {
    /// The VMI cannot be provisioned as it stands.
    Provisioning(String),
    /// A step of the provisioning failed.
    ProvisioningError(String),
    /// A call of the Kubernetes API failed; the text is that of the failure.
    Kube(String),
    /// Trustee could not be reached; the text is that of the failure.
    Http(String),
}

/// What an [`Error`] holds.
pub enum ErrorView {
    Provisioning(Seq<char>),
    ProvisioningError(Seq<char>),
    Kube(Seq<char>),
    Http(Seq<char>),
}

impl DeepView for Error {
    type V = ErrorView;

    open spec fn deep_view(&self) -> ErrorView {
        match self {
            Error::Provisioning(text) => ErrorView::Provisioning(text@),
            Error::ProvisioningError(text) => ErrorView::ProvisioningError(text@),
            Error::Kube(text) => ErrorView::Kube(text@),
            Error::Http(text) => ErrorView::Http(text@),
        }
    }
}

/// A failed call of the Kubernetes API.
#[derive(Debug, Clone, PartialEq, Eq)]
pub struct ApiError {
    /// HTTP status code, where the API server itself refused the call.
    pub code: Option<u16>,
    /// Text of the failure.
    pub message: String,
}

/// What an [`ApiError`] holds.
pub struct ApiErrorView {
    pub code: Option<u16>,
    pub message: Seq<char>,
}

impl ApiErrorView {
    /// Whether the API server answered that there is no such object.
    pub open spec fn is_not_found(self) -> bool {
        self.code == Some(404u16)
    }
}

impl DeepView for ApiError {
    type V = ApiErrorView;

    open spec fn deep_view(&self) -> ApiErrorView {
        ApiErrorView { code: self.code, message: self.message@ }
    }
}

impl ApiError {
    /// Whether the API server answered that there is no such object.
    pub fn is_not_found(&self) -> (b: bool)
        ensures
            b == self.deep_view().is_not_found(),
    {
        match self.code {
            Some(code) => code == 404,
            None => false,
        }
    }
}

} // verus!
