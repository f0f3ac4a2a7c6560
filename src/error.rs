use vstd::prelude::*;

verus! {

/// The ways in which proxying one request can fail.
#[derive(Debug, Clone, Copy, PartialEq, Eq, Structural)]
pub enum ProxyError {
    NoQueryParameter,
    InvalidUrl,
    TooManyRedirects,
    BadRedirect,
    InvalidContentType,
    RequestFailed,
}

impl ProxyError {
    /// The machine-readable tag that names this error in a response body.
    pub open spec fn tag_spec(self) -> Seq<char> {
        match self {
            ProxyError::NoQueryParameter => "NoQueryParameter"@,
            ProxyError::InvalidUrl => "InvalidUrl"@,
            ProxyError::TooManyRedirects => "TooManyRedirects"@,
            ProxyError::BadRedirect => "BadRedirect"@,
            ProxyError::InvalidContentType => "InvalidContentType"@,
            ProxyError::RequestFailed => "RequestFailed"@,
        }
    }

    pub fn tag(&self) -> (r: String)
        ensures
            r@ == self.tag_spec(),
    {
        match self {
            ProxyError::NoQueryParameter => "NoQueryParameter".to_string(),
            ProxyError::InvalidUrl => "InvalidUrl".to_string(),
            ProxyError::TooManyRedirects => "TooManyRedirects".to_string(),
            ProxyError::BadRedirect => "BadRedirect".to_string(),
            ProxyError::InvalidContentType => "InvalidContentType".to_string(),
            ProxyError::RequestFailed => "RequestFailed".to_string(),
        }
    }
}

} // verus!
