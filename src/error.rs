use vstd::prelude::*;

verus! {

/// The gateway's vendor-neutral error taxonomy.
#[derive(Clone, Copy, Debug, PartialEq, Eq, Structural)]
pub enum ErrorKind {
    InvalidRequest,
    AuthFailure,
    RateLimited,
    ProviderUnavailable,
    Unsupported,
    Unknown,
}

/// Whether a caller may retry after an error of this kind.
pub open spec fn retryable_spec(k: ErrorKind) -> bool {
    k == ErrorKind::RateLimited || k == ErrorKind::ProviderUnavailable
}

/// The HTTP status that an error of this kind is reported with.
pub open spec fn http_status_spec(k: ErrorKind) -> u16 {
    match k {
        ErrorKind::AuthFailure => 401,
        ErrorKind::InvalidRequest => 400,
        ErrorKind::RateLimited => 429,
        ErrorKind::ProviderUnavailable => 503,
        ErrorKind::Unsupported => 501,
        ErrorKind::Unknown => 500,
    }
}

impl ErrorKind {
    pub fn retryable(&self) -> (r: bool)
        ensures
            r == retryable_spec(*self),
    {
        match self {
            ErrorKind::RateLimited | ErrorKind::ProviderUnavailable => true,
            _ => false,
        }
    }

    pub fn http_status(&self) -> (r: u16)
        ensures
            r == http_status_spec(*self),
    {
        match self {
            ErrorKind::AuthFailure => 401,
            ErrorKind::InvalidRequest => 400,
            ErrorKind::RateLimited => 429,
            ErrorKind::ProviderUnavailable => 503,
            ErrorKind::Unsupported => 501,
            ErrorKind::Unknown => 500,
        }
    }
}

/// An error as the gateway reports it to its callers.
#[derive(Clone, Debug)]
pub struct CanonicalError {
    pub kind: ErrorKind,
    pub message: String,
    pub retryable: bool,
}

impl CanonicalError {
    /// An error of the given kind, with the retry hint that the kind implies.
    pub fn new(kind: ErrorKind, message: String) -> (r: CanonicalError)
        ensures
            r.kind == kind,
            r.message == message,
            r.retryable == retryable_spec(kind),
    {
        let retryable = kind.retryable();
        CanonicalError { kind, message, retryable }
    }

    pub fn http_status(&self) -> (r: u16)
        ensures
            r == http_status_spec(self.kind),
    {
        self.kind.http_status()
    }
}

/// A failure as a vendor adapter or its transport reports it.
#[derive(Clone, Debug)]
pub enum VendorFailure {
    /// The vendor answered with this HTTP status.
    Status(u16),
    /// The vendor rejected the credentials.
    InvalidCredentials,
    /// The vendor rejected the request as malformed.
    MalformedRequest,
    /// The vendor's quota or rate limit was exceeded.
    QuotaExceeded,
    /// The vendor reported an error on its own side.
    ServerError,
    /// The connection was reset or closed early.
    ConnectionReset,
    /// The call did not finish before its deadline.
    Timeout,
    /// The vendor does not offer the operation.
    UnsupportedOperation,
    /// Anything else, with the vendor's own words.
    Other(String),
}

/// The canonical kind of a vendor failure.
pub open spec fn kind_of(f: VendorFailure) -> ErrorKind {
    match f {
        VendorFailure::Status(code) => if code == 401 {
            ErrorKind::AuthFailure
        } else if code == 400 {
            ErrorKind::InvalidRequest
        } else if code == 429 {
            ErrorKind::RateLimited
        } else if 500 <= code && code <= 599 {
            ErrorKind::ProviderUnavailable
        } else {
            ErrorKind::Unknown
        },
        VendorFailure::InvalidCredentials => ErrorKind::AuthFailure,
        VendorFailure::MalformedRequest => ErrorKind::InvalidRequest,
        VendorFailure::QuotaExceeded => ErrorKind::RateLimited,
        VendorFailure::ServerError => ErrorKind::ProviderUnavailable,
        VendorFailure::ConnectionReset => ErrorKind::ProviderUnavailable,
        VendorFailure::Timeout => ErrorKind::ProviderUnavailable,
        VendorFailure::UnsupportedOperation => ErrorKind::Unsupported,
        VendorFailure::Other(_) => ErrorKind::Unknown,
    }
}

/// The message reported for a vendor failure.
pub open spec fn failure_message(f: VendorFailure) -> Seq<char> {
    match f {
        VendorFailure::Status(_) => "vendor returned an error status"@,
        VendorFailure::InvalidCredentials => "invalid credentials"@,
        VendorFailure::MalformedRequest => "malformed request"@,
        VendorFailure::QuotaExceeded => "rate limit exceeded"@,
        VendorFailure::ServerError => "provider server error"@,
        VendorFailure::ConnectionReset => "connection reset"@,
        VendorFailure::Timeout => "provider timed out"@,
        VendorFailure::UnsupportedOperation => "operation not supported by provider"@,
        VendorFailure::Other(m) => m@,
    }
}

/// Maps a vendor failure to the gateway's taxonomy.
pub fn translate(f: VendorFailure) -> (r: CanonicalError)
    ensures
        r.kind == kind_of(f),
        r.retryable == retryable_spec(kind_of(f)),
        r.message@ == failure_message(f),
{
    let (kind, message) = match f {
        VendorFailure::Status(code) => {
            let kind = if code == 401 {
                ErrorKind::AuthFailure
            } else if code == 400 {
                ErrorKind::InvalidRequest
            } else if code == 429 {
                ErrorKind::RateLimited
            } else if 500 <= code && code <= 599 {
                ErrorKind::ProviderUnavailable
            } else {
                ErrorKind::Unknown
            };
            (kind, String::from_str("vendor returned an error status"))
        },
        VendorFailure::InvalidCredentials => (
            ErrorKind::AuthFailure,
            String::from_str("invalid credentials"),
        ),
        VendorFailure::MalformedRequest => (
            ErrorKind::InvalidRequest,
            String::from_str("malformed request"),
        ),
        VendorFailure::QuotaExceeded => (
            ErrorKind::RateLimited,
            String::from_str("rate limit exceeded"),
        ),
        VendorFailure::ServerError => (
            ErrorKind::ProviderUnavailable,
            String::from_str("provider server error"),
        ),
        VendorFailure::ConnectionReset => (
            ErrorKind::ProviderUnavailable,
            String::from_str("connection reset"),
        ),
        VendorFailure::Timeout => (
            ErrorKind::ProviderUnavailable,
            String::from_str("provider timed out"),
        ),
        VendorFailure::UnsupportedOperation => (
            ErrorKind::Unsupported,
            String::from_str("operation not supported by provider"),
        ),
        VendorFailure::Other(m) => (ErrorKind::Unknown, m),
    };
    CanonicalError::new(kind, message)
}

} // verus!
