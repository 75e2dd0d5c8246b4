use vstd::prelude::*;

verus! {

/// The kind of a proxy failure.
#[derive(Debug, Clone, Copy, PartialEq, Eq, Structural)]
pub enum ErrorName {
    InvalidData,
    NotConnected,
    Timeout,
    InvalidVersion,
    AuthFailed,
    Unsupported,
}

/// What went wrong while connecting through a proxy.
#[derive(Debug, Clone, Copy, PartialEq, Eq, Structural)]
pub enum ProxyError {
    /// No target host was bound.
    TargetHostMissing,
    /// No target port was bound.
    TargetPortMissing,
    /// The proxy could not be reached.
    ProxyUnreachable,
    /// The proxy did not answer in time.
    ProxyTimeout,
    /// The proxy does not speak SOCKS version 5.
    IncompatibleVersion,
    /// The proxy wants a user name and a password, and none was given.
    AuthRequired,
    /// The proxy wants an authentication method that is not supported.
    UnsupportedAuthMethod,
    /// The user name or the password is longer than 255 bytes.
    CredentialsTooLong,
    /// The authentication reply has the wrong version.
    InvalidAuthVersion,
    /// The proxy refused the user name or the password.
    AuthRejected,
    /// The target host name is longer than 255 bytes.
    HostTooLong,
    /// The proxy refused the connection, with its reply code.
    ConnectionRejected(u8),
    /// The reply gives an address of an unknown type.
    UnknownAddressType(u8),
    /// A value that was expected is missing.
    MissingData,
}

impl ProxyError {
    pub open spec fn spec_name(self) -> ErrorName {
        match self {
            ProxyError::TargetHostMissing => ErrorName::InvalidData,
            ProxyError::TargetPortMissing => ErrorName::InvalidData,
            ProxyError::ProxyUnreachable => ErrorName::NotConnected,
            ProxyError::ProxyTimeout => ErrorName::Timeout,
            ProxyError::IncompatibleVersion => ErrorName::InvalidVersion,
            ProxyError::AuthRequired => ErrorName::AuthFailed,
            ProxyError::UnsupportedAuthMethod => ErrorName::Unsupported,
            ProxyError::CredentialsTooLong => ErrorName::InvalidData,
            ProxyError::InvalidAuthVersion => ErrorName::AuthFailed,
            ProxyError::AuthRejected => ErrorName::AuthFailed,
            ProxyError::HostTooLong => ErrorName::InvalidData,
            ProxyError::ConnectionRejected(_) => ErrorName::NotConnected,
            ProxyError::UnknownAddressType(_) => ErrorName::InvalidData,
            ProxyError::MissingData => ErrorName::InvalidData,
        }
    }

    /// The kind of the failure.
    pub fn name(&self) -> (res: ErrorName)
        ensures
            res == self.spec_name(),
    {
        match self {
            ProxyError::TargetHostMissing => ErrorName::InvalidData,
            ProxyError::TargetPortMissing => ErrorName::InvalidData,
            ProxyError::ProxyUnreachable => ErrorName::NotConnected,
            ProxyError::ProxyTimeout => ErrorName::Timeout,
            ProxyError::IncompatibleVersion => ErrorName::InvalidVersion,
            ProxyError::AuthRequired => ErrorName::AuthFailed,
            ProxyError::UnsupportedAuthMethod => ErrorName::Unsupported,
            ProxyError::CredentialsTooLong => ErrorName::InvalidData,
            ProxyError::InvalidAuthVersion => ErrorName::AuthFailed,
            ProxyError::AuthRejected => ErrorName::AuthFailed,
            ProxyError::HostTooLong => ErrorName::InvalidData,
            ProxyError::ConnectionRejected(_) => ErrorName::NotConnected,
            ProxyError::UnknownAddressType(_) => ErrorName::InvalidData,
            ProxyError::MissingData => ErrorName::InvalidData,
        }
    }
}

/// The outcome of a proxy operation.
pub enum ProxyResult<T> {
    Success(T),
    Failed(ProxyError),
}

impl<T> ProxyResult<T> {
    /// The outcome of a `Result`.
    pub fn from_result(result: Result<T, ProxyError>) -> (res: ProxyResult<T>)
        ensures
            match result {
                Ok(t) => res == ProxyResult::<T>::Success(t),
                Err(e) => res == ProxyResult::<T>::Failed(e),
            },
    {
        match result {
            Ok(t) => ProxyResult::Success(t),
            Err(e) => ProxyResult::Failed(e),
        }
    }

    /// The outcome of an `Option`: a missing value is a failure.
    pub fn from_option(value: Option<T>) -> (res: ProxyResult<T>)
        ensures
            match value {
                Some(t) => res == ProxyResult::<T>::Success(t),
                None => res == ProxyResult::<T>::Failed(ProxyError::MissingData),
            },
    {
        match value {
            Some(v) => ProxyResult::Success(v),
            None => ProxyResult::Failed(ProxyError::MissingData),
        }
    }
}

} // verus!
