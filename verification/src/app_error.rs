//! The library's error type and the stable codes clients see.
use vstd::prelude::*;

verus! {

/// Every failure a use case can report.
#[derive(Debug, Clone, PartialEq, Eq)]
pub enum AppError {
    Database(String),
    RateLimited,
    InvalidCredentials,
    InvalidApiKey,
    InvalidInput(String),
    OAuthRetryExpired,
    ValidationError(String),
    AccountSuspended,
    TooManyDocuments,
    TooManyApiKeys,
    NoApiKeyConfigured,
    NotFound,
    Forbidden,
    SessionMismatch,
    PaymentDeclined(String),
    ProviderNotConfigured,
    ProviderNotSupported,
    Internal(String),
}

/// Stable machine-readable error codes.
#[derive(Clone, Copy, Debug, PartialEq, Eq, Structural)]
pub enum ErrorCode {
    DatabaseError,
    InvalidCredentials,
    InvalidApiKey,
    RateLimited,
    InvalidInput,
    OAuthRetryExpired,
    ValidationError,
    AccountSuspended,
    TooManyDocuments,
    TooManyApiKeys,
    NoApiKeyConfigured,
    NotFound,
    Forbidden,
    SessionMismatch,
    PaymentDeclined,
    ProviderNotConfigured,
    ProviderNotSupported,
    InternalError,
}

impl ErrorCode {
    /// The wire name of each code.
    pub open spec fn code_name(self) -> Seq<char> {
        match self {
            ErrorCode::DatabaseError => "DATABASE_ERROR"@,
            ErrorCode::InvalidCredentials => "INVALID_CREDENTIALS"@,
            ErrorCode::InvalidApiKey => "INVALID_API_KEY"@,
            ErrorCode::RateLimited => "RATE_LIMITED"@,
            ErrorCode::InvalidInput => "INVALID_INPUT"@,
            ErrorCode::OAuthRetryExpired => "OAUTH_RETRY_EXPIRED"@,
            ErrorCode::ValidationError => "VALIDATION_ERROR"@,
            ErrorCode::AccountSuspended => "ACCOUNT_SUSPENDED"@,
            ErrorCode::TooManyDocuments => "TOO_MANY_DOCUMENTS"@,
            ErrorCode::TooManyApiKeys => "TOO_MANY_API_KEYS"@,
            ErrorCode::NoApiKeyConfigured => "NO_API_KEY_CONFIGURED"@,
            ErrorCode::NotFound => "NOT_FOUND"@,
            ErrorCode::Forbidden => "FORBIDDEN"@,
            ErrorCode::SessionMismatch => "SESSION_MISMATCH"@,
            ErrorCode::PaymentDeclined => "PAYMENT_DECLINED"@,
            ErrorCode::ProviderNotConfigured => "PROVIDER_NOT_CONFIGURED"@,
            ErrorCode::ProviderNotSupported => "PROVIDER_NOT_SUPPORTED"@,
            ErrorCode::InternalError => "INTERNAL_ERROR"@,
        }
    }

    pub fn as_str(&self) -> (r: &'static str)
        ensures
            r@ == self.code_name(),
    {
        match self {
            ErrorCode::DatabaseError => "DATABASE_ERROR",
            ErrorCode::InvalidCredentials => "INVALID_CREDENTIALS",
            ErrorCode::InvalidApiKey => "INVALID_API_KEY",
            ErrorCode::RateLimited => "RATE_LIMITED",
            ErrorCode::InvalidInput => "INVALID_INPUT",
            ErrorCode::OAuthRetryExpired => "OAUTH_RETRY_EXPIRED",
            ErrorCode::ValidationError => "VALIDATION_ERROR",
            ErrorCode::AccountSuspended => "ACCOUNT_SUSPENDED",
            ErrorCode::TooManyDocuments => "TOO_MANY_DOCUMENTS",
            ErrorCode::TooManyApiKeys => "TOO_MANY_API_KEYS",
            ErrorCode::NoApiKeyConfigured => "NO_API_KEY_CONFIGURED",
            ErrorCode::NotFound => "NOT_FOUND",
            ErrorCode::Forbidden => "FORBIDDEN",
            ErrorCode::SessionMismatch => "SESSION_MISMATCH",
            ErrorCode::PaymentDeclined => "PAYMENT_DECLINED",
            ErrorCode::ProviderNotConfigured => "PROVIDER_NOT_CONFIGURED",
            ErrorCode::ProviderNotSupported => "PROVIDER_NOT_SUPPORTED",
            ErrorCode::InternalError => "INTERNAL_ERROR",
        }
    }
}

/// The wire names of the error codes are distinct, non-empty, and made of
/// capital letters and underscores only.
pub proof fn lemma_error_code_names(a: ErrorCode, b: ErrorCode)
    ensures
        a != b ==> a.code_name() != b.code_name(),
        a.code_name().len() > 0,
        forall|i: int|
            0 <= i < a.code_name().len() ==> ('A' <= #[trigger] a.code_name()[i] && a.code_name()[i] <= 'Z')
                || a.code_name()[i] == '_',
{
    reveal_strlit("DATABASE_ERROR");
    reveal_strlit("INVALID_CREDENTIALS");
    reveal_strlit("INVALID_API_KEY");
    reveal_strlit("RATE_LIMITED");
    reveal_strlit("INVALID_INPUT");
    reveal_strlit("OAUTH_RETRY_EXPIRED");
    reveal_strlit("VALIDATION_ERROR");
    reveal_strlit("ACCOUNT_SUSPENDED");
    reveal_strlit("TOO_MANY_DOCUMENTS");
    reveal_strlit("TOO_MANY_API_KEYS");
    reveal_strlit("NO_API_KEY_CONFIGURED");
    reveal_strlit("NOT_FOUND");
    reveal_strlit("FORBIDDEN");
    reveal_strlit("SESSION_MISMATCH");
    reveal_strlit("PAYMENT_DECLINED");
    reveal_strlit("PROVIDER_NOT_CONFIGURED");
    reveal_strlit("PROVIDER_NOT_SUPPORTED");
    reveal_strlit("INTERNAL_ERROR");
    assert("DATABASE_ERROR"@.len() == 14);
    assert("INVALID_CREDENTIALS"@.len() == 19);
    assert("INVALID_API_KEY"@.len() == 15);
    assert("RATE_LIMITED"@.len() == 12);
    assert("INVALID_INPUT"@.len() == 13);
    assert("OAUTH_RETRY_EXPIRED"@.len() == 19);
    assert("VALIDATION_ERROR"@.len() == 16);
    assert("ACCOUNT_SUSPENDED"@.len() == 17);
    assert("TOO_MANY_DOCUMENTS"@.len() == 18);
    assert("TOO_MANY_API_KEYS"@.len() == 17);
    assert("NO_API_KEY_CONFIGURED"@.len() == 21);
    assert("NOT_FOUND"@.len() == 9);
    assert("FORBIDDEN"@.len() == 9);
    assert("SESSION_MISMATCH"@.len() == 16);
    assert("PAYMENT_DECLINED"@.len() == 16);
    assert("PROVIDER_NOT_CONFIGURED"@.len() == 23);
    assert("PROVIDER_NOT_SUPPORTED"@.len() == 22);
    assert("INTERNAL_ERROR"@.len() == 14);
    assert("DATABASE_ERROR"@[0] != "INTERNAL_ERROR"@[0]);
    assert("INVALID_CREDENTIALS"@[0] != "OAUTH_RETRY_EXPIRED"@[0]);
    assert("VALIDATION_ERROR"@[0] != "SESSION_MISMATCH"@[0]);
    assert("VALIDATION_ERROR"@[0] != "PAYMENT_DECLINED"@[0]);
    assert("ACCOUNT_SUSPENDED"@[0] != "TOO_MANY_API_KEYS"@[0]);
    assert("NOT_FOUND"@[0] != "FORBIDDEN"@[0]);
    assert("SESSION_MISMATCH"@[0] != "PAYMENT_DECLINED"@[0]);
}

} // verus!
