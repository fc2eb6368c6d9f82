use vstd::prelude::*;

verus! {

#[verifier::external_type_specification]
#[verifier::external_body]
pub struct ExSqlxError(sqlx::Error);

#[verifier::external_type_specification]
#[verifier::external_body]
pub struct ExRedisError(redis::RedisError);

#[verifier::external_type_specification]
#[verifier::external_body]
pub struct ExJwtError(jsonwebtoken::errors::Error);

#[verifier::external_type_specification]
#[verifier::external_body]
pub struct ExBcryptError(bcrypt::BcryptError);

/// Every way a request can fail.
#[derive(Debug)]
pub enum AppError {
    DatabaseError(sqlx::Error),
    RedisError(redis::RedisError),
    JwtError(jsonwebtoken::errors::Error),
    BcryptError(bcrypt::BcryptError),
    ValidationError(String),
    Unauthorized(String),
    NotFound(String),
    InternalError(String),
}

/// The HTTP status that answers each kind of failure.
pub open spec fn status_of(e: AppError) -> u16 {
    match e {
        AppError::JwtError(_) | AppError::Unauthorized(_) => 401,
        AppError::ValidationError(_) => 400,
        AppError::NotFound(_) => 404,
        _ => 500,
    }
}

/// The text of a failure that carries its own message.
pub open spec fn message_of(e: AppError) -> Option<Seq<char>> {
    match e {
        AppError::ValidationError(m) => Some("Validation error: "@ + m@),
        AppError::Unauthorized(m) => Some("Unauthorized: "@ + m@),
        AppError::NotFound(m) => Some("Not found: "@ + m@),
        AppError::InternalError(m) => Some("Internal error: "@ + m@),
        _ => None,
    }
}

/// The label of a failure, the start of its text.
pub open spec fn label_of(e: AppError) -> Seq<char> {
    match e {
        AppError::DatabaseError(_) => "Database error: "@,
        AppError::RedisError(_) => "Redis error: "@,
        AppError::JwtError(_) => "JWT error: "@,
        AppError::BcryptError(_) => "Bcrypt error: "@,
        AppError::ValidationError(_) => "Validation error: "@,
        AppError::Unauthorized(_) => "Unauthorized: "@,
        AppError::NotFound(_) => "Not found: "@,
        AppError::InternalError(_) => "Internal error: "@,
    }
}

/// What the client is told of a failure whose details stay on the server.
pub open spec fn hidden_message_of(e: AppError) -> Option<Seq<char>> {
    match e {
        AppError::DatabaseError(_) => Some("Database error occurred"@),
        AppError::RedisError(_) => Some("Cache error occurred"@),
        AppError::BcryptError(_) | AppError::InternalError(_) => Some("Internal server error"@),
        _ => None,
    }
}

impl AppError {
    pub fn validation(msg: &str) -> (r: AppError)
        ensures
            r matches AppError::ValidationError(m) && m@ == msg@,
    {
        AppError::ValidationError(String::from_str(msg))
    }

    pub fn unauthorized(msg: &str) -> (r: AppError)
        ensures
            r matches AppError::Unauthorized(m) && m@ == msg@,
    {
        AppError::Unauthorized(String::from_str(msg))
    }

    pub fn not_found(msg: &str) -> (r: AppError)
        ensures
            r matches AppError::NotFound(m) && m@ == msg@,
    {
        AppError::NotFound(String::from_str(msg))
    }

    pub fn internal(msg: &str) -> (r: AppError)
        ensures
            r matches AppError::InternalError(m) && m@ == msg@,
    {
        AppError::InternalError(String::from_str(msg))
    }

    /// The HTTP status of the response that reports this failure.
    pub fn status_code(&self) -> (r: u16)
        ensures
            r == status_of(*self),
    {
        match self {
            AppError::JwtError(_) | AppError::Unauthorized(_) => 401,
            AppError::ValidationError(_) => 400,
            AppError::NotFound(_) => 404,
            _ => 500,
        }
    }

    /// The full text of the failure: its label, then its message or the
    /// outside error's own text.
    pub fn to_string(&self) -> (r: String)
        ensures
            message_of(*self) matches Some(m) ==> r@ == m,
            r@.len() >= label_of(*self).len(),
            r@.subrange(0, label_of(*self).len() as int) == label_of(*self),
    {
        let (label, detail) = match self {
            AppError::DatabaseError(e) => ("Database error: ", e.to_string()),
            AppError::RedisError(e) => ("Redis error: ", e.to_string()),
            AppError::JwtError(e) => ("JWT error: ", e.to_string()),
            AppError::BcryptError(e) => ("Bcrypt error: ", e.to_string()),
            AppError::ValidationError(m) => ("Validation error: ", m.clone()),
            AppError::Unauthorized(m) => ("Unauthorized: ", m.clone()),
            AppError::NotFound(m) => ("Not found: ", m.clone()),
            AppError::InternalError(m) => ("Internal error: ", m.clone()),
        };
        let r = crate::text::joined(label, detail.as_str());
        assert(r@.subrange(0, label@.len() as int) =~= label@);
        r
    }

    /// The text put in the body of the response: the full text where it is
    /// safe to show, a fixed phrase where the details stay on the server.
    pub fn client_message(&self) -> (r: String)
        ensures
            hidden_message_of(*self) matches Some(m) ==> r@ == m,
            message_of(*self) matches Some(m) ==> (hidden_message_of(*self) is None ==> r@ == m),
            self is JwtError ==> r@.subrange(0, label_of(*self).len() as int) == label_of(*self),
    {
        match self {
            AppError::DatabaseError(_) => String::from_str("Database error occurred"),
            AppError::RedisError(_) => String::from_str("Cache error occurred"),
            AppError::BcryptError(_) | AppError::InternalError(_) => String::from_str("Internal server error"),
            _ => self.to_string(),
        }
    }
}

impl From<sqlx::Error> for AppError {
    fn from(err: sqlx::Error) -> (r: AppError)
        ensures
            r == AppError::DatabaseError(err),
    {
        AppError::DatabaseError(err)
    }
}

impl vstd::std_specs::convert::FromSpecImpl<sqlx::Error> for AppError {
    open spec fn obeys_from_spec() -> bool {
        true
    }

    open spec fn from_spec(v: sqlx::Error) -> AppError {
        AppError::DatabaseError(v)
    }
}

impl From<redis::RedisError> for AppError {
    fn from(err: redis::RedisError) -> (r: AppError)
        ensures
            r == AppError::RedisError(err),
    {
        AppError::RedisError(err)
    }
}

impl vstd::std_specs::convert::FromSpecImpl<redis::RedisError> for AppError {
    open spec fn obeys_from_spec() -> bool {
        true
    }

    open spec fn from_spec(v: redis::RedisError) -> AppError {
        AppError::RedisError(v)
    }
}

impl From<jsonwebtoken::errors::Error> for AppError {
    fn from(err: jsonwebtoken::errors::Error) -> (r: AppError)
        ensures
            r == AppError::JwtError(err),
    {
        AppError::JwtError(err)
    }
}

impl vstd::std_specs::convert::FromSpecImpl<jsonwebtoken::errors::Error> for AppError {
    open spec fn obeys_from_spec() -> bool {
        true
    }

    open spec fn from_spec(v: jsonwebtoken::errors::Error) -> AppError {
        AppError::JwtError(v)
    }
}

impl From<bcrypt::BcryptError> for AppError {
    fn from(err: bcrypt::BcryptError) -> (r: AppError)
        ensures
            r == AppError::BcryptError(err),
    {
        AppError::BcryptError(err)
    }
}

impl vstd::std_specs::convert::FromSpecImpl<bcrypt::BcryptError> for AppError {
    open spec fn obeys_from_spec() -> bool {
        true
    }

    open spec fn from_spec(v: bcrypt::BcryptError) -> AppError {
        AppError::BcryptError(v)
    }
}

} // verus!
