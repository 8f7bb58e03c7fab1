use crate::domain::values::optional_text;
use crate::shared::text::same_text;
use vstd::prelude::*;
use vstd::string::StringExecFns;

verus! {

/// A request that the service refuses as malformed or as not matching the
/// customer it is made for.
#[derive(Debug, Clone, PartialEq, Eq)]
pub struct ApiError {
    pub msg: String,
}

/// A write that a uniqueness or reference rule of the store refuses.
#[derive(Debug, Clone, PartialEq, Eq)]
pub struct ConflictError {
    pub msg: String,
}

/// A failure of the store, or of reading what it returned, that fits no
/// other class.
#[derive(Debug, Clone, PartialEq, Eq)]
pub struct InternalError {
    pub msg: String,
}

/// What the database says of a statement that it refused.
#[derive(Debug, Clone, PartialEq, Eq)]
pub struct DbError {
    /// The five-character SQLSTATE code.
    pub code: String,
    pub message: String,
    pub detail: Option<String>,
}

/// A failure that the store's client reports: what the database said, where
/// the failure came from the database, and the failure as text.
#[derive(Debug, Clone, PartialEq, Eq)]
pub struct StoreError {
    pub db_error: Option<DbError>,
    pub text: String,
}

/// Every way in which a request can fail.
#[derive(Debug, Clone, PartialEq, Eq)]
pub enum MyError {
    /// The record that the request names does not exist.
    NotFound,
    /// The store's client failed.
    PGError(StoreError),
    /// A row could not be read into a record; the payload says why.
    PGMError(String),
    /// No connection to the store could be had; the payload says why.
    PoolError(String),
    Conflict(ConflictError),
    Internal(InternalError),
    ApiError(ApiError),
}

/// The body of an error answer: a stable code, a message for people, and
/// optional detail.
#[derive(Debug, Clone, PartialEq, Eq)]
pub struct ErrorResponse {
    pub error: String,
    pub message: String,
    pub details: Option<String>,
}

/// An error answer: the HTTP status and the body.
#[derive(Debug, Clone, PartialEq, Eq)]
pub struct HttpError {
    pub status: u16,
    pub body: ErrorResponse,
}

/// What a `DbError` holds, with its text as sequences of characters.
pub struct DbErrorView {
    pub code: Seq<char>,
    pub message: Seq<char>,
    pub detail: Option<Seq<char>>,
}

/// What a `StoreError` holds, with its text as sequences of characters.
pub struct StoreErrorView {
    pub db_error: Option<DbErrorView>,
    pub text: Seq<char>,
}

/// What a `MyError` holds, with its text as sequences of characters.
pub enum MyErrorView {
    NotFound,
    PGError(StoreErrorView),
    PGMError(Seq<char>),
    PoolError(Seq<char>),
    Conflict(Seq<char>),
    Internal(Seq<char>),
    ApiError(Seq<char>),
}

/// What an `ErrorResponse` holds, with its text as sequences of characters.
pub struct ErrorResponseView {
    pub error: Seq<char>,
    pub message: Seq<char>,
    pub details: Option<Seq<char>>,
}

/// What an `HttpError` holds.
pub struct HttpErrorView {
    pub status: u16,
    pub body: ErrorResponseView,
}

impl View for ApiError {
    type V = Seq<char>;

    open spec fn view(&self) -> Seq<char> {
        self.msg@
    }
}

impl View for ConflictError {
    type V = Seq<char>;

    open spec fn view(&self) -> Seq<char> {
        self.msg@
    }
}

impl View for InternalError {
    type V = Seq<char>;

    open spec fn view(&self) -> Seq<char> {
        self.msg@
    }
}

impl View for DbError {
    type V = DbErrorView;

    open spec fn view(&self) -> DbErrorView {
        DbErrorView {
            code: self.code@,
            message: self.message@,
            detail: optional_text(self.detail),
        }
    }
}

impl View for StoreError {
    type V = StoreErrorView;

    open spec fn view(&self) -> StoreErrorView {
        StoreErrorView {
            db_error: match self.db_error {
                Some(db_error) => Some(db_error@),
                None => None,
            },
            text: self.text@,
        }
    }
}

impl View for MyError {
    type V = MyErrorView;

    open spec fn view(&self) -> MyErrorView {
        match self {
            MyError::NotFound => MyErrorView::NotFound,
            MyError::PGError(error) => MyErrorView::PGError(error@),
            MyError::PGMError(text) => MyErrorView::PGMError(text@),
            MyError::PoolError(text) => MyErrorView::PoolError(text@),
            MyError::Conflict(error) => MyErrorView::Conflict(error@),
            MyError::Internal(error) => MyErrorView::Internal(error@),
            MyError::ApiError(error) => MyErrorView::ApiError(error@),
        }
    }
}

impl View for ErrorResponse {
    type V = ErrorResponseView;

    open spec fn view(&self) -> ErrorResponseView {
        ErrorResponseView {
            error: self.error@,
            message: self.message@,
            details: optional_text(self.details),
        }
    }
}

impl View for HttpError {
    type V = HttpErrorView;

    open spec fn view(&self) -> HttpErrorView {
        HttpErrorView { status: self.status, body: self.body@ }
    }
}

/// The SQLSTATE code of a write that breaks a uniqueness rule.
pub const UNIQUE_VIOLATION: &'static str = "23505";

/// The SQLSTATE code of a write that names a record which does not exist.
pub const FOREIGN_KEY_VIOLATION: &'static str = "23503";

/// The HTTP status of a request that is refused as it stands.
pub const STATUS_BAD_REQUEST: u16 = 400;

/// The HTTP status of a request for a record that does not exist.
pub const STATUS_NOT_FOUND: u16 = 404;

/// The HTTP status of a write that a rule of the store refuses.
pub const STATUS_CONFLICT: u16 = 409;

/// The HTTP status of a failure on the service's side.
pub const STATUS_INTERNAL_SERVER_ERROR: u16 = 500;

impl ErrorResponse {
    /// A body with a code and a message, and no detail.
    pub fn new(error: String, message: String) -> (response: Self)
        ensures
            response@ == (ErrorResponseView { error: error@, message: message@, details: None }),
            response.error == error,
            response.message == message,
    {
        Self { error, message, details: None }
    }

    /// A body with the given code, message and detail. Nothing of `self` is
    /// kept.
    pub fn with_details(self, error: String, message: String, details: String) -> (response:
        Self)
        ensures
            response@ == (ErrorResponseView {
                error: error@,
                message: message@,
                details: Some(details@),
            }),
    {
        Self { error, message, details: Some(details) }
    }
}

/// The class that a failure of the store's client falls in.
pub open spec fn mapped_db_error(error: StoreErrorView) -> MyErrorView {
    match error.db_error {
        Some(db_error) => {
            if db_error.code == UNIQUE_VIOLATION@ {
                MyErrorView::Conflict("Unique constraint violation: "@ + db_error.message)
            } else if db_error.code == FOREIGN_KEY_VIOLATION@ {
                MyErrorView::Conflict("Foreign key violation: "@ + db_error.message)
            } else {
                MyErrorView::Internal("Database error: "@ + db_error.message)
            }
        },
        None => MyErrorView::Internal(error.text),
    }
}

/// Classifies a failure of the store's client: a write that breaks a
/// uniqueness or reference rule is a conflict, every other failure is
/// internal.
pub fn map_db_error(error: StoreError) -> (mapped: MyError)
    ensures
        mapped@ == mapped_db_error(error@),
{
    match error.db_error {
        Some(db_error) => {
            if same_text(db_error.code.as_str(), UNIQUE_VIOLATION) {
                let mut msg = String::from_str("Unique constraint violation: ");
                msg.append(db_error.message.as_str());
                MyError::Conflict(ConflictError { msg })
            } else if same_text(db_error.code.as_str(), FOREIGN_KEY_VIOLATION) {
                let mut msg = String::from_str("Foreign key violation: ");
                msg.append(db_error.message.as_str());
                MyError::Conflict(ConflictError { msg })
            } else {
                let mut msg = String::from_str("Database error: ");
                msg.append(db_error.message.as_str());
                MyError::Internal(InternalError { msg })
            }
        },
        None => MyError::Internal(InternalError { msg: error.text }),
    }
}

/// The detail of a database error, or the empty text where it has none.
pub open spec fn detail_or_empty(detail: Option<Seq<char>>) -> Seq<char> {
    match detail {
        Some(text) => text,
        None => Seq::empty(),
    }
}

/// The answer that a failure is shown as.
pub open spec fn error_response_of(error: MyErrorView) -> HttpErrorView {
    match error {
        MyErrorView::NotFound => HttpErrorView {
            status: STATUS_NOT_FOUND,
            body: ErrorResponseView {
                error: "not_found"@,
                message: "The requested resource was not found"@,
                details: None,
            },
        },
        MyErrorView::PoolError(text) => HttpErrorView {
            status: STATUS_INTERNAL_SERVER_ERROR,
            body: ErrorResponseView {
                error: "pool_error"@,
                message: text,
                details: Some(Seq::empty()),
            },
        },
        MyErrorView::Conflict(msg) => HttpErrorView {
            status: STATUS_CONFLICT,
            body: ErrorResponseView { error: "conflict"@, message: msg, details: None },
        },
        MyErrorView::Internal(msg) => HttpErrorView {
            status: STATUS_INTERNAL_SERVER_ERROR,
            body: ErrorResponseView { error: "internal_error"@, message: msg, details: None },
        },
        MyErrorView::ApiError(msg) => HttpErrorView {
            status: STATUS_BAD_REQUEST,
            body: ErrorResponseView { error: "api_error"@, message: msg, details: None },
        },
        MyErrorView::PGError(store_error) => match store_error.db_error {
            Some(db_error) => HttpErrorView {
                status: if db_error.code == UNIQUE_VIOLATION@ {
                    STATUS_CONFLICT
                } else if db_error.code == FOREIGN_KEY_VIOLATION@ {
                    STATUS_BAD_REQUEST
                } else {
                    STATUS_INTERNAL_SERVER_ERROR
                },
                body: ErrorResponseView {
                    error: "database_error"@,
                    message: db_error.message,
                    details: Some(detail_or_empty(db_error.detail)),
                },
            },
            None => HttpErrorView {
                status: STATUS_INTERNAL_SERVER_ERROR,
                body: ErrorResponseView {
                    error: "database_error"@,
                    message: "Database communication error"@,
                    details: None,
                },
            },
        },
        MyErrorView::PGMError(text) => HttpErrorView {
            status: STATUS_INTERNAL_SERVER_ERROR,
            body: ErrorResponseView {
                error: "pg_mapper_error"@,
                message: text,
                details: Some(Seq::empty()),
            },
        },
    }
}

impl MyError {
    /// The answer that this failure is shown as: the status, a stable code,
    /// a message, and detail where the store gave any.
    pub fn error_response(&self) -> (answer: HttpError)
        ensures
            answer@ == error_response_of(self@),
    {
        match self {
            MyError::NotFound => HttpError {
                status: STATUS_NOT_FOUND,
                body: ErrorResponse::new(
                    String::from_str("not_found"),
                    String::from_str("The requested resource was not found"),
                ),
            },
            MyError::PoolError(text) => HttpError {
                status: STATUS_INTERNAL_SERVER_ERROR,
                body: ErrorResponse::new(
                    String::from_str("database_error"),
                    String::from_str("Database connection error"),
                ).with_details(String::from_str("pool_error"), text.clone(), String::new()),
            },
            MyError::Conflict(conflict_error) => HttpError {
                status: STATUS_CONFLICT,
                body: ErrorResponse::new(String::from_str("conflict"), conflict_error.msg.clone()),
            },
            MyError::Internal(internal_error) => HttpError {
                status: STATUS_INTERNAL_SERVER_ERROR,
                body: ErrorResponse::new(
                    String::from_str("internal_error"),
                    internal_error.msg.clone(),
                ),
            },
            MyError::ApiError(api_error) => HttpError {
                status: STATUS_BAD_REQUEST,
                body: ErrorResponse::new(String::from_str("api_error"), api_error.msg.clone()),
            },
            MyError::PGError(store_error) => match &store_error.db_error {
                Some(db_error) => {
                    let details = match &db_error.detail {
                        Some(text) => text.clone(),
                        None => String::new(),
                    };
                    if same_text(db_error.code.as_str(), UNIQUE_VIOLATION) {
                        HttpError {
                            status: STATUS_CONFLICT,
                            body: ErrorResponse::new(
                                String::from_str("unique_violation"),
                                String::from_str("Unique constraint violation"),
                            ).with_details(
                                String::from_str("database_error"),
                                db_error.message.clone(),
                                details,
                            ),
                        }
                    } else if same_text(db_error.code.as_str(), FOREIGN_KEY_VIOLATION) {
                        HttpError {
                            status: STATUS_BAD_REQUEST,
                            body: ErrorResponse::new(
                                String::from_str("foreign_key_violation"),
                                String::from_str("Foreign key violation"),
                            ).with_details(
                                String::from_str("database_error"),
                                db_error.message.clone(),
                                details,
                            ),
                        }
                    } else {
                        HttpError {
                            status: STATUS_INTERNAL_SERVER_ERROR,
                            body: ErrorResponse::new(
                                String::from_str("database_error"),
                                String::from_str("Database error"),
                            ).with_details(
                                String::from_str("database_error"),
                                db_error.message.clone(),
                                details,
                            ),
                        }
                    }
                },
                None => HttpError {
                    status: STATUS_INTERNAL_SERVER_ERROR,
                    body: ErrorResponse::new(
                        String::from_str("database_error"),
                        String::from_str("Database communication error"),
                    ),
                },
            },
            MyError::PGMError(text) => HttpError {
                status: STATUS_INTERNAL_SERVER_ERROR,
                body: ErrorResponse::new(
                    String::from_str("mapping_error"),
                    String::from_str("Data mapping error"),
                ).with_details(String::from_str("pg_mapper_error"), text.clone(), String::new()),
            },
        }
    }
}

} // verus!
