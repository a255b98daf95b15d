//! Errors: what a request to manage stores, pages and products can fail with,
//! and the kinds of failure inside a scrape cycle.

use vstd::prelude::*;
use vstd::string::*;

verus! {

/// One rule that one field of a payload broke.
#[derive(Debug)]
pub struct FieldError {
    pub field: String,
    pub code: String,
    pub message: String,
}

/// The texts of a `FieldError`.
pub struct FieldErrorView {
    pub field: Seq<char>,
    pub code: Seq<char>,
    pub message: Seq<char>,
}

impl View for FieldError {
    type V = FieldErrorView;

    open spec fn view(&self) -> FieldErrorView {
        FieldErrorView { field: self.field@, code: self.code@, message: self.message@ }
    }
}

/// The rules that a payload broke, in the order of its fields.
#[derive(Debug)]
pub struct ValidationErrors {
    pub errors: Vec<FieldError>,
}

impl View for ValidationErrors {
    type V = Seq<FieldErrorView>;

    open spec fn view(&self) -> Seq<FieldErrorView> {
        self.errors@.map_values(|e: FieldError| e@)
    }
}

impl ValidationErrors {
    /// No broken rule.
    pub fn new() -> (r: Self)
        ensures
            r@ == Seq::<FieldErrorView>::empty(),
    {
        let r = ValidationErrors { errors: Vec::new() };
        assert(r@ =~= Seq::<FieldErrorView>::empty());
        r
    }

    /// Records that `field` broke the rule `code`.
    pub fn add(&mut self, field: &str, code: &str, message: &str)
        ensures
            final(self)@ == old(self)@.push(
                FieldErrorView { field: field@, code: code@, message: message@ },
            ),
    {
        let e = FieldError {
            field: field.to_owned(),
            code: code.to_owned(),
            message: message.to_owned(),
        };
        self.errors.push(e);
        assert(self@ =~= old(self)@.push(e@));
    }

    /// Whether no rule was broken.
    pub fn is_empty(&self) -> (r: bool)
        ensures
            r == (self@.len() == 0),
    {
        self.errors.len() == 0
    }
}

/// Why a request failed.
#[derive(Debug)]
pub enum AppError {
    /// Something went wrong while serving the request; the text says what.
    ServerError(String),
    /// The payload broke the listed rules.
    ValidationError(ValidationErrors),
}

/// The HTTP status for a failure inside the server.
pub const STATUS_INTERNAL_SERVER_ERROR: u16 = 500;

/// The HTTP status for a payload that broke a rule.
pub const STATUS_BAD_REQUEST: u16 = 400;

impl AppError {
    /// A server error with the given text.
    pub fn server(message: &str) -> (r: AppError)
        ensures
            r matches AppError::ServerError(m) && m@ == message@,
    {
        AppError::ServerError(message.to_owned())
    }

    /// The text shown for this error: `internal server error ` followed by the
    /// cause, or `invalid payload`.
    pub fn to_string(&self) -> (r: String)
        ensures
            r@ == match *self {
                AppError::ServerError(m) => "internal server error "@ + m@,
                AppError::ValidationError(_) => "invalid payload"@,
            },
    {
        match self {
            AppError::ServerError(m) => "internal server error ".to_owned().concat(m.as_str()),
            AppError::ValidationError(_) => "invalid payload".to_owned(),
        }
    }

    /// The HTTP status that answers this error.
    pub fn status_code(&self) -> (r: u16)
        ensures
            r == match *self {
                AppError::ServerError(_) => STATUS_INTERNAL_SERVER_ERROR,
                AppError::ValidationError(_) => STATUS_BAD_REQUEST,
            },
    {
        match self {
            AppError::ServerError(_) => STATUS_INTERNAL_SERVER_ERROR,
            AppError::ValidationError(_) => STATUS_BAD_REQUEST,
        }
    }
}

/// The kinds of failure inside a scrape cycle.
#[derive(Clone, Copy, Debug, PartialEq, Eq, Structural)]
pub enum ErrorKind {
    /// A page or a rendering session failed.
    Render,
    /// A selector or a navigation did not arrive in time.
    Timeout,
    /// The vendor's detail service failed, or its answer could not be read.
    Fetch,
    /// The persistence gateway failed.
    Storage,
    /// A payload was malformed, or named a row that does not exist.
    Validation,
}

/// A failure inside a scrape cycle.
#[derive(Debug)]
pub struct ScrapeError {
    pub kind: ErrorKind,
    pub message: String,
}

impl ScrapeError {
    /// A failure of the given kind.
    pub fn new(kind: ErrorKind, message: &str) -> (r: ScrapeError)
        ensures
            r.kind == kind,
            r.message@ == message@,
    {
        ScrapeError { kind, message: message.to_owned() }
    }

    /// The failure that a rejected request stands for inside a cycle: a broken
    /// rule is a validation failure, anything else a storage failure. The text
    /// is that of `AppError::to_string`.
    pub fn from_app(error: &AppError) -> (r: ScrapeError)
        ensures
            r.kind == match *error {
                AppError::ServerError(_) => ErrorKind::Storage,
                AppError::ValidationError(_) => ErrorKind::Validation,
            },
            r.message@ == match *error {
                AppError::ServerError(m) => "internal server error "@ + m@,
                AppError::ValidationError(_) => "invalid payload"@,
            },
    {
        let kind = match error {
            AppError::ServerError(_) => ErrorKind::Storage,
            AppError::ValidationError(_) => ErrorKind::Validation,
        };
        ScrapeError { kind, message: error.to_string() }
    }
}

impl Clone for ScrapeError {
    fn clone(&self) -> (r: Self)
        ensures
            r == *self,
    {
        ScrapeError { kind: self.kind, message: self.message.clone() }
    }
}

} // verus!
