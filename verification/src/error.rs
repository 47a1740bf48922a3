//! Errors of the bootstrap tool.
//!
//! An [`AppError`] is one of a few kinds of failure, possibly wrapped in
//! layers of context. The two questions the rest of the library asks of an
//! error are answered here: whether it is, at its root, an HTTP 409 answer
//! from the identity server ([`AppError::is_conflict`]), and how it reads
//! when shown to a person ([`AppError::render`]).
use vstd::prelude::*;

verus! {

/// What the library keeps of a failure reported by the identity server's
/// client: the HTTP status, when the failure was an HTTP answer, and the
/// client's own description of the failure.
#[derive(Debug)]
pub struct KanidmError {
    pub http_status: Option<u16>,
    pub description: String,
}

/// A failure of the bootstrap tool.
#[derive(Debug)]
pub enum AppError {
    /// A failure of the operating system, with its message.
    Io(String),
    /// A configuration file that is not valid TOML for its shape, with the
    /// parser's message.
    Toml(String),
    /// A failure reported by the identity server's client.
    Kanidm(KanidmError),
    /// Another error, with a sentence that says what was being done.
    WithContext { message: String, source: Box<AppError> },
    /// Any other failure, with its message.
    Other(String),
}

/// The result type of the bootstrap tool.
pub type AppResult<T> = Result<T, AppError>;

/// `http::StatusCode::CONFLICT` as a number. The `http` crate defines this
/// constant as status 409 ("Conflict"), and `as_u16` gives back that number;
/// nothing else is claimed.
#[verifier::external_body]
fn conflict_status() -> (code: u16)
    ensures
        code == 409,
{
    http::StatusCode::CONFLICT.as_u16()
}

/// The text shown for an error: its kind's prefix, and each context sentence
/// in front of the error it wraps, joined by ": ".
pub open spec fn rendered(e: AppError) -> Seq<char>
    decreases e,
{
    match e {
        AppError::Io(m) => "IO error: "@ + m@,
        AppError::Toml(m) => "Config parse error: "@ + m@,
        AppError::Kanidm(k) => "Kanidm client error: "@ + k.description@,
        AppError::WithContext { message, source } => message@ + ": "@ + rendered(*source),
        AppError::Other(m) => "Unknown error: "@ + m@,
    }
}

/// Whether an error is, under all its context, an HTTP 409 (Conflict) answer
/// from the identity server.
pub open spec fn signals_conflict(e: AppError) -> bool
    decreases e,
{
    match e {
        AppError::Kanidm(k) => k.http_status == Some(409u16),
        AppError::WithContext { message, source } => signals_conflict(*source),
        _ => false,
    }
}

/// The error that wraps `source` in the context sentence `message`.
pub open spec fn wraps(e: AppError, message: Seq<char>, source: AppError) -> bool {
    e matches AppError::WithContext { message: m, source: s } && m@ == message && *s == source
}

impl AppError {
    /// Whether this error is an HTTP 409 (Conflict) answer, looking through
    /// every layer of context.
    pub fn is_conflict(&self) -> (r: bool)
        ensures
            r == signals_conflict(*self),
        decreases *self,
    {
        match self {
            AppError::Kanidm(k) => match k.http_status {
                Some(status) => status == conflict_status(),
                None => false,
            },
            AppError::WithContext { message: _, source } => {
                let inner: &AppError = source;
                inner.is_conflict()
            },
            _ => false,
        }
    }

    /// Wraps this error in a sentence that says what was being done.
    pub fn context(self, message: &str) -> (r: AppError)
        ensures
            wraps(r, message@, self),
    {
        AppError::WithContext { message: String::from_str(message), source: Box::new(self) }
    }

    /// The text shown for this error (see [`rendered`]).
    pub fn render(&self) -> (r: String)
        ensures
            r@ == rendered(*self),
        decreases *self,
    {
        match self {
            AppError::Io(m) => String::from_str("IO error: ").concat(m.as_str()),
            AppError::Toml(m) => String::from_str("Config parse error: ").concat(m.as_str()),
            AppError::Kanidm(k) => String::from_str("Kanidm client error: ").concat(
                k.description.as_str(),
            ),
            AppError::WithContext { message, source } => {
                let inner: &AppError = source;
                let tail = inner.render();
                message.clone().concat(": ").concat(tail.as_str())
            },
            AppError::Other(m) => String::from_str("Unknown error: ").concat(m.as_str()),
        }
    }
}

impl From<KanidmError> for AppError {
    fn from(err: KanidmError) -> (r: AppError) {
        AppError::Kanidm(err)
    }
}

impl vstd::std_specs::convert::FromSpecImpl<KanidmError> for AppError {
    open spec fn obeys_from_spec() -> bool {
        true
    }

    open spec fn from_spec(err: KanidmError) -> AppError {
        AppError::Kanidm(err)
    }
}

/// Wrapping an error in context keeps whether it is a conflict.
pub proof fn lemma_context_keeps_conflict(e: AppError, message: Seq<char>, wrapped: AppError)
    requires
        wraps(wrapped, message, e),
    ensures
        signals_conflict(wrapped) == signals_conflict(e),
{
}

/// The text of an error wrapped in context is the context sentence, ": ",
/// then the text of the error.
pub proof fn lemma_context_renders_in_front(e: AppError, message: Seq<char>, wrapped: AppError)
    requires
        wraps(wrapped, message, e),
    ensures
        rendered(wrapped) == message + ": "@ + rendered(e),
{
}

/// A client failure is a conflict exactly when its HTTP status is 409:
/// every other status (400, 404, 500, ...) and a failure without a status is
/// not, and a context sentence in front changes nothing. Failures of the
/// other kinds are never conflicts.
pub proof fn lemma_only_409_is_conflict(k: KanidmError, message: Seq<char>, wrapped: AppError, m: String)
    requires
        wraps(wrapped, message, AppError::Kanidm(k)),
    ensures
        signals_conflict(AppError::Kanidm(k)) <==> k.http_status == Some(409u16),
        signals_conflict(wrapped) <==> k.http_status == Some(409u16),
        k.http_status != Some(409u16) ==> !signals_conflict(wrapped),
        !signals_conflict(AppError::Io(m)),
        !signals_conflict(AppError::Toml(m)),
        !signals_conflict(AppError::Other(m)),
{
}

} // verus!
