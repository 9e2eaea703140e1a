//! The crate-wide error type and its builders.
//!
//! `Error` is generic over the type of the underlying cause that a
//! content-processing error may carry; by default it is a boxed standard
//! error.

use crate::text::{join, join_strings, strings_view};
use std::error::Error as StdError;
use vstd::prelude::*;

verus! {

#[verifier::external_type_specification]
#[verifier::external_body]
pub struct ExIoError(std::io::Error);

/// How serious a content-processing error is.
#[derive(Debug, Clone, Copy, PartialEq, Eq)]
#[non_exhaustive]
pub enum ErrorSeverity {
    /// For information only.
    Info,
    /// Worth attention.
    Warning,
    /// An error.
    Error,
    /// The run cannot go on.
    Critical,
}

/// The name of a severity, as its variant is written.
pub open spec fn severity_name(s: ErrorSeverity) -> Seq<char> {
    match s {
        ErrorSeverity::Info => "Info"@,
        ErrorSeverity::Warning => "Warning"@,
        ErrorSeverity::Error => "Error"@,
        ErrorSeverity::Critical => "Critical"@,
    }
}

impl ErrorSeverity {
    /// The name of this severity.
    pub fn name(&self) -> (r: &'static str)
        ensures
            r@ == severity_name(*self),
    {
        match self {
            ErrorSeverity::Info => "Info",
            ErrorSeverity::Warning => "Warning",
            ErrorSeverity::Error => "Error",
            ErrorSeverity::Critical => "Critical",
        }
    }
}

/// Errors of site generation.
#[allow(inconsistent_fields)]
#[derive(Debug)]
pub enum Error<S = Box<dyn StdError + Send + Sync>> {
    /// A configuration problem.
    Config(String),
    /// A problem in processing content.
    ContentProcessing {
        /// What went wrong.
        message: String,
        /// The underlying error, if any.
        source: Option<S>,
    },
    /// An I/O failure.
    Io {
        /// The I/O error.
        source: std::io::Error,
        /// Where it happened.
        context: String,
    },
    /// Any other failure.
    Other(String),
    /// A template problem.
    Template(String),
}

/// The message of a content-processing error: the message (or
/// `"Unknown error"`), then the contexts in parentheses, all after the
/// severity in brackets.
pub open spec fn content_message(
    message: Option<Seq<char>>,
    contexts: Seq<Seq<char>>,
    severity: Option<ErrorSeverity>,
) -> Seq<char> {
    let base = match message {
        Some(m) => m,
        None => "Unknown error"@,
    };
    let with_context = if contexts.len() == 0 {
        base
    } else {
        base + " (Context: "@ + join(contexts, ", "@) + ")"@
    };
    match severity {
        Some(s) => "["@ + severity_name(s) + "] "@ + with_context,
        None => with_context,
    }
}

/// Builds a content-processing [`Error`] step by step.
#[derive(Debug, Default)]
pub struct ContentProcessingErrorBuilder<S = Box<dyn StdError + Send + Sync>> {
    message: Option<String>,
    source: Option<S>,
    additional_context: Vec<String>,
    severity: Option<ErrorSeverity>,
}

impl<S> ContentProcessingErrorBuilder<S> {
    /// The message set so far.
    pub closed spec fn message_view(&self) -> Option<Seq<char>> {
        match self.message {
            Some(m) => Some(m@),
            None => None,
        }
    }

    /// The underlying error set so far.
    pub closed spec fn source_view(&self) -> Option<S> {
        self.source
    }

    /// The contexts added so far, in order.
    pub closed spec fn contexts_view(&self) -> Seq<Seq<char>> {
        strings_view(self.additional_context@)
    }

    /// The severity set so far.
    pub closed spec fn severity_view(&self) -> Option<ErrorSeverity> {
        self.severity
    }

    /// An empty builder.
    pub fn new() -> (r: Self)
        ensures
            r.message_view() is None,
            r.source_view() is None,
            r.contexts_view() == Seq::<Seq<char>>::empty(),
            r.severity_view() is None,
    {
        let r = ContentProcessingErrorBuilder {
            message: None,
            source: None,
            additional_context: Vec::new(),
            severity: None,
        };
        proof {
            assert(r.contexts_view() =~= Seq::<Seq<char>>::empty());
        }
        r
    }

    /// Sets the message.
    pub fn message(self, msg: &str) -> (r: Self)
        ensures
            r.message_view() == Some(msg@),
            r.source_view() == self.source_view(),
            r.contexts_view() == self.contexts_view(),
            r.severity_view() == self.severity_view(),
    {
        ContentProcessingErrorBuilder { message: Some(msg.to_owned()), ..self }
    }

    /// Sets the underlying error.
    pub fn source(self, err: S) -> (r: Self)
        ensures
            r.message_view() == self.message_view(),
            r.source_view() == Some(err),
            r.contexts_view() == self.contexts_view(),
            r.severity_view() == self.severity_view(),
    {
        ContentProcessingErrorBuilder { source: Some(err), ..self }
    }

    /// Adds a context after those already added.
    pub fn context(self, ctx: &str) -> (r: Self)
        ensures
            r.message_view() == self.message_view(),
            r.source_view() == self.source_view(),
            r.contexts_view() == self.contexts_view().push(ctx@),
            r.severity_view() == self.severity_view(),
    {
        let mut b = self;
        b.additional_context.push(ctx.to_owned());
        proof {
            assert(b.contexts_view() =~= self.contexts_view().push(ctx@));
        }
        b
    }

    /// Sets the severity.
    pub fn severity(self, severity: ErrorSeverity) -> (r: Self)
        ensures
            r.message_view() == self.message_view(),
            r.source_view() == self.source_view(),
            r.contexts_view() == self.contexts_view(),
            r.severity_view() == Some(severity),
    {
        ContentProcessingErrorBuilder { severity: Some(severity), ..self }
    }

    /// The content-processing error, with the message that
    /// [`content_message`] describes and the underlying error.
    pub fn build(self) -> (r: Error<S>)
        ensures
            r matches Error::ContentProcessing { message, source } && message@ == content_message(
                self.message_view(),
                self.contexts_view(),
                self.severity_view(),
            ) && source == self.source_view(),
    {
        let mut message = match self.message {
            Some(m) => m,
            None => "Unknown error".to_owned(),
        };
        if self.additional_context.len() > 0 {
            let joined = join_strings(&self.additional_context, ", ");
            message.append(" (Context: ");
            message.append(joined.as_str());
            message.append(")");
        }
        if let Some(severity) = self.severity {
            let mut prefixed = "[".to_owned();
            prefixed.append(severity.name());
            prefixed.append("] ");
            prefixed.append(message.as_str());
            message = prefixed;
        }
        Error::ContentProcessing { message, source: self.source }
    }
}

/// Relies on `std::io::Error::new`: an error of kind `Other` whose message
/// is "Unknown IO error".
#[verifier::external_body]
fn unknown_io_error() -> std::io::Error {
    std::io::Error::new(std::io::ErrorKind::Other, "Unknown IO error")
}

/// Relies on the `Display` of `std::io::Error`: its message.
#[verifier::external_body]
fn io_error_text(e: &std::io::Error) -> String {
    e.to_string()
}

/// One labelled part of an I/O context, if its value is there.
pub open spec fn context_part(label: Seq<char>, value: Option<Seq<char>>) -> Seq<Seq<char>> {
    match value {
        Some(v) => seq![label + v],
        None => Seq::<Seq<char>>::empty(),
    }
}

/// The context of an I/O error: the operation, the path and the free
/// context, each when set, joined by `" | "`, or `"No additional context"`
/// when none is set.
pub open spec fn io_context(
    operation: Option<Seq<char>>,
    path: Option<Seq<char>>,
    context: Option<Seq<char>>,
) -> Seq<char> {
    let parts = context_part("Operation: "@, operation) + context_part("Path: "@, path)
        + context_part(Seq::<char>::empty(), context);
    if parts.len() == 0 {
        "No additional context"@
    } else {
        join(parts, " | "@)
    }
}

/// The characters of an optional string.
pub open spec fn opt_view(o: Option<String>) -> Option<Seq<char>> {
    match o {
        Some(s) => Some(s@),
        None => None,
    }
}

/// Builds an I/O [`Error`] step by step.
#[derive(Debug, Default)]
pub struct IoErrorBuilder {
    source: Option<std::io::Error>,
    context: Option<String>,
    operation: Option<String>,
    path: Option<String>,
}

impl IoErrorBuilder {
    /// The I/O error set so far.
    pub closed spec fn source_view(&self) -> Option<std::io::Error> {
        self.source
    }

    /// The free context set so far.
    pub closed spec fn context_view(&self) -> Option<Seq<char>> {
        opt_view(self.context)
    }

    /// The operation set so far.
    pub closed spec fn operation_view(&self) -> Option<Seq<char>> {
        opt_view(self.operation)
    }

    /// The path set so far.
    pub closed spec fn path_view(&self) -> Option<Seq<char>> {
        opt_view(self.path)
    }

    /// An empty builder.
    pub fn new() -> (r: Self)
        ensures
            r.source_view() is None,
            r.context_view() is None,
            r.operation_view() is None,
            r.path_view() is None,
    {
        IoErrorBuilder { source: None, context: None, operation: None, path: None }
    }

    /// Sets the I/O error.
    pub fn source(self, err: std::io::Error) -> (r: Self)
        ensures
            r.source_view() == Some(err),
            r.context_view() == self.context_view(),
            r.operation_view() == self.operation_view(),
            r.path_view() == self.path_view(),
    {
        IoErrorBuilder { source: Some(err), ..self }
    }

    /// Sets the free context.
    pub fn context(self, ctx: &str) -> (r: Self)
        ensures
            r.source_view() == self.source_view(),
            r.context_view() == Some(ctx@),
            r.operation_view() == self.operation_view(),
            r.path_view() == self.path_view(),
    {
        IoErrorBuilder { context: Some(ctx.to_owned()), ..self }
    }

    /// Sets the operation.
    pub fn operation(self, op: &str) -> (r: Self)
        ensures
            r.source_view() == self.source_view(),
            r.context_view() == self.context_view(),
            r.operation_view() == Some(op@),
            r.path_view() == self.path_view(),
    {
        IoErrorBuilder { operation: Some(op.to_owned()), ..self }
    }

    /// Sets the path.
    pub fn path(self, path: &str) -> (r: Self)
        ensures
            r.source_view() == self.source_view(),
            r.context_view() == self.context_view(),
            r.operation_view() == self.operation_view(),
            r.path_view() == Some(path@),
    {
        IoErrorBuilder { path: Some(path.to_owned()), ..self }
    }

    /// Sets the operation and the path together.
    pub fn with_operation_and_path(self, operation: &str, path: &str) -> (r: Self)
        ensures
            r.source_view() == self.source_view(),
            r.context_view() == self.context_view(),
            r.operation_view() == Some(operation@),
            r.path_view() == Some(path@),
    {
        IoErrorBuilder { operation: Some(operation.to_owned()), path: Some(path.to_owned()), ..self }
    }

    /// The I/O error, with the context that [`io_context`] describes; without
    /// an I/O error set, one of kind `Other` saying "Unknown IO error".
    pub fn build<S>(self) -> (r: Error<S>)
        ensures
            r matches Error::Io { source, context } && context@ == io_context(
                self.operation_view(),
                self.path_view(),
                self.context_view(),
            ) && (self.source_view() matches Some(e) ==> source == e),
    {
        let source = match self.source {
            Some(e) => e,
            None => unknown_io_error(),
        };
        let mut parts: Vec<String> = Vec::new();
        if let Some(op) = self.operation {
            let mut part = "Operation: ".to_owned();
            part.append(op.as_str());
            parts.push(part);
        }
        if let Some(path) = self.path {
            let mut part = "Path: ".to_owned();
            part.append(path.as_str());
            parts.push(part);
        }
        if let Some(ctx) = self.context {
            parts.push(ctx);
        }
        let ghost want = context_part("Operation: "@, self.operation_view()) + context_part(
            "Path: "@,
            self.path_view(),
        ) + context_part(Seq::<char>::empty(), self.context_view());
        proof {
            assert(strings_view(parts@) =~= want);
        }
        let context = if parts.len() == 0 {
            "No additional context".to_owned()
        } else {
            join_strings(&parts, " | ")
        };
        Error::Io { source, context }
    }
}

/// The text of an error other than an I/O error.
pub open spec fn error_text<S>(e: Error<S>) -> Seq<char> {
    match e {
        Error::Config(m) => "Configuration Error: "@ + m@,
        Error::ContentProcessing { message, .. } => "Content Processing Error: "@ + message@,
        Error::Io { context, .. } => "IO Error: "@ + context@ + " - "@,
        Error::Other(m) => "Unhandled Error: "@ + m@,
        Error::Template(m) => "Template Error: "@ + m@,
    }
}

impl<S> Error<S> {
    /// A builder of content-processing errors.
    pub fn content_processing_builder() -> (r: ContentProcessingErrorBuilder<S>)
        ensures
            r.message_view() is None,
            r.source_view() is None,
            r.contexts_view() == Seq::<Seq<char>>::empty(),
            r.severity_view() is None,
    {
        ContentProcessingErrorBuilder::new()
    }

    /// A builder of I/O errors.
    pub fn io_builder() -> (r: IoErrorBuilder)
        ensures
            r.source_view() is None,
            r.context_view() is None,
            r.operation_view() is None,
            r.path_view() is None,
    {
        IoErrorBuilder::new()
    }

    /// An I/O error with its context.
    pub fn io(source: std::io::Error, context: &str) -> (r: Self)
        ensures
            r matches Error::Io { source: s, context: c } && s == source && c@ == context@,
    {
        Error::Io { source, context: context.to_owned() }
    }

    /// A content-processing error with its message and underlying error.
    pub fn content_processing(message: &str, source: Option<S>) -> (r: Self)
        ensures
            r matches Error::ContentProcessing { message: m, source: s } && m@ == message@ && s
                == source,
    {
        Error::ContentProcessing { message: message.to_owned(), source }
    }

    /// The human-readable message of this error; that of an I/O error ends
    /// with the message of the I/O error itself.
    pub fn to_string(&self) -> (r: String)
        ensures
            !(self is Io) ==> r@ == error_text(*self),
            self is Io ==> r@.len() >= error_text(*self).len() && r@.take(
                error_text(*self).len() as int,
            ) == error_text(*self),
    {
        let (head, body) = match self {
            Error::Config(m) => ("Configuration Error: ", m),
            Error::ContentProcessing { message, .. } => ("Content Processing Error: ", message),
            Error::Io { source, context } => {
                let mut out = "IO Error: ".to_owned();
                out.append(context.as_str());
                out.append(" - ");
                let ghost prefix = out@;
                let detail = io_error_text(source);
                out.append(detail.as_str());
                proof {
                    assert(out@.take(prefix.len() as int) =~= prefix);
                }
                return out;
            },
            Error::Other(m) => ("Unhandled Error: ", m),
            Error::Template(m) => ("Template Error: ", m),
        };
        let mut out = head.to_owned();
        out.append(body.as_str());
        out
    }
}

impl<S> From<std::io::Error> for Error<S> {
    fn from(err: std::io::Error) -> Self {
        Error::Io { source: err, context: "Unexpected IO error".to_owned() }
    }
}

impl<S> vstd::std_specs::convert::FromSpecImpl<std::io::Error> for Error<S> {
    open spec fn obeys_from_spec() -> bool {
        false
    }

    open spec fn from_spec(v: std::io::Error) -> Self {
        Error::Io { source: v, context: arbitrary() }
    }
}

impl<S> From<&str> for Error<S> {
    fn from(msg: &str) -> Self {
        Error::Other(msg.to_owned())
    }
}

impl<S> vstd::std_specs::convert::FromSpecImpl<&str> for Error<S> {
    open spec fn obeys_from_spec() -> bool {
        false
    }

    open spec fn from_spec(v: &str) -> Self {
        Error::Other(arbitrary())
    }
}

impl<S> From<String> for Error<S> {
    fn from(msg: String) -> Self {
        Error::Other(msg)
    }
}

impl<S> vstd::std_specs::convert::FromSpecImpl<String> for Error<S> {
    open spec fn obeys_from_spec() -> bool {
        true
    }

    open spec fn from_spec(v: String) -> Self {
        Error::Other(v)
    }
}

} // verus!
