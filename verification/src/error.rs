//! The error type of the library.

use crate::text::concat;
use vstd::prelude::*;

verus! {

/// What can go wrong while a project is generated. Each kind carries the
/// message for the user.
#[derive(Debug, PartialEq)]
pub enum Error {
    /// A file or the network could not be read or written.
    Io(String),
    /// A YAML text could not be parsed.
    Yaml(String),
    /// A JSON text could not be parsed.
    Json(String),
    /// The OpenAPI document lacks something or refers to something missing.
    OpenApi(String),
    /// A template or the manifest cannot be used as asked.
    Template(String),
    /// The template engine rejected a template.
    Tera(String),
    /// The configuration is incomplete or contradictory.
    Config(String),
}

/// The model of an [`Error`].
pub enum ErrorView {
    Io(Seq<char>),
    Yaml(Seq<char>),
    Json(Seq<char>),
    OpenApi(Seq<char>),
    Template(Seq<char>),
    Tera(Seq<char>),
    Config(Seq<char>),
}

impl View for Error {
    type V = ErrorView;

    open spec fn view(&self) -> ErrorView {
        match self {
            Error::Io(m) => ErrorView::Io(m@),
            Error::Yaml(m) => ErrorView::Yaml(m@),
            Error::Json(m) => ErrorView::Json(m@),
            Error::OpenApi(m) => ErrorView::OpenApi(m@),
            Error::Template(m) => ErrorView::Template(m@),
            Error::Tera(m) => ErrorView::Tera(m@),
            Error::Config(m) => ErrorView::Config(m@),
        }
    }
}

impl ErrorView {
    /// The message that the error carries.
    pub open spec fn message(self) -> Seq<char> {
        match self {
            ErrorView::Io(m) => m,
            ErrorView::Yaml(m) => m,
            ErrorView::Json(m) => m,
            ErrorView::OpenApi(m) => m,
            ErrorView::Template(m) => m,
            ErrorView::Tera(m) => m,
            ErrorView::Config(m) => m,
        }
    }

    /// The words that introduce an error of this kind.
    pub open spec fn prefix(self) -> Seq<char> {
        match self {
            ErrorView::Io(_) => "I/O error: "@,
            ErrorView::Yaml(_) => "YAML parsing error: "@,
            ErrorView::Json(_) => "JSON parsing error: "@,
            ErrorView::OpenApi(_) => "OpenAPI error: "@,
            ErrorView::Template(_) => "Template error: "@,
            ErrorView::Tera(_) => "Template engine error: "@,
            ErrorView::Config(_) => "Configuration error: "@,
        }
    }

    /// The full text shown to the user.
    pub open spec fn text(self) -> Seq<char> {
        self.prefix() + self.message()
    }
}

impl Error {
    /// A configuration error with the given message.
    pub fn config(msg: &str) -> (r: Error)
        ensures
            r@ == ErrorView::Config(msg@),
    {
        Error::Config(String::from_str(msg))
    }

    /// An OpenAPI error with the given message.
    pub fn openapi(msg: &str) -> (r: Error)
        ensures
            r@ == ErrorView::OpenApi(msg@),
    {
        Error::OpenApi(String::from_str(msg))
    }

    /// A template error with the given message.
    pub fn template(msg: &str) -> (r: Error)
        ensures
            r@ == ErrorView::Template(msg@),
    {
        Error::Template(String::from_str(msg))
    }

    /// A copy of the error.
    pub fn duplicate(&self) -> (r: Error)
        ensures
            r@ == self@,
    {
        match self {
            Error::Io(m) => Error::Io(m.clone()),
            Error::Yaml(m) => Error::Yaml(m.clone()),
            Error::Json(m) => Error::Json(m.clone()),
            Error::OpenApi(m) => Error::OpenApi(m.clone()),
            Error::Template(m) => Error::Template(m.clone()),
            Error::Tera(m) => Error::Tera(m.clone()),
            Error::Config(m) => Error::Config(m.clone()),
        }
    }

    /// The full text shown to the user: the kind, then the message.
    pub fn to_string(&self) -> (r: String)
        ensures
            r@ == self@.text(),
    {
        match self {
            Error::Io(m) => concat("I/O error: ", m.as_str()),
            Error::Yaml(m) => concat("YAML parsing error: ", m.as_str()),
            Error::Json(m) => concat("JSON parsing error: ", m.as_str()),
            Error::OpenApi(m) => concat("OpenAPI error: ", m.as_str()),
            Error::Template(m) => concat("Template error: ", m.as_str()),
            Error::Tera(m) => concat("Template engine error: ", m.as_str()),
            Error::Config(m) => concat("Configuration error: ", m.as_str()),
        }
    }
}

} // verus!
