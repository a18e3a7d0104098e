//! What can go wrong in the display.

use vstd::prelude::*;
use vstd::std_specs::convert::FromSpec;

verus! {

/// `std::io::Error`, which this crate only passes on.
#[verifier::external_type_specification]
#[verifier::external_body]
pub struct ExIoError(std::io::Error);

/// `glutin::ContextError`, with its variants: a platform error in words, an I/O error, a lost
/// context and a function that is not available.
#[verifier::external_type_specification]
pub struct ExContextError(glutin::ContextError);

/// An error with window management.
#[derive(Debug)]
pub struct WindowError {
    /// What kind of error it is.
    pub description: String,
    /// The error in words, for users.
    pub message: String,
}

/// An error dealing with fonts.
#[derive(Debug)]
pub struct FontError {
    /// What kind of error it is.
    pub description: String,
    /// The error in words, for users.
    pub message: String,
}

/// An error in the renderer.
#[derive(Debug)]
pub struct RenderError {
    /// What kind of error it is.
    pub description: String,
    /// The error in words, for users.
    pub message: String,
}

/// An error of the display.
#[derive(Debug)]
pub enum Error {
    /// Error with window management.
    Window(WindowError),
    /// Error dealing with fonts.
    Font(FontError),
    /// Error in renderer.
    Render(RenderError),
    /// Error during buffer swap.
    ContextError(glutin::ContextError),
}

/// The error that an error of the display comes from.
#[derive(Debug)]
pub enum Cause<'a> {
    /// Error with window management.
    Window(&'a WindowError),
    /// Error dealing with fonts.
    Font(&'a FontError),
    /// Error in renderer.
    Render(&'a RenderError),
    /// Error during buffer swap.
    ContextError(&'a glutin::ContextError),
}

/// What is known of the words that `glutin` has for `error`. Of those for an I/O error nothing is:
/// they are the standard library's.
pub open spec fn words_context_error(error: glutin::ContextError, text: Seq<char>) -> bool {
    match error {
        glutin::ContextError::OsError(words) => text == words@,
        glutin::ContextError::IoError(_) => true,
        glutin::ContextError::ContextLost => text == "Context lost"@,
        glutin::ContextError::FunctionUnavailable => text == "Function unavailable"@,
    }
}

/// Calls `description` of `glutin::ContextError`'s impl of `std::error::Error`. It gives a platform
/// error's own words, and a fixed text for a lost context and for a function that is not available.
/// Of an I/O error it gives that error's description, on whose words nothing is claimed.
#[verifier::external_body]
fn context_error_description(error: &glutin::ContextError) -> (text: &str)
    ensures
        words_context_error(*error, text@),
{
    #[allow(deprecated)]
    std::error::Error::description(error)
}

/// Formats a `glutin::ContextError` by its impl of `std::fmt::Display`, which writes the same words
/// as its description. On the words for an I/O error nothing is claimed.
#[verifier::external_body]
fn context_error_message(error: &glutin::ContextError) -> (text: String)
    ensures
        words_context_error(*error, text@),
{
    format!("{}", error)
}

/// `text` is what `glutin` gave, in answer to a call, as the description of this very error.
pub closed spec fn is_context_description(error: glutin::ContextError, text: Seq<char>) -> bool {
    exists|given: &str| #[trigger]
        call_ensures(context_error_description, (&error,), given) && given@ == text
}

/// `text` is what `glutin` gave, in answer to a call, when this very error was formatted.
pub closed spec fn is_context_message(error: glutin::ContextError, text: Seq<char>) -> bool {
    exists|given: String| #[trigger]
        call_ensures(context_error_message, (&error,), given) && given@ == text
}

/// The description of a context error.
fn describe_context_error(error: &glutin::ContextError) -> (text: &str)
    ensures
        words_context_error(*error, text@),
        is_context_description(*error, text@),
{
    let text = context_error_description(error);
    assert(call_ensures(context_error_description, (error,), text));
    text
}

/// A context error in words.
fn format_context_error(error: &glutin::ContextError) -> (text: String)
    ensures
        words_context_error(*error, text@),
        is_context_message(*error, text@),
{
    let text = context_error_message(error);
    assert(call_ensures(context_error_message, (error,), text));
    text
}

impl<'a> Cause<'a> {
    /// `text` describes this cause.
    pub open spec fn described_by(self, text: Seq<char>) -> bool {
        match self {
            Cause::Window(error) => text == error.description@,
            Cause::Font(error) => text == error.description@,
            Cause::Render(error) => text == error.description@,
            Cause::ContextError(error) => {
                &&& words_context_error(*error, text)
                &&& is_context_description(*error, text)
            },
        }
    }

    /// `text` is this cause in words.
    pub open spec fn worded_as(self, text: Seq<char>) -> bool {
        match self {
            Cause::Window(error) => text == error.message@,
            Cause::Font(error) => text == error.message@,
            Cause::Render(error) => text == error.message@,
            Cause::ContextError(error) => {
                &&& words_context_error(*error, text)
                &&& is_context_message(*error, text)
            },
        }
    }

    /// This is an I/O error. Its words are the standard library's.
    pub open spec fn is_io_error(self) -> bool {
        self matches Cause::ContextError(error) && error is IoError
    }

    /// What kind of error this cause is.
    pub fn description(&self) -> (text: &'a str)
        ensures
            self.described_by(text@),
    {
        match self {
            Cause::Window(error) => error.description.as_str(),
            Cause::Font(error) => error.description.as_str(),
            Cause::Render(error) => error.description.as_str(),
            Cause::ContextError(error) => describe_context_error(error),
        }
    }

    /// This cause in words, for users.
    pub fn message(&self) -> (text: String)
        ensures
            self.worded_as(text@),
    {
        match self {
            Cause::Window(error) => error.message.clone(),
            Cause::Font(error) => error.message.clone(),
            Cause::Render(error) => error.message.clone(),
            Cause::ContextError(error) => format_context_error(error),
        }
    }
}

/// The error that `error` comes from.
pub open spec fn cause_of<'a>(error: &'a Error) -> Cause<'a> {
    match error {
        Error::Window(error) => Cause::Window(error),
        Error::Font(error) => Cause::Font(error),
        Error::Render(error) => Cause::Render(error),
        Error::ContextError(error) => Cause::ContextError(error),
    }
}

impl Error {
    /// `text` describes this error: it is the description of the error that this one comes from.
    pub open spec fn described_by(self, text: Seq<char>) -> bool {
        match self {
            Error::Window(error) => text == error.description@,
            Error::Font(error) => text == error.description@,
            Error::Render(error) => text == error.description@,
            Error::ContextError(error) => {
                &&& words_context_error(error, text)
                &&& is_context_description(error, text)
            },
        }
    }

    /// `text` is this error in words: those of the error that this one comes from.
    pub open spec fn worded_as(self, text: Seq<char>) -> bool {
        match self {
            Error::Window(error) => text == error.message@,
            Error::Font(error) => text == error.message@,
            Error::Render(error) => text == error.message@,
            Error::ContextError(error) => {
                &&& words_context_error(error, text)
                &&& is_context_message(error, text)
            },
        }
    }

    /// The error that this one comes from. There always is one.
    pub fn cause(&self) -> (cause: Option<Cause<'_>>)
        ensures
            cause == Some(cause_of(self)),
    {
        match self {
            Error::Window(error) => Some(Cause::Window(error)),
            Error::Font(error) => Some(Cause::Font(error)),
            Error::Render(error) => Some(Cause::Render(error)),
            Error::ContextError(error) => Some(Cause::ContextError(error)),
        }
    }

    /// What kind of error this is.
    pub fn description(&self) -> (text: &str)
        ensures
            self.described_by(text@),
    {
        match self {
            Error::Window(error) => error.description.as_str(),
            Error::Font(error) => error.description.as_str(),
            Error::Render(error) => error.description.as_str(),
            Error::ContextError(error) => describe_context_error(error),
        }
    }

    /// This error in words, for users.
    pub fn message(&self) -> (text: String)
        ensures
            self.worded_as(text@),
    {
        match self {
            Error::Window(error) => error.message.clone(),
            Error::Font(error) => error.message.clone(),
            Error::Render(error) => error.message.clone(),
            Error::ContextError(error) => format_context_error(error),
        }
    }
}

impl From<WindowError> for Error {
    fn from(val: WindowError) -> (error: Error) {
        Error::Window(val)
    }
}

impl vstd::std_specs::convert::FromSpecImpl<WindowError> for Error {
    open spec fn obeys_from_spec() -> bool {
        true
    }

    open spec fn from_spec(val: WindowError) -> Error {
        Error::Window(val)
    }
}

impl From<FontError> for Error {
    fn from(val: FontError) -> (error: Error) {
        Error::Font(val)
    }
}

impl vstd::std_specs::convert::FromSpecImpl<FontError> for Error {
    open spec fn obeys_from_spec() -> bool {
        true
    }

    open spec fn from_spec(val: FontError) -> Error {
        Error::Font(val)
    }
}

impl From<RenderError> for Error {
    fn from(val: RenderError) -> (error: Error) {
        Error::Render(val)
    }
}

impl vstd::std_specs::convert::FromSpecImpl<RenderError> for Error {
    open spec fn obeys_from_spec() -> bool {
        true
    }

    open spec fn from_spec(val: RenderError) -> Error {
        Error::Render(val)
    }
}

impl From<glutin::ContextError> for Error {
    fn from(val: glutin::ContextError) -> (error: Error) {
        Error::ContextError(val)
    }
}

impl vstd::std_specs::convert::FromSpecImpl<glutin::ContextError> for Error {
    open spec fn obeys_from_spec() -> bool {
        true
    }

    open spec fn from_spec(val: glutin::ContextError) -> Error {
        Error::ContextError(val)
    }
}

/// An error is described, and put in words, as the error that it comes from, with nothing added: of
/// a context error, an I/O error too, all texts are what `glutin` gave for that one error. The texts
/// are the same, save for an I/O error, whose words the standard library may choose anew.
pub proof fn an_error_speaks_for_its_cause(
    error: Error,
    description: Seq<char>,
    cause_description: Seq<char>,
    message: Seq<char>,
    cause_message: Seq<char>,
)
    requires
        error.described_by(description),
        cause_of(&error).described_by(cause_description),
        error.worded_as(message),
        cause_of(&error).worded_as(cause_message),
    ensures
        cause_of(&error).described_by(description),
        cause_of(&error).worded_as(message),
        error matches Error::ContextError(context) ==> {
            &&& is_context_description(context, description)
            &&& is_context_description(context, cause_description)
            &&& is_context_message(context, message)
            &&& is_context_message(context, cause_message)
        },
        !cause_of(&error).is_io_error() ==> description == cause_description && message
            == cause_message,
{
}

/// Whatever a context error says, an I/O error too, `glutin` said it of that very error when asked.
proof fn context_errors_speak_in_words_of_glutin(
    error: glutin::ContextError,
    description: &str,
    message: String,
)
    requires
        call_ensures(Error::description, (&Error::ContextError(error),), description),
        call_ensures(Error::message, (&Error::ContextError(error),), message),
    ensures
        exists|given: &str| #[trigger]
            call_ensures(context_error_description, (&error,), given) && given@ == description@,
        exists|given: String| #[trigger]
            call_ensures(context_error_message, (&error,), given) && given@ == message@,
{
}

/// A window error that becomes an error of the display is its cause, unchanged, and gives it its
/// words.
pub proof fn a_window_error_is_kept(val: WindowError)
    ensures
        ({
            let error = <Error as FromSpec<WindowError>>::from_spec(val);
            &&& cause_of(&error) == Cause::Window(&val)
            &&& forall|text: Seq<char>| #[trigger] error.worded_as(text) <==> text == val.message@
        }),
{
}

/// A font error that becomes an error of the display is its cause, unchanged, and gives it its
/// words.
pub proof fn a_font_error_is_kept(val: FontError)
    ensures
        ({
            let error = <Error as FromSpec<FontError>>::from_spec(val);
            &&& cause_of(&error) == Cause::Font(&val)
            &&& forall|text: Seq<char>| #[trigger] error.worded_as(text) <==> text == val.message@
        }),
{
}

/// A render error that becomes an error of the display is its cause, unchanged, and gives it its
/// words.
pub proof fn a_render_error_is_kept(val: RenderError)
    ensures
        ({
            let error = <Error as FromSpec<RenderError>>::from_spec(val);
            &&& cause_of(&error) == Cause::Render(&val)
            &&& forall|text: Seq<char>| #[trigger] error.worded_as(text) <==> text == val.message@
        }),
{
}

/// A context error that becomes an error of the display is its cause, unchanged, and gives it its
/// words: what `glutin` gives for that very error, an I/O error too.
pub proof fn a_context_error_is_kept(val: glutin::ContextError)
    ensures
        ({
            let error = <Error as FromSpec<glutin::ContextError>>::from_spec(val);
            &&& cause_of(&error) == Cause::ContextError(&val)
            &&& forall|text: Seq<char>| #[trigger]
                error.worded_as(text) <==> words_context_error(val, text) && is_context_message(
                    val,
                    text,
                )
            &&& forall|text: Seq<char>| #[trigger]
                error.described_by(text) <==> words_context_error(val, text)
                    && is_context_description(val, text)
        }),
{
}

} // verus!
