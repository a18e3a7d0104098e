//! What errors say, and what they come from.

use vstd::prelude::*;

use crate::error::{
    is_context_description, is_context_message, Cause, Error, FontError, RenderError, WindowError,
};

verus! {

/// The text that is known for a context error: a platform error's own words, and a fixed text for a
/// lost context and for a function that is not available.
pub open spec fn is_known_text(error: glutin::ContextError, text: Seq<char>) -> bool {
    &&& error matches glutin::ContextError::OsError(words) ==> text == words@
    &&& error is ContextLost ==> text == "Context lost"@
    &&& error is FunctionUnavailable ==> text == "Function unavailable"@
}

/// An error is described by the description of the error that it holds, and by nothing else.
pub proof fn errors_are_described_by_what_they_hold(error: Error, text: &str)
    requires
        call_ensures(Error::description, (&error,), text),
    ensures
        error matches Error::Window(held) ==> text@ == held.description@,
        error matches Error::Font(held) ==> text@ == held.description@,
        error matches Error::Render(held) ==> text@ == held.description@,
        error matches Error::ContextError(held) ==> is_context_description(held, text@)
            && is_known_text(held, text@),
{
}

/// An error is put in the words of the error that it holds, and in no others.
pub proof fn errors_are_worded_by_what_they_hold(error: Error, text: String)
    requires
        call_ensures(Error::message, (&error,), text),
    ensures
        error matches Error::Window(held) ==> text@ == held.message@,
        error matches Error::Font(held) ==> text@ == held.message@,
        error matches Error::Render(held) ==> text@ == held.message@,
        error matches Error::ContextError(held) ==> is_context_message(held, text@)
            && is_known_text(held, text@),
{
}

/// The cause of an error is the error that it holds, of the same kind.
pub proof fn causes_are_what_errors_hold<'a>(error: &'a Error, cause: Option<Cause<'a>>)
    requires
        call_ensures(Error::cause, (error,), cause),
    ensures
        *error matches Error::Window(held) ==> (cause matches Some(Cause::Window(found)) && *found
            == held),
        *error matches Error::Font(held) ==> (cause matches Some(Cause::Font(found)) && *found
            == held),
        *error matches Error::Render(held) ==> (cause matches Some(Cause::Render(found)) && *found
            == held),
        *error matches Error::ContextError(held) ==> (cause matches Some(
            Cause::ContextError(found),
        ) && *found == held),
{
}

/// A cause is described by its own description, and put in its own words.
pub proof fn causes_speak_for_themselves<'a>(cause: Cause<'a>, description: &'a str, message: String)
    requires
        call_ensures(Cause::<'a>::description, (&cause,), description),
        call_ensures(Cause::<'a>::message, (&cause,), message),
    ensures
        cause matches Cause::Window(held) ==> description@ == held.description@ && message@
            == held.message@,
        cause matches Cause::Font(held) ==> description@ == held.description@ && message@
            == held.message@,
        cause matches Cause::Render(held) ==> description@ == held.description@ && message@
            == held.message@,
        cause matches Cause::ContextError(held) ==> {
            &&& is_context_description(*held, description@)
            &&& is_known_text(*held, description@)
            &&& is_context_message(*held, message@)
            &&& is_known_text(*held, message@)
        },
{
}

/// An error that becomes an error of the display is held by it, unchanged, as one of its kind.
pub proof fn conversion_keeps_the_error(
    window: WindowError,
    from_window: Error,
    font: FontError,
    from_font: Error,
    render: RenderError,
    from_render: Error,
    context: glutin::ContextError,
    from_context: Error,
)
    requires
        call_ensures(<Error as From<WindowError>>::from, (window,), from_window),
        call_ensures(<Error as From<FontError>>::from, (font,), from_font),
        call_ensures(<Error as From<RenderError>>::from, (render,), from_render),
        call_ensures(<Error as From<glutin::ContextError>>::from, (context,), from_context),
    ensures
        from_window == Error::Window(window),
        from_font == Error::Font(font),
        from_render == Error::Render(render),
        from_context == Error::ContextError(context),
{
}

} // verus!
