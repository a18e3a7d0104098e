use alacritty_display::error::{Cause, Error, FontError, RenderError, WindowError};

fn window_error() -> WindowError {
    WindowError { description: String::from("window kind"), message: String::from("no window") }
}

fn font_error() -> FontError {
    FontError { description: String::from("font kind"), message: String::from("no font") }
}

fn render_error() -> RenderError {
    RenderError { description: String::from("render kind"), message: String::from("no shader") }
}

#[test]
fn window_error_speaks_for_itself() {
    let error = Error::from(window_error());
    assert!(matches!(error, Error::Window(_)));
    assert_eq!(error.description(), "window kind");
    assert_eq!(error.message(), "no window");
    assert!(matches!(error.cause(), Some(Cause::Window(e)) if e.message == "no window"));
}

#[test]
fn font_error_speaks_for_itself() {
    let error = Error::from(font_error());
    assert!(matches!(error, Error::Font(_)));
    assert_eq!(error.description(), "font kind");
    assert_eq!(error.message(), "no font");
    assert!(matches!(error.cause(), Some(Cause::Font(e)) if e.message == "no font"));
}

#[test]
fn render_error_speaks_for_itself() {
    let error = Error::from(render_error());
    assert!(matches!(error, Error::Render(_)));
    assert_eq!(error.description(), "render kind");
    assert_eq!(error.message(), "no shader");
    assert!(matches!(error.cause(), Some(Cause::Render(e)) if e.message == "no shader"));
}

#[test]
fn lost_context_is_worded_by_glutin() {
    let error = Error::from(glutin::ContextError::ContextLost);
    assert!(matches!(error, Error::ContextError(_)));
    assert_eq!(error.description(), "Context lost");
    assert_eq!(error.message(), "Context lost");
    assert!(matches!(
        error.cause(),
        Some(Cause::ContextError(glutin::ContextError::ContextLost))
    ));
}

#[test]
fn unavailable_function_is_worded_by_glutin() {
    let error = Error::from(glutin::ContextError::FunctionUnavailable);
    assert_eq!(error.description(), "Function unavailable");
    assert_eq!(error.message(), "Function unavailable");
}

#[test]
fn platform_error_keeps_its_words() {
    let error = Error::from(glutin::ContextError::OsError(String::from("eglSwapBuffers failed")));
    assert_eq!(error.description(), "eglSwapBuffers failed");
    assert_eq!(error.message(), "eglSwapBuffers failed");
}

fn full_disk() -> glutin::ContextError {
    glutin::ContextError::IoError(std::io::Error::new(std::io::ErrorKind::Other, "the disk is full"))
}

#[test]
#[allow(deprecated)]
fn io_error_has_the_words_that_glutin_gives() {
    let error = Error::from(full_disk());
    assert_eq!(error.description(), std::error::Error::description(&full_disk()));
    assert_eq!(error.message(), full_disk().to_string());
    let cause = error.cause().unwrap();
    assert_eq!(cause.description(), std::error::Error::description(&full_disk()));
    assert_eq!(cause.message(), full_disk().to_string());
}

#[test]
fn cause_has_the_same_words() {
    for error in [
        Error::from(window_error()),
        Error::from(font_error()),
        Error::from(render_error()),
        Error::from(glutin::ContextError::ContextLost),
    ] {
        let cause = error.cause().unwrap();
        assert_eq!(cause.description(), error.description());
        assert_eq!(cause.message(), error.message());
    }
}
