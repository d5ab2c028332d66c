//! The window-blur manager: whether the native blur service came up, whether
//! a blur request is passed on, and what is reported of each native call.

use vstd::prelude::*;
use vstd::string::*;
use crate::text::{decimal, push_decimal, push_signed_decimal, signed_decimal};

verus! {

/// The blur radius, in pixels, that the window starts with.
pub const INITIAL_BLUR_RADIUS: u32 = 50;

/// Where a report line goes.
#[derive(Clone, Copy, Debug, PartialEq, Eq, Structural)]
pub enum Stream {
    Stdout,
    Stderr,
}

/// A line of the program's report of what the native calls did.
pub struct LogLine {
    pub stream: Stream,
    pub text: String,
}

/// What to do with a blur request.
pub enum BlurStep {
    /// Pass the request to the native blur service with this radius.
    Apply(u32),
    /// Do not touch the window; report this line.
    Refuse(LogLine),
}

/// Keeps whether the native blur service initialised; blur requests are
/// passed on only when it did.
pub struct WindowBlurManager {
    initialized: bool,
}

impl View for WindowBlurManager {
    type V = bool;

    closed spec fn view(&self) -> bool {
        self.initialized
    }
}

/// The report of a native call that returned `code`: the success text on
/// standard output when it is zero, else the failure text and the code on
/// standard error.
pub open spec fn reported(line: LogLine, code: int, success: Seq<char>, failure: Seq<char>) -> bool {
    if code == 0 {
        line.stream == Stream::Stdout && line.text@ == success
    } else {
        line.stream == Stream::Stderr && line.text@ == failure + signed_decimal(code)
    }
}

/// A line with the given text on the given stream.
fn log_line(stream: Stream, text: &str) -> (res: LogLine)
    ensures
        res.stream == stream,
        res.text@ == text@,
{
    LogLine { stream, text: String::from_str(text) }
}

impl WindowBlurManager {
    /// The manager, from the code that the native blur service's
    /// initialisation returned: initialised exactly when the code is zero.
    pub fn new(init_code: i32) -> (res: WindowBlurManager)
        ensures
            res@ == (init_code == 0),
    {
        WindowBlurManager { initialized: init_code == 0 }
    }

    /// Whether the native blur service initialised.
    pub fn is_initialized(&self) -> (res: bool)
        ensures
            res == self@,
    {
        self.initialized
    }

    /// The report of the initialisation.
    pub fn init_report(&self) -> (res: LogLine)
        ensures
            self@ ==> res.stream == Stream::Stdout
                && res.text@ == "✅ WindowBlurManager initialized successfully"@,
            !self@ ==> res.stream == Stream::Stderr
                && res.text@ == "❌ WindowBlurManager failed to initialize"@,
    {
        if self.initialized {
            log_line(Stream::Stdout, "✅ WindowBlurManager initialized successfully")
        } else {
            log_line(Stream::Stderr, "❌ WindowBlurManager failed to initialize")
        }
    }

    /// What to do with a request to blur the window with `radius` pixels:
    /// pass it on unchanged when the service initialised, else refuse it
    /// with an error line.
    pub fn set_blur(&self, radius: u32) -> (res: BlurStep)
        ensures
            self@ ==> res == BlurStep::Apply(radius),
            !self@ ==> (res matches BlurStep::Refuse(line) && line.stream == Stream::Stderr
                && line.text@ == "❌ Cannot apply blur - manager not initialized"@),
    {
        if self.initialized {
            BlurStep::Apply(radius)
        } else {
            BlurStep::Refuse(log_line(Stream::Stderr, "❌ Cannot apply blur - manager not initialized"))
        }
    }

    /// The report of a native blur call with `radius` that returned `code`.
    pub fn blur_report(radius: u32, code: i32) -> (res: LogLine)
        ensures
            reported(
                res,
                code as int,
                "✅ Blur applied successfully: radius="@ + decimal(radius as nat),
                "❌ Failed to apply blur: result="@,
            ),
    {
        if code == 0 {
            let mut text = String::from_str("✅ Blur applied successfully: radius=");
            push_decimal(&mut text, radius);
            LogLine { stream: Stream::Stdout, text }
        } else {
            let mut text = String::from_str("❌ Failed to apply blur: result=");
            push_signed_decimal(&mut text, code);
            LogLine { stream: Stream::Stderr, text }
        }
    }
}

/// The report of the native call that makes the title bar opaque, which
/// returned `code`.
pub fn titlebar_report(code: i32) -> (res: LogLine)
    ensures
        reported(res, code as int, "✅ Titlebar set to opaque"@, "❌ Failed to set titlebar opaque: result="@),
{
    if code == 0 {
        log_line(Stream::Stdout, "✅ Titlebar set to opaque")
    } else {
        let mut text = String::from_str("❌ Failed to set titlebar opaque: result=");
        push_signed_decimal(&mut text, code);
        LogLine { stream: Stream::Stderr, text }
    }
}

} // verus!
