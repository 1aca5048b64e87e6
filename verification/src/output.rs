//! What is printed, where, and in which colour. The streams themselves are
//! the caller's business; this module decides.

use vstd::prelude::*;

verus! {

/// The user's wish for coloured output.
#[derive(Clone, Copy, Debug, PartialEq, Eq, Structural)]
pub enum ColorChoice {
    Auto,
    Always,
    Never,
}

/// Whether output is coloured. `Always` and `Never` decide by themselves.
/// `Auto` refuses when `NO_COLOR` is set, else agrees when `FORCE_COLOR` is
/// set, else follows the terminal.
pub open spec fn use_color_of(
    choice: ColorChoice,
    no_color_set: bool,
    force_color_set: bool,
    stdout_is_terminal: bool,
) -> bool {
    match choice {
        ColorChoice::Always => true,
        ColorChoice::Never => false,
        ColorChoice::Auto => !no_color_set && (force_color_set || stdout_is_terminal),
    }
}

/// Whether output is coloured, from the user's wish, from whether the
/// environment variables `NO_COLOR` and `FORCE_COLOR` are set, and from
/// whether standard output is a terminal.
pub fn should_use_color(
    choice: ColorChoice,
    no_color_set: bool,
    force_color_set: bool,
    stdout_is_terminal: bool,
) -> (yes: bool)
    ensures
        yes == use_color_of(choice, no_color_set, force_color_set, stdout_is_terminal),
{
    match choice {
        ColorChoice::Always => true,
        ColorChoice::Never => false,
        ColorChoice::Auto => {
            if no_color_set {
                false
            } else if force_color_set {
                true
            } else {
                stdout_is_terminal
            }
        },
    }
}

/// The four kinds of message.
#[derive(Clone, Copy, Debug, PartialEq, Eq, Structural)]
pub enum MessageKind {
    Info,
    Success,
    Error,
    Warning,
}

/// Foreground colours in use.
#[derive(Clone, Copy, Debug, PartialEq, Eq, Structural)]
pub enum Color {
    Blue,
    Green,
    Red,
    Yellow,
}

/// The two output streams.
#[derive(Clone, Copy, Debug, PartialEq, Eq, Structural)]
pub enum Stream {
    Stdout,
    Stderr,
}

/// How the streams are opened: left to detect colour support, or plain.
#[derive(Clone, Copy, Debug, PartialEq, Eq, Structural)]
pub enum StreamMode {
    Auto,
    Never,
}

impl MessageKind {
    /// Information and success go to standard output, errors and warnings to
    /// standard error.
    pub open spec fn stream_of(self) -> Stream {
        match self {
            MessageKind::Info | MessageKind::Success => Stream::Stdout,
            MessageKind::Error | MessageKind::Warning => Stream::Stderr,
        }
    }

    /// Blue for information, green for success, red for errors, yellow for
    /// warnings.
    pub open spec fn color_of(self) -> Color {
        match self {
            MessageKind::Info => Color::Blue,
            MessageKind::Success => Color::Green,
            MessageKind::Error => Color::Red,
            MessageKind::Warning => Color::Yellow,
        }
    }

    /// The stream a message of this kind is written to.
    pub fn stream(self) -> (stream: Stream)
        ensures
            stream == self.stream_of(),
    {
        match self {
            MessageKind::Info => Stream::Stdout,
            MessageKind::Success => Stream::Stdout,
            MessageKind::Error => Stream::Stderr,
            MessageKind::Warning => Stream::Stderr,
        }
    }

    /// The colour a message of this kind is written in, when colour is on.
    pub fn color(self) -> (color: Color)
        ensures
            color == self.color_of(),
    {
        match self {
            MessageKind::Info => Color::Blue,
            MessageKind::Success => Color::Green,
            MessageKind::Error => Color::Red,
            MessageKind::Warning => Color::Yellow,
        }
    }
}

/// Where one message goes and what surrounds it.
#[derive(Clone, Copy, Debug, PartialEq, Eq, Structural)]
pub struct Style {
    pub stream: Stream,
    /// The colour to set before the text and to reset after it, if any.
    pub color: Option<Color>,
}

/// The colour setting of the process, fixed once at start-up.
#[derive(Clone, Copy, Debug, PartialEq, Eq, Structural)]
pub struct ColorOutput {
    pub use_color: bool,
}

impl ColorOutput {
    /// Settles the colour question for the whole run.
    pub fn new(
        choice: ColorChoice,
        no_color_set: bool,
        force_color_set: bool,
        stdout_is_terminal: bool,
    ) -> (output: ColorOutput)
        ensures
            output.use_color == use_color_of(
                choice,
                no_color_set,
                force_color_set,
                stdout_is_terminal,
            ),
    {
        ColorOutput {
            use_color: should_use_color(
                choice,
                no_color_set,
                force_color_set,
                stdout_is_terminal,
            ),
        }
    }

    /// How both streams are to be opened.
    pub fn stream_mode(&self) -> (mode: StreamMode)
        ensures
            mode == if self.use_color {
                StreamMode::Auto
            } else {
                StreamMode::Never
            },
    {
        if self.use_color {
            StreamMode::Auto
        } else {
            StreamMode::Never
        }
    }

    /// Stream and colour for a message of the given kind.
    pub fn style(&self, kind: MessageKind) -> (style: Style)
        ensures
            style.stream == kind.stream_of(),
            style.color == if self.use_color {
                Some(kind.color_of())
            } else {
                None
            },
    {
        Style {
            stream: kind.stream(),
            color: if self.use_color {
                Some(kind.color())
            } else {
                None
            },
        }
    }
}

/// One line of output.
#[derive(Debug, Clone, PartialEq, Eq)]
pub struct Line {
    pub kind: MessageKind,
    pub text: String,
}

/// The mathematical content of a [`Line`].
pub struct LineView {
    pub kind: MessageKind,
    pub text: Seq<char>,
}

impl View for Line {
    type V = LineView;

    open spec fn view(&self) -> LineView {
        LineView { kind: self.kind, text: self.text@ }
    }
}

/// The contents of several lines, in order.
pub open spec fn lines_view(lines: Seq<Line>) -> Seq<LineView> {
    lines.map_values(|line: Line| line@)
}

/// What is shown of `lines`: nothing in quiet mode, all of them otherwise.
pub open spec fn unless_quiet(quiet: bool, lines: Seq<LineView>) -> Seq<LineView> {
    if quiet {
        Seq::empty()
    } else {
        lines
    }
}

} // verus!
