//! The wording of everything the converter may report: warnings that leave the
//! run going with a default, and the fatal errors that end it.

use vstd::prelude::*;

verus! {

/// The decimal digit character for `d`, meaningful for `0 <= d <= 9`.
pub open spec fn digit(d: int) -> char {
    if d == 0 {
        '0'
    } else if d == 1 {
        '1'
    } else if d == 2 {
        '2'
    } else if d == 3 {
        '3'
    } else if d == 4 {
        '4'
    } else if d == 5 {
        '5'
    } else if d == 6 {
        '6'
    } else if d == 7 {
        '7'
    } else if d == 8 {
        '8'
    } else {
        '9'
    }
}

/// The decimal numeral of `n`, most significant digit first, without leading zeros.
pub open spec fn decimal(n: nat) -> Seq<char>
    decreases n,
{
    if n < 10 {
        seq![digit(n as int)]
    } else {
        decimal(n / 10).push(digit((n % 10) as int))
    }
}

fn digit_text(d: u8) -> (text: &'static str)
    requires
        d < 10,
    ensures
        text@ == seq![digit(d as int)],
{
    proof {
        reveal_strlit("0");
        reveal_strlit("1");
        reveal_strlit("2");
        reveal_strlit("3");
        reveal_strlit("4");
        reveal_strlit("5");
        reveal_strlit("6");
        reveal_strlit("7");
        reveal_strlit("8");
        reveal_strlit("9");
    }
    let text = if d == 0 {
        "0"
    } else if d == 1 {
        "1"
    } else if d == 2 {
        "2"
    } else if d == 3 {
        "3"
    } else if d == 4 {
        "4"
    } else if d == 5 {
        "5"
    } else if d == 6 {
        "6"
    } else if d == 7 {
        "7"
    } else if d == 8 {
        "8"
    } else {
        "9"
    };
    assert(text@ =~= seq![digit(d as int)]);
    text
}

/// Writes `n` as a decimal numeral.
pub fn decimal_text(n: u8) -> (text: String)
    ensures
        text@ == decimal(n as nat),
{
    let mut text = String::new();
    if n >= 100 {
        text.append(digit_text(n / 100));
    }
    if n >= 10 {
        text.append(digit_text((n / 10) % 10));
    }
    text.append(digit_text(n % 10));
    proof {
        reveal_with_fuel(decimal, 3);
        assert(text@ =~= decimal(n as nat));
    }
    text
}

/// A condition that is reported while the run goes on with a default.
#[derive(Debug, PartialEq, Eq)]
pub enum Warning {
    /// The requested quality lies outside 1..=100.
    InvalidQuality(u8),
    /// The background text is not a color; holds that text.
    UnparseableBackground(String),
    /// The background text is a color, but the renderer refused its channels.
    RejectedBackground,
    /// The supplementary font directory does not exist; holds its path as shown to the user.
    MissingFontsDir(String),
}

/// What a [`Warning`] holds, with texts as character sequences.
pub enum WarningView {
    InvalidQuality(u8),
    UnparseableBackground(Seq<char>),
    RejectedBackground,
    MissingFontsDir(Seq<char>),
}

impl View for Warning {
    type V = WarningView;

    open spec fn view(&self) -> WarningView {
        match *self {
            Warning::InvalidQuality(q) => WarningView::InvalidQuality(q),
            Warning::UnparseableBackground(text) => WarningView::UnparseableBackground(text@),
            Warning::RejectedBackground => WarningView::RejectedBackground,
            Warning::MissingFontsDir(dir) => WarningView::MissingFontsDir(dir@),
        }
    }
}

impl DeepView for Warning {
    type V = WarningView;

    open spec fn deep_view(&self) -> WarningView {
        self@
    }
}

impl WarningView {
    /// The line that reports this warning.
    pub open spec fn text(self) -> Seq<char> {
        match self {
            WarningView::InvalidQuality(q) => "Warning: Invalid quality '"@ + decimal(q as nat)
                + "'. Using default 80."@,
            WarningView::UnparseableBackground(text) => "Warning: Failed to parse background color '"@
                + text + "'. Using default white."@,
            WarningView::RejectedBackground =>
                "Warning: Invalid background color alpha. Using default white."@,
            WarningView::MissingFontsDir(dir) => "Warning: Fonts directory '"@ + dir
                + "' does not exist"@,
        }
    }
}

impl Warning {
    /// The line that reports this warning.
    pub fn message(&self) -> (line: String)
        ensures
            line@ == self@.text(),
    {
        match self {
            Warning::InvalidQuality(q) => {
                let mut line = String::from_str("Warning: Invalid quality '");
                let number = decimal_text(*q);
                line.append(number.as_str());
                line.append("'. Using default 80.");
                line
            },
            Warning::UnparseableBackground(text) => {
                let mut line = String::from_str("Warning: Failed to parse background color '");
                line.append(text.as_str());
                line.append("'. Using default white.");
                line
            },
            Warning::RejectedBackground => String::from_str(
                "Warning: Invalid background color alpha. Using default white.",
            ),
            Warning::MissingFontsDir(dir) => {
                let mut line = String::from_str("Warning: Fonts directory '");
                line.append(dir.as_str());
                line.append("' does not exist");
                line
            },
        }
    }
}

/// A condition that ends the run. Where a parser or an encoder gave the
/// reason, the error holds that reason for whoever reports it.
#[derive(Debug)]
pub enum ConvertError {
    /// A target width of zero was requested.
    ZeroWidth,
    /// The input file could not be read; holds its path as shown to the user.
    InputUnreadable(String),
    /// Standard input could not be read to its end.
    StdinUnreadable,
    /// The input is not a document the parser accepts; holds the parser's reason.
    MalformedDocument(usvg::Error),
    /// No pixel buffer of the target dimensions can be had.
    BitmapAllocation,
    /// The output file could not be created; holds its path as shown to the user.
    OutputNotCreated(String),
    /// Encoding into the output file failed; holds the encoder's reason.
    EncodeFailed(image::ImageError),
    /// Encoding onto standard output failed; holds the encoder's reason.
    EncodeToStdoutFailed(image::ImageError),
}

/// What a [`ConvertError`] says, with texts as character sequences and
/// without the reasons that a parser or an encoder gave.
pub enum ConvertErrorView {
    ZeroWidth,
    InputUnreadable(Seq<char>),
    StdinUnreadable,
    MalformedDocument,
    BitmapAllocation,
    OutputNotCreated(Seq<char>),
    EncodeFailed,
    EncodeToStdoutFailed,
}

impl View for ConvertError {
    type V = ConvertErrorView;

    open spec fn view(&self) -> ConvertErrorView {
        match *self {
            ConvertError::ZeroWidth => ConvertErrorView::ZeroWidth,
            ConvertError::InputUnreadable(path) => ConvertErrorView::InputUnreadable(path@),
            ConvertError::StdinUnreadable => ConvertErrorView::StdinUnreadable,
            ConvertError::MalformedDocument(_) => ConvertErrorView::MalformedDocument,
            ConvertError::BitmapAllocation => ConvertErrorView::BitmapAllocation,
            ConvertError::OutputNotCreated(path) => ConvertErrorView::OutputNotCreated(path@),
            ConvertError::EncodeFailed(_) => ConvertErrorView::EncodeFailed,
            ConvertError::EncodeToStdoutFailed(_) => ConvertErrorView::EncodeToStdoutFailed,
        }
    }
}

impl ConvertErrorView {
    /// The line that reports this error.
    pub open spec fn text(self) -> Seq<char> {
        match self {
            ConvertErrorView::ZeroWidth => "Width must be greater than 0"@,
            ConvertErrorView::InputUnreadable(path) => "Failed to read input file: "@ + path,
            ConvertErrorView::StdinUnreadable => "Failed to read from stdin"@,
            ConvertErrorView::MalformedDocument => "Failed to parse SVG data"@,
            ConvertErrorView::BitmapAllocation => "Failed to allocate memory for bitmap"@,
            ConvertErrorView::OutputNotCreated(path) => "Failed to create output file: "@ + path,
            ConvertErrorView::EncodeFailed => "Failed to encode JPEG"@,
            ConvertErrorView::EncodeToStdoutFailed => "Failed to encode JPEG to stdout"@,
        }
    }
}

impl ConvertError {
    /// The line that reports this error.
    pub fn message(&self) -> (line: String)
        ensures
            line@ == self@.text(),
    {
        match self {
            ConvertError::ZeroWidth => String::from_str("Width must be greater than 0"),
            ConvertError::InputUnreadable(path) => {
                let mut line = String::from_str("Failed to read input file: ");
                line.append(path.as_str());
                line
            },
            ConvertError::StdinUnreadable => String::from_str("Failed to read from stdin"),
            ConvertError::MalformedDocument(_) => String::from_str("Failed to parse SVG data"),
            ConvertError::BitmapAllocation => String::from_str(
                "Failed to allocate memory for bitmap",
            ),
            ConvertError::OutputNotCreated(path) => {
                let mut line = String::from_str("Failed to create output file: ");
                line.append(path.as_str());
                line
            },
            ConvertError::EncodeFailed(_) => String::from_str("Failed to encode JPEG"),
            ConvertError::EncodeToStdoutFailed(_) => String::from_str(
                "Failed to encode JPEG to stdout",
            ),
        }
    }
}

} // verus!
