use vstd::prelude::*;
use vstd::string::*;

verus! {

/// The failure taxonomy of one formatting call. Every variant is terminal:
/// the adapter never retries, and no variant carries partially-formatted
/// output.
#[derive(Debug, PartialEq, Eq)]
pub enum FormatError {
    /// The external tool could not be launched (missing binary, permissions);
    /// carries the rendered OS error.
    FormatterFailed(String),
    /// The external tool ran and reported a formatting or syntax problem;
    /// carries its diagnostic text verbatim.
    FormatterError(String),
    /// The external tool exited with the given raw status and no diagnostic
    /// text was available.
    FormatterStatusCode(i32),
    /// The transient source file could not be created or written; carries
    /// the rendered I/O error.
    CannotCreateTempFile(String),
    /// The transient source file could not be read back; carries the
    /// rendered I/O error.
    CannotReadFileContents(String),
    /// The tool's output (result or diagnostic) was not valid UTF-8, so it
    /// cannot be displayed safely.
    FormatterOutputNotUTF8,
}

/// The mathematical content of a `FormatError`.
pub ghost enum ErrorView {
    FormatterFailed(Seq<char>),
    FormatterError(Seq<char>),
    FormatterStatusCode(int),
    CannotCreateTempFile(Seq<char>),
    CannotReadFileContents(Seq<char>),
    FormatterOutputNotUTF8,
}

impl View for FormatError {
    type V = ErrorView;

    open spec fn view(&self) -> ErrorView {
        match self {
            FormatError::FormatterFailed(e) => ErrorView::FormatterFailed(e@),
            FormatError::FormatterError(e) => ErrorView::FormatterError(e@),
            FormatError::FormatterStatusCode(c) => ErrorView::FormatterStatusCode(*c as int),
            FormatError::CannotCreateTempFile(e) => ErrorView::CannotCreateTempFile(e@),
            FormatError::CannotReadFileContents(e) => ErrorView::CannotReadFileContents(e@),
            FormatError::FormatterOutputNotUTF8 => ErrorView::FormatterOutputNotUTF8,
        }
    }
}

/// The decimal digit characters of a non-negative number.
pub open spec fn decimal_digits(n: int) -> Seq<char>
    recommends
        n >= 0,
    decreases n,
{
    if n < 10 {
        seq![digit_char(n)]
    } else {
        decimal_digits(n / 10).push(digit_char(n % 10))
    }
}

/// The character for one decimal digit.
pub open spec fn digit_char(d: int) -> char {
    if d == 0 {
        '0'
    } else if d == 1 {
        '1'
    } else if d == 2 {
        '2'
    } else if d == 3 {
        '3'
    } else if d == 4 {
        '4'
    } else if d == 5 {
        '5'
    } else if d == 6 {
        '6'
    } else if d == 7 {
        '7'
    } else if d == 8 {
        '8'
    } else {
        '9'
    }
}

/// The decimal rendering of an integer, with a leading minus sign when it is
/// negative.
pub open spec fn spec_decimal(n: int) -> Seq<char> {
    if n < 0 {
        seq!['-'] + decimal_digits(-n)
    } else {
        decimal_digits(n)
    }
}

/// The rendering of an error's message, one line per variant.
pub open spec fn spec_message(e: ErrorView) -> Seq<char> {
    match e {
        ErrorView::FormatterFailed(d) => "Formatter failed: "@ + d,
        ErrorView::FormatterError(d) => d,
        ErrorView::FormatterStatusCode(c) => "Formatter replied with status code: "@
            + spec_decimal(c),
        ErrorView::CannotCreateTempFile(_) => "Cannot create temporary file"@,
        ErrorView::CannotReadFileContents(_) => "Unable to read formatted file"@,
        ErrorView::FormatterOutputNotUTF8 => "Formatter error output was not valid UTF-8"@,
    }
}

fn digit_str(d: u64) -> (r: &'static str)
    requires
        d < 10,
    ensures
        r@ == seq![digit_char(d as int)],
{
    proof {
        reveal_strlit("0");
        reveal_strlit("1");
        reveal_strlit("2");
        reveal_strlit("3");
        reveal_strlit("4");
        reveal_strlit("5");
        reveal_strlit("6");
        reveal_strlit("7");
        reveal_strlit("8");
        reveal_strlit("9");
    }
    let r = if d == 0 {
        "0"
    } else if d == 1 {
        "1"
    } else if d == 2 {
        "2"
    } else if d == 3 {
        "3"
    } else if d == 4 {
        "4"
    } else if d == 5 {
        "5"
    } else if d == 6 {
        "6"
    } else if d == 7 {
        "7"
    } else if d == 8 {
        "8"
    } else {
        "9"
    };
    assert(r@ =~= seq![digit_char(d as int)]);
    r
}

fn u64_decimal(m: u64) -> (r: String)
    ensures
        r@ == decimal_digits(m as int),
    decreases m,
{
    if m < 10 {
        digit_str(m).to_owned()
    } else {
        let mut s = u64_decimal(m / 10);
        s.append(digit_str(m % 10));
        proof {
            assert(decimal_digits((m / 10) as int).push(digit_char((m % 10) as int))
                =~= decimal_digits((m / 10) as int) + seq![digit_char((m % 10) as int)]);
        }
        s
    }
}

/// The decimal rendering of a signed status code.
fn i32_decimal(c: i32) -> (r: String)
    ensures
        r@ == spec_decimal(c as int),
{
    if c >= 0 {
        u64_decimal(c as u64)
    } else {
        let m = -(c as i64);
        let mut s = "-".to_owned();
        s.append(u64_decimal(m as u64).as_str());
        proof {
            reveal_strlit("-");
            assert("-"@ =~= seq!['-']);
        }
        s
    }
}

impl FormatError {
    /// The one-line human-readable message of this error. No internal detail
    /// beyond this text is ever shown to a caller.
    pub fn message(&self) -> (r: String)
        ensures
            r@ == spec_message(self@),
    {
        match self {
            FormatError::FormatterFailed(e) => {
                let mut s = "Formatter failed: ".to_owned();
                s.append(e.as_str());
                s
            },
            FormatError::FormatterError(e) => e.clone(),
            FormatError::FormatterStatusCode(c) => {
                let mut s = "Formatter replied with status code: ".to_owned();
                s.append(i32_decimal(*c).as_str());
                s
            },
            FormatError::CannotCreateTempFile(_) => "Cannot create temporary file".to_owned(),
            FormatError::CannotReadFileContents(_) => "Unable to read formatted file".to_owned(),
            FormatError::FormatterOutputNotUTF8 => {
                "Formatter error output was not valid UTF-8".to_owned()
            },
        }
    }
}

/// The response the format service endpoint sends for one formatting
/// outcome: the formatted text with a success status, or the error's
/// rendered message with a client-error status — and nothing else.
pub fn response_parts(outcome: &Result<String, FormatError>) -> (resp: (u16, String))
    ensures
        match outcome {
            Ok(body) => resp.0 == 200 && resp.1@ == body@,
            Err(e) => resp.0 == 400 && resp.1@ == spec_message(e@),
        },
{
    match outcome {
        Ok(body) => (200, body.clone()),
        Err(e) => (400, e.message()),
    }
}

} // verus!
