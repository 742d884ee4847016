use vstd::prelude::*;
use vstd::utf8::{decode_utf8, valid_utf8};
use crate::error::{ErrorView, FormatError};
use crate::text::string_from_utf8;

verus! {

/// How an external formatting tool reports its result.
#[derive(Clone, Copy, PartialEq, Eq, Structural, Debug)]
pub enum ToolConvention {
    /// The tool rewrites the transient source file in place; the result is
    /// read back from the file.
    RewriteInPlace,
    /// The tool prints the formatted text on its standard output.
    EmitToStdout,
}

/// One per-language formatting adapter: which external program to run, with
/// which arguments around the transient file's path, which suffix that file
/// must carry, and how the tool reports its result.
///
/// The adapter itself performs no I/O. The surrounding process performs each
/// `ToolAction`, hands the observed `ToolEvent` back to `step`, and so drives
/// one call from `start` to `ToolAction::Finish`. The transient file is
/// created fresh for the call and must be removed on every exit path.
#[derive(Debug)]
pub struct Formatter {
    pub name: String,
    pub program: String,
    pub args_before_path: Vec<String>,
    pub args_after_path: Vec<String>,
    pub suffix: String,
    pub convention: ToolConvention,
}

/// What the surrounding process observed after performing one action.
#[derive(Debug, PartialEq, Eq)]
pub enum ToolEvent {
    /// The transient file could not be created or written; carries the
    /// rendered I/O error.
    TempFileFailed(String),
    /// The source text is in the transient file.
    TempFileReady,
    /// The tool could not be launched; carries the rendered OS error.
    LaunchFailed(String),
    /// The tool exited; `success` says whether its exit status was zero, and
    /// the two streams are what it wrote.
    ToolExited { success: bool, stdout: Vec<u8>, stderr: Vec<u8> },
    /// The transient file could not be read back; carries the rendered I/O
    /// error.
    FileReadFailed(String),
    /// The transient file's final contents.
    FileRead(Vec<u8>),
}

/// The mathematical content of a `ToolEvent`.
pub ghost enum EventView {
    TempFileFailed(Seq<char>),
    TempFileReady,
    LaunchFailed(Seq<char>),
    ToolExited { success: bool, stdout: Seq<u8>, stderr: Seq<u8> },
    FileReadFailed(Seq<char>),
    FileRead(Seq<u8>),
}

impl View for ToolEvent {
    type V = EventView;

    open spec fn view(&self) -> EventView {
        match self {
            ToolEvent::TempFileFailed(e) => EventView::TempFileFailed(e@),
            ToolEvent::TempFileReady => EventView::TempFileReady,
            ToolEvent::LaunchFailed(e) => EventView::LaunchFailed(e@),
            ToolEvent::ToolExited { success, stdout, stderr } => EventView::ToolExited {
                success: *success,
                stdout: stdout@,
                stderr: stderr@,
            },
            ToolEvent::FileReadFailed(e) => EventView::FileReadFailed(e@),
            ToolEvent::FileRead(bytes) => EventView::FileRead(bytes@),
        }
    }
}

/// The next thing the surrounding process must do for the adapter.
#[derive(Debug, PartialEq, Eq)]
pub enum ToolAction {
    /// Write the source text to a fresh transient file carrying the
    /// adapter's suffix, then report `TempFileReady` or `TempFileFailed`.
    WriteTempFile,
    /// Run the adapter's program on the transient file, then report
    /// `ToolExited` or `LaunchFailed`.
    RunTool,
    /// Read the transient file's final contents, then report `FileRead` or
    /// `FileReadFailed`.
    ReadTempFile,
    /// The call is over: the formatted text, or the failure. Either way the
    /// transient file is no longer needed and must be removed.
    Finish(Result<String, FormatError>),
}

/// The mathematical content of a `ToolAction`.
pub ghost enum ActionView {
    WriteTempFile,
    RunTool,
    ReadTempFile,
    Finish(Result<Seq<char>, ErrorView>),
}

impl View for ToolAction {
    type V = ActionView;

    open spec fn view(&self) -> ActionView {
        match self {
            ToolAction::WriteTempFile => ActionView::WriteTempFile,
            ToolAction::RunTool => ActionView::RunTool,
            ToolAction::ReadTempFile => ActionView::ReadTempFile,
            ToolAction::Finish(r) => ActionView::Finish(
                match r {
                    Ok(s) => Ok(s@),
                    Err(e) => Err(e@),
                },
            ),
        }
    }
}

/// What the tool's output yields at the end of a call: the decoded text, or
/// `FormatterOutputNotUTF8` when it is not valid text.
pub open spec fn finish_decoded(bytes: Seq<u8>) -> ActionView {
    if valid_utf8(bytes) {
        ActionView::Finish(Ok(decode_utf8(bytes)))
    } else {
        ActionView::Finish(Err(ErrorView::FormatterOutputNotUTF8))
    }
}

/// The adapter's decision on one observed event: the next action, or the
/// call's final outcome. Every failure is terminal — the adapter never
/// retries — and each failure mode maps to exactly one error variant.
pub open spec fn spec_step(convention: ToolConvention, event: EventView) -> ActionView {
    match event {
        EventView::TempFileFailed(e) => ActionView::Finish(Err(ErrorView::CannotCreateTempFile(e))),
        EventView::TempFileReady => ActionView::RunTool,
        EventView::LaunchFailed(e) => ActionView::Finish(Err(ErrorView::FormatterFailed(e))),
        EventView::ToolExited { success, stdout, stderr } => {
            if !success {
                if valid_utf8(stderr) {
                    ActionView::Finish(Err(ErrorView::FormatterError(decode_utf8(stderr))))
                } else {
                    ActionView::Finish(Err(ErrorView::FormatterOutputNotUTF8))
                }
            } else {
                match convention {
                    ToolConvention::RewriteInPlace => ActionView::ReadTempFile,
                    ToolConvention::EmitToStdout => finish_decoded(stdout),
                }
            }
        },
        EventView::FileReadFailed(e) => ActionView::Finish(
            Err(ErrorView::CannotReadFileContents(e)),
        ),
        EventView::FileRead(bytes) => finish_decoded(bytes),
    }
}

fn finish_bytes(bytes: Vec<u8>) -> (action: ToolAction)
    ensures
        action@ == finish_decoded(bytes@),
{
    match string_from_utf8(bytes) {
        Some(s) => ToolAction::Finish(Ok(s)),
        None => ToolAction::Finish(Err(FormatError::FormatterOutputNotUTF8)),
    }
}

impl Formatter {
    /// The first action of every call: persist the source text.
    pub fn start(&self) -> (action: ToolAction)
        ensures
            action@ == ActionView::WriteTempFile,
    {
        ToolAction::WriteTempFile
    }

    /// Drives one call forward: the next action for the event the
    /// surrounding process observed.
    pub fn step(&self, event: ToolEvent) -> (action: ToolAction)
        ensures
            action@ == spec_step(self.convention, event@),
    {
        match event {
            ToolEvent::TempFileFailed(e) => ToolAction::Finish(
                Err(FormatError::CannotCreateTempFile(e)),
            ),
            ToolEvent::TempFileReady => ToolAction::RunTool,
            ToolEvent::LaunchFailed(e) => ToolAction::Finish(Err(FormatError::FormatterFailed(e))),
            ToolEvent::ToolExited { success, stdout, stderr } => {
                if !success {
                    match string_from_utf8(stderr) {
                        Some(s) => ToolAction::Finish(Err(FormatError::FormatterError(s))),
                        None => ToolAction::Finish(Err(FormatError::FormatterOutputNotUTF8)),
                    }
                } else {
                    match self.convention {
                        ToolConvention::RewriteInPlace => ToolAction::ReadTempFile,
                        ToolConvention::EmitToStdout => finish_bytes(stdout),
                    }
                }
            },
            ToolEvent::FileReadFailed(e) => ToolAction::Finish(
                Err(FormatError::CannotReadFileContents(e)),
            ),
            ToolEvent::FileRead(bytes) => finish_bytes(bytes),
        }
    }

    /// The Rust adapter: rustfmt rewrites the transient file in place.
    pub fn rust_formatter() -> (f: Formatter)
        ensures
            f.name@ == "Rust"@,
            f.program@ == "rustfmt"@,
            f.args_before_path@.len() == 0,
            f.args_after_path@.len() == 2,
            f.args_after_path@[0]@ == "--emit"@,
            f.args_after_path@[1]@ == "files"@,
            f.suffix@ == ".rs"@,
            f.convention is RewriteInPlace,
    {
        let mut args_after_path: Vec<String> = Vec::new();
        args_after_path.push("--emit".to_owned());
        args_after_path.push("files".to_owned());
        Formatter {
            name: "Rust".to_owned(),
            program: "rustfmt".to_owned(),
            args_before_path: Vec::new(),
            args_after_path,
            suffix: ".rs".to_owned(),
            convention: ToolConvention::RewriteInPlace,
        }
    }

    /// The TypeScript adapter: prettier rewrites the transient file in place.
    pub fn typescript_formatter() -> (f: Formatter)
        ensures
            f.name@ == "TypeScript"@,
            f.program@ == "prettier"@,
            f.args_before_path@.len() == 0,
            f.args_after_path@.len() == 1,
            f.args_after_path@[0]@ == "--write"@,
            f.suffix@ == ".ts"@,
            f.convention is RewriteInPlace,
    {
        let mut args_after_path: Vec<String> = Vec::new();
        args_after_path.push("--write".to_owned());
        Formatter {
            name: "TypeScript".to_owned(),
            program: "prettier".to_owned(),
            args_before_path: Vec::new(),
            args_after_path,
            suffix: ".ts".to_owned(),
            convention: ToolConvention::RewriteInPlace,
        }
    }

    /// The PHP adapter: php-cs-fixer rewrites the transient file in place.
    pub fn php_formatter() -> (f: Formatter)
        ensures
            f.name@ == "PHP"@,
            f.program@ == "php-cs-fixer"@,
            f.args_before_path@.len() == 1,
            f.args_before_path@[0]@ == "fix"@,
            f.args_after_path@.len() == 0,
            f.suffix@ == ".php"@,
            f.convention is RewriteInPlace,
    {
        let mut args_before_path: Vec<String> = Vec::new();
        args_before_path.push("fix".to_owned());
        Formatter {
            name: "PHP".to_owned(),
            program: "php-cs-fixer".to_owned(),
            args_before_path,
            args_after_path: Vec::new(),
            suffix: ".php".to_owned(),
            convention: ToolConvention::RewriteInPlace,
        }
    }
}

/// Interprets the captured standard output of a formatting tool: the decoded
/// text, or `FormatterOutputNotUTF8` when it is not valid UTF-8.
pub fn read_formatted_stdout(vec: Vec<u8>) -> (r: Result<String, FormatError>)
    ensures
        match r {
            Ok(s) => valid_utf8(vec@) && s@ == decode_utf8(vec@),
            Err(e) => !valid_utf8(vec@) && e@ == ErrorView::FormatterOutputNotUTF8,
        },
{
    match string_from_utf8(vec) {
        Some(code) => Ok(code),
        None => Err(FormatError::FormatterOutputNotUTF8),
    }
}

/// An adapter call returns exactly the text its tool produced: when the
/// bytes read back from the transient file — or, for a stdout-emitting tool,
/// the captured output of a successful exit — decode to `s`, the call
/// finishes with `Ok(s)`. A well-behaved tool that leaves already-formatted
/// text unchanged therefore makes formatting idempotent: a call on the
/// tool's own output finishes with that output again.
pub proof fn lemma_adapter_returns_tool_output(
    convention: ToolConvention,
    bytes: Seq<u8>,
    other: Seq<u8>,
    s: Seq<char>,
)
    requires
        valid_utf8(bytes),
        decode_utf8(bytes) == s,
    ensures
        spec_step(convention, EventView::FileRead(bytes)) == ActionView::Finish(
            Ok::<Seq<char>, ErrorView>(s),
        ),
        spec_step(
            ToolConvention::EmitToStdout,
            EventView::ToolExited { success: true, stdout: bytes, stderr: other },
        ) == ActionView::Finish(Ok::<Seq<char>, ErrorView>(s)),
{
}

/// A tool that exits unsuccessfully with a readable diagnostic has that
/// diagnostic reported verbatim, whatever the adapter's convention and
/// whatever else the tool wrote.
pub proof fn lemma_diagnostic_verbatim(
    convention: ToolConvention,
    stderr: Seq<u8>,
    stdout: Seq<u8>,
)
    requires
        valid_utf8(stderr),
    ensures
        spec_step(convention, EventView::ToolExited { success: false, stdout, stderr })
            == ActionView::Finish(
            Err::<Seq<char>, ErrorView>(ErrorView::FormatterError(decode_utf8(stderr))),
        ),
{
}

} // verus!
