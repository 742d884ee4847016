use format_core::adapter::{
    read_formatted_stdout, Formatter, ToolAction, ToolConvention, ToolEvent,
};
use format_core::error::{response_parts, FormatError};

#[test]
fn call_starts_by_writing_the_file() {
    let fmt = Formatter::rust_formatter();
    assert_eq!(fmt.start(), ToolAction::WriteTempFile);
}

#[test]
fn ready_file_leads_to_running_the_tool() {
    let fmt = Formatter::rust_formatter();
    assert_eq!(fmt.step(ToolEvent::TempFileReady), ToolAction::RunTool);
}

#[test]
fn temp_file_failure_is_terminal() {
    let fmt = Formatter::rust_formatter();
    let action = fmt.step(ToolEvent::TempFileFailed("disk full".to_string()));
    assert_eq!(
        action,
        ToolAction::Finish(Err(FormatError::CannotCreateTempFile("disk full".to_string())))
    );
}

#[test]
fn launch_failure_is_terminal() {
    let fmt = Formatter::rust_formatter();
    let action = fmt.step(ToolEvent::LaunchFailed("no such binary".to_string()));
    assert_eq!(
        action,
        ToolAction::Finish(Err(FormatError::FormatterFailed("no such binary".to_string())))
    );
}

#[test]
fn rejected_code_reports_the_diagnostic_verbatim() {
    // The tool exits non-zero with a readable diagnostic; the endpoint turns
    // that into a client error carrying exactly the diagnostic text.
    let fmt = Formatter::rust_formatter();
    let action = fmt.step(ToolEvent::ToolExited {
        success: false,
        stdout: vec![],
        stderr: b"syntax error at line 1".to_vec(),
    });
    let expected_err = FormatError::FormatterError("syntax error at line 1".to_string());
    assert_eq!(action, ToolAction::Finish(Err(expected_err)));

    let resp = response_parts(&Err(FormatError::FormatterError(
        "syntax error at line 1".to_string(),
    )));
    assert_eq!(resp, (400, "syntax error at line 1".to_string()));
}

#[test]
fn binary_diagnostic_is_refused() {
    let fmt = Formatter::rust_formatter();
    let action = fmt.step(ToolEvent::ToolExited {
        success: false,
        stdout: vec![],
        stderr: vec![0xff, 0xfe],
    });
    assert_eq!(
        action,
        ToolAction::Finish(Err(FormatError::FormatterOutputNotUTF8))
    );
}

#[test]
fn in_place_tool_success_reads_the_file_back() {
    let fmt = Formatter::rust_formatter();
    let action = fmt.step(ToolEvent::ToolExited {
        success: true,
        stdout: vec![],
        stderr: vec![],
    });
    assert_eq!(action, ToolAction::ReadTempFile);
}

#[test]
fn stdout_tool_success_returns_the_captured_output() {
    let fmt = Formatter {
        convention: ToolConvention::EmitToStdout,
        ..Formatter::rust_formatter()
    };
    let action = fmt.step(ToolEvent::ToolExited {
        success: true,
        stdout: b"fn main() {}\n".to_vec(),
        stderr: vec![],
    });
    assert_eq!(action, ToolAction::Finish(Ok("fn main() {}\n".to_string())));
}

#[test]
fn file_read_returns_the_contents() {
    let fmt = Formatter::rust_formatter();
    let action = fmt.step(ToolEvent::FileRead(b"fn main() {}\n".to_vec()));
    assert_eq!(action, ToolAction::Finish(Ok("fn main() {}\n".to_string())));
}

#[test]
fn file_read_failure_is_terminal() {
    let fmt = Formatter::rust_formatter();
    let action = fmt.step(ToolEvent::FileReadFailed("gone".to_string()));
    assert_eq!(
        action,
        ToolAction::Finish(Err(FormatError::CannotReadFileContents("gone".to_string())))
    );
}

#[test]
fn formatting_is_idempotent_for_a_well_behaved_tool() {
    // A tool that leaves already-formatted text unchanged: a second call on
    // the first call's output returns the same text.
    let fmt = Formatter::rust_formatter();
    let formatted = b"fn main() {}\n".to_vec();
    let first = fmt.step(ToolEvent::FileRead(formatted.clone()));
    let first_out = match first {
        ToolAction::Finish(Ok(s)) => s,
        other => panic!("expected a finished call, got {:?}", other),
    };
    let second = fmt.step(ToolEvent::FileRead(first_out.clone().into_bytes()));
    assert_eq!(second, ToolAction::Finish(Ok(first_out)));
}

#[test]
fn configured_adapters_match_their_tools() {
    let rust = Formatter::rust_formatter();
    assert_eq!(rust.program, "rustfmt");
    assert_eq!(rust.suffix, ".rs");
    assert_eq!(rust.args_after_path, vec!["--emit".to_string(), "files".to_string()]);
    assert_eq!(rust.convention, ToolConvention::RewriteInPlace);

    let ts = Formatter::typescript_formatter();
    assert_eq!(ts.program, "prettier");
    assert_eq!(ts.suffix, ".ts");
    assert_eq!(ts.args_after_path, vec!["--write".to_string()]);

    let php = Formatter::php_formatter();
    assert_eq!(php.program, "php-cs-fixer");
    assert_eq!(php.suffix, ".php");
    assert_eq!(php.args_before_path, vec!["fix".to_string()]);
}

#[test]
fn stdout_reader_decodes_utf8() {
    assert_eq!(
        read_formatted_stdout(b"formatted\n".to_vec()),
        Ok("formatted\n".to_string())
    );
    // A multi-byte scalar: the decoding really decodes, it does not copy bytes.
    assert_eq!(
        read_formatted_stdout(vec![0xe2, 0x82, 0xac]),
        Ok("\u{20ac}".to_string())
    );
}

#[test]
fn stdout_reader_refuses_invalid_utf8() {
    assert_eq!(
        read_formatted_stdout(vec![0xff]),
        Err(FormatError::FormatterOutputNotUTF8)
    );
}
