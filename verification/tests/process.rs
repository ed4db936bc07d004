use rs_optimise::{Console, ExitCode, Message, Process, Report, Stream, Verbosity};

fn texts(items: &[&str]) -> Vec<String> {
    items.iter().map(|item| String::from(*item)).collect()
}

fn echo(verbosity: Verbosity) -> Process {
    Process::new("echo", texts(&["a", "b"]), verbosity)
}

fn finished(status: i32, stdout: &[u8], stderr: &[u8]) -> Report {
    Report::Finished {
        status: Some(status),
        stdout: stdout.to_vec(),
        stderr: stderr.to_vec(),
    }
}

fn stdout(text: &str) -> Message {
    Message {
        stream: Stream::Stdout,
        text: String::from(text),
    }
}

fn stderr(text: &str) -> Message {
    Message {
        stream: Stream::Stderr,
        text: String::from(text),
    }
}

fn levels() -> Vec<Verbosity> {
    vec![Verbosity::Silent, Verbosity::Monosyllabic, Verbosity::Chatty]
}

#[test]
fn new_process_starts_with_defaults() {
    let process = echo(Verbosity::Monosyllabic);
    assert_eq!(process.application(), "echo");
    assert_eq!(process.arguments(), &texts(&["a", "b"]));
    assert_eq!(process.verbosity(), Verbosity::Monosyllabic);
    assert_eq!(process.exit(), 0);
    assert_eq!(process.stdout(), "");
    assert_eq!(process.stderr(), "");
    assert!(process.success());
}

#[test]
fn command_line_is_joined_by_single_spaces() {
    assert_eq!(echo(Verbosity::Silent).to_string(), "echo a b");
}

#[test]
fn command_line_without_arguments_is_the_application() {
    let process = Process::new("cargo", Vec::new(), Verbosity::Silent);
    assert_eq!(process.to_string(), "cargo");
}

#[test]
fn command_line_keeps_order_repeats_and_inner_spaces() {
    let process = Process::new(
        "cargo",
        texts(&["clippy", "--", "-D", "clippy::all", "-D", "two words", ""]),
        Verbosity::Chatty,
    );
    assert_eq!(
        process.to_string(),
        "cargo clippy -- -D clippy::all -D two words "
    );
}

#[test]
fn announce_is_silent_at_silent() {
    let mut console = Console::new();
    echo(Verbosity::Silent).announce(&mut console);
    assert!(console.messages().is_empty());
}

#[test]
fn announce_writes_the_command_line_above_silent() {
    let mut console = Console::new();
    echo(Verbosity::Monosyllabic).announce(&mut console);
    echo(Verbosity::Chatty).announce(&mut console);
    assert_eq!(
        console.take(),
        vec![stdout("echo a b\n"), stdout("echo a b\n")]
    );
}

#[test]
fn run_classifies_launch_failure() {
    for level in levels() {
        let mut console = Console::new();
        let mut process = echo(level);
        assert_eq!(
            process.run(Report::NotLaunched, &mut console),
            ExitCode::Unavailable
        );
        assert_eq!(process.exit(), 0);
        assert_eq!(process.stdout(), "");
        assert_eq!(process.stderr(), "");
        assert!(console.messages().is_empty());
    }
}

#[test]
fn run_classifies_termination_by_signal() {
    for level in levels() {
        let mut console = Console::new();
        let mut process = echo(level);
        let report = Report::Finished {
            status: None,
            stdout: b"partial".to_vec(),
            stderr: b"killed".to_vec(),
        };
        assert_eq!(process.run(report, &mut console), ExitCode::OsErr);
        assert_eq!(process.exit(), 0);
        assert_eq!(process.stdout(), "");
        assert_eq!(process.stderr(), "");
        assert!(console.messages().is_empty());
    }
}

#[test]
fn run_classifies_undecodable_stderr() {
    let mut console = Console::new();
    let mut process = echo(Verbosity::Chatty);
    let status = process.run(finished(3, b"fine", &[0x66, 0xff, 0x6f]), &mut console);
    assert_eq!(status, ExitCode::DataErr);
    assert_eq!(process.exit(), 3);
    assert_eq!(process.stderr(), "");
    assert_eq!(process.stdout(), "");
    assert!(console.messages().is_empty());
}

#[test]
fn run_classifies_undecodable_stdout() {
    let mut console = Console::new();
    let mut process = echo(Verbosity::Chatty);
    let status = process.run(finished(0, &[0xc3, 0x28], b"warning\n"), &mut console);
    assert_eq!(status, ExitCode::DataErr);
    assert_eq!(process.exit(), 0);
    assert_eq!(process.stderr(), "warning\n");
    assert_eq!(process.stdout(), "");
    assert!(console.messages().is_empty());
}

#[test]
fn run_rejects_truncated_and_overlong_sequences() {
    let mut console = Console::new();
    let mut process = echo(Verbosity::Silent);
    assert_eq!(
        process.run(finished(0, &[0xe2, 0x82], b""), &mut console),
        ExitCode::DataErr
    );
    assert_eq!(
        process.run(finished(0, &[0xc0, 0x80], b""), &mut console),
        ExitCode::DataErr
    );
    assert_eq!(
        process.run(finished(0, &[0xed, 0xa0, 0x80], b""), &mut console),
        ExitCode::DataErr
    );
}

#[test]
fn run_stores_status_and_decoded_output() {
    let mut console = Console::new();
    let mut process = echo(Verbosity::Silent);
    let status = process.run(
        finished(-7, "h\u{e9}llo \u{20ac} \u{1f600}\n".as_bytes(), b"oops\n"),
        &mut console,
    );
    assert_eq!(status, ExitCode::Success);
    assert_eq!(process.exit(), -7);
    assert_eq!(process.stdout(), "h\u{e9}llo \u{20ac} \u{1f600}\n");
    assert_eq!(process.stdout().chars().count(), 10);
    assert_eq!(process.stderr(), "oops\n");
    assert!(!process.success());
    assert!(console.messages().is_empty());
}

#[test]
fn run_overwrites_what_was_captured_before() {
    let mut console = Console::new();
    let mut process = echo(Verbosity::Silent);
    process.run(finished(2, b"first out", b"first err"), &mut console);
    process.run(finished(0, b"", b"second err"), &mut console);
    assert_eq!(process.exit(), 0);
    assert_eq!(process.stdout(), "");
    assert_eq!(process.stderr(), "second err");
    assert!(process.success());
}

#[test]
fn run_echoes_nothing_below_chatty() {
    for level in vec![Verbosity::Silent, Verbosity::Monosyllabic] {
        let mut console = Console::new();
        let mut process = echo(level);
        let status = process.run(finished(1, b"hello\n", b"oops\n"), &mut console);
        assert_eq!(status, ExitCode::Success);
        assert!(console.messages().is_empty());
    }
}

#[test]
fn chatty_echoes_stdout_once_and_skips_empty_stderr() {
    let mut console = Console::new();
    let mut process = echo(Verbosity::Chatty);
    let status = process.run(finished(0, b"hello\n", b""), &mut console);
    assert_eq!(status, ExitCode::Success);
    assert_eq!(process.stdout(), "hello\n");
    assert_eq!(process.stderr(), "");
    assert_eq!(console.take(), vec![stdout("hello\n\n")]);
}

#[test]
fn chatty_echoes_stderr_as_it_is_and_skips_empty_stdout() {
    let mut console = Console::new();
    let mut process = echo(Verbosity::Chatty);
    process.run(finished(0, b"", b"warning: unused\n"), &mut console);
    assert_eq!(console.take(), vec![stderr("warning: unused\n")]);
}

#[test]
fn chatty_echoes_stdout_before_stderr() {
    let mut console = Console::new();
    let mut process = echo(Verbosity::Chatty);
    process.run(finished(5, b"out", b"err"), &mut console);
    assert_eq!(console.take(), vec![stdout("out\n"), stderr("err")]);
}

#[test]
fn success_is_exit_status_zero_only() {
    let mut console = Console::new();
    for status in vec![1, -1, 2, 101, 255, i32::MAX, i32::MIN] {
        let mut process = echo(Verbosity::Silent);
        process.run(finished(status, b"", b""), &mut console);
        assert!(!process.success());
        assert_eq!(process.exit(), status);
    }
    let mut process = echo(Verbosity::Silent);
    process.run(finished(0, b"", b""), &mut console);
    assert!(process.success());
}

#[test]
fn failure_is_quiet_after_success() {
    let mut console = Console::new();
    let mut process = echo(Verbosity::Chatty);
    process.run(finished(0, b"", b"noise"), &mut console);
    console.take();
    assert!(!process.failure(Some("custom"), &mut console));
    assert!(!process.failure(None, &mut console));
    assert!(console.messages().is_empty());
}

#[test]
fn failure_writes_the_custom_message_with_a_line_break() {
    let mut console = Console::new();
    let mut process = echo(Verbosity::Silent);
    process.run(finished(1, b"out", b"child said no\n"), &mut console);
    assert!(process.failure(Some("This is not a Cargo maintained Rust project"), &mut console));
    assert_eq!(
        console.take(),
        vec![stderr("This is not a Cargo maintained Rust project\n")]
    );
}

#[test]
fn failure_writes_the_captured_stderr_as_it_is() {
    let mut console = Console::new();
    let mut process = echo(Verbosity::Silent);
    process.run(finished(1, b"out", b"child said no\nsecond line"), &mut console);
    assert!(process.failure(None, &mut console));
    assert_eq!(console.take(), vec![stderr("child said no\nsecond line")]);
}

#[test]
fn resolve_maps_every_classification() {
    let process = echo(Verbosity::Silent);
    let mut console = Console::new();
    assert_eq!(
        process.resolve(ExitCode::DataErr, Some("custom"), ExitCode::Usage, &mut console),
        Some(ExitCode::DataErr)
    );
    assert_eq!(
        process.resolve(ExitCode::OsErr, Some("custom"), ExitCode::Usage, &mut console),
        Some(ExitCode::OsErr)
    );
    assert_eq!(
        process.resolve(ExitCode::Unavailable, Some("custom"), ExitCode::Usage, &mut console),
        Some(ExitCode::Unavailable)
    );
    assert_eq!(
        process.resolve(ExitCode::Success, Some("custom"), ExitCode::Usage, &mut console),
        None
    );
    assert_eq!(
        console.take(),
        vec![
            stderr("Failed to convert output of 'echo a b'!\n"),
            stderr("'echo a b' was terminated unexpectedly by a signal!\n"),
            stderr("Failed to launch 'echo a b'!\n"),
        ]
    );
}

#[test]
fn resolve_reports_unknown_classifications_as_config() {
    let process = echo(Verbosity::Chatty);
    let unknown = vec![
        ExitCode::Usage,
        ExitCode::NoInput,
        ExitCode::NoUser,
        ExitCode::NoHost,
        ExitCode::Software,
        ExitCode::OsFile,
        ExitCode::CantCreat,
        ExitCode::IoErr,
        ExitCode::TempFail,
        ExitCode::Protocol,
        ExitCode::NoPerm,
        ExitCode::Config,
    ];
    for status in unknown {
        let mut console = Console::new();
        assert_eq!(
            process.resolve(status, None, ExitCode::Usage, &mut console),
            Some(ExitCode::Config)
        );
        assert_eq!(
            console.take(),
            vec![stderr(&format!(
                "Unknown exit status {} originating from 'echo a b'!\n",
                status.code()
            ))]
        );
    }
}

#[test]
fn resolve_names_the_number_of_an_unknown_classification() {
    let process = echo(Verbosity::Silent);
    let mut console = Console::new();
    process.resolve(ExitCode::Software, None, ExitCode::Usage, &mut console);
    assert_eq!(
        console.take(),
        vec![stderr("Unknown exit status 70 originating from 'echo a b'!\n")]
    );
}

#[test]
fn exit_zero_proceeds_at_every_verbosity() {
    for level in levels() {
        for error in vec![None, Some("custom")] {
            let mut console = Console::new();
            let mut process = echo(level);
            let outcome = process.handle(
                finished(0, b"hello\n", b"warning\n"),
                error,
                ExitCode::DataErr,
                &mut console,
            );
            assert_eq!(outcome, None);
            let written = console.take();
            if level == Verbosity::Chatty {
                assert_eq!(written, vec![stdout("hello\n\n"), stderr("warning\n")]);
            } else {
                assert!(written.is_empty());
            }
        }
    }
}

#[test]
fn nonzero_exit_returns_the_fatal_code_with_the_custom_message() {
    for level in vec![Verbosity::Silent, Verbosity::Monosyllabic] {
        let mut console = Console::new();
        let mut process = echo(level);
        let outcome = process.handle(
            finished(101, b"out\n", b"child error\n"),
            Some("custom"),
            ExitCode::Usage,
            &mut console,
        );
        assert_eq!(outcome, Some(ExitCode::Usage));
        assert_eq!(console.take(), vec![stderr("custom\n")]);
    }
}

#[test]
fn nonzero_exit_returns_the_fatal_code_with_the_captured_stderr() {
    for level in vec![Verbosity::Silent, Verbosity::Monosyllabic] {
        let mut console = Console::new();
        let mut process = echo(level);
        let outcome = process.handle(
            finished(1, b"out\n", b"child error\n"),
            None,
            ExitCode::DataErr,
            &mut console,
        );
        assert_eq!(outcome, Some(ExitCode::DataErr));
        assert_eq!(console.take(), vec![stderr("child error\n")]);
    }
}

#[test]
fn nonzero_exit_with_empty_stderr_writes_an_empty_diagnostic() {
    let mut console = Console::new();
    let mut process = echo(Verbosity::Silent);
    let outcome = process.handle(finished(1, b"", b""), None, ExitCode::NoPerm, &mut console);
    assert_eq!(outcome, Some(ExitCode::NoPerm));
    assert_eq!(console.take(), vec![stderr("")]);
}

#[test]
fn chatty_failure_echoes_before_the_diagnostic() {
    let mut console = Console::new();
    let mut process = echo(Verbosity::Chatty);
    let outcome = process.handle(
        finished(1, b"out\n", b"child error\n"),
        Some("custom"),
        ExitCode::Usage,
        &mut console,
    );
    assert_eq!(outcome, Some(ExitCode::Usage));
    assert_eq!(
        console.take(),
        vec![stdout("out\n\n"), stderr("child error\n"), stderr("custom\n")]
    );
}

#[test]
fn launch_failure_is_unavailable_and_populates_nothing() {
    for level in levels() {
        let mut console = Console::new();
        let mut process = Process::new("no-such-program", texts(&["--flag"]), level);
        let outcome = process.handle(
            Report::NotLaunched,
            Some("custom"),
            ExitCode::Usage,
            &mut console,
        );
        assert_eq!(outcome, Some(ExitCode::Unavailable));
        assert_eq!(process.exit(), 0);
        assert_eq!(process.stdout(), "");
        assert_eq!(process.stderr(), "");
        assert_eq!(
            console.take(),
            vec![stderr("Failed to launch 'no-such-program --flag'!\n")]
        );
    }
}

#[test]
fn signal_is_os_error_with_a_diagnostic() {
    let mut console = Console::new();
    let mut process = echo(Verbosity::Chatty);
    let report = Report::Finished {
        status: None,
        stdout: b"out".to_vec(),
        stderr: b"err".to_vec(),
    };
    let outcome = process.handle(report, None, ExitCode::Usage, &mut console);
    assert_eq!(outcome, Some(ExitCode::OsErr));
    assert_eq!(
        console.take(),
        vec![stderr("'echo a b' was terminated unexpectedly by a signal!\n")]
    );
}

#[test]
fn undecodable_output_is_data_error_with_a_diagnostic() {
    let mut console = Console::new();
    let mut process = echo(Verbosity::Chatty);
    let outcome = process.handle(
        finished(0, &[0xff, 0xfe], b"fine"),
        Some("custom"),
        ExitCode::Usage,
        &mut console,
    );
    assert_eq!(outcome, Some(ExitCode::DataErr));
    assert_eq!(
        console.take(),
        vec![stderr("Failed to convert output of 'echo a b'!\n")]
    );
}

#[test]
fn handle_appends_to_what_is_on_the_console() {
    let mut console = Console::new();
    console.print(String::from("earlier\n"));
    let mut process = echo(Verbosity::Silent);
    process.handle(Report::NotLaunched, None, ExitCode::Usage, &mut console);
    assert_eq!(
        console.take(),
        vec![stdout("earlier\n"), stderr("Failed to launch 'echo a b'!\n")]
    );
}
