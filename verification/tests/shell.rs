use cokacdir::shell::{
    processing_text, render_shell, shell_command, shell_progress_text, stderr_line, ShellOutput,
    ShellRender, ShellRun,
};

#[test]
fn commands_follow_the_mark() {
    assert_eq!(shell_command("!ls -la"), "ls -la");
    assert_eq!(shell_command("!  git status  "), "git status");
    assert_eq!(shell_command("!"), "");
    assert_eq!(shell_command("ls"), "");
    assert_eq!(processing_text("a<b"), "Processing <code>a&lt;b</code>");
    assert_eq!(shell_progress_text("ls", "🕐 P"), "Processing <code>ls</code>\n\n🕐 P");
}

#[test]
fn lines_join_the_output() {
    let mut r = ShellRun::new();
    assert_eq!(r.exit_code, -1);
    r.absorb(&ShellOutput::Line("one".to_string()));
    r.absorb(&ShellOutput::Line("".to_string()));
    r.absorb(&ShellOutput::Line("three".to_string()));
    assert_eq!(r.full_output, "one\n\nthree");
    assert!(!r.done);
    r.absorb(&ShellOutput::Done { exit_code: 3 });
    assert!(r.done);
    assert_eq!(r.exit_code, 3);
    let mut first_empty = ShellRun::new();
    first_empty.absorb(&ShellOutput::Line("".to_string()));
    first_empty.absorb(&ShellOutput::Line("x".to_string()));
    assert_eq!(first_empty.full_output, "x");
    let mut closed = ShellRun::new();
    closed.close();
    assert!(closed.done);
    assert_eq!(closed.exit_code, -1);
}

#[test]
fn short_output_is_shown_inline() {
    let mut r = ShellRun::new();
    r.absorb(&ShellOutput::Line("  a<b".to_string()));
    r.absorb(&ShellOutput::Line("".to_string()));
    r.absorb(&ShellOutput::Done { exit_code: 0 });
    match render_shell("echo <x>", &r) {
        ShellRender::Short { html, fallback } => {
            assert_eq!(
                html,
                "Done <code>echo &lt;x&gt;</code> (exit code: 0)\n\n<pre>$ echo &lt;x&gt;\n\na&lt;b</pre>"
            );
            assert_eq!(fallback, "Done echo <x> (exit code: 0)\n\n$ echo <x>\n\na<b");
        }
        _ => panic!("short output"),
    }
}

#[test]
fn long_output_becomes_a_file() {
    let mut r = ShellRun::new();
    r.absorb(&ShellOutput::Line("x".repeat(3995)));
    r.absorb(&ShellOutput::Done { exit_code: -1 });
    // "$ c\n\n" takes five bytes: 4000 in all
    assert!(matches!(render_shell("c", &r), ShellRender::Short { .. }));
    match render_shell("cc", &r) {
        ShellRender::Long { summary, file_content } => {
            assert_eq!(summary, "Done <code>cc</code> (exit code: -1)");
            assert_eq!(file_content, format!("$ cc\n\n{}", "x".repeat(3995)));
        }
        _ => panic!("long output"),
    }
}

#[test]
fn no_output_and_failed_starts() {
    let mut r = ShellRun::new();
    r.absorb(&ShellOutput::Line("   ".to_string()));
    r.absorb(&ShellOutput::Done { exit_code: 1 });
    match render_shell("true", &r) {
        ShellRender::NoOutput { summary } => assert_eq!(summary, "Done <code>true</code> (exit code: 1)"),
        _ => panic!("no output"),
    }
    let mut e = ShellRun::new();
    e.absorb(&ShellOutput::Line("partial".to_string()));
    e.absorb(&ShellOutput::Error("Failed to execute: no bash".to_string()));
    assert!(e.done);
    match render_shell("x", &e) {
        ShellRender::SpawnError(m) => assert_eq!(m, "Failed to execute: no bash"),
        _ => panic!("spawn error"),
    }
    assert_eq!(stderr_line(""), None);
    assert_eq!(stderr_line("warn\n\n"), Some("[stderr]\nwarn".to_string()));
    assert_eq!(stderr_line("\n"), Some("[stderr]\n".to_string()));
}
