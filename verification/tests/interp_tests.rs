//! Tests of the interpreter driver: whole scripts fed line by line, with
//! the external effects (commands, fetches, prompts) simulated.

use dockrun::interp::{Action, Event, InterpError, Interpreter};
use dockrun::vars::VarStore;

/// Everything a simulated run produced.
struct Trace {
    /// Each RUN handed out: (expanded command, working directory).
    runs: Vec<(String, String)>,
    /// Each fetch handed out: (url, working directory).
    fetches: Vec<(String, String)>,
    /// Each prompt handed out: (name, shown default).
    prompts: Vec<(String, Option<String>)>,
    finished: bool,
    error: Option<InterpError>,
}

/// Drives a whole script, answering every prompt from `answers` in order,
/// and reporting success for every command and fetch.
fn drive(
    script: &str,
    script_dir: &str,
    interactive: bool,
    answers: &[&str],
    env: &[(&str, &str)],
) -> (Interpreter, Trace) {
    let mut vars = VarStore::new();
    for (k, v) in env {
        vars.set(k.to_string(), v.to_string());
    }
    let mut interp = Interpreter::new(script_dir.to_string(), interactive, vars);
    let mut trace = Trace {
        runs: Vec::new(),
        fetches: Vec::new(),
        prompts: Vec::new(),
        finished: false,
        error: None,
    };
    let mut answers = answers.iter();
    let mut events: Vec<Event> = script
        .lines()
        .map(|l| Event::Line { text: l.to_string() })
        .collect();
    events.push(Event::Eof);
    let mut events = events.into_iter();
    let mut action = match events.next() {
        Some(e) => interp.step(e),
        None => unreachable!(),
    };
    loop {
        match action {
            Action::Continue => match events.next() {
                Some(e) => action = interp.step(e),
                None => break,
            },
            Action::Run { command, dir } => {
                trace.runs.push((command, dir));
                action = interp.step(Event::CommandDone { success: true });
            }
            Action::Fetch { url, dir } => {
                trace.fetches.push((url, dir));
                action = interp.step(Event::FetchDone { success: true });
            }
            Action::Prompt { name, shown_default } => {
                trace.prompts.push((name, shown_default));
                let reply = answers.next().expect("no answer left for prompt");
                action = interp.step(Event::Answer { text: reply.to_string() });
            }
            Action::Finished => {
                trace.finished = true;
                break;
            }
            Action::Failed { error } => {
                trace.error = Some(error);
                break;
            }
        }
    }
    (interp, trace)
}

#[test]
fn test_parse_arg_with_default() {
    let (interp, trace) = drive("ARG VERSION=1.0.0", "/work", false, &[], &[]);
    assert!(trace.finished);
    assert_eq!(interp.lookup("VERSION").unwrap(), "1.0.0");
}

#[test]
fn test_parse_env() {
    let (interp, trace) = drive("ENV TEST_VAR=test_value", "/work", false, &[], &[]);
    assert!(trace.finished);
    assert_eq!(interp.lookup("TEST_VAR").unwrap(), "test_value");
}

#[test]
fn test_parse_run_command() {
    let (_, trace) = drive("RUN echo 'test'", "/work", false, &[], &[]);
    assert!(trace.finished);
    assert_eq!(trace.runs, vec![("echo 'test'".to_string(), "/work".to_string())]);
}

#[test]
fn test_parse_add_url() {
    let (_, trace) = drive(
        "ADD https://example.com/file.txt ./temp/file.txt",
        "/work",
        false,
        &[],
        &[],
    );
    assert!(trace.finished);
    assert_eq!(
        trace.fetches,
        vec![("https://example.com/file.txt".to_string(), "/work".to_string())]
    );
}

#[test]
fn test_workdir() {
    let script = "WORKDIR temp/test_workdir\nRUN pwd\nRUN mkdir new_folder && cd new_folder\nRUN pwd";
    let (interp, trace) = drive(script, "/scripts", false, &[], &[]);
    assert!(trace.finished);
    assert_eq!(trace.runs.len(), 3);
    // A relative WORKDIR resolves against the script file's directory, and
    // every later command sees the identical directory.
    let expected_dir = "/scripts/temp/test_workdir";
    assert_eq!(trace.runs[0], ("pwd".to_string(), expected_dir.to_string()));
    assert_eq!(trace.runs[2], ("pwd".to_string(), expected_dir.to_string()));
    assert_eq!(trace.runs[0].1, trace.runs[2].1);
    assert_eq!(interp.cwd(), expected_dir);
}

#[test]
fn test_arg_env_interaction() {
    let script = "ARG VERSION=1.0.0\n\
                  ENV APP_VERSION=$VERSION\n\
                  ENV BUILD_TYPE=release\n\
                  RUN echo \"Building version $APP_VERSION in $BUILD_TYPE mode\"\n\
                  RUN echo \"VERSION=$VERSION\" > version.txt\n\
                  RUN echo \"APP_VERSION=$APP_VERSION\" >> version.txt\n\
                  RUN echo \"BUILD_TYPE=$BUILD_TYPE\" >> version.txt";
    let (interp, trace) = drive(script, "/work", false, &[], &[]);
    assert!(trace.finished);
    assert_eq!(interp.lookup("VERSION").unwrap(), "1.0.0");
    assert_eq!(interp.lookup("APP_VERSION").unwrap(), "1.0.0");
    assert_eq!(interp.lookup("BUILD_TYPE").unwrap(), "release");
    assert_eq!(trace.runs.len(), 4);
    assert_eq!(trace.runs[0].0, "echo \"Building version 1.0.0 in release mode\"");
    assert_eq!(trace.runs[1].0, "echo \"VERSION=1.0.0\" > version.txt");
    assert_eq!(trace.runs[2].0, "echo \"APP_VERSION=1.0.0\" >> version.txt");
    assert_eq!(trace.runs[3].0, "echo \"BUILD_TYPE=release\" >> version.txt");
}

#[test]
fn test_env_with_equals_syntax() {
    let script = "ENV MY_VAR=hello_world\nRUN echo \"MY_VAR=$MY_VAR\" > env_test.txt";
    let (_, trace) = drive(script, "/work", false, &[], &[]);
    assert!(trace.finished);
    assert_eq!(trace.runs.len(), 1);
    assert_eq!(trace.runs[0].0, "echo \"MY_VAR=hello_world\" > env_test.txt");
}

#[test]
fn test_env_with_space_syntax() {
    let script = "ENV MY_VAR hello_world\nRUN echo \"MY_VAR=$MY_VAR\" > env_space_test.txt";
    let (_, trace) = drive(script, "/work", false, &[], &[]);
    assert!(trace.finished);
    assert_eq!(trace.runs.len(), 1);
    assert_eq!(trace.runs[0].0, "echo \"MY_VAR=hello_world\" > env_space_test.txt");
}

#[test]
fn test_env_variable_expansion() {
    let script = "ARG BASE_VERSION=2.0.0\n\
                  ENV FULL_VERSION=${BASE_VERSION}-stable\n\
                  RUN echo \"FULL_VERSION=$FULL_VERSION\" > expand_test.txt";
    let (interp, trace) = drive(script, "/work", false, &[], &[]);
    assert!(trace.finished);
    assert_eq!(interp.lookup("FULL_VERSION").unwrap(), "2.0.0-stable");
    assert_eq!(trace.runs[0].0, "echo \"FULL_VERSION=2.0.0-stable\" > expand_test.txt");
}

#[test]
fn test_env_overwrite() {
    let script = "ENV VERSION=1.0.0\n\
                  ENV VERSION=${VERSION}-updated\n\
                  RUN echo \"VERSION=$VERSION\" > overwrite_test.txt";
    let (interp, trace) = drive(script, "/work", false, &[], &[]);
    assert!(trace.finished);
    assert_eq!(interp.lookup("VERSION").unwrap(), "1.0.0-updated");
    assert_eq!(trace.runs[0].0, "echo \"VERSION=1.0.0-updated\" > overwrite_test.txt");
}

#[test]
fn test_multiline_run() {
    let script = "RUN echo \"line1\" > multiline_test.txt && \\\n\
                  \x20   echo \"line2\" >> multiline_test.txt && \\\n\
                  \x20   echo \"line3\" >> multiline_test.txt";
    let (_, trace) = drive(script, "/work", false, &[], &[]);
    assert!(trace.finished);
    // One single command: markers stripped, parts joined with a space.
    assert_eq!(trace.runs.len(), 1);
    assert_eq!(
        trace.runs[0].0,
        "echo \"line1\" > multiline_test.txt &&  echo \"line2\" >> multiline_test.txt &&  echo \"line3\" >> multiline_test.txt"
    );
}

#[test]
fn test_arg_from_environment() {
    let script = "ARG MY_ARG\nRUN echo \"MY_ARG=$MY_ARG\" > arg_env_test.txt";
    let (interp, trace) = drive(script, "/work", false, &[], &[("MY_ARG", "from_environment")]);
    assert!(trace.finished);
    assert_eq!(interp.lookup("MY_ARG").unwrap(), "from_environment");
    assert_eq!(trace.runs[0].0, "echo \"MY_ARG=from_environment\" > arg_env_test.txt");
}

#[test]
fn test_unsupported_instructions_ignored() {
    let script = "FROM ubuntu:22.04\n\
                  COPY . /app\n\
                  EXPOSE 8080\n\
                  CMD [\"echo\", \"done\"]\n\
                  LABEL maintainer=\"test\"\n\
                  USER nobody\n\
                  VOLUME /data\n\
                  RUN echo \"success\" > unsupported_test.txt";
    let (_, trace) = drive(script, "/work", false, &[], &[]);
    assert!(trace.finished);
    assert_eq!(trace.runs.len(), 1);
    assert_eq!(trace.runs[0].0, "echo \"success\" > unsupported_test.txt");
}

#[test]
fn test_comments_ignored() {
    let script = "# This is a comment\n\
                  ARG VERSION=1.0.0\n\
                  # Another comment\n\
                  ENV APP_VERSION=$VERSION\n\
                  # Comment before RUN\n\
                  RUN echo \"VERSION=$APP_VERSION\" > comment_test.txt";
    let (_, trace) = drive(script, "/work", false, &[], &[]);
    assert!(trace.finished);
    assert_eq!(trace.runs.len(), 1);
    assert_eq!(trace.runs[0].0, "echo \"VERSION=1.0.0\" > comment_test.txt");
}

#[test]
fn test_nested_variable_expansion_in_run() {
    let script = "ARG PREFIX=app\n\
                  ARG SUFFIX=prod\n\
                  RUN export COMBINED=\"${PREFIX}_${SUFFIX}\" && echo \"COMBINED=$COMBINED\" > nested_test.txt";
    let (_, trace) = drive(script, "/work", false, &[], &[]);
    assert!(trace.finished);
    // Expansion is a single pass over the bindings at dispatch time:
    // `$PREFIX` and `$SUFFIX` are substituted, and `$COMBINED`, bound only
    // inside the shell command itself, is unbound here and becomes empty.
    assert_eq!(
        trace.runs[0].0,
        "export COMBINED=\"app_prod\" && echo \"COMBINED=\" > nested_test.txt"
    );
}

#[test]
fn test_arg_default_accepted_interactively() {
    let script = "ARG VERSION=1.0.0\n\
                  ENV APP_VERSION=$VERSION\n\
                  RUN echo \"$APP_VERSION\" > out.txt";
    let (interp, trace) = drive(script, "/work", true, &[""], &[]);
    assert!(trace.finished);
    assert_eq!(trace.prompts.len(), 1);
    assert_eq!(trace.prompts[0].0, "VERSION");
    assert_eq!(trace.prompts[0].1.as_deref(), Some("1.0.0"));
    assert_eq!(interp.lookup("APP_VERSION").unwrap(), "1.0.0");
    assert_eq!(trace.runs, vec![("echo \"1.0.0\" > out.txt".to_string(), "/work".to_string())]);
}

#[test]
fn test_interactive_answer_overrides_default() {
    let (interp, trace) = drive("ARG VERSION=1.0.0", "/work", true, &["2.5"], &[]);
    assert!(trace.finished);
    assert_eq!(interp.lookup("VERSION").unwrap(), "2.5");
}

#[test]
fn test_interactive_empty_uses_environment_value() {
    let (interp, trace) = drive("ARG NAME", "/work", true, &[""], &[("NAME", "from_env")]);
    assert!(trace.finished);
    assert_eq!(trace.prompts[0].1.as_deref(), Some("from_env"));
    assert_eq!(interp.lookup("NAME").unwrap(), "from_env");
}

#[test]
fn test_interactive_empty_without_default_fails() {
    let (_, trace) = drive("ARG NAME", "/work", true, &[""], &[]);
    assert!(!trace.finished);
    match trace.error {
        Some(InterpError::MissingArg { name }) => assert_eq!(name, "NAME"),
        _ => panic!("expected MissingArg"),
    }
}

#[test]
fn test_arg_environment_beats_literal_default() {
    let (interp, trace) =
        drive("ARG VERSION=1.0.0", "/work", false, &[], &[("VERSION", "9.9.9")]);
    assert!(trace.finished);
    assert_eq!(interp.lookup("VERSION").unwrap(), "9.9.9");
}

#[test]
fn test_arg_missing_non_interactive_fails() {
    let script = "ARG NEEDED\nRUN echo should_not_run";
    let (_, trace) = drive(script, "/work", false, &[], &[]);
    assert!(!trace.finished);
    assert!(trace.runs.is_empty());
    match trace.error {
        Some(InterpError::MissingArg { name }) => assert_eq!(name, "NEEDED"),
        _ => panic!("expected MissingArg"),
    }
}

#[test]
fn test_failed_run_stops_interpreter() {
    let mut interp = Interpreter::new("/work".to_string(), false, VarStore::new());
    let a = interp.step(Event::Line { text: "RUN false".to_string() });
    match a {
        Action::Run { command, .. } => assert_eq!(command, "false"),
        _ => panic!("expected Run"),
    }
    let a = interp.step(Event::CommandDone { success: false });
    match a {
        Action::Failed { error: InterpError::CommandFailed } => {}
        _ => panic!("expected CommandFailed"),
    }
    // The run is over: the later RUN line is never handed out, so nothing
    // after the failing command can execute.
}

#[test]
fn test_failed_fetch_is_not_fatal() {
    let mut interp = Interpreter::new("/work".to_string(), false, VarStore::new());
    let a = interp.step(Event::Line { text: "ADD http://example.com/f dest".to_string() });
    assert!(matches!(a, Action::Fetch { .. }));
    let a = interp.step(Event::FetchDone { success: false });
    assert!(matches!(a, Action::Continue));
    let a = interp.step(Event::Line { text: "RUN echo on".to_string() });
    assert!(matches!(a, Action::Run { .. }));
}

#[test]
fn test_unterminated_continuation_fails() {
    let (_, trace) = drive("RUN echo a \\", "/work", false, &[], &[]);
    assert!(!trace.finished);
    assert!(trace.runs.is_empty());
    assert!(matches!(trace.error, Some(InterpError::UnterminatedContinuation)));
}

#[test]
fn test_continuation_joins_lines() {
    let script = "RUN echo a \\\necho b";
    let (_, trace) = drive(script, "/work", false, &[], &[]);
    assert!(trace.finished);
    assert_eq!(trace.runs.len(), 1);
    // Marker stripped, parts space-joined: one command, equivalent to
    // `echo a echo b`.
    assert_eq!(trace.runs[0].0, "echo a  echo b");
    let words: Vec<&str> = trace.runs[0].0.split_whitespace().collect();
    assert_eq!(words, vec!["echo", "a", "echo", "b"]);
}

#[test]
fn test_workdir_absolute_path() {
    let script = "WORKDIR /opt/build\nRUN pwd";
    let (interp, trace) = drive(script, "/scripts", false, &[], &[]);
    assert!(trace.finished);
    assert_eq!(interp.cwd(), "/opt/build");
    assert_eq!(trace.runs[0].1, "/opt/build");
}

#[test]
fn test_workdir_path_may_use_variables() {
    let script = "ENV SUB=nested\nWORKDIR build/$SUB\nRUN pwd";
    let (interp, trace) = drive(script, "/scripts", false, &[], &[]);
    assert!(trace.finished);
    assert_eq!(interp.cwd(), "/scripts/build/nested");
    assert_eq!(trace.runs[0].1, "/scripts/build/nested");
}

#[test]
fn test_environment_reflects_bindings() {
    let script = "ENV A=1\nENV A=2\nENV B=3";
    let (interp, trace) = drive(script, "/work", false, &[], &[]);
    assert!(trace.finished);
    let mut last_a = None;
    let mut last_b = None;
    for b in interp.environment() {
        if b.name == "A" {
            last_a = Some(b.value);
        } else if b.name == "B" {
            last_b = Some(b.value);
        }
    }
    assert_eq!(last_a.unwrap(), "2");
    assert_eq!(last_b.unwrap(), "3");
}
