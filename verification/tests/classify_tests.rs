//! Tests of the instruction classifier on trimmed lines.

use dockrun::instr::{classify, Instruction};

#[test]
fn test_classify_run() {
    match classify("RUN echo hi") {
        Instruction::Run { command } => assert_eq!(command, "echo hi"),
        _ => panic!("expected Run"),
    }
}

#[test]
fn test_classify_run_continuation_start() {
    match classify("RUN echo a \\") {
        Instruction::MultiLineRunStart { partial } => assert_eq!(partial, "echo a  "),
        _ => panic!("expected MultiLineRunStart"),
    }
}

#[test]
fn test_classify_env_equals_form() {
    match classify("ENV A=b") {
        Instruction::Env { name, raw_value } => {
            assert_eq!(name, "A");
            assert_eq!(raw_value, "b");
        }
        _ => panic!("expected Env"),
    }
    match classify("ENV A=b=c") {
        Instruction::Env { name, raw_value } => {
            assert_eq!(name, "A");
            assert_eq!(raw_value, "b=c");
        }
        _ => panic!("expected Env"),
    }
    match classify("ENV A= b") {
        Instruction::Env { name, raw_value } => {
            assert_eq!(name, "A");
            assert_eq!(raw_value, " b");
        }
        _ => panic!("expected Env"),
    }
}

#[test]
fn test_classify_env_space_form() {
    match classify("ENV A b c") {
        Instruction::Env { name, raw_value } => {
            assert_eq!(name, "A");
            assert_eq!(raw_value, "b c");
        }
        _ => panic!("expected Env"),
    }
}

#[test]
fn test_classify_env_without_value_is_unrecognized() {
    assert!(matches!(classify("ENV A"), Instruction::Unrecognized));
    assert!(matches!(classify("ENV A="), Instruction::Unrecognized));
    assert!(matches!(classify("ENV"), Instruction::Unrecognized));
}

#[test]
fn test_classify_arg_forms() {
    match classify("ARG X") {
        Instruction::Arg { name, default } => {
            assert_eq!(name, "X");
            assert!(default.is_none());
        }
        _ => panic!("expected Arg"),
    }
    match classify("ARG X=1") {
        Instruction::Arg { name, default } => {
            assert_eq!(name, "X");
            assert_eq!(default.unwrap(), "1");
        }
        _ => panic!("expected Arg"),
    }
    match classify("ARG X = 1.0") {
        Instruction::Arg { name, default } => {
            assert_eq!(name, "X");
            assert_eq!(default.unwrap(), "1.0");
        }
        _ => panic!("expected Arg"),
    }
    // A trailing `=` with nothing after it gives no default, and a second
    // word that is not `=`-joined is ignored.
    match classify("ARG X=") {
        Instruction::Arg { name, default } => {
            assert_eq!(name, "X");
            assert!(default.is_none());
        }
        _ => panic!("expected Arg"),
    }
    match classify("ARG X y") {
        Instruction::Arg { name, default } => {
            assert_eq!(name, "X");
            assert!(default.is_none());
        }
        _ => panic!("expected Arg"),
    }
}

#[test]
fn test_classify_workdir() {
    match classify("WORKDIR /tmp") {
        Instruction::Workdir { path } => assert_eq!(path, "/tmp"),
        _ => panic!("expected Workdir"),
    }
    match classify("WORKDIR a b") {
        Instruction::Workdir { path } => assert_eq!(path, "a b"),
        _ => panic!("expected Workdir"),
    }
    assert!(matches!(classify("WORKDIR"), Instruction::Unrecognized));
}

#[test]
fn test_classify_add_url_forms() {
    match classify("ADD http://a/b c") {
        Instruction::Add { url } => assert_eq!(url, "http://a/b"),
        _ => panic!("expected Add"),
    }
    match classify("ADD https://example.com/file.txt ./temp/file.txt") {
        Instruction::Add { url } => assert_eq!(url, "https://example.com/file.txt"),
        _ => panic!("expected Add"),
    }
    // Only the URL form with a destination is recognized.
    assert!(matches!(classify("ADD http://a/b"), Instruction::Unrecognized));
    assert!(matches!(classify("ADD ./local /app"), Instruction::Unrecognized));
    assert!(matches!(classify("ADD http:// x"), Instruction::Unrecognized));
}

#[test]
fn test_classify_comment_blank_unsupported() {
    assert!(matches!(classify("# a comment"), Instruction::Comment));
    assert!(matches!(classify("#"), Instruction::Comment));
    assert!(matches!(classify(""), Instruction::Blank));
    assert!(matches!(classify("FROM ubuntu:22.04"), Instruction::Unrecognized));
    assert!(matches!(classify("COPY . /app"), Instruction::Unrecognized));
    assert!(matches!(classify("run echo hi"), Instruction::Unrecognized));
    assert!(matches!(classify("RUNX foo"), Instruction::Unrecognized));
    assert!(matches!(classify("RUN"), Instruction::Unrecognized));
}
