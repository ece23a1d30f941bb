//! The instruction classifier: the line-oriented grammar of the script.
//!
//! A trimmed line is recognized as one instruction. The tests are made in a
//! fixed order, first match wins: blank line, comment (`#`-prefixed), ENV,
//! WORKDIR, RUN (which may open a multi-line continuation), ADD (URL form
//! only), ARG; everything else is an unsupported instruction, ignored.

use vstd::prelude::*;

use crate::text::ends_with_backslash;
use crate::text::is_space_char;
use crate::text::key_run_end;
use crate::text::key_run_end_at;
use crate::text::lemma_key_run_end_exact;
use crate::text::nonspace_run_end;
use crate::text::nonspace_run_end_at;
use crate::text::push_char;
use crate::text::space_char;
use crate::text::space_run_end;
use crate::text::space_run_end_at;
use crate::text::substr;

verus! {

/// One recognized line, at the specification level.
pub enum SpecInstr {
    Run { command: Seq<char> },
    MultiLineRunStart { partial: Seq<char> },
    Add { url: Seq<char> },
    Env { name: Seq<char>, raw_value: Seq<char> },
    Arg { name: Seq<char>, default: Option<Seq<char>> },
    Workdir { path: Seq<char> },
    Comment,
    Blank,
    Unrecognized,
}

/// One recognized line. Produced fresh per line; not persisted.
pub enum Instruction {
    /// A complete RUN command, to be executed at once.
    Run { command: String },
    /// A RUN command that ends with the continuation marker: `partial` is
    /// the command with the marker stripped and a space appended, the first
    /// content of the continuation buffer.
    MultiLineRunStart { partial: String },
    /// An ADD with an `http://` or `https://` source and a destination
    /// argument; only the URL is kept.
    Add { url: String },
    /// An ENV binding, `name value` or `name=value`; the value has not been
    /// expanded yet.
    Env { name: String, raw_value: String },
    /// An ARG with an optional literal default.
    Arg { name: String, default: Option<String> },
    /// A WORKDIR change; the path has not been expanded yet.
    Workdir { path: String },
    Comment,
    Blank,
    Unrecognized,
}

/// The view of an optional string.
pub open spec fn opt_str_view(o: Option<String>) -> Option<Seq<char>> {
    match o {
        Some(s) => Some(s@),
        None => None,
    }
}

impl View for Instruction {
    type V = SpecInstr;

    open spec fn view(&self) -> SpecInstr {
        match self {
            Instruction::Run { command } => SpecInstr::Run { command: command@ },
            Instruction::MultiLineRunStart { partial } => SpecInstr::MultiLineRunStart {
                partial: partial@,
            },
            Instruction::Add { url } => SpecInstr::Add { url: url@ },
            Instruction::Env { name, raw_value } => SpecInstr::Env {
                name: name@,
                raw_value: raw_value@,
            },
            Instruction::Arg { name, default } => SpecInstr::Arg {
                name: name@,
                default: opt_str_view(*default),
            },
            Instruction::Workdir { path } => SpecInstr::Workdir { path: path@ },
            Instruction::Comment => SpecInstr::Comment,
            Instruction::Blank => SpecInstr::Blank,
            Instruction::Unrecognized => SpecInstr::Unrecognized,
        }
    }
}

/// `RUN`, `ADD`, `ENV` or `ARG` at the start of the line, followed by
/// whitespace.
pub open spec fn kw3_at(s: Seq<char>, c0: char, c1: char, c2: char) -> bool {
    s.len() > 3 && s[0] == c0 && s[1] == c1 && s[2] == c2 && is_space_char(s[3])
}

/// `WORKDIR` at the start of the line, followed by whitespace.
pub open spec fn kw_workdir(s: Seq<char>) -> bool {
    s.len() > 7 && s[0] == 'W' && s[1] == 'O' && s[2] == 'R' && s[3] == 'K' && s[4] == 'D' && s[5]
        == 'I' && s[6] == 'R' && is_space_char(s[7])
}

/// The text after a three-letter keyword and the whitespace run behind it.
pub open spec fn rest3_start(s: Seq<char>) -> int {
    space_run_end(s, 3)
}

pub open spec fn is_env_line(s: Seq<char>) -> bool {
    let t = rest3_start(s);
    let p = key_run_end(s, t);
    kw3_at(s, 'E', 'N', 'V') && t < p && p < s.len() && (if s[p] == '=' {
        p + 1 < s.len()
    } else {
        space_run_end(s, p) < s.len()
    })
}

pub open spec fn env_name(s: Seq<char>) -> Seq<char> {
    s.subrange(rest3_start(s), key_run_end(s, rest3_start(s)))
}

pub open spec fn env_raw_value(s: Seq<char>) -> Seq<char> {
    let p = key_run_end(s, rest3_start(s));
    if s[p] == '=' {
        s.subrange(p + 1, s.len() as int)
    } else {
        s.subrange(space_run_end(s, p), s.len() as int)
    }
}

pub open spec fn is_workdir_line(s: Seq<char>) -> bool {
    kw_workdir(s) && space_run_end(s, 7) < s.len()
}

pub open spec fn workdir_path(s: Seq<char>) -> Seq<char> {
    s.subrange(space_run_end(s, 7), s.len() as int)
}

pub open spec fn is_run_line(s: Seq<char>) -> bool {
    kw3_at(s, 'R', 'U', 'N')
}

pub open spec fn run_command(s: Seq<char>) -> Seq<char> {
    s.subrange(rest3_start(s), s.len() as int)
}

/// An `http://` or `https://` URL: the scheme prefix with at least one
/// character after it.
pub open spec fn is_http_url(u: Seq<char>) -> bool {
    (u.len() > 7 && u[0] == 'h' && u[1] == 't' && u[2] == 't' && u[3] == 'p' && u[4] == ':' && u[5]
        == '/' && u[6] == '/') || (u.len() > 8 && u[0] == 'h' && u[1] == 't' && u[2] == 't' && u[3]
        == 'p' && u[4] == 's' && u[5] == ':' && u[6] == '/' && u[7] == '/')
}

pub open spec fn add_url(s: Seq<char>) -> Seq<char> {
    let t = rest3_start(s);
    s.subrange(t, nonspace_run_end(s, t))
}

/// An ADD line: the source token is an http(s) URL and a destination
/// argument follows it.
pub open spec fn is_add_line(s: Seq<char>) -> bool {
    kw3_at(s, 'A', 'D', 'D') && nonspace_run_end(s, rest3_start(s)) < s.len() && is_http_url(
        add_url(s),
    )
}

pub open spec fn is_arg_line(s: Seq<char>) -> bool {
    kw3_at(s, 'A', 'R', 'G') && rest3_start(s) < key_run_end(s, rest3_start(s))
}

pub open spec fn arg_name(s: Seq<char>) -> Seq<char> {
    s.subrange(rest3_start(s), key_run_end(s, rest3_start(s)))
}

/// The literal default of an ARG line: the text after `=` (and the
/// whitespace around the `=`), when there is any.
pub open spec fn arg_default(s: Seq<char>) -> Option<Seq<char>> {
    let p = key_run_end(s, rest3_start(s));
    let u = space_run_end(s, p);
    if u < s.len() && s[u] == '=' {
        let w = space_run_end(s, u + 1);
        if w < s.len() {
            Some(s.subrange(w, s.len() as int))
        } else {
            None
        }
    } else {
        None
    }
}

/// The instruction that a trimmed line denotes. The tests are made in this
/// fixed order; the first that matches wins.
pub open spec fn spec_classify(s: Seq<char>) -> SpecInstr {
    if s.len() == 0 {
        SpecInstr::Blank
    } else if s[0] == '#' {
        SpecInstr::Comment
    } else if is_env_line(s) {
        SpecInstr::Env { name: env_name(s), raw_value: env_raw_value(s) }
    } else if is_workdir_line(s) {
        SpecInstr::Workdir { path: workdir_path(s) }
    } else if is_run_line(s) {
        let command = run_command(s);
        if ends_with_backslash(command) {
            SpecInstr::MultiLineRunStart {
                partial: command.subrange(0, command.len() - 1).push(' '),
            }
        } else {
            SpecInstr::Run { command }
        }
    } else if is_add_line(s) {
        SpecInstr::Add { url: add_url(s) }
    } else if is_arg_line(s) {
        SpecInstr::Arg { name: arg_name(s), default: arg_default(s) }
    } else {
        SpecInstr::Unrecognized
    }
}

fn kw3_check(s: &str, c0: char, c1: char, c2: char) -> (r: bool)
    ensures
        r == kw3_at(s@, c0, c1, c2),
{
    let n = s.unicode_len();
    n > 3 && s.get_char(0) == c0 && s.get_char(1) == c1 && s.get_char(2) == c2 && space_char(
        s.get_char(3),
    )
}

fn kw_workdir_check(s: &str) -> (r: bool)
    ensures
        r == kw_workdir(s@),
{
    let n = s.unicode_len();
    n > 7 && s.get_char(0) == 'W' && s.get_char(1) == 'O' && s.get_char(2) == 'R' && s.get_char(3)
        == 'K' && s.get_char(4) == 'D' && s.get_char(5) == 'I' && s.get_char(6) == 'R'
        && space_char(s.get_char(7))
}

fn http_url_check(u: &str) -> (r: bool)
    ensures
        r == is_http_url(u@),
{
    let n = u.unicode_len();
    if n > 7 && u.get_char(0) == 'h' && u.get_char(1) == 't' && u.get_char(2) == 't' && u.get_char(
        3,
    ) == 'p' {
        if u.get_char(4) == ':' && u.get_char(5) == '/' && u.get_char(6) == '/' {
            return true;
        }
        if n > 8 && u.get_char(4) == 's' && u.get_char(5) == ':' && u.get_char(6) == '/'
            && u.get_char(7) == '/' {
            return true;
        }
        false
    } else {
        false
    }
}

/// Recognizes the instruction on a trimmed line.
pub fn classify(line: &str) -> (r: Instruction)
    ensures
        r@ == spec_classify(line@),
{
    let n = line.unicode_len();
    if n == 0 {
        return Instruction::Blank;
    }
    if line.get_char(0) == '#' {
        return Instruction::Comment;
    }
    if kw3_check(line, 'E', 'N', 'V') {
        let t = space_run_end_at(line, 3);
        let p = key_run_end_at(line, t);
        if t < p && p < n {
            if line.get_char(p) == '=' {
                if p + 1 < n {
                    return Instruction::Env {
                        name: substr(line, t, p),
                        raw_value: substr(line, p + 1, n),
                    };
                }
            } else {
                let q = space_run_end_at(line, p);
                if q < n {
                    return Instruction::Env {
                        name: substr(line, t, p),
                        raw_value: substr(line, q, n),
                    };
                }
            }
        }
    }
    if kw_workdir_check(line) {
        let t = space_run_end_at(line, 7);
        if t < n {
            return Instruction::Workdir { path: substr(line, t, n) };
        }
    }
    if kw3_check(line, 'R', 'U', 'N') {
        let t = space_run_end_at(line, 3);
        let command = substr(line, t, n);
        if crate::text::has_continuation_marker(command.as_str()) {
            let mut partial = substr(line, t, n - 1);
            push_char(&mut partial, ' ');
            proof {
                assert(partial@ =~= run_command(line@).subrange(
                    0,
                    run_command(line@).len() - 1,
                ).push(' '));
            }
            return Instruction::MultiLineRunStart { partial };
        }
        return Instruction::Run { command };
    }
    if kw3_check(line, 'A', 'D', 'D') {
        let t = space_run_end_at(line, 3);
        let te = nonspace_run_end_at(line, t);
        if te < n {
            let token = substr(line, t, te);
            if http_url_check(token.as_str()) {
                return Instruction::Add { url: token };
            }
        }
    }
    if kw3_check(line, 'A', 'R', 'G') {
        let t = space_run_end_at(line, 3);
        let p = key_run_end_at(line, t);
        if t < p {
            let name = substr(line, t, p);
            let u = space_run_end_at(line, p);
            let mut default: Option<String> = None;
            if u < n && line.get_char(u) == '=' {
                let w = space_run_end_at(line, u + 1);
                if w < n {
                    default = Some(substr(line, w, n));
                }
            }
            return Instruction::Arg { name, default };
        }
    }
    Instruction::Unrecognized
}

/// How a literal `RUN <cmd>` line classifies: a RUN command, or the start
/// of a multi-line RUN when the command ends with the continuation marker.
pub proof fn lemma_classify_run(cmd: Seq<char>)
    requires
        cmd.len() > 0,
        !is_space_char(cmd[0]),
    ensures
        !ends_with_backslash(cmd) ==> spec_classify(seq!['R', 'U', 'N', ' '] + cmd)
            == (SpecInstr::Run { command: cmd }),
        ends_with_backslash(cmd) ==> spec_classify(seq!['R', 'U', 'N', ' '] + cmd)
            == (SpecInstr::MultiLineRunStart {
            partial: cmd.subrange(0, cmd.len() - 1).push(' '),
        }),
{
    let s = seq!['R', 'U', 'N', ' '] + cmd;
    assert(s[0] == 'R' && s[1] == 'U' && s[2] == 'N' && s[3] == ' ');
    assert(s[4] == cmd[0]);
    assert(!is_env_line(s));
    assert(!is_workdir_line(s));
    assert(is_run_line(s));
    assert(space_run_end(s, 3) == space_run_end(s, 4));
    assert(space_run_end(s, 4) == 4);
    assert(run_command(s) =~= cmd);
}

/// How a literal `WORKDIR <path>` line classifies.
pub proof fn lemma_classify_workdir(path: Seq<char>)
    requires
        path.len() > 0,
        !is_space_char(path[0]),
    ensures
        spec_classify(seq!['W', 'O', 'R', 'K', 'D', 'I', 'R', ' '] + path) == (SpecInstr::Workdir {
            path,
        }),
{
    let s = seq!['W', 'O', 'R', 'K', 'D', 'I', 'R', ' '] + path;
    assert(s[0] == 'W' && s[1] == 'O' && s[2] == 'R' && s[3] == 'K' && s[4] == 'D' && s[5] == 'I'
        && s[6] == 'R' && s[7] == ' ');
    assert(s[8] == path[0]);
    assert(!is_env_line(s));
    assert(kw_workdir(s));
    assert(space_run_end(s, 7) == space_run_end(s, 8));
    assert(space_run_end(s, 8) == 8);
    assert(is_workdir_line(s));
    assert(workdir_path(s) =~= path);
}

/// How a literal `ENV <name>=<value>` line classifies.
pub proof fn lemma_classify_env_eq(name: Seq<char>, value: Seq<char>)
    requires
        name.len() > 0,
        forall|i: int| 0 <= i < name.len() ==> !is_space_char(name[i]) && name[i] != '=',
        value.len() > 0,
    ensures
        spec_classify(seq!['E', 'N', 'V', ' '] + name + seq!['='] + value) == (SpecInstr::Env {
            name,
            raw_value: value,
        }),
{
    let s = seq!['E', 'N', 'V', ' '] + name + seq!['='] + value;
    assert(s[0] == 'E' && s[1] == 'N' && s[2] == 'V' && s[3] == ' ');
    assert(forall|i: int| 0 <= i < name.len() ==> s[4 + i] == name[i]);
    assert(s[4] == name[0]);
    let p = 4 + name.len() as int;
    assert(s[p] == '=');
    assert(space_run_end(s, 3) == space_run_end(s, 4));
    assert(space_run_end(s, 4) == 4);
    lemma_key_run_end_exact(s, 4, p);
    assert(is_env_line(s));
    assert(env_name(s) =~= name);
    assert(env_raw_value(s) =~= value);
}

/// How a literal `ENV <name> <value>` line (space-separated form)
/// classifies.
pub proof fn lemma_classify_env_space(name: Seq<char>, value: Seq<char>)
    requires
        name.len() > 0,
        forall|i: int| 0 <= i < name.len() ==> !is_space_char(name[i]) && name[i] != '=',
        value.len() > 0,
        !is_space_char(value[0]),
    ensures
        spec_classify(seq!['E', 'N', 'V', ' '] + name + seq![' '] + value) == (SpecInstr::Env {
            name,
            raw_value: value,
        }),
{
    let s = seq!['E', 'N', 'V', ' '] + name + seq![' '] + value;
    assert(s[0] == 'E' && s[1] == 'N' && s[2] == 'V' && s[3] == ' ');
    assert(forall|i: int| 0 <= i < name.len() ==> s[4 + i] == name[i]);
    assert(s[4] == name[0]);
    let p = 4 + name.len() as int;
    assert(s[p] == ' ');
    assert(s[p + 1] == value[0]);
    assert(space_run_end(s, 3) == space_run_end(s, 4));
    assert(space_run_end(s, 4) == 4);
    lemma_key_run_end_exact(s, 4, p);
    assert(space_run_end(s, p) == space_run_end(s, p + 1));
    assert(space_run_end(s, p + 1) == p + 1);
    assert(is_env_line(s));
    assert(env_name(s) =~= name);
    assert(env_raw_value(s) =~= value);
}

/// How a literal `ARG <name>=<default>` line classifies.
pub proof fn lemma_classify_arg_default(name: Seq<char>, d: Seq<char>)
    requires
        name.len() > 0,
        forall|i: int| 0 <= i < name.len() ==> !is_space_char(name[i]) && name[i] != '=',
        d.len() > 0,
        !is_space_char(d[0]),
    ensures
        spec_classify(seq!['A', 'R', 'G', ' '] + name + seq!['='] + d) == (SpecInstr::Arg {
            name,
            default: Some(d),
        }),
{
    let s = seq!['A', 'R', 'G', ' '] + name + seq!['='] + d;
    assert(s[0] == 'A' && s[1] == 'R' && s[2] == 'G' && s[3] == ' ');
    assert(forall|i: int| 0 <= i < name.len() ==> s[4 + i] == name[i]);
    assert(s[4] == name[0]);
    let p = 4 + name.len() as int;
    assert(s[p] == '=');
    assert(s[p + 1] == d[0]);
    assert(!is_env_line(s));
    assert(!is_workdir_line(s));
    assert(!is_run_line(s));
    assert(!is_add_line(s));
    assert(space_run_end(s, 3) == space_run_end(s, 4));
    assert(space_run_end(s, 4) == 4);
    lemma_key_run_end_exact(s, 4, p);
    assert(is_arg_line(s));
    assert(arg_name(s) =~= name);
    assert(space_run_end(s, p) == p);
    assert(space_run_end(s, p + 1) == p + 1);
    assert(arg_default(s) matches Some(v) && v =~= d);
}

/// How a literal `ARG <name>` line (no default) classifies.
pub proof fn lemma_classify_arg_plain(name: Seq<char>)
    requires
        name.len() > 0,
        forall|i: int| 0 <= i < name.len() ==> !is_space_char(name[i]) && name[i] != '=',
    ensures
        spec_classify(seq!['A', 'R', 'G', ' '] + name) == (SpecInstr::Arg { name, default: None }),
{
    let s = seq!['A', 'R', 'G', ' '] + name;
    assert(s[0] == 'A' && s[1] == 'R' && s[2] == 'G' && s[3] == ' ');
    assert(forall|i: int| 0 <= i < name.len() ==> s[4 + i] == name[i]);
    assert(s[4] == name[0]);
    let p = 4 + name.len() as int;
    assert(p == s.len());
    assert(!is_env_line(s));
    assert(!is_workdir_line(s));
    assert(!is_run_line(s));
    assert(!is_add_line(s));
    assert(space_run_end(s, 3) == space_run_end(s, 4));
    assert(space_run_end(s, 4) == 4);
    lemma_key_run_end_exact(s, 4, p);
    assert(is_arg_line(s));
    assert(arg_name(s) =~= name);
    assert(space_run_end(s, p) == p);
    assert(arg_default(s) is None);
}

} // verus!
