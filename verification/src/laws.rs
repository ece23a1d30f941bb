//! The laws of the interpreter, stated and proved over the transition
//! function [`spec_step`]: continuation joining, the stability of the
//! working directory across commands, ARG resolution precedence, ENV
//! expansion against earlier bindings and overwriting, the fatality of a
//! failed command, and the harmlessness of ignored lines.

use vstd::prelude::*;

use crate::context::is_absolute_path;
use crate::context::spec_join;
use crate::instr::lemma_classify_arg_default;
use crate::instr::lemma_classify_arg_plain;
use crate::instr::lemma_classify_env_eq;
use crate::instr::lemma_classify_run;
use crate::instr::lemma_classify_workdir;
use crate::interp::InterpView;
use crate::interp::SpecAction;
use crate::interp::SpecError;
use crate::interp::SpecEvent;
use crate::interp::event_fits;
use crate::interp::spec_step;
use crate::text::ends_with_backslash;
use crate::text::is_space_char;
use crate::text::is_trimmed;
use crate::text::lemma_name_char_not_space_eq;
use crate::text::lemma_trim_of_trimmed;
use crate::vars::is_valid_name;
use crate::vars::lemma_expand_literal;
use crate::vars::lemma_expand_unbraced_ref;
use crate::vars::spec_expand;

verus! {

/// Law: a RUN line that ends with the continuation marker and the next
/// line without one execute as a single command: the marker is stripped,
/// the parts are joined with a single space, and the joined command is
/// expanded once and handed out to run in the tracked directory.
pub proof fn lemma_continuation_joins_lines(v: InterpView, cmd: Seq<char>, next: Seq<char>)
    requires
        v.phase is Ready,
        !v.open,
        cmd.len() > 0,
        !is_space_char(cmd[0]),
        ends_with_backslash(cmd),
        is_trimmed(next),
        !ends_with_backslash(next),
    ensures
        ({
            let (v1, a1) = spec_step(v, SpecEvent::Line { text: seq!['R', 'U', 'N', ' '] + cmd });
            let (v2, a2) = spec_step(v1, SpecEvent::Line { text: next });
            &&& a1 == SpecAction::Continue
            &&& v1.open
            &&& a2 == (SpecAction::Run {
                command: spec_expand(v.vars, cmd.subrange(0, cmd.len() - 1).push(' ') + next),
                dir: v.cwd,
            })
            &&& v2.phase is AwaitingCommand
            &&& !v2.open
            &&& v2.vars == v.vars
        }),
{
    let l1 = seq!['R', 'U', 'N', ' '] + cmd;
    assert(l1[l1.len() - 1] == cmd[cmd.len() - 1]);
    assert(!is_space_char('\\'));
    lemma_trim_of_trimmed(l1);
    lemma_classify_run(cmd);
}

/// Law: after a WORKDIR with a (once expanded) relative path, the tracked
/// directory is the script directory joined with that path, and every
/// following RUN command is handed out with exactly that directory.
pub proof fn lemma_workdir_fixes_run_dir(
    v: InterpView,
    path: Seq<char>,
    c1: Seq<char>,
    c2: Seq<char>,
)
    requires
        v.phase is Ready,
        !v.open,
        path.len() > 0,
        !is_space_char(path[0]),
        !is_space_char(path[path.len() - 1]),
        !is_absolute_path(spec_expand(v.vars, path)),
        c1.len() > 0,
        !is_space_char(c1[0]),
        !is_space_char(c1[c1.len() - 1]),
        !ends_with_backslash(c1),
        c2.len() > 0,
        !is_space_char(c2[0]),
        !is_space_char(c2[c2.len() - 1]),
        !ends_with_backslash(c2),
    ensures
        ({
            let d = spec_join(v.script_dir, spec_expand(v.vars, path));
            let (v1, a1) = spec_step(
                v,
                SpecEvent::Line { text: seq!['W', 'O', 'R', 'K', 'D', 'I', 'R', ' '] + path },
            );
            let (v2, a2) = spec_step(v1, SpecEvent::Line { text: seq!['R', 'U', 'N', ' '] + c1 });
            let (v3, a3) = spec_step(v2, SpecEvent::CommandDone { success: true });
            let (v4, a4) = spec_step(v3, SpecEvent::Line { text: seq!['R', 'U', 'N', ' '] + c2 });
            &&& a1 == SpecAction::Continue
            &&& v1.cwd == d
            &&& a2 == (SpecAction::Run { command: spec_expand(v.vars, c1), dir: d })
            &&& a3 == SpecAction::Continue
            &&& a4 == (SpecAction::Run { command: spec_expand(v.vars, c2), dir: d })
        }),
{
    let l0 = seq!['W', 'O', 'R', 'K', 'D', 'I', 'R', ' '] + path;
    assert(l0[l0.len() - 1] == path[path.len() - 1]);
    lemma_trim_of_trimmed(l0);
    lemma_classify_workdir(path);
    let l1 = seq!['R', 'U', 'N', ' '] + c1;
    assert(l1[l1.len() - 1] == c1[c1.len() - 1]);
    lemma_trim_of_trimmed(l1);
    lemma_classify_run(c1);
    let l2 = seq!['R', 'U', 'N', ' '] + c2;
    assert(l2[l2.len() - 1] == c2[c2.len() - 1]);
    lemma_trim_of_trimmed(l2);
    lemma_classify_run(c2);
}

/// Law: run non-interactively, `ARG <name>=<default>` resolves to the
/// current environment value of `name` when one exists, and to the literal
/// default otherwise; either way the run goes on.
pub proof fn lemma_arg_resolution(v: InterpView, name: Seq<char>, d: Seq<char>)
    requires
        v.phase is Ready,
        !v.open,
        !v.interactive,
        name.len() > 0,
        forall|i: int| 0 <= i < name.len() ==> !is_space_char(name[i]) && name[i] != '=',
        d.len() > 0,
        !is_space_char(d[0]),
        !is_space_char(d[d.len() - 1]),
    ensures
        ({
            let (v1, a1) = spec_step(
                v,
                SpecEvent::Line { text: seq!['A', 'R', 'G', ' '] + name + seq!['='] + d },
            );
            &&& a1 == SpecAction::Continue
            &&& v1.phase is Ready
            &&& (v.vars.contains_key(name) ==> v1.vars == v.vars.insert(name, v.vars[name]))
            &&& (!v.vars.contains_key(name) ==> v1.vars == v.vars.insert(name, d))
        }),
{
    let l = seq!['A', 'R', 'G', ' '] + name + seq!['='] + d;
    assert(l[l.len() - 1] == d[d.len() - 1]);
    lemma_trim_of_trimmed(l);
    lemma_classify_arg_default(name, d);
}

/// Law: run non-interactively, an ARG without a default and without an
/// environment value is fatal: the step fails naming the ARG, and no event
/// fits the failed state.
pub proof fn lemma_arg_missing_fails(v: InterpView, name: Seq<char>)
    requires
        v.phase is Ready,
        !v.open,
        !v.interactive,
        name.len() > 0,
        forall|i: int| 0 <= i < name.len() ==> !is_space_char(name[i]) && name[i] != '=',
        !v.vars.contains_key(name),
    ensures
        ({
            let (v1, a1) = spec_step(v, SpecEvent::Line { text: seq!['A', 'R', 'G', ' '] + name });
            &&& a1 == (SpecAction::Failed { error: SpecError::MissingArg { name } })
            &&& v1.phase is Failed
            &&& forall|e: SpecEvent| !event_fits(v1.phase, e)
        }),
{
    let l = seq!['A', 'R', 'G', ' '] + name;
    assert(l[l.len() - 1] == name[name.len() - 1]);
    lemma_trim_of_trimmed(l);
    lemma_classify_arg_plain(name);
}

/// Law: an ENV whose value references an earlier resolved ARG binds the
/// ARG's resolved value: after `ARG <n>=<d>` (non-interactive, `n` not in
/// the environment), `ENV <m>=$<n>` binds `m` to `d`.
pub proof fn lemma_env_sees_prior_arg(v: InterpView, n: Seq<char>, d: Seq<char>, m: Seq<char>)
    requires
        v.phase is Ready,
        !v.open,
        !v.interactive,
        is_valid_name(n),
        !v.vars.contains_key(n),
        d.len() > 0,
        !is_space_char(d[0]),
        !is_space_char(d[d.len() - 1]),
        m.len() > 0,
        forall|i: int| 0 <= i < m.len() ==> !is_space_char(m[i]) && m[i] != '=',
    ensures
        ({
            let (v1, a1) = spec_step(
                v,
                SpecEvent::Line { text: seq!['A', 'R', 'G', ' '] + n + seq!['='] + d },
            );
            let (v2, a2) = spec_step(
                v1,
                SpecEvent::Line { text: seq!['E', 'N', 'V', ' '] + m + seq!['='] + (seq!['$'] + n) },
            );
            &&& a1 == SpecAction::Continue
            &&& a2 == SpecAction::Continue
            &&& v2.vars.contains_key(m)
            &&& v2.vars[m] == d
        }),
{
    let la = seq!['A', 'R', 'G', ' '] + n + seq!['='] + d;
    assert(la[la.len() - 1] == d[d.len() - 1]);
    lemma_trim_of_trimmed(la);
    assert forall|i: int| 0 <= i < n.len() implies !is_space_char(n[i]) && n[i] != '=' by {
        lemma_name_char_not_space_eq(n[i]);
    }
    lemma_classify_arg_default(n, d);
    let value = seq!['$'] + n;
    let le = seq!['E', 'N', 'V', ' '] + m + seq!['='] + value;
    assert(le[le.len() - 1] == n[n.len() - 1]);
    lemma_name_char_not_space_eq(n[n.len() - 1]);
    lemma_trim_of_trimmed(le);
    lemma_classify_env_eq(m, value);
    let (v1, a1) = spec_step(v, SpecEvent::Line { text: la });
    assert(v1.vars == v.vars.insert(n, d));
    lemma_expand_unbraced_ref(v1.vars, n);
}

/// Law: a second ENV with the same name overwrites the first, and a
/// subsequent RUN command that references the name observes the
/// overwritten value.
pub proof fn lemma_env_overwrite(v: InterpView, m: Seq<char>, val1: Seq<char>, val2: Seq<char>)
    requires
        v.phase is Ready,
        !v.open,
        is_valid_name(m),
        val1.len() > 0,
        !is_space_char(val1[0]),
        !is_space_char(val1[val1.len() - 1]),
        forall|i: int| 0 <= i < val1.len() ==> val1[i] != '$',
        val2.len() > 0,
        !is_space_char(val2[0]),
        !is_space_char(val2[val2.len() - 1]),
        forall|i: int| 0 <= i < val2.len() ==> val2[i] != '$',
    ensures
        ({
            let (v1, a1) = spec_step(
                v,
                SpecEvent::Line { text: seq!['E', 'N', 'V', ' '] + m + seq!['='] + val1 },
            );
            let (v2, a2) = spec_step(
                v1,
                SpecEvent::Line { text: seq!['E', 'N', 'V', ' '] + m + seq!['='] + val2 },
            );
            let (v3, a3) = spec_step(
                v2,
                SpecEvent::Line { text: seq!['R', 'U', 'N', ' '] + (seq!['$'] + m) },
            );
            &&& a1 == SpecAction::Continue
            &&& a2 == SpecAction::Continue
            &&& v2.vars.contains_key(m)
            &&& v2.vars[m] == val2
            &&& a3 == (SpecAction::Run { command: val2, dir: v.cwd })
        }),
{
    assert forall|i: int| 0 <= i < m.len() implies !is_space_char(m[i]) && m[i] != '=' by {
        lemma_name_char_not_space_eq(m[i]);
    }
    let l1 = seq!['E', 'N', 'V', ' '] + m + seq!['='] + val1;
    assert(l1[l1.len() - 1] == val1[val1.len() - 1]);
    lemma_trim_of_trimmed(l1);
    lemma_classify_env_eq(m, val1);
    let l2 = seq!['E', 'N', 'V', ' '] + m + seq!['='] + val2;
    assert(l2[l2.len() - 1] == val2[val2.len() - 1]);
    lemma_trim_of_trimmed(l2);
    lemma_classify_env_eq(m, val2);
    let (v1, a1) = spec_step(v, SpecEvent::Line { text: l1 });
    lemma_expand_literal(v.vars, val1);
    lemma_expand_literal(v1.vars, val2);
    let (v2, a2) = spec_step(v1, SpecEvent::Line { text: l2 });
    let cmd = seq!['$'] + m;
    assert(!crate::text::is_name_char('\\'));
    assert(cmd[cmd.len() - 1] == m[m.len() - 1]);
    assert(cmd[cmd.len() - 1] != '\\');
    let l3 = seq!['R', 'U', 'N', ' '] + cmd;
    assert(l3[l3.len() - 1] == cmd[cmd.len() - 1]);
    lemma_trim_of_trimmed(l3);
    lemma_classify_run(cmd);
    lemma_expand_unbraced_ref(v2.vars, m);
}

/// Law: a RUN command that exits with failure stops the run: the step
/// fails, and no event fits the failed state, so nothing further can
/// execute.
pub proof fn lemma_command_failure_halts(v: InterpView)
    requires
        v.phase is AwaitingCommand,
    ensures
        ({
            let (v1, a1) = spec_step(v, SpecEvent::CommandDone { success: false });
            &&& a1 == (SpecAction::Failed { error: SpecError::CommandFailed })
            &&& v1.phase is Failed
            &&& forall|e: SpecEvent| !event_fits(v1.phase, e)
        }),
{
}

/// Law: a line that classifies as a comment, a blank line or an
/// unsupported instruction leaves the interpreter's state exactly as it
/// was and asks nothing of the caller.
pub proof fn lemma_ignored_lines_have_no_effect(v: InterpView, text: Seq<char>)
    requires
        v.phase is Ready,
        !v.open,
        crate::instr::spec_classify(crate::text::spec_trim(text)) is Comment
            || crate::instr::spec_classify(crate::text::spec_trim(text)) is Blank
            || crate::instr::spec_classify(crate::text::spec_trim(text)) is Unrecognized,
    ensures
        spec_step(v, SpecEvent::Line { text }) == (v, SpecAction::Continue),
{
}

} // verus!
