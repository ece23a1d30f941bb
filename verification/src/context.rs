//! The execution context: the tracked working directory in which every
//! external command and fetch runs.
//!
//! WORKDIR with an absolute path replaces the tracked directory; a relative
//! path is resolved against the directory that contains the script file
//! (not against the directory current when the WORKDIR line is seen).

use vstd::prelude::*;

use crate::text::push_char;

verus! {

/// The context's abstract state: the tracked working directory and the
/// directory containing the script file.
pub struct CtxView {
    pub cwd: Seq<char>,
    pub script_dir: Seq<char>,
}

/// Whether a path is absolute.
pub open spec fn is_absolute_path(p: Seq<char>) -> bool {
    p.len() > 0 && p[0] == '/'
}

/// `base` and `rel` joined with exactly one `/` between them.
pub open spec fn spec_join(base: Seq<char>, rel: Seq<char>) -> Seq<char> {
    if base.len() > 0 && base[base.len() - 1] == '/' {
        base + rel
    } else {
        base + seq!['/'] + rel
    }
}

/// The directory that a WORKDIR path (already expanded) denotes: the path
/// itself when absolute, else the script directory joined with it.
pub open spec fn resolved_workdir(ctx: CtxView, p: Seq<char>) -> Seq<char> {
    if is_absolute_path(p) {
        p
    } else {
        spec_join(ctx.script_dir, p)
    }
}

/// The tracked working directory. It starts as the directory containing the
/// script file and is changed only by WORKDIR instructions.
pub struct ExecContext {
    cwd: String,
    script_dir: String,
}

impl View for ExecContext {
    type V = CtxView;

    closed spec fn view(&self) -> CtxView {
        CtxView { cwd: self.cwd@, script_dir: self.script_dir@ }
    }
}

impl ExecContext {
    /// A context whose tracked directory is the script file's directory.
    pub fn new(script_dir: String) -> (r: Self)
        ensures
            r@.cwd == script_dir@,
            r@.script_dir == script_dir@,
    {
        let cwd = script_dir.clone();
        ExecContext { cwd, script_dir }
    }

    /// The tracked working directory.
    pub fn cwd(&self) -> (r: String)
        ensures
            r@ == self@.cwd,
    {
        self.cwd.clone()
    }

    /// Changes the tracked directory to the (already expanded) WORKDIR
    /// path: taken as it is when absolute, else resolved against the script
    /// file's directory.
    pub fn set_workdir(&mut self, path: &str)
        ensures
            final(self)@.script_dir == old(self)@.script_dir,
            final(self)@.cwd == resolved_workdir(old(self)@, path@),
    {
        let n = path.unicode_len();
        if n > 0 && path.get_char(0) == '/' {
            self.cwd = path.to_owned();
        } else {
            let mut joined = self.script_dir.clone();
            let bn = joined.as_str().unicode_len();
            if !(bn > 0 && joined.as_str().get_char(bn - 1) == '/') {
                push_char(&mut joined, '/');
                proof {
                    assert(joined@ =~= old(self)@.script_dir + seq!['/']);
                }
            }
            joined.append(path);
            proof {
                assert(joined@ =~= resolved_workdir(old(self)@, path@));
            }
            self.cwd = joined;
        }
    }
}

} // verus!
