//! The variable store and the variable expander.
//!
//! The store holds the name/value bindings created by ARG and ENV
//! instructions (on top of the environment the interpreter inherited). The
//! expander substitutes `$NAME` and `${NAME}` references in a string using
//! the store's current bindings: a single, non-recursive pass in which a
//! reference to an unbound name is replaced by the empty string, and the
//! name taken at each `$` is the longest possible run of name characters.

use vstd::prelude::*;

use crate::text::is_name_char;
use crate::text::is_name_start_char;
use crate::text::lemma_name_run_end_bounds;
use crate::text::lemma_name_run_end_exact;
use crate::text::name_run_end;
use crate::text::name_run_end_at;
use crate::text::name_start_char;
use crate::text::push_char;
use crate::text::str_eq;
use crate::text::substr;

verus! {

/// One name/value binding.
pub struct Binding {
    pub name: String,
    pub value: String,
}

impl Clone for Binding {
    fn clone(&self) -> (r: Self)
        ensures
            r == *self,
    {
        Binding { name: self.name.clone(), value: self.value.clone() }
    }
}

/// The bindings as a map, later entries overwriting earlier ones.
pub open spec fn map_of(entries: Seq<Binding>) -> Map<Seq<char>, Seq<char>>
    decreases entries.len(),
{
    if entries.len() == 0 {
        Map::empty()
    } else {
        map_of(entries.drop_last()).insert(entries.last().name@, entries.last().value@)
    }
}

/// The live mapping of variable names to their current string values.
///
/// Stored as the log of `set` calls; the abstract value is the map in which
/// the latest `set` of each name wins.
pub struct VarStore {
    entries: Vec<Binding>,
}

impl View for VarStore {
    type V = Map<Seq<char>, Seq<char>>;

    closed spec fn view(&self) -> Map<Seq<char>, Seq<char>> {
        map_of(self.entries@)
    }
}

impl VarStore {
    /// The empty store.
    pub fn new() -> (r: Self)
        ensures
            r@ == Map::<Seq<char>, Seq<char>>::empty(),
    {
        VarStore { entries: Vec::new() }
    }

    /// Binds `name` to `value`, overwriting any earlier binding of `name`.
    pub fn set(&mut self, name: String, value: String)
        ensures
            final(self)@ == old(self)@.insert(name@, value@),
    {
        let ghost prior = self.entries@;
        self.entries.push(Binding { name, value });
        proof {
            assert(self.entries@.drop_last() =~= prior);
        }
    }

    /// The current value of `name`, if it is bound.
    pub fn get(&self, name: &str) -> (r: Option<&String>)
        ensures
            match r {
                Some(v) => self@.contains_key(name@) && v@ == self@[name@],
                None => !self@.contains_key(name@),
            },
    {
        let ghost whole = self.entries@;
        let mut i: usize = self.entries.len();
        proof {
            assert(whole.take(i as int) =~= whole);
        }
        while i > 0
            invariant
                i <= self.entries.len(),
                whole == self.entries@,
                map_of(whole).contains_key(name@) <==> map_of(whole.take(i as int)).contains_key(
                    name@,
                ),
                map_of(whole.take(i as int)).contains_key(name@) ==> map_of(
                    whole.take(i as int),
                )[name@] == map_of(whole)[name@],
            decreases i,
        {
            i = i - 1;
            proof {
                assert(whole.take(i + 1 as int).drop_last() =~= whole.take(i as int));
                assert(whole.take(i + 1 as int).last() == whole[i as int]);
            }
            let e = &self.entries[i];
            if str_eq(e.name.as_str(), name) {
                return Some(&e.value);
            }
        }
        proof {
            assert(whole.take(0) =~= Seq::<Binding>::empty());
        }
        None
    }

    /// A copy of the bindings, in the order they were made; applying them in
    /// that order (later wins) yields exactly the store's mapping. This is
    /// how the caller materializes a child process's environment.
    pub fn snapshot(&self) -> (r: Vec<Binding>)
        ensures
            map_of(r@) == self@,
    {
        let mut r: Vec<Binding> = Vec::new();
        let mut i: usize = 0;
        while i < self.entries.len()
            invariant
                i <= self.entries.len(),
                r@ =~= self.entries@.take(i as int),
            decreases self.entries.len() - i,
        {
            r.push(self.entries[i].clone());
            proof {
                assert(r@ =~= self.entries@.take(i + 1 as int));
            }
            i = i + 1;
        }
        proof {
            assert(self.entries@.take(self.entries@.len() as int) =~= self.entries@);
        }
        r
    }

    /// Substitutes every `$NAME` / `${NAME}` reference in `text` with the
    /// bound value (the empty string when the name is unbound), in one pass.
    pub fn expand(&self, text: &str) -> (r: String)
        ensures
            r@ == spec_expand(self@, text@),
    {
        let ghost env = self@;
        let ghost s = text@;
        let n = text.unicode_len();
        let mut out = String::new();
        let mut i: usize = 0;
        while i < n
            invariant
                i <= n,
                n == s.len(),
                s == text@,
                env == self@,
                out@ + spec_expand_from(env, s, i as int) == spec_expand_from(env, s, 0),
            decreases n - i,
        {
            let ghost pre_out = out@;
            let ghost tail = spec_expand_from(env, s, i as int);
            let c = text.get_char(i);
            if c == '$' {
                let j: usize = if i + 1 < n && text.get_char(i + 1) == '{' {
                    i + 2
                } else {
                    i + 1
                };
                if j < n && name_start_char(text.get_char(j)) {
                    let k = name_run_end_at(text, j + 1);
                    let name = substr(text, j, k);
                    let ghost piece = expansion_value(env, s.subrange(j as int, k as int));
                    match self.get(name.as_str()) {
                        Some(v) => {
                            out.append(v.as_str());
                        },
                        None => {
                            proof {
                                assert(out@ =~= pre_out + piece);
                            }
                        },
                    }
                    let rest: usize = if k < n && text.get_char(k) == '}' {
                        k + 1
                    } else {
                        k
                    };
                    proof {
                        assert(tail == piece + spec_expand_from(env, s, rest as int));
                        assert((pre_out + piece) + spec_expand_from(env, s, rest as int) =~= pre_out
                            + tail);
                    }
                    i = rest;
                } else {
                    push_char(&mut out, '$');
                    proof {
                        assert(tail == seq!['$'] + spec_expand_from(env, s, i + 1 as int));
                        assert(out@ =~= pre_out + seq!['$']);
                        assert((pre_out + seq!['$']) + spec_expand_from(env, s, i + 1 as int)
                            =~= pre_out + tail);
                    }
                    i = i + 1;
                }
            } else {
                push_char(&mut out, c);
                proof {
                    assert(tail == seq![s[i as int]] + spec_expand_from(env, s, i + 1 as int));
                    assert(out@ =~= pre_out + seq![s[i as int]]);
                    assert((pre_out + seq![s[i as int]]) + spec_expand_from(env, s, i + 1 as int)
                        =~= pre_out + tail);
                }
                i = i + 1;
            }
        }
        proof {
            assert(spec_expand_from(env, s, n as int) =~= Seq::<char>::empty());
            assert(out@ + Seq::<char>::empty() =~= out@);
        }
        out
    }
}

/// The text substituted for a reference to `name`: its bound value, or the
/// empty string when `name` is unbound.
pub open spec fn expansion_value(env: Map<Seq<char>, Seq<char>>, name: Seq<char>) -> Seq<char> {
    if env.contains_key(name) {
        env[name]
    } else {
        Seq::empty()
    }
}

/// The expansion of the suffix of `s` that starts at `i`.
///
/// At a `$`, an optional `{` and then the longest run of name characters is
/// taken as the referenced name (its first character must be a letter or
/// `_`); a `}` right after the name is consumed. The substituted value is
/// not re-scanned. A `$` not followed by a name is kept as ordinary text.
pub open spec fn spec_expand_from(env: Map<Seq<char>, Seq<char>>, s: Seq<char>, i: int) -> Seq<
    char,
>
    decreases s.len() - i,
    via spec_expand_from_dec
{
    if i < 0 || i >= s.len() {
        Seq::empty()
    } else if s[i] == '$' {
        let j: int = if i + 1 < s.len() && s[i + 1] == '{' {
            i + 2
        } else {
            i + 1
        };
        if j < s.len() && is_name_start_char(s[j]) {
            let k = name_run_end(s, j + 1);
            let rest: int = if k < s.len() && s[k] == '}' {
                k + 1
            } else {
                k
            };
            expansion_value(env, s.subrange(j, k)) + spec_expand_from(env, s, rest)
        } else {
            seq!['$'] + spec_expand_from(env, s, i + 1)
        }
    } else {
        seq![s[i]] + spec_expand_from(env, s, i + 1)
    }
}

#[via_fn]
proof fn spec_expand_from_dec(env: Map<Seq<char>, Seq<char>>, s: Seq<char>, i: int) {
    if 0 <= i < s.len() && s[i] == '$' {
        let j: int = if i + 1 < s.len() && s[i + 1] == '{' {
            i + 2
        } else {
            i + 1
        };
        if j < s.len() && is_name_start_char(s[j]) {
            lemma_name_run_end_bounds(s, j + 1);
        }
    }
}

/// The single-pass expansion of `s` under the bindings `env`.
pub open spec fn spec_expand(env: Map<Seq<char>, Seq<char>>, s: Seq<char>) -> Seq<char> {
    spec_expand_from(env, s, 0)
}

/// A well-formed variable name: nonempty, beginning with a letter or `_`,
/// continuing with letters, digits and `_`.
pub open spec fn is_valid_name(n: Seq<char>) -> bool {
    n.len() > 0 && is_name_start_char(n[0]) && (forall|i: int| 0 <= i < n.len() ==> is_name_char(
        n[i],
    ))
}

proof fn lemma_expand_literal_from(env: Map<Seq<char>, Seq<char>>, s: Seq<char>, i: int)
    requires
        0 <= i <= s.len(),
        forall|m: int| 0 <= m < s.len() ==> s[m] != '$',
    ensures
        spec_expand_from(env, s, i) == s.subrange(i, s.len() as int),
    decreases s.len() - i,
{
    if i == s.len() {
        assert(s.subrange(i, s.len() as int) =~= Seq::<char>::empty());
    } else {
        lemma_expand_literal_from(env, s, i + 1);
        assert(seq![s[i]] + s.subrange(i + 1, s.len() as int) =~= s.subrange(i, s.len() as int));
    }
}

/// Law: text without `$` is left untouched by expansion.
pub proof fn lemma_expand_literal(env: Map<Seq<char>, Seq<char>>, s: Seq<char>)
    requires
        forall|m: int| 0 <= m < s.len() ==> s[m] != '$',
    ensures
        spec_expand(env, s) == s,
{
    lemma_expand_literal_from(env, s, 0);
    assert(s.subrange(0, s.len() as int) =~= s);
}

/// Law: expanding exactly `$N` yields the value bound to `N`, and the empty
/// string when `N` is unbound.
pub proof fn lemma_expand_unbraced_ref(env: Map<Seq<char>, Seq<char>>, name: Seq<char>)
    requires
        is_valid_name(name),
    ensures
        env.contains_key(name) ==> spec_expand(env, seq!['$'] + name) == env[name],
        !env.contains_key(name) ==> spec_expand(env, seq!['$'] + name) == Seq::<char>::empty(),
{
    let s = seq!['$'] + name;
    assert(s[0] == '$');
    assert(s[1] == name[0]);
    assert(!is_name_start_char('{'));
    lemma_name_run_end_exact(s, 2, s.len() as int);
    assert(s.subrange(1, s.len() as int) =~= name);
    assert(spec_expand_from(env, s, s.len() as int) == Seq::<char>::empty());
    assert(expansion_value(env, name) + Seq::<char>::empty() =~= expansion_value(env, name));
    assert(spec_expand(env, s) == expansion_value(env, name));
}

/// Law: expanding exactly `${N}` yields the value bound to `N`, and the
/// empty string when `N` is unbound.
pub proof fn lemma_expand_braced_ref(env: Map<Seq<char>, Seq<char>>, name: Seq<char>)
    requires
        is_valid_name(name),
    ensures
        env.contains_key(name) ==> spec_expand(env, seq!['$', '{'] + name + seq!['}']) == env[name],
        !env.contains_key(name) ==> spec_expand(env, seq!['$', '{'] + name + seq!['}'])
            == Seq::<char>::empty(),
{
    let s = seq!['$', '{'] + name + seq!['}'];
    assert(s[0] == '$');
    assert(s[1] == '{');
    assert(s[2] == name[0]);
    let e = 2 + name.len() as int;
    assert(forall|m: int| 3 <= m < e ==> s[m] == name[m - 2]);
    assert(!is_name_char('}'));
    assert(s[e] == '}');
    lemma_name_run_end_exact(s, 3, e);
    assert(s.subrange(2, e) =~= name);
    assert(spec_expand_from(env, s, s.len() as int) == Seq::<char>::empty());
    assert(expansion_value(env, name) + Seq::<char>::empty() =~= expansion_value(env, name));
    assert(spec_expand(env, s) == expansion_value(env, name));
}

/// Law: at a reference the longest run of name characters is the name that
/// is looked up, so a shorter bound name that is a prefix of a longer bound
/// name never pre-empts it: `$FOO_BAR` expands to the value of `FOO_BAR`
/// even when `FOO` is also bound.
pub proof fn lemma_longest_name_first(
    env: Map<Seq<char>, Seq<char>>,
    short: Seq<char>,
    long: Seq<char>,
)
    requires
        is_valid_name(long),
        short.len() < long.len(),
        short == long.subrange(0, short.len() as int),
        env.contains_key(short),
        env.contains_key(long),
    ensures
        spec_expand(env, seq!['$'] + long) == env[long],
{
    lemma_expand_unbraced_ref(env, long);
}

} // verus!
