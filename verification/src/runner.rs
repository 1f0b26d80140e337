//! Command sequence files: their steps, the variables that a file declares
//! and the command line overrides, the substitution of `${name}`
//! placeholders, and the decisions taken while a sequence runs.

use vstd::prelude::*;

use crate::command::MfgCmd;
use crate::text::{chars_of, find, find_char, lemma_find_char, slice_chars, string_of};

verus! {

/// Control flow steps for command sequence files.
#[derive(Debug, Clone, PartialEq, Eq)]
pub enum ControlStep {
    /// Wait for the user to press Enter before continuing.
    WaitForConfirmation {
        /// Optional message to display to the user.
        message: Option<String>,
    },
    /// Wait a specific amount of time before continuing.
    Delay {
        /// Duration in ms to wait
        duration: u64,
    },
}

/// Wrapper enum for command sequence YAML files.
///
/// Each step in a command sequence is either a testmode command or a control
/// flow operation such as waiting for user input or a timed delay.
#[derive(Debug, Clone, PartialEq, Eq)]
pub enum SequenceStep {
    /// A control flow step (wait for input or delay).
    Control(ControlStep),
    /// A testmode command to send to the firmware.
    Command(MfgCmd),
}

/// How long the card is given to process a command before the next step, in
/// milliseconds.
pub const COMMAND_SETTLE_MS: u64 = 500;

/// The name/value pairs as character sequences.
pub open spec fn pairs_view(v: Seq<(String, String)>) -> Seq<(Seq<char>, Seq<char>)> {
    Seq::new(v.len(), |i: int| (v[i].0@, v[i].1@))
}

/// The value that a variable named `key`, declared with `value`, has after
/// the overrides `cli`: the last override for `key`, or `value` where none
/// names it.
pub open spec fn overridden(key: Seq<char>, value: Seq<char>, cli: Seq<(Seq<char>, Seq<char>)>) -> Seq<
    char,
>
    decreases cli.len(),
{
    if cli.len() == 0 {
        value
    } else if cli.last().0 == key {
        cli.last().1
    } else {
        overridden(key, value, cli.drop_last())
    }
}

/// Whether some variable of `vars` is named `key`.
pub open spec fn declares(vars: Seq<(Seq<char>, Seq<char>)>, key: Seq<char>) -> bool {
    exists|j: int| 0 <= j < vars.len() && #[trigger] vars[j].0 == key
}

/// The positions, in order, of the first `n` overrides that name no variable.
pub open spec fn unapplied(
    vars: Seq<(Seq<char>, Seq<char>)>,
    cli: Seq<(Seq<char>, Seq<char>)>,
    n: nat,
) -> Seq<usize>
    decreases n,
{
    if n == 0 {
        Seq::empty()
    } else if declares(vars, cli[n - 1].0) {
        unapplied(vars, cli, (n - 1) as nat)
    } else {
        unapplied(vars, cli, (n - 1) as nat).push((n - 1) as usize)
    }
}

/// `vars` after the overrides `cli`: the same names in the same order, each
/// with its overridden value.
pub open spec fn apply_overrides(
    vars: Seq<(Seq<char>, Seq<char>)>,
    cli: Seq<(Seq<char>, Seq<char>)>,
) -> Seq<(Seq<char>, Seq<char>)> {
    Seq::new(vars.len(), |j: int| (vars[j].0, overridden(vars[j].0, vars[j].1, cli)))
}

proof fn lemma_overridden_step(key: Seq<char>, value: Seq<char>, cli: Seq<(Seq<char>, Seq<char>)>, i: int)
    requires
        0 <= i < cli.len(),
    ensures
        overridden(key, value, cli.take(i + 1)) == if cli[i].0 == key {
            cli[i].1
        } else {
            overridden(key, value, cli.take(i))
        },
{
    assert(cli.take(i + 1).drop_last() =~= cli.take(i));
}

/// Apply the command line overrides `cli` to the variables that a sequence
/// file declares. A variable takes the value of the last override that
/// names it; the positions of the overrides that name no variable are
/// returned, in order.
pub fn apply_cli_variables(variables: &mut Vec<(String, String)>, cli: &[(String, String)]) -> (r:
    Vec<usize>)
    ensures
        pairs_view(final(variables)@) == apply_overrides(
            pairs_view(old(variables)@),
            pairs_view(cli@),
        ),
        r@ == unapplied(pairs_view(old(variables)@), pairs_view(cli@), cli@.len()),
{
    let ghost vars0 = pairs_view(variables@);
    let ghost cv = pairs_view(cli@);
    let mut missed: Vec<usize> = Vec::new();
    let mut i: usize = 0;
    while i < cli.len()
        invariant
            i <= cli@.len(),
            cv == pairs_view(cli@),
            variables@.len() == vars0.len(),
            pairs_view(variables@) == apply_overrides(vars0, cv.take(i as int)),
            missed@ == unapplied(vars0, cv, i as nat),
        decreases cli@.len() - i,
    {
        let key = &cli[i].0;
        let value = &cli[i].1;
        assert(cv[i as int] == (key@, value@));
        let mut found = false;
        let mut j: usize = 0;
        while j < variables.len()
            invariant
                i < cli@.len(),
                cv == pairs_view(cli@),
                cv[i as int] == (key@, value@),
                j <= variables@.len(),
                variables@.len() == vars0.len(),
                forall|t: int|
                    0 <= t < j ==> #[trigger] pairs_view(variables@)[t] == apply_overrides(
                        vars0,
                        cv.take(i + 1),
                    )[t],
                forall|t: int|
                    j <= t < vars0.len() ==> #[trigger] pairs_view(variables@)[t] == apply_overrides(
                        vars0,
                        cv.take(i as int),
                    )[t],
                found == exists|t: int| 0 <= t < j && #[trigger] vars0[t].0 == key@,
            decreases variables@.len() - j,
        {
            proof {
                lemma_overridden_step(vars0[j as int].0, vars0[j as int].1, cv, i as int);
            }
            assert(pairs_view(variables@)[j as int].0 == vars0[j as int].0);
            if variables[j].0 == *key {
                let name = variables[j].0.clone();
                let ghost before = variables@;
                variables.set(j, (name, value.clone()));
                assert forall|t: int| 0 <= t < vars0.len() && t != j implies #[trigger] pairs_view(
                    variables@,
                )[t] == pairs_view(before)[t] by {}
                found = true;
            }
            j = j + 1;
        }
        assert(pairs_view(variables@) =~= apply_overrides(vars0, cv.take(i + 1)));
        if !found {
            assert(!declares(vars0, cv[i as int].0));
            missed.push(i);
        } else {
            assert(declares(vars0, cv[i as int].0));
        }
        i = i + 1;
    }
    assert(cv.take(i as int) =~= cv);
    missed
}

/// `s` with every occurrence of `pat` replaced by `with`, the occurrences
/// taken from the left without overlap (`str::replace`).
pub open spec fn replace_all(s: Seq<char>, pat: Seq<char>, with: Seq<char>) -> Seq<char>
    recommends
        pat.len() > 0,
    decreases s.len(),
{
    if s.len() == 0 || pat.len() == 0 {
        s
    } else if s.len() >= pat.len() && s.take(pat.len() as int) == pat {
        with + replace_all(s.skip(pat.len() as int), pat, with)
    } else {
        seq![s[0]] + replace_all(s.drop_first(), pat, with)
    }
}

/// The placeholder `${name}` of a variable.
pub open spec fn placeholder(name: Seq<char>) -> Seq<char> {
    seq!['$', '{'] + name + seq!['}']
}

/// `raw` with the placeholders of the first `n` variables replaced by their
/// values, one variable after the other.
pub open spec fn substitute(raw: Seq<char>, vars: Seq<(Seq<char>, Seq<char>)>, n: nat) -> Seq<
    char,
>
    decreases n,
{
    if n == 0 {
        raw
    } else {
        replace_all(substitute(raw, vars, (n - 1) as nat), placeholder(vars[n - 1].0), vars[n - 1].1)
    }
}

/// Whether `pat` occurs in `s` at position `i`.
fn matches_at(s: &[char], i: usize, pat: &[char]) -> (r: bool)
    requires
        i <= s@.len(),
    ensures
        r == (s@.len() - i >= pat@.len() && s@.skip(i as int).take(pat@.len() as int) == pat@),
{
    if s.len() - i < pat.len() {
        return false;
    }
    let mut k: usize = 0;
    while k < pat.len()
        invariant
            i <= s@.len(),
            s@.len() - i >= pat@.len(),
            s@.len() == s.len(),
            k <= pat@.len(),
            forall|t: int| 0 <= t < k ==> s@[i + t] == pat@[t],
        decreases pat@.len() - k,
    {
        if s[i + k] != pat[k] {
            assert(s@.skip(i as int).take(pat@.len() as int)[k as int] != pat@[k as int]);
            return false;
        }
        k = k + 1;
    }
    assert(s@.skip(i as int).take(pat@.len() as int) =~= pat@);
    true
}

/// `s` with every occurrence of `pat` replaced by `with` (`str::replace`).
pub fn replace_chars(s: &[char], pat: &[char], with: &[char]) -> (r: Vec<char>)
    requires
        pat@.len() > 0,
    ensures
        r@ == replace_all(s@, pat@, with@),
{
    let mut out: Vec<char> = Vec::new();
    let mut i: usize = 0;
    assert(s@.skip(0) =~= s@);
    while i < s.len()
        invariant
            pat@.len() > 0,
            i <= s@.len(),
            out@ + replace_all(s@.skip(i as int), pat@, with@) == replace_all(s@, pat@, with@),
        decreases s@.len() - i,
    {
        let ghost rest = s@.skip(i as int);
        let ghost before = out@;
        if matches_at(s, i, pat) {
            let mut k: usize = 0;
            while k < with.len()
                invariant
                    k <= with@.len(),
                    out@ == before + with@.take(k as int),
                decreases with@.len() - k,
            {
                out.push(with[k]);
                k = k + 1;
                assert(out@ =~= before + with@.take(k as int));
            }
            assert(with@.take(k as int) =~= with@);
            assert(rest.skip(pat@.len() as int) =~= s@.skip(i + pat@.len()));
            assert(before + (with@ + replace_all(s@.skip(i + pat@.len()), pat@, with@)) =~= out@
                + replace_all(s@.skip(i + pat@.len()), pat@, with@));
            i = i + pat.len();
        } else {
            out.push(s[i]);
            assert(rest.drop_first() =~= s@.skip(i + 1));
            assert(rest[0] == s@[i as int]);
            assert(before + (seq![s@[i as int]] + replace_all(s@.skip(i + 1), pat@, with@)) =~= out@
                + replace_all(s@.skip(i + 1), pat@, with@));
            i = i + 1;
        }
    }
    assert(out@ + replace_all(s@.skip(i as int), pat@, with@) =~= out@);
    out
}

/// Replace the placeholder `${name}` of each variable in `raw` by the
/// variable's value, one variable after the other in the given order.
pub fn substitute_variables(raw: &str, variables: &[(String, String)]) -> (r: String)
    ensures
        r@ == substitute(raw@, pairs_view(variables@), variables@.len()),
{
    let ghost vars = pairs_view(variables@);
    let mut text = chars_of(raw);
    let mut i: usize = 0;
    while i < variables.len()
        invariant
            vars == pairs_view(variables@),
            i <= variables@.len(),
            text@ == substitute(raw@, vars, i as nat),
        decreases variables@.len() - i,
    {
        let name = chars_of(variables[i].0.as_str());
        let value = chars_of(variables[i].1.as_str());
        let mut pat: Vec<char> = Vec::new();
        pat.push('$');
        pat.push('{');
        let mut k: usize = 0;
        while k < name.len()
            invariant
                k <= name@.len(),
                pat@ == seq!['$', '{'] + name@.take(k as int),
            decreases name@.len() - k,
        {
            pat.push(name[k]);
            k = k + 1;
            assert(pat@ =~= seq!['$', '{'] + name@.take(k as int));
        }
        pat.push('}');
        assert(name@.take(k as int) =~= name@);
        assert(pat@ =~= placeholder(vars[i as int].0));
        text = replace_chars(text.as_slice(), pat.as_slice(), value.as_slice());
        i = i + 1;
    }
    string_of(text.as_slice())
}

/// The text shown while waiting for the user: the step's message, or a
/// default prompt.
pub fn wait_message(message: &Option<String>) -> (r: String)
    ensures
        r@ == match message {
            Some(m) => m@,
            None => "Press Enter to continue..."@,
        },
{
    match message {
        Some(m) => m.clone(),
        None => String::from_str("Press Enter to continue..."),
    }
}

/// Whether a sequence stops after a command failed, given the user's answer
/// to "Continue?" (`None` where the question could not be asked): only an
/// explicit "no" stops it.
pub fn stop_after_failure(answer: Option<bool>) -> (r: bool)
    ensures
        r == (answer == Some(false)),
{
    match answer {
        Some(c) => !c,
        None => false,
    }
}

/// Split a `KEY=VALUE` command line argument at its first `=`.
pub fn parse_key_val(s: &str) -> (r: Result<(String, String), String>)
    ensures
        match find_char(s@, '=') {
            Some(i) => r matches Ok(kv) && kv.0@ == s@.take(i as int) && kv.1@ == s@.skip(i + 1 as int),
            None => r matches Err(m) && m@ == "invalid KEY=VALUE format: no `=` found in `"@ + s@
                + "`"@,
        },
{
    let chars = chars_of(s);
    match find(chars.as_slice(), '=') {
        Some(i) => {
            proof {
                lemma_find_char(s@, '=');
            }
            let key = slice_chars(chars.as_slice(), 0, i);
            let value = slice_chars(chars.as_slice(), i + 1, chars.len());
            assert(key@ =~= s@.take(i as int));
            assert(value@ =~= s@.skip(i + 1));
            Ok((string_of(key.as_slice()), string_of(value.as_slice())))
        },
        None => {
            let mut m = String::from_str("invalid KEY=VALUE format: no `=` found in `");
            m.append(s);
            m.append("`");
            Err(m)
        },
    }
}


/// The last override of a declared variable sets its value; the names and
/// the other values stay.
pub proof fn lemma_last_override_wins(
    vars: Seq<(Seq<char>, Seq<char>)>,
    cli: Seq<(Seq<char>, Seq<char>)>,
    key: Seq<char>,
    value: Seq<char>,
)
    ensures
        apply_overrides(vars, cli.push((key, value))).len() == vars.len(),
        forall|j: int|
            0 <= j < vars.len() ==> #[trigger] apply_overrides(vars, cli.push((key, value)))[j] == (
            vars[j].0,
            if vars[j].0 == key {
                value
            } else {
                apply_overrides(vars, cli)[j].1
            },
        ),
{
    assert forall|j: int| 0 <= j < vars.len() implies #[trigger] apply_overrides(
        vars,
        cli.push((key, value)),
    )[j] == (
        vars[j].0,
        if vars[j].0 == key {
            value
        } else {
            apply_overrides(vars, cli)[j].1
        },
    ) by {
        assert(cli.push((key, value)).drop_last() =~= cli);
    }
}

/// An override that names no declared variable changes nothing.
pub proof fn lemma_unknown_override_changes_nothing(
    vars: Seq<(Seq<char>, Seq<char>)>,
    cli: Seq<(Seq<char>, Seq<char>)>,
    key: Seq<char>,
    value: Seq<char>,
)
    requires
        !declares(vars, key),
    ensures
        apply_overrides(vars, cli.push((key, value))) == apply_overrides(vars, cli),
{
    lemma_last_override_wins(vars, cli, key, value);
    assert forall|j: int| 0 <= j < vars.len() implies vars[j].0 != key by {
        if vars[j].0 == key {
            assert(declares(vars, key));
        }
    }
    assert(apply_overrides(vars, cli.push((key, value))) =~= apply_overrides(vars, cli));
}

} // verus!
