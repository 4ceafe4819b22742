//! What the guest runs, as text on its kernel's command line.

use crate::text::{decimal, holds_char, push_decimal};
use vstd::prelude::*;

verus! {

/// The `Debug` text of a string: quoted, with escapes.
pub uninterp spec fn debug_text(s: Seq<char>) -> Seq<char>;

/// The `Debug` formatting of `str`: a quoted text with escapes, which depends on the string alone.
#[verifier::external_body]
fn str_debug(s: &str) -> (r: String)
    ensures
        r@ == debug_text(s@),
{
    format!("{s:?}")
}

/// A printable character of ASCII, the space among them.
pub open spec fn is_printable(c: char) -> bool {
    ' ' <= c <= '~'
}

/// Every character is printable ASCII.
pub open spec fn all_printable(s: Seq<char>) -> bool {
    forall|i: int| 0 <= i < s.len() ==> is_printable(#[trigger] s[i])
}

/// Why a variable cannot be carried as a quoted word on the kernel command line.
pub open spec fn carrying_problem(key: Seq<char>, value: Seq<char>) -> Option<Seq<char>> {
    if !all_printable(key) || !all_printable(value) {
        Some("it contains control or non-ASCII bytes"@)
    } else if key.contains('"') || value.contains('"') {
        Some("it contains a double quote"@)
    } else if key.contains(' ') {
        Some("the key contains whitespace"@)
    } else {
        None
    }
}

fn is_all_printable(s: &str) -> (r: bool)
    ensures
        r == all_printable(s@),
{
    for c in iter: s.chars()
        invariant
            iter.seq() == s@,
            forall|i: int| 0 <= i < iter.index() ==> is_printable(#[trigger] s@[i]),
    {
        if c < ' ' || c > '~' {
            assert(!is_printable(s@[iter.index()]));
            return false;
        }
    }
    true
}

/// Checks that one variable can be carried as a quoted `KEY="value"` word on the kernel command
/// line: printable ASCII only, no double quotes, which would end the value, and no space in the
/// key, which would end the word.
pub fn validate_cmdline_env(key: &str, value: &str) -> (r: Result<(), &'static str>)
    ensures
        match carrying_problem(key@, value@) {
            Some(reason) => r is Err && r->Err_0@ == reason,
            None => r is Ok,
        },
{
    if !is_all_printable(key) || !is_all_printable(value) {
        return Err("it contains control or non-ASCII bytes");
    }
    if holds_char(key, '"') || holds_char(value, '"') {
        return Err("it contains a double quote");
    }
    if holds_char(key, ' ') {
        return Err("the key contains whitespace");
    }
    Ok(())
}

/// What is said of a variable that cannot be carried.
pub open spec fn refusal(key: Seq<char>, reason: Seq<char>) -> Seq<char> {
    "guest env var "@ + debug_text(key) + " cannot be carried on the kernel command line ("@
        + reason + "); sanitize or drop this variable"@
}

/// What is said of the first variable that cannot be carried.
pub open spec fn first_refusal(env: Seq<(String, String)>) -> Option<Seq<char>>
    decreases env.len(),
{
    if env.len() == 0 {
        None
    } else {
        match carrying_problem(env[0].0@, env[0].1@) {
            Some(reason) => Some(refusal(env[0].0@, reason)),
            None => first_refusal(env.skip(1)),
        }
    }
}

/// Checks that every variable can be carried.
pub fn check_env(env: &Vec<(String, String)>) -> (r: Result<(), String>)
    ensures
        match first_refusal(env@) {
            Some(text) => r is Err && r->Err_0@ == text,
            None => r is Ok,
        },
{
    let mut i: usize = 0;
    assert(env@.skip(0) =~= env@);
    while i < env.len()
        invariant
            i <= env@.len(),
            first_refusal(env@) == first_refusal(env@.skip(i as int)),
        decreases env@.len() - i,
    {
        assert(env@.skip(i as int).skip(1) =~= env@.skip(i + 1));
        let key: &str = env[i].0.as_str();
        match validate_cmdline_env(key, env[i].1.as_str()) {
            Ok(()) => {},
            Err(reason) => {
                let mut text: String = "guest env var ".to_owned();
                text.append(str_debug(key).as_str());
                text.append(" cannot be carried on the kernel command line (");
                text.append(reason);
                text.append("); sanitize or drop this variable");
                return Err(text);
            },
        }
        i = i + 1;
    }
    Ok(())
}

/// A text between double quotes.
pub open spec fn quoted(s: Seq<char>) -> Seq<char> {
    seq!['"'] + s.push('"')
}

/// The arguments: quoted, and separated by spaces.
pub open spec fn args_text(args: Seq<String>) -> Seq<char>
    decreases args.len(),
{
    if args.len() == 0 {
        Seq::empty()
    } else if args.len() == 1 {
        quoted(args[0]@)
    } else {
        args_text(args.drop_last()).push(' ') + quoted(args.last()@)
    }
}

/// The variables: each behind a space, as its name, an equals sign and its quoted value.
pub open spec fn env_text(env: Seq<(String, String)>) -> Seq<char>
    decreases env.len(),
{
    if env.len() == 0 {
        Seq::empty()
    } else {
        env_text(env.drop_last()).push(' ') + env.last().0@.push('=') + quoted(env.last().1@)
    }
}

/// One resource limit: its name, its soft and its hard value, separated by colons.
pub open spec fn rlimit_text(limit: (String, u64, u64)) -> Seq<char> {
    limit.0@.push(':') + decimal(limit.1 as nat).push(':') + decimal(limit.2 as nat)
}

/// The resource limits, separated by commas.
pub open spec fn rlimits_text(limits: Seq<(String, u64, u64)>) -> Seq<char>
    decreases limits.len(),
{
    if limits.len() == 0 {
        Seq::empty()
    } else if limits.len() == 1 {
        rlimit_text(limits[0])
    } else {
        rlimits_text(limits.drop_last()).push(',') + rlimit_text(limits.last())
    }
}

fn push_quoted(text: &mut String, s: &str)
    ensures
        final(text)@ == old(text)@ + quoted(s@),
{
    text.push('"');
    text.append(s);
    text.push('"');
    assert(text@ =~= old(text)@ + quoted(s@));
}

/// Writes the arguments, if there are any.
pub fn format_args_text(args: &Vec<String>) -> (r: Option<String>)
    ensures
        match r {
            None => args@.len() == 0,
            Some(text) => args@.len() > 0 && text@ == args_text(args@),
        },
{
    if args.len() == 0 {
        return None;
    }
    let mut text: String = String::new();
    let mut i: usize = 0;
    assert(text@ =~= args_text(args@.take(0)));
    while i < args.len()
        invariant
            i <= args@.len(),
            text@ == args_text(args@.take(i as int)),
        decreases args@.len() - i,
    {
        assert(args@.take(i + 1).drop_last() =~= args@.take(i as int));
        if i > 0 {
            text.push(' ');
        }
        push_quoted(&mut text, args[i].as_str());
        i = i + 1;
        assert(text@ =~= args_text(args@.take(i as int)));
    }
    assert(args@.take(i as int) =~= args@);
    Some(text)
}

/// Writes the variables, if there are any.
pub fn format_env_text(env: &Vec<(String, String)>) -> (r: Option<String>)
    ensures
        match r {
            None => env@.len() == 0,
            Some(text) => env@.len() > 0 && text@ == env_text(env@),
        },
{
    if env.len() == 0 {
        return None;
    }
    let mut text: String = String::new();
    let mut i: usize = 0;
    assert(text@ =~= env_text(env@.take(0)));
    while i < env.len()
        invariant
            i <= env@.len(),
            text@ == env_text(env@.take(i as int)),
        decreases env@.len() - i,
    {
        assert(env@.take(i + 1).drop_last() =~= env@.take(i as int));
        text.push(' ');
        text.append(env[i].0.as_str());
        text.push('=');
        push_quoted(&mut text, env[i].1.as_str());
        i = i + 1;
        assert(text@ =~= env_text(env@.take(i as int)));
    }
    assert(env@.take(i as int) =~= env@);
    Some(text)
}

/// Writes the resource limits, if there are any.
pub fn format_rlimits_text(limits: &Vec<(String, u64, u64)>) -> (r: Option<String>)
    ensures
        match r {
            None => limits@.len() == 0,
            Some(text) => limits@.len() > 0 && text@ == rlimits_text(limits@),
        },
{
    if limits.len() == 0 {
        return None;
    }
    let mut text: String = String::new();
    let mut i: usize = 0;
    assert(text@ =~= rlimits_text(limits@.take(0)));
    while i < limits.len()
        invariant
            i <= limits@.len(),
            text@ == rlimits_text(limits@.take(i as int)),
        decreases limits@.len() - i,
    {
        assert(limits@.take(i + 1).drop_last() =~= limits@.take(i as int));
        if i > 0 {
            text.push(',');
        }
        text.append(limits[i].0.as_str());
        text.push(':');
        push_decimal(&mut text, limits[i].1);
        text.push(':');
        push_decimal(&mut text, limits[i].2);
        i = i + 1;
        assert(text@ =~= rlimits_text(limits@.take(i as int)));
    }
    assert(limits@.take(i as int) =~= limits@);
    Some(text)
}

/// Variables that can be carried are printable ASCII as text on the command line.
pub proof fn carried_env_is_printable(env: Seq<(String, String)>)
    requires
        first_refusal(env) is None,
    ensures
        all_printable(env_text(env)),
    decreases env.len(),
{
    if env.len() > 0 {
        lemma_every_variable_carried(env, env.len() - 1);
        lemma_fewer_carried(env);
        carried_env_is_printable(env.drop_last());
        let front = env_text(env.drop_last()).push(' ');
        let name = env.last().0@.push('=');
        let value = quoted(env.last().1@);
        assert(env_text(env) == front + name + value);
    }
}

proof fn lemma_every_variable_carried(env: Seq<(String, String)>, i: int)
    requires
        first_refusal(env) is None,
        0 <= i < env.len(),
    ensures
        carrying_problem(env[i].0@, env[i].1@) is None,
    decreases env.len(),
{
    if i > 0 {
        lemma_every_variable_carried(env.skip(1), i - 1);
    }
}

proof fn lemma_fewer_carried(env: Seq<(String, String)>)
    requires
        first_refusal(env) is None,
        env.len() > 0,
    ensures
        first_refusal(env.drop_last()) is None,
    decreases env.len(),
{
    if env.len() > 1 {
        lemma_fewer_carried(env.skip(1));
        assert(env.drop_last().skip(1) =~= env.skip(1).drop_last());
    }
}

/// A variable is carried exactly where its key and value are printable and hold no double quote,
/// and the key holds no space.
pub proof fn carried_variables_need_no_escape(key: &str, value: &str, r: Result<(), &'static str>)
    requires
        call_ensures(validate_cmdline_env, (key, value), r),
    ensures
        r is Ok ==> (forall|i: int|
            0 <= i < key@.len() ==> ' ' < (#[trigger] key@[i]) <= '~' && key@[i] != '"') && (forall|
            i: int,
        |
            0 <= i < value@.len() ==> ' ' <= (#[trigger] value@[i]) <= '~' && value@[i] != '"'),
        r is Err ==> (exists|i: int|
            0 <= i < key@.len() && (!(' ' < (#[trigger] key@[i]) <= '~') || key@[i] == '"')) || (
        exists|i: int|
            0 <= i < value@.len() && (!(' ' <= (#[trigger] value@[i]) <= '~') || value@[i] == '"')),
{
    if r is Ok {
        assert forall|i: int| 0 <= i < key@.len() implies ' ' < (#[trigger] key@[i]) <= '~'
            && key@[i] != '"' by {
            assert(is_printable(key@[i]));
            assert(!key@.contains(' '));
            assert(!key@.contains('"'));
        }
        assert forall|i: int| 0 <= i < value@.len() implies ' ' <= (#[trigger] value@[i]) <= '~'
            && value@[i] != '"' by {
            assert(is_printable(value@[i]));
            assert(!value@.contains('"'));
        }
    } else {
        if !all_printable(key@) {
            let i = choose|i: int| 0 <= i < key@.len() && !is_printable(#[trigger] key@[i]);
            assert(!(' ' < key@[i] <= '~'));
        } else if !all_printable(value@) {
            let i = choose|i: int| 0 <= i < value@.len() && !is_printable(#[trigger] value@[i]);
            assert(!(' ' <= value@[i] <= '~'));
        } else if key@.contains('"') {
            let i = choose|i: int| 0 <= i < key@.len() && key@[i] == '"';
            assert(key@[i] == '"');
        } else if value@.contains('"') {
            let i = choose|i: int| 0 <= i < value@.len() && value@[i] == '"';
            assert(value@[i] == '"');
        } else {
            let i = choose|i: int| 0 <= i < key@.len() && key@[i] == ' ';
            assert(key@[i] == ' ');
        }
    }
}

/// An environment is carried where each of its variables is, and refused by the first that is not,
/// which the refusal names.
pub proof fn first_variable_that_is_not_carried_is_named(
    env: Vec<(String, String)>,
    r: Result<(), String>,
    i: int,
    key: &str,
    value: &str,
    one: Result<(), &'static str>,
)
    requires
        call_ensures(check_env, (&env,), r),
        0 <= i < env@.len(),
        key@ == env@[i].0@,
        value@ == env@[i].1@,
        call_ensures(validate_cmdline_env, (key, value), one),
        forall|j: int| 0 <= j < i ==> carrying_problem((#[trigger] env@[j]).0@, env@[j].1@) is None,
    ensures
        r is Ok ==> one is Ok,
        one is Err ==> r is Err && r->Err_0@ == "guest env var "@ + debug_text(key@)
            + " cannot be carried on the kernel command line ("@ + one->Err_0@
            + "); sanitize or drop this variable"@,
        one is Ok && i == env@.len() - 1 ==> r is Ok,
{
    lemma_first_refusal(env@, i);
}

proof fn lemma_first_refusal(env: Seq<(String, String)>, i: int)
    requires
        0 <= i < env.len(),
        forall|j: int| 0 <= j < i ==> carrying_problem((#[trigger] env[j]).0@, env[j].1@) is None,
    ensures
        match carrying_problem(env[i].0@, env[i].1@) {
            Some(reason) => first_refusal(env) == Some(refusal(env[i].0@, reason)),
            None => first_refusal(env) == first_refusal(env.skip(i + 1)),
        },
    decreases i,
{
    if i > 0 {
        assert(carrying_problem(env[0].0@, env[0].1@) is None);
        let rest = env.skip(1);
        assert forall|j: int| 0 <= j < i - 1 implies carrying_problem(
            (#[trigger] rest[j]).0@,
            rest[j].1@,
        ) is None by {
            assert(rest[j] == env[j + 1]);
        }
        lemma_first_refusal(rest, i - 1);
        assert(rest[i - 1] == env[i]);
        assert(rest.skip(i) =~= env.skip(i + 1));
    }
}

/// Each argument stands between double quotes, behind the arguments before it and a space.
pub proof fn arguments_stand_in_quotes(
    front: Vec<String>,
    args: Vec<String>,
    before: Option<String>,
    r: Option<String>,
    last: Seq<char>,
)
    requires
        args@.len() == front@.len() + 1,
        args@.drop_last() == front@,
        args@.last()@ == last,
        call_ensures(format_args_text, (&front,), before),
        call_ensures(format_args_text, (&args,), r),
    ensures
        r is Some,
        before is None ==> r->Some_0@ == seq!['"'] + last + seq!['"'],
        before is Some ==> r->Some_0@ == before->Some_0@ + seq![' ', '"'] + last + seq!['"'],
        before is None <==> front@.len() == 0,
{
    if front@.len() == 0 {
        assert(args@[0]@ == last);
        assert(r->Some_0@ =~= seq!['"'] + last + seq!['"']);
    } else {
        assert(r->Some_0@ =~= before->Some_0@ + seq![' ', '"'] + last + seq!['"']);
    }
}

/// Each variable stands behind a space: its key, an equals sign and its value between quotes.
pub proof fn variables_stand_behind_a_space(
    front: Vec<(String, String)>,
    env: Vec<(String, String)>,
    before: Option<String>,
    r: Option<String>,
    key: Seq<char>,
    value: Seq<char>,
)
    requires
        env@.len() == front@.len() + 1,
        env@.drop_last() == front@,
        env@.last().0@ == key,
        env@.last().1@ == value,
        call_ensures(format_env_text, (&front,), before),
        call_ensures(format_env_text, (&env,), r),
    ensures
        r is Some,
        before is None ==> r->Some_0@ == seq![' '] + key + seq!['=', '"'] + value + seq!['"'],
        before is Some ==> r->Some_0@ == before->Some_0@ + seq![' '] + key + seq!['=', '"'] + value
            + seq!['"'],
        before is None <==> front@.len() == 0,
{
    if front@.len() == 0 {
        assert(env_text(front@) =~= Seq::empty());
        assert(r->Some_0@ =~= seq![' '] + key + seq!['=', '"'] + value + seq!['"']);
    } else {
        assert(r->Some_0@ =~= before->Some_0@ + seq![' '] + key + seq!['=', '"'] + value
            + seq!['"']);
    }
}

/// Each limit stands behind a comma: the resource, the soft limit and the hard limit, with colons
/// between them.
pub proof fn limits_stand_between_commas(
    front: Vec<(String, u64, u64)>,
    limits: Vec<(String, u64, u64)>,
    before: Option<String>,
    r: Option<String>,
    resource: Seq<char>,
    soft: &mut String,
    hard: &mut String,
)
    requires
        limits@.len() == front@.len() + 1,
        limits@.drop_last() == front@,
        limits@.last().0@ == resource,
        soft@.len() == 0,
        hard@.len() == 0,
        call_ensures(push_decimal, (soft, limits@.last().1), ()),
        call_ensures(push_decimal, (hard, limits@.last().2), ()),
        call_ensures(format_rlimits_text, (&front,), before),
        call_ensures(format_rlimits_text, (&limits,), r),
    ensures
        r is Some,
        before is None ==> r->Some_0@
            == resource + seq![':'] + final(soft)@ + seq![':'] + final(hard)@,
        before is Some ==> r->Some_0@
            == before->Some_0@ + seq![','] + resource + seq![':'] + final(soft)@ + seq![':'] + final(hard)@,
        before is None <==> front@.len() == 0,
{
    assert(final(soft)@ =~= decimal(limits@.last().1 as nat));
    assert(final(hard)@ =~= decimal(limits@.last().2 as nat));
    if front@.len() == 0 {
        assert(limits@[0] == limits@.last());
        assert(r->Some_0@ =~= resource + seq![':'] + final(soft)@ + seq![':'] + final(hard)@);
    } else {
        assert(r->Some_0@ =~= before->Some_0@ + seq![','] + resource + seq![':'] + final(soft)@
            + seq![':'] + final(hard)@);
    }
}

} // verus!
