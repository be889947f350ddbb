//! The templating capability: substitution of `{{name}}` placeholders in a
//! configuration string with values from a key/value variable store.
//! Substituted values are not rescanned; a placeholder whose variable the
//! store does not define fails resolution.

use vstd::prelude::*;

use crate::errors::TemplateFault;

verus! {

/// The outcome of resolving a template, at the specification level.
pub enum Resolution {
    /// Every placeholder was substituted; carries the resolved text.
    Resolved(Seq<char>),
    /// A placeholder named a variable the store does not define; carries
    /// the placeholder name.
    Undefined(Seq<char>),
    /// A `{{` was never closed by `}}`.
    Unclosed,
}

/// Index of the first `}}` at or after position `i`, if any.
pub open spec fn find_close_from(s: Seq<char>, i: int) -> Option<int>
    decreases s.len() - i,
{
    if i < 0 || i + 1 >= s.len() {
        None
    } else if s[i] == '}' && s[i + 1] == '}' {
        Some(i)
    } else {
        find_close_from(s, i + 1)
    }
}

/// A found closing pair lies at or after the start of the search and
/// inside the string, on a real `}}`.
pub proof fn lemma_find_close_from_bounds(s: Seq<char>, i: int)
    ensures
        find_close_from(s, i) matches Some(j) ==> i <= j && j + 1 < s.len() && s[j] == '}'
            && s[j + 1] == '}',
    decreases s.len() - i,
{
    if find_close_from(s, i) is Some {
        if !(i < 0 || i + 1 >= s.len()) && !(s[i] == '}' && s[i + 1] == '}') {
            lemma_find_close_from_bounds(s, i + 1);
        }
    }
}

/// Value of the first store entry named `name`, scanning from entry `i`.
pub open spec fn lookup_from(vars: Seq<(String, String)>, name: Seq<char>, i: int) -> Option<
    Seq<char>,
>
    decreases vars.len() - i,
{
    if i < 0 || i >= vars.len() {
        None
    } else if vars[i].0@ == name {
        Some(vars[i].1@)
    } else {
        lookup_from(vars, name, i + 1)
    }
}

/// Resolution of the template tail that starts at position `i`: a `{{`
/// opens a placeholder, closed by the first following `}}`; the name
/// between is looked up in the store; any other character is copied.
pub open spec fn spec_resolve_from(t: Seq<char>, vars: Seq<(String, String)>, i: int) -> Resolution
    decreases t.len() - i,
    via spec_resolve_from_dec
{
    if i < 0 || i >= t.len() {
        Resolution::Resolved(Seq::empty())
    } else if i + 1 < t.len() && t[i] == '{' && t[i + 1] == '{' {
        match find_close_from(t, i + 2) {
            Option::None => Resolution::Unclosed,
            Option::Some(j) => {
                let name = t.subrange(i + 2, j);
                match lookup_from(vars, name, 0) {
                    Option::None => Resolution::Undefined(name),
                    Option::Some(v) => match spec_resolve_from(t, vars, j + 2) {
                        Resolution::Resolved(rest) => Resolution::Resolved(v + rest),
                        fault => fault,
                    },
                }
            },
        }
    } else {
        match spec_resolve_from(t, vars, i + 1) {
            Resolution::Resolved(rest) => Resolution::Resolved(seq![t[i]] + rest),
            fault => fault,
        }
    }
}

#[via_fn]
proof fn spec_resolve_from_dec(t: Seq<char>, vars: Seq<(String, String)>, i: int) {
    lemma_find_close_from_bounds(t, i + 2);
}

/// Resolution of a whole template against a store.
pub open spec fn spec_resolve(t: Seq<char>, vars: Seq<(String, String)>) -> Resolution {
    spec_resolve_from(t, vars, 0)
}

/// Entry `k` of the two stores has the same name and the same value,
/// character for character.
pub open spec fn entry_agrees(v1: Seq<(String, String)>, v2: Seq<(String, String)>, k: int) -> bool {
    v1[k].0@ == v2[k].0@ && v1[k].1@ == v2[k].1@
}

/// The two stores agree in content.
pub open spec fn stores_agree(v1: Seq<(String, String)>, v2: Seq<(String, String)>) -> bool {
    v1.len() == v2.len() && forall|k: int| 0 <= k < v1.len() ==> #[trigger] entry_agrees(v1, v2, k)
}

/// Stores that agree in content (names and values, character for
/// character) answer every lookup alike.
pub proof fn lemma_lookup_congruent(
    v1: Seq<(String, String)>,
    v2: Seq<(String, String)>,
    name: Seq<char>,
    i: int,
)
    requires
        stores_agree(v1, v2),
    ensures
        lookup_from(v1, name, i) == lookup_from(v2, name, i),
    decreases v1.len() - i,
{
    if !(i < 0 || i >= v1.len()) {
        assert(entry_agrees(v1, v2, i));
        lemma_lookup_congruent(v1, v2, name, i + 1);
    }
}

/// Template resolution depends on the store only through its content:
/// stores that agree in content resolve every template alike.
pub proof fn lemma_resolve_congruent(
    t: Seq<char>,
    v1: Seq<(String, String)>,
    v2: Seq<(String, String)>,
    i: int,
)
    requires
        stores_agree(v1, v2),
    ensures
        spec_resolve_from(t, v1, i) == spec_resolve_from(t, v2, i),
    decreases t.len() - i,
{
    if !(i < 0 || i >= t.len()) {
        if i + 1 < t.len() && t[i] == '{' && t[i + 1] == '{' {
            match find_close_from(t, i + 2) {
                Option::None => {},
                Option::Some(j) => {
                    lemma_find_close_from_bounds(t, i + 2);
                    lemma_lookup_congruent(v1, v2, t.subrange(i + 2, j), 0);
                    if lookup_from(v1, t.subrange(i + 2, j), 0) is Some {
                        lemma_resolve_congruent(t, v1, v2, j + 2);
                    }
                },
            }
        } else {
            lemma_resolve_congruent(t, v1, v2, i + 1);
        }
    }
}

/// Character-exact string equality.
pub(crate) fn str_eq(a: &str, b: &str) -> (r: bool)
    ensures
        r == (a@ == b@),
{
    let x = String::from_str(a);
    let y = String::from_str(b);
    x == y
}

/// Index search for the first `}}` at or after `from`.
fn find_close_at(t: &str, from: usize) -> (r: Option<usize>)
    requires
        from <= t@.len(),
    ensures
        r matches Some(j) ==> find_close_from(t@, from as int) == Some(j as int),
        r is None ==> find_close_from(t@, from as int) is None,
{
    let n = t.unicode_len();
    if n < 2 {
        return None;
    }
    let mut j = from;
    while j < n - 1
        invariant
            n == t@.len(),
            2 <= n,
            from <= j,
            find_close_from(t@, from as int) == find_close_from(t@, j as int),
        decreases n - j,
    {
        if t.get_char(j) == '}' && t.get_char(j + 1) == '}' {
            return Some(j);
        }
        j = j + 1;
    }
    None
}

/// First store entry named `name`, as an owned copy of its value.
pub(crate) fn lookup_value(vars: &Vec<(String, String)>, name: &str) -> (r: Option<String>)
    ensures
        r matches Some(v) ==> lookup_from(vars@, name@, 0) == Some(v@),
        r is None ==> lookup_from(vars@, name@, 0) is None,
{
    let mut k: usize = 0;
    while k < vars.len()
        invariant
            k <= vars.len(),
            lookup_from(vars@, name@, 0) == lookup_from(vars@, name@, k as int),
        decreases vars.len() - k,
    {
        if str_eq(vars[k].0.as_str(), name) {
            return Some(vars[k].1.clone());
        }
        k = k + 1;
    }
    None
}

/// Resolves the template tail that starts at position `i`.
fn resolve_from(t: &str, vars: &Vec<(String, String)>, i: usize) -> (r: Result<
    String,
    TemplateFault,
>)
    requires
        i <= t@.len(),
    ensures
        r matches Ok(s) ==> spec_resolve_from(t@, vars@, i as int) == Resolution::Resolved(s@),
        r matches Err(TemplateFault::UndefinedVariable { name }) ==> spec_resolve_from(
            t@,
            vars@,
            i as int,
        ) == Resolution::Undefined(name@),
        r matches Err(TemplateFault::UnclosedPlaceholder) ==> spec_resolve_from(
            t@,
            vars@,
            i as int,
        ) == Resolution::Unclosed,
    decreases t@.len() - i,
{
    let n = t.unicode_len();
    if i >= n {
        return Ok(String::new());
    }
    if i + 1 < n && t.get_char(i) == '{' && t.get_char(i + 1) == '{' {
        match find_close_at(t, i + 2) {
            None => Err(TemplateFault::UnclosedPlaceholder),
            Some(j) => {
                proof {
                    lemma_find_close_from_bounds(t@, i as int + 2);
                }
                let name = t.substring_char(i + 2, j);
                match lookup_value(vars, name) {
                    None => Err(
                        TemplateFault::UndefinedVariable { name: String::from_str(name) },
                    ),
                    Some(v) => {
                        match resolve_from(t, vars, j + 2) {
                            Ok(rest) => {
                                let mut out = v;
                                out.append(rest.as_str());
                                Ok(out)
                            },
                            Err(f) => Err(f),
                        }
                    },
                }
            },
        }
    } else {
        match resolve_from(t, vars, i + 1) {
            Ok(rest) => {
                let head = t.substring_char(i, i + 1);
                let mut out = String::from_str(head);
                out.append(rest.as_str());
                proof {
                    assert(head@ =~= seq![t@[i as int]]);
                }
                Ok(out)
            },
            Err(f) => Err(f),
        }
    }
}

/// Resolves a template against a variable store. Returns the text with
/// every `{{name}}` placeholder replaced by the store's value for `name`,
/// or the fault that `spec_resolve` ascribes to the template.
pub fn resolve_template(template: &str, vars: &Vec<(String, String)>) -> (r: Result<
    String,
    TemplateFault,
>)
    ensures
        r matches Ok(s) ==> spec_resolve(template@, vars@) == Resolution::Resolved(s@),
        r matches Err(TemplateFault::UndefinedVariable { name }) ==> spec_resolve(
            template@,
            vars@,
        ) == Resolution::Undefined(name@),
        r matches Err(TemplateFault::UnclosedPlaceholder) ==> spec_resolve(template@, vars@)
            == Resolution::Unclosed,
{
    resolve_from(template, vars, 0)
}

} // verus!
