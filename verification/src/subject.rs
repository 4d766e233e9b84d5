//! Bus subject (topic) naming: the pure, deterministic scheme that scopes a
//! message to one tenant and one action, with an optional correlation
//! suffix. Distinct (tenant, action, correlation) triples built from
//! dot-free parts never collide on the bus; `lemma_subject_injective` states
//! that exactly.
use vstd::prelude::*;

verus! {

/// The backend actions a workspace subject can address.
#[derive(Clone, Copy, Debug, PartialEq, Eq, Structural)]
pub enum WorkspacesAction {
    /// Execute a surl (tenant function) for one HTTP request.
    RunSurl,
}

/// True when no character of `s` is the subject separator `'.'`.
pub open spec fn dot_free(s: Seq<char>) -> bool {
    forall|i: int| 0 <= i < s.len() ==> s[i] != '.'
}

pub open spec fn spec_action_text(a: WorkspacesAction) -> Seq<char> {
    match a {
        WorkspacesAction::RunSurl => "run_surl"@,
    }
}

/// The subject for a (tenant, action, correlation) triple:
/// `{tenant}.{action}` or `{tenant}.{action}.{correlation}`.
pub open spec fn spec_subject(
    tenant: Seq<char>,
    action: WorkspacesAction,
    correlation: Option<Seq<char>>,
) -> Seq<char> {
    let base = tenant + "."@ + spec_action_text(action);
    match correlation {
        Some(c) => base + "."@ + c,
        None => base,
    }
}

pub fn action_text(a: WorkspacesAction) -> (r: &'static str)
    ensures
        r@ == spec_action_text(a),
{
    match a {
        WorkspacesAction::RunSurl => "run_surl",
    }
}

/// Build the bus subject addressing `action` in tenant `tenant`'s namespace.
///
/// The one rejected input is an empty tenant id: the namer has no other
/// failure mode and performs no I/O.
pub fn create_workspaces_subject(
    tenant: &str,
    action: WorkspacesAction,
    correlation: Option<&str>,
) -> (r: Option<String>)
    ensures
        r is Some <==> tenant@.len() > 0,
        r matches Some(s) ==> s@ == spec_subject(
            tenant@,
            action,
            match correlation {
                Some(c) => Some(c@),
                None => None,
            },
        ),
{
    if tenant.unicode_len() == 0 {
        return None;
    }
    let mut s = String::from_str(tenant);
    s.append(".");
    s.append(action_text(action));
    if let Some(c) = correlation {
        s.append(".");
        s.append(c);
    }
    Some(s)
}

/// Splitting at the first separator is unambiguous: if two dot-free prefixes
/// are each followed by a dot and a tail and the whole strings agree, the
/// prefixes agree and the tails agree.
proof fn lemma_dot_split(a: Seq<char>, x: Seq<char>, b: Seq<char>, y: Seq<char>)
    requires
        dot_free(a),
        dot_free(b),
        a + "."@ + x == b + "."@ + y,
    ensures
        a == b,
        x == y,
{
    reveal_strlit(".");
    let s = a + "."@ + x;
    let t = b + "."@ + y;
    assert(s.len() == t.len());
    if a.len() < b.len() {
        assert(s[a.len() as int] == '.');
        assert(t[a.len() as int] == b[a.len() as int]);
        assert(false);
    }
    if b.len() < a.len() {
        assert(t[b.len() as int] == '.');
        assert(s[b.len() as int] == a[b.len() as int]);
        assert(false);
    }
    assert(a =~= b) by {
        assert(forall|i: int| 0 <= i < a.len() ==> s[i] == a[i] && t[i] == b[i]);
    }
    assert(x =~= y) by {
        assert(forall|i: int|
            0 <= i < x.len() ==> s[i + a.len() + 1] == x[i] && t[i + b.len() + 1] == y[i]);
    }
}

/// The action texts contain no separator.
proof fn lemma_action_text_dot_free(a: WorkspacesAction)
    ensures
        dot_free(spec_action_text(a)),
        spec_action_text(a).len() > 0,
{
    reveal_strlit("run_surl");
}

/// The naming scheme is injective: two subjects built from nonempty,
/// dot-free tenant ids and dot-free correlation suffixes are equal only if
/// they name the same tenant, the same action, and the same correlation.
/// Two distinct logical channels therefore never collide on the bus.
pub proof fn lemma_subject_injective(
    t1: Seq<char>,
    a1: WorkspacesAction,
    c1: Option<Seq<char>>,
    t2: Seq<char>,
    a2: WorkspacesAction,
    c2: Option<Seq<char>>,
)
    requires
        t1.len() > 0,
        t2.len() > 0,
        dot_free(t1),
        dot_free(t2),
        c1 matches Some(c) ==> dot_free(c),
        c2 matches Some(c) ==> dot_free(c),
        spec_subject(t1, a1, c1) == spec_subject(t2, a2, c2),
    ensures
        t1 == t2,
        a1 == a2,
        c1 == c2,
{
    reveal_strlit(".");
    lemma_action_text_dot_free(a1);
    lemma_action_text_dot_free(a2);
    let r1 = match c1 {
        Some(c) => spec_action_text(a1) + "."@ + c,
        None => spec_action_text(a1),
    };
    let r2 = match c2 {
        Some(c) => spec_action_text(a2) + "."@ + c,
        None => spec_action_text(a2),
    };
    assert(spec_subject(t1, a1, c1) =~= t1 + "."@ + r1);
    assert(spec_subject(t2, a2, c2) =~= t2 + "."@ + r2);
    lemma_dot_split(t1, r1, t2, r2);
    match (c1, c2) {
        (None, None) => {
            assert(a1 == a2);
        },
        (Some(x1), Some(x2)) => {
            lemma_dot_split(spec_action_text(a1), x1, spec_action_text(a2), x2);
            assert(a1 == a2);
        },
        (None, Some(x2)) => {
            // r1 is dot-free but r2 carries a dot at the action's length.
            assert(r2[spec_action_text(a2).len() as int] == '.');
            assert(false);
        },
        (Some(x1), None) => {
            assert(r1[spec_action_text(a1).len() as int] == '.');
            assert(false);
        },
    }
}

} // verus!
