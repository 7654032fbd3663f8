//! The service descriptor: the validated inputs an install works from.

use vstd::prelude::*;
use vstd::string::StrSliceExecFns;

use crate::strutil::{lemma_str_lt_trichotomy, str_compare_lt, str_lt};

verus! {

/// The environment entries are strictly sorted by key: this is the invariant
/// that makes the rendered unit text reproducible.
pub open spec fn env_sorted(env: Seq<(String, String)>) -> bool {
    forall|i: int| 0 <= i < env.len() - 1 ==> str_lt(#[trigger] env[i].0@, env[i + 1].0@)
}

/// Whether a service is installed for the invoking user only or system-wide.
#[derive(Clone, Copy, Debug, PartialEq, Eq, Structural)]
pub enum ServiceLevel {
    User,
    System,
}

impl Default for ServiceLevel {
    fn default() -> (r: Self)
        ensures
            r == ServiceLevel::System,
    {
        ServiceLevel::System
    }
}

/// Immutable description of the service to install: name, command line,
/// environment entries, and install scope.
///
/// The environment is kept as a vector of `(key, value)` pairs; a
/// well-formed descriptor keeps it strictly sorted by key (see
/// [`ServiceConfig::well_formed`]), which is what makes the rendered unit
/// text reproducible.
#[derive(Clone, Debug)]
pub struct ServiceConfig {
    pub name: String,
    pub command: Vec<String>,
    pub env: Vec<(String, String)>,
    pub level: ServiceLevel,
}

impl Default for ServiceConfig {
    fn default() -> (r: Self)
        ensures
            r.name@ == Seq::<char>::empty(),
            r.command@ == Seq::<String>::empty(),
            r.env@ == Seq::<(String, String)>::empty(),
            r.level == ServiceLevel::System,
    {
        ServiceConfig {
            name: String::new(),
            command: Vec::new(),
            env: Vec::new(),
            level: ServiceLevel::System,
        }
    }
}

impl ServiceConfig {
    /// A well-formed descriptor keeps its environment sorted by key.
    pub open spec fn well_formed(&self) -> bool {
        env_sorted(self.env@)
    }
}

/// Law: a sorted environment has strictly increasing keys everywhere, not
/// only between neighbours.
pub proof fn lemma_env_sorted_lt(env: Seq<(String, String)>, i: int, j: int)
    requires
        env_sorted(env),
        0 <= i < j < env.len(),
    ensures
        str_lt(env[i].0@, env[j].0@),
    decreases j - i,
{
    if j == i + 1 {
    } else {
        lemma_env_sorted_lt(env, i, j - 1);
        crate::strutil::lemma_str_lt_transitive(env[i].0@, env[j - 1].0@, env[j].0@);
    }
}

/// Law: the keys of a sorted environment are unique.
pub proof fn lemma_env_sorted_keys_unique(env: Seq<(String, String)>)
    requires
        env_sorted(env),
    ensures
        forall|i: int, j: int|
            0 <= i < j < env.len() ==> #[trigger] env[i].0@ != #[trigger] env[j].0@,
{
    assert forall|i: int, j: int|
        0 <= i < j < env.len() implies #[trigger] env[i].0@ != #[trigger] env[j].0@ by {
        lemma_env_sorted_lt(env, i, j);
        crate::strutil::lemma_str_lt_irreflexive(env[i].0@, env[i].0@);
        if env[i].0@ == env[j].0@ {
            crate::strutil::lemma_str_lt_irreflexive(env[i].0@, env[j].0@);
        }
    }
}

/// Inserting `(k, v)` into a key-sorted environment: before the first larger
/// key, replacing an equal key.
pub open spec fn spec_env_insert(env: Seq<(String, String)>, k: String, v: String) -> Seq<
    (String, String),
>
    decreases env.len(),
{
    if env.len() == 0 {
        seq![(k, v)]
    } else if str_lt(k@, env[0].0@) {
        seq![(k, v)] + env
    } else if k@ == env[0].0@ {
        seq![(k, v)] + env.drop_first()
    } else {
        seq![env[0]] + spec_env_insert(env.drop_first(), k, v)
    }
}

/// Law: inserting into a sorted environment keeps it sorted, and the first
/// key afterwards is the inserted key or the old first key.
pub proof fn lemma_env_insert_sorted(env: Seq<(String, String)>, k: String, v: String)
    requires
        env_sorted(env),
    ensures
        env_sorted(spec_env_insert(env, k, v)),
        spec_env_insert(env, k, v).len() >= 1,
        spec_env_insert(env, k, v)[0].0@ == k@ || (env.len() > 0 && spec_env_insert(env, k, v)[0].0@
            == env[0].0@),
    decreases env.len(),
{
    let r = spec_env_insert(env, k, v);
    if env.len() == 0 {
    } else if str_lt(k@, env[0].0@) {
        assert(forall|i: int| 0 <= i < env.len() ==> r[i + 1] == env[i]);
    } else if k@ == env[0].0@ {
        assert(forall|i: int| 0 <= i < env.len() - 1 ==> #[trigger] r[i + 1] == env[i + 1]);
        assert(forall|i: int|
            1 <= i < r.len() - 1 ==> str_lt(#[trigger] r[i].0@, r[i + 1].0@)) by {
            assert(forall|i: int|
                1 <= i < env.len() - 1 ==> str_lt(#[trigger] env[i].0@, env[i + 1].0@));
        }
    } else {
        lemma_str_lt_trichotomy(k@, env[0].0@);
        assert(str_lt(env[0].0@, k@));
        let tail = env.drop_first();
        assert(env_sorted(tail)) by {
            assert(forall|i: int|
                0 <= i < tail.len() - 1 ==> #[trigger] tail[i] == env[i + 1] && tail[i + 1] == env[i
                    + 2]);
        }
        lemma_env_insert_sorted(tail, k, v);
        let rt = spec_env_insert(tail, k, v);
        assert(r[0] == env[0]);
        assert(forall|i: int| 0 <= i < rt.len() ==> r[i + 1] == rt[i]);
        assert(str_lt(r[0].0@, r[1].0@)) by {
            if rt[0].0@ == k@ {
            } else {
                assert(tail.len() > 0 && rt[0].0@ == tail[0].0@);
                assert(str_lt(env[0].0@, env[1].0@));
            }
        }
    }
}

/// Inserts an entry into a key-sorted environment, replacing the value of an
/// equal key.
pub fn env_insert(env: Vec<(String, String)>, key: String, value: String) -> (r: Vec<
    (String, String),
>)
    ensures
        r@ == spec_env_insert(env@, key, value),
    decreases env@.len(),
{
    let ghost env0 = env@;
    let mut env = env;
    if env.len() == 0 {
        env.push((key, value));
        assert(env@ =~= seq![(key, value)]);
        env
    } else if str_compare_lt(key.as_str(), env[0].0.as_str()) {
        env.insert(0, (key, value));
        assert(env@ =~= seq![(key, value)] + env0);
        env
    } else if key == env[0].0 {
        let _ = env.remove(0);
        env.insert(0, (key, value));
        assert(env@ =~= seq![(key, value)] + env0.drop_first());
        assert(key@ == env0[0].0@);
        env
    } else {
        let first = env.remove(0);
        assert(env@ =~= env0.drop_first());
        let mut rest = env_insert(env, key, value);
        rest.insert(0, first);
        assert(rest@ =~= seq![env0[0]] + spec_env_insert(env0.drop_first(), key, value));
        rest
    }
}

/// Builds a sorted environment from `(key, value)` pairs in the order given:
/// a later pair with an equal key replaces the earlier value.
pub open spec fn spec_env_from_pairs(pairs: Seq<(String, String)>) -> Seq<(String, String)>
    decreases pairs.len(),
{
    if pairs.len() == 0 {
        Seq::empty()
    } else {
        spec_env_insert(spec_env_from_pairs(pairs.drop_last()), pairs.last().0, pairs.last().1)
    }
}

/// Builds the environment mapping of a descriptor from raw `(key, value)`
/// pairs: sorted by key, a later duplicate key replacing the earlier value.
pub fn env_from_pairs(pairs: Vec<(String, String)>) -> (r: Vec<(String, String)>)
    ensures
        r@ == spec_env_from_pairs(pairs@),
        env_sorted(r@),
{
    let mut r: Vec<(String, String)> = Vec::new();
    let mut i: usize = 0;
    assert(r@ =~= spec_env_from_pairs(pairs@.subrange(0, 0)));
    while i < pairs.len()
        invariant
            0 <= i <= pairs@.len(),
            r@ == spec_env_from_pairs(pairs@.subrange(0, i as int)),
            env_sorted(r@),
        decreases pairs@.len() - i,
    {
        let key = pairs[i].0.clone();
        let value = pairs[i].1.clone();
        proof {
            lemma_env_insert_sorted(r@, key, value);
        }
        r = env_insert(r, key, value);
        proof {
            let sub = pairs@.subrange(0, i + 1);
            assert(sub.drop_last() =~= pairs@.subrange(0, i as int));
            assert(sub.last() == pairs@[i as int]);
        }
        i = i + 1;
    }
    assert(pairs@.subrange(0, pairs@.len() as int) =~= pairs@);
    r
}

/// A character the name pattern accepts in head position: an ASCII letter or
/// digit.
pub open spec fn name_head_char(c: char) -> bool {
    ('a' as u32 <= c as u32 && c as u32 <= 'z' as u32) || ('A' as u32 <= c as u32 && c as u32
        <= 'Z' as u32) || ('0' as u32 <= c as u32 && c as u32 <= '9' as u32)
}

/// A character the name pattern accepts after the head: also `_` and `-`.
pub open spec fn name_tail_char(c: char) -> bool {
    name_head_char(c) || c == '_' || c == '-'
}

/// The name pattern: a letter or digit, then letters, digits, `_` or `-`.
pub open spec fn name_matches_pattern(s: Seq<char>) -> bool {
    &&& s.len() >= 1
    &&& name_head_char(s[0])
    &&& forall|i: int| 1 <= i < s.len() ==> name_tail_char(#[trigger] s[i])
}

/// Checks a service name: it must match the name pattern and be at most 256
/// characters long.
pub fn validate_name(v: &str) -> (r: Result<String, String>)
    ensures
        name_matches_pattern(v@) && v@.len() <= 256 ==> (r matches Ok(s) && s@ == v@),
        !name_matches_pattern(v@) ==> (r matches Err(m) && m@
            == "Name includes invalid characters."@),
        name_matches_pattern(v@) && v@.len() > 256 ==> (r matches Err(m) && m@
            == "Name must not exceed 256 characters."@),
{
    let n = v.unicode_len();
    if n == 0 {
        return Err("Name includes invalid characters.".to_owned());
    }
    let c0 = v.get_char(0);
    let u0 = c0 as u32;
    let head_ok = ('a' as u32 <= u0 && u0 <= 'z' as u32) || ('A' as u32 <= u0 && u0
        <= 'Z' as u32) || ('0' as u32 <= u0 && u0 <= '9' as u32);
    if !head_ok {
        return Err("Name includes invalid characters.".to_owned());
    }
    let mut i: usize = 1;
    while i < n
        invariant
            1 <= i <= n,
            n == v@.len(),
            name_head_char(v@[0]),
            forall|j: int| 1 <= j < i ==> name_tail_char(#[trigger] v@[j]),
        decreases n - i,
    {
        let c = v.get_char(i);
        let u = c as u32;
        let ok = ('a' as u32 <= u && u <= 'z' as u32) || ('A' as u32 <= u && u <= 'Z' as u32) || (
        '0' as u32 <= u && u <= '9' as u32) || c == '_' || c == '-';
        if !ok {
            assert(!name_tail_char(v@[i as int]));
            return Err("Name includes invalid characters.".to_owned());
        }
        i = i + 1;
    }
    if n > 256 {
        return Err("Name must not exceed 256 characters.".to_owned());
    }
    Ok(v.to_owned())
}

} // verus!
