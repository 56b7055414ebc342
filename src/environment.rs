use vstd::prelude::*;
use vstd::utf8::encode_utf8_decode_utf8;

verus! {

/// The deployment that a test run targets; exactly one is selected per run.
#[derive(Clone, Copy, Debug, PartialEq, Eq, Structural)]
pub enum Env {
    Devnet,
    Staging,
    Ci,
    CiNomad,
    Testnet,
    CustomRemote,
    NewLocal,
}

/// The name under which an environment is selected on the command line.
pub open spec fn env_name(e: Env) -> Seq<char> {
    match e {
        Env::Devnet => "devnet"@,
        Env::Staging => "staging"@,
        Env::Ci => "ci"@,
        Env::CiNomad => "ci-nomad"@,
        Env::Testnet => "testnet"@,
        Env::CustomRemote => "custom-remote"@,
        Env::NewLocal => "new-local"@,
    }
}

/// `r` is what parsing `s` as an environment name gives: the environment of
/// that name, or `None` when no environment has it.
pub open spec fn parses_as(s: Seq<char>, r: Option<Env>) -> bool {
    match r {
        Some(e) => env_name(e) == s,
        None => forall|e: Env| env_name(e) != s,
    }
}

/// Whether two byte slices hold the same bytes.
fn bytes_equal(a: &[u8], b: &[u8]) -> (r: bool)
    ensures
        r == (a@ == b@),
{
    if a.len() != b.len() {
        return false;
    }
    let mut i: usize = 0;
    while i < a.len()
        invariant
            a@.len() == b@.len(),
            i <= a@.len(),
            forall|j: int| 0 <= j < i ==> a@[j] == b@[j],
        decreases a@.len() - i,
    {
        if a[i] != b[i] {
            return false;
        }
        i = i + 1;
    }
    assert(a@ =~= b@);
    true
}

/// Whether `s` spells exactly `name`.
fn is_named(s: &str, name: &str) -> (r: bool)
    ensures
        r == (s@ == name@),
{
    let r = bytes_equal(s.as_bytes(), name.as_bytes());
    proof {
        encode_utf8_decode_utf8(s@);
        encode_utf8_decode_utf8(name@);
    }
    r
}

impl Env {
    /// The environment selected by `s`, or `None` when `s` names none of them.
    pub fn from_name(s: &str) -> (r: Option<Env>)
        ensures
            parses_as(s@, r),
    {
        if is_named(s, "devnet") {
            Some(Env::Devnet)
        } else if is_named(s, "staging") {
            Some(Env::Staging)
        } else if is_named(s, "ci") {
            Some(Env::Ci)
        } else if is_named(s, "ci-nomad") {
            Some(Env::CiNomad)
        } else if is_named(s, "testnet") {
            Some(Env::Testnet)
        } else if is_named(s, "custom-remote") {
            Some(Env::CustomRemote)
        } else if is_named(s, "new-local") {
            Some(Env::NewLocal)
        } else {
            None
        }
    }

    /// The name under which this environment is selected.
    pub fn name(&self) -> (r: &'static str)
        ensures
            r@ == env_name(*self),
    {
        match self {
            Env::Devnet => "devnet",
            Env::Staging => "staging",
            Env::Ci => "ci",
            Env::CiNomad => "ci-nomad",
            Env::Testnet => "testnet",
            Env::CustomRemote => "custom-remote",
            Env::NewLocal => "new-local",
        }
    }
}

/// Distinct environments have distinct names, so a name selects at most one.
pub proof fn lemma_env_name_injective(a: Env, b: Env)
    ensures
        env_name(a) == env_name(b) ==> a == b,
{
    reveal_strlit("devnet");
    reveal_strlit("staging");
    reveal_strlit("ci");
    reveal_strlit("ci-nomad");
    reveal_strlit("testnet");
    reveal_strlit("custom-remote");
    reveal_strlit("new-local");
    if env_name(a) == env_name(b) {
        assert(env_name(a).len() == env_name(b).len());
        assert(env_name(a)[0] == env_name(b)[0]);
        assert(env_name(a)[2] == env_name(b)[2]);
    }
}

/// Parsing the name of an environment gives that environment back.
pub proof fn lemma_name_round_trip(e: Env, r: Option<Env>)
    requires
        parses_as(env_name(e), r),
    ensures
        r == Some(e),
{
    if let Some(x) = r {
        lemma_env_name_injective(x, e);
    }
}

} // verus!
