use vstd::prelude::*;
use vstd::string::StringExecFns;

verus! {

/// Prefix shared by every record this helper keeps in the credential store.
/// It is also the user name stored with each record.
pub const CRED_PREFIX: &'static str = "wsl-ssh-askpass";

/// Suffix that tells the timestamp record of a key from its passphrase record.
pub const GATE_SUFFIX: &'static str = "temp";

/// The store name of the durable passphrase record of `key`.
pub open spec fn cred_name_spec(key: Seq<char>) -> Seq<char> {
    CRED_PREFIX@ + seq![':'] + key
}

/// The store name of the session record that holds the time of the last
/// successful verification of `key`.
pub open spec fn hello_cred_name_spec(key: Seq<char>) -> Seq<char> {
    CRED_PREFIX@ + seq![':'] + key + seq![':'] + GATE_SUFFIX@
}

/// Builds the store name of the durable passphrase record of `key`.
pub fn cred_name(key: &str) -> (name: String)
    ensures
        name@ == cred_name_spec(key@),
{
    proof {
        reveal_strlit(":");
    }
    let mut name = String::from_str(CRED_PREFIX);
    name.append(":");
    name.append(key);
    assert(":"@ =~= seq![':']);
    name
}

/// Builds the store name of the timestamp record of `key`.
pub fn hello_cred_name(key: &str) -> (name: String)
    ensures
        name@ == hello_cred_name_spec(key@),
{
    proof {
        reveal_strlit(":");
    }
    let mut name = String::from_str(CRED_PREFIX);
    name.append(":");
    name.append(key);
    name.append(":");
    name.append(GATE_SUFFIX);
    assert(":"@ =~= seq![':']);
    name
}

/// The passphrase record and the timestamp record of one key never share a name,
/// so writing one leaves the other as it was.
pub proof fn lemma_names_of_one_key_differ(key: Seq<char>)
    ensures
        cred_name_spec(key) != hello_cred_name_spec(key),
{
    reveal_strlit("temp");
    assert(hello_cred_name_spec(key).len() == cred_name_spec(key).len() + 5);
}

/// Two keys have the same passphrase record name only if they are equal,
/// and likewise for the name of the timestamp record.
pub proof fn lemma_names_are_injective(a: Seq<char>, b: Seq<char>)
    ensures
        cred_name_spec(a) == cred_name_spec(b) ==> a == b,
        hello_cred_name_spec(a) == hello_cred_name_spec(b) ==> a == b,
{
    let p = CRED_PREFIX@ + seq![':'];
    let n = p.len() as int;
    if cred_name_spec(a) == cred_name_spec(b) {
        assert(cred_name_spec(a).subrange(n, cred_name_spec(a).len() as int) =~= a);
        assert(cred_name_spec(b).subrange(n, cred_name_spec(b).len() as int) =~= b);
    }
    if hello_cred_name_spec(a) == hello_cred_name_spec(b) {
        let s = seq![':'] + GATE_SUFFIX@;
        assert(hello_cred_name_spec(a) =~= p + a + s);
        assert(hello_cred_name_spec(b) =~= p + b + s);
        assert((p + a + s).len() == n + a.len() + s.len());
        assert((p + b + s).len() == n + b.len() + s.len());
        assert((p + a + s).subrange(n, n + a.len()) =~= a);
        assert((p + b + s).subrange(n, n + b.len()) =~= b);
    }
}

} // verus!
