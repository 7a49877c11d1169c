use vstd::prelude::*;

use crate::errors::Error;

verus! {

/// An argument token is rejected when it begins with one of a fixed deny-list
/// of credential-bearing flags that are deprecated and unsafe here.
///
/// The list is open-ended by design: new prefixes may be added without
/// changing the shape of this predicate.
pub open spec fn arg_is_denied(arg: Seq<char>) -> bool {
    "-rpcuser"@.is_prefix_of(arg) || "-rpcpassword"@.is_prefix_of(arg)
}

/// Whether `prefix` is a prefix of `s`, character by character.
fn str_starts_with(s: &str, prefix: &str) -> (r: bool)
    ensures
        r == prefix@.is_prefix_of(s@),
{
    let n = prefix.unicode_len();
    if s.unicode_len() < n {
        assert(!prefix@.is_prefix_of(s@));
        return false;
    }
    let mut i: usize = 0;
    while i < n
        invariant
            n == prefix@.len(),
            n <= s@.len(),
            i <= n,
            forall|j: int| 0 <= j < i ==> s@[j] == prefix@[j],
        decreases n - i,
    {
        if s.get_char(i) != prefix.get_char(i) {
            assert(!prefix@.is_prefix_of(s@));
            return false;
        }
        i += 1;
    }
    assert(prefix@ =~= s@.subrange(0, n as int));
    true
}

/// Whether this single argument token starts with a deny-listed flag.
fn arg_denied(arg: &str) -> (r: bool)
    ensures
        r == arg_is_denied(arg@),
{
    str_starts_with(arg, "-rpcuser") || str_starts_with(arg, "-rpcpassword")
}

/// Validate the specified args, rejecting any unavailable or deprecated one.
///
/// The sequence is returned unchanged exactly when no token begins with a
/// deny-listed prefix; otherwise the result is `RpcUserAndPasswordUsed`.
pub fn validate_args<'a>(args: Vec<&'a str>) -> (r: Result<Vec<&'a str>, Error>)
    ensures
        r matches Ok(v) ==> v == args,
        r is Ok <==> (forall|i: int| 0 <= i < args@.len() ==> !arg_is_denied(args@[i]@)),
        r matches Err(e) ==> e is RpcUserAndPasswordUsed,
{
    let n = args.len();
    let mut i: usize = 0;
    while i < n
        invariant
            n == args@.len(),
            i <= n,
            forall|j: int| 0 <= j < i ==> !arg_is_denied(args@[j]@),
        decreases n - i,
    {
        if arg_denied(args[i]) {
            return Err(Error::RpcUserAndPasswordUsed);
        }
        i += 1;
    }
    Ok(args)
}

} // verus!
