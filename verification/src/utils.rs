use crate::error::NamedPipeError;
use vstd::prelude::*;
use vstd::string::*;

verus! {

/// The Windows named-pipe namespace marker that every normalized pipe name
/// starts with.
pub open spec fn spec_pipe_prefix() -> Seq<char> {
    "\\\\.\\pipe\\"@
}

/// A normalized pipe name: the given name when it already carries the
/// namespace marker, else the marker followed by the name.
pub open spec fn spec_format_pipe_name(name: Seq<char>) -> Seq<char> {
    if name.len() >= spec_pipe_prefix().len() && name.take(
        spec_pipe_prefix().len() as int,
    ) == spec_pipe_prefix() {
        name
    } else {
        spec_pipe_prefix() + name
    }
}

/// Normalize a short logical name to the platform named-pipe namespace.
pub fn format_pipe_name(name: &str) -> (r: String)
    ensures
        r@ == spec_format_pipe_name(name@),
{
    let prefix = "\\\\.\\pipe\\";
    proof {
        reveal_strlit("\\\\.\\pipe\\");
    }
    let plen = prefix.unicode_len();
    let nlen = name.unicode_len();
    let mut has_prefix = nlen >= plen;
    let mut i: usize = 0;
    while i < plen
        invariant
            prefix@ == spec_pipe_prefix(),
            plen == spec_pipe_prefix().len(),
            nlen == name@.len(),
            i <= plen,
            has_prefix ==> nlen >= plen,
            has_prefix ==> forall|j: int| 0 <= j < i ==> name@[j] == spec_pipe_prefix()[j],
            !has_prefix ==> !(name@.len() >= spec_pipe_prefix().len() && name@.take(
                spec_pipe_prefix().len() as int,
            ) == spec_pipe_prefix()),
        decreases plen - i,
    {
        if has_prefix && name.get_char(i) != prefix.get_char(i) {
            proof {
                let p = spec_pipe_prefix().len() as int;
                if name@.len() >= p && name@.take(p) == spec_pipe_prefix() {
                    assert(name@.take(p)[i as int] == spec_pipe_prefix()[i as int]);
                }
            }
            has_prefix = false;
        }
        i += 1;
    }
    if has_prefix {
        proof {
            let p = spec_pipe_prefix().len() as int;
            assert forall|j: int| 0 <= j < p implies name@.take(p)[j] == spec_pipe_prefix()[j] by {
                assert(name@[j] == spec_pipe_prefix()[j]);
            }
            assert(name@.take(p) =~= spec_pipe_prefix());
        }
        name.to_owned()
    } else {
        let mut r = String::from_str(prefix);
        r.append(name);
        r
    }
}

/// The ASCII-lowercase image of one byte.
pub open spec fn spec_lower_byte(b: u8) -> u8 {
    if 65 <= b && b <= 90 {
        (b + 32) as u8
    } else {
        b
    }
}

/// Two paths name the same file: equal byte for byte, ignoring ASCII case
/// (paths are compared case-insensitively on this platform).
pub open spec fn spec_paths_match(a: Seq<u8>, b: Seq<u8>) -> bool {
    a.len() == b.len() && forall|i: int|
        0 <= i < a.len() ==> spec_lower_byte(a[i]) == spec_lower_byte(b[i])
}

fn lower_byte(b: u8) -> (r: u8)
    ensures
        r == spec_lower_byte(b),
{
    if 65 <= b && b <= 90 {
        b + 32
    } else {
        b
    }
}

/// Verify that the other process's executable path is the caller's own,
/// compared ASCII-case-insensitively. A mismatch is rejected with an
/// identity error; resolving the paths is the caller's step, and any
/// failure there must be treated as rejection too (fail closed).
pub fn verify_same_path(other_path: &str, self_path: &str) -> (r: Result<(), NamedPipeError>)
    ensures
        r is Ok <==> spec_paths_match(other_path.spec_bytes(), self_path.spec_bytes()),
        r matches Err(e) ==> e == NamedPipeError::Identity,
{
    let a = other_path.as_bytes_vec();
    let b = self_path.as_bytes_vec();
    if a.len() != b.len() {
        return Err(NamedPipeError::Identity);
    }
    let mut i: usize = 0;
    while i < a.len()
        invariant
            a@ == other_path.spec_bytes(),
            b@ == self_path.spec_bytes(),
            a@.len() == b@.len(),
            i <= a@.len(),
            forall|j: int| 0 <= j < i ==> spec_lower_byte(a@[j]) == spec_lower_byte(b@[j]),
        decreases a@.len() - i,
    {
        if lower_byte(a[i]) != lower_byte(b[i]) {
            return Err(NamedPipeError::Identity);
        }
        i += 1;
    }
    Ok(())
}

/// Identity enforcement, accepting side: a peer whose executable path is
/// identical to the caller's own always passes the comparison.
pub proof fn lemma_identical_path_matches(p: Seq<u8>)
    ensures
        spec_paths_match(p, p),
{
}

} // verus!
