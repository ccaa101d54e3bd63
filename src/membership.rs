//! Turning the answers of key-path queries into membership proofs.
use crate::error::RelayError;
use vstd::prelude::*;
use vstd::utf8::encode_utf8;

verus! {

/// The answer of the source chain to a key-path query with proof.
#[derive(Debug)]
pub struct QueryResponse {
    /// The key that the answer is for.
    pub key: Vec<u8>,
    /// The value stored under the key; empty where there is none.
    pub value: Vec<u8>,
    /// The Merkle proof nodes, where a proof was returned.
    pub proof: Option<Vec<Vec<u8>>>,
    /// The height that the answer was taken at.
    pub height: u64,
}

/// A claim that a key holds a value (or, with an empty value, holds none)
/// under a commitment root, with its proof.
#[derive(Debug)]
pub struct MembershipProof {
    pub key_path: String,
    pub proof: Vec<Vec<u8>>,
    pub value: Vec<u8>,
}

impl MembershipProof {
    /// Whether this is a claim that the key holds no value.
    pub open spec fn spec_is_non_membership(&self) -> bool {
        self.value@.len() == 0
    }

    pub fn is_non_membership(&self) -> (r: bool)
        ensures
            r == self.spec_is_non_membership(),
    {
        self.value.len() == 0
    }
}

/// The height that keys are queried at for a trusted height: the block before,
/// since a header commits to the state left by the block before it.
pub open spec fn spec_query_height(trusted_height: u64) -> int {
    trusted_height - 1
}

/// The height to query keys at for a trusted height, which must not be zero.
pub fn query_height(trusted_height: u64) -> (r: Result<u64, RelayError>)
    ensures
        r is Err <==> trusted_height == 0,
        r matches Err(e) ==> e == RelayError::ZeroTrustedHeight,
        r matches Ok(h) ==> h == spec_query_height(trusted_height),
{
    if trusted_height == 0 {
        Err(RelayError::ZeroTrustedHeight)
    } else {
        Ok(trusted_height - 1)
    }
}

/// What is wrong with an answer for `key_path` expected at `height`, if anything.
pub open spec fn response_error(key_path: Seq<char>, height: u64, resp: QueryResponse) -> Option<
    RelayError,
> {
    if resp.height != height {
        Some(RelayError::HeightMismatch)
    } else if resp.key@ != encode_utf8(key_path) {
        Some(RelayError::KeyMismatch)
    } else if resp.proof is None || resp.proof.unwrap()@.len() == 0 {
        Some(RelayError::EmptyProofError)
    } else {
        None
    }
}

/// Whether two byte strings are equal.
pub fn bytes_eq(a: &[u8], b: &[u8]) -> (r: bool)
    ensures
        r == (a@ == b@),
{
    if a.len() != b.len() {
        return false;
    }
    let mut i: usize = 0;
    while i < a.len()
        invariant
            i <= a@.len(),
            a@.len() == b@.len(),
            forall|j: int| 0 <= j < i ==> a@[j] == b@[j],
        decreases a@.len() - i,
    {
        if a[i] != b[i] {
            return false;
        }
        i = i + 1;
    }
    assert(a@ =~= b@);
    true
}

/// The bytes of each node of a proof.
pub open spec fn nodes_view(v: Seq<Vec<u8>>) -> Seq<Seq<u8>> {
    v.map_values(|x: Vec<u8>| x@)
}

/// Copies a sequence of byte strings.
pub fn copy_nodes(v: &Vec<Vec<u8>>) -> (r: Vec<Vec<u8>>)
    ensures
        nodes_view(r@) == nodes_view(v@),
{
    let mut r: Vec<Vec<u8>> = Vec::new();
    let mut i: usize = 0;
    while i < v.len()
        invariant
            i <= v@.len(),
            r@.len() == i,
            forall|j: int| 0 <= j < i ==> (#[trigger] r@[j])@ == v@[j]@,
        decreases v@.len() - i,
    {
        let node = crate::light_block::copy_bytes(&v[i]);
        r.push(node);
        i = i + 1;
    }
    assert(nodes_view(r@) =~= nodes_view(v@));
    r
}

/// The membership proof for `key_path` from the answer to its query at
/// `height`. An empty value is a claim of non-membership, not an error.
pub fn membership_proof(key_path: &String, height: u64, resp: &QueryResponse) -> (r: Result<
    MembershipProof,
    RelayError,
>)
    ensures
        r is Err <==> response_error(key_path@, height, *resp) is Some,
        r matches Err(e) ==> response_error(key_path@, height, *resp) == Some(e),
        r matches Ok(p) ==> {
            &&& p.key_path@ == key_path@
            &&& p.value@ == resp.value@
            &&& nodes_view(p.proof@) == nodes_view(resp.proof.unwrap()@)
            &&& p.proof@.len() > 0
        },
        response_error(key_path@, height, *resp) is None && resp.value@.len() == 0 ==> (r matches Ok(
            p,
        ) && p.spec_is_non_membership() && p.proof@.len() > 0),
{
    if resp.height != height {
        return Err(RelayError::HeightMismatch);
    }
    if !bytes_eq(resp.key.as_slice(), key_path.as_str().as_bytes()) {
        return Err(RelayError::KeyMismatch);
    }
    let returned = &resp.proof;
    let nodes = match returned {
        Some(nodes) => nodes,
        None => return Err(RelayError::EmptyProofError),
    };
    if nodes.len() == 0 {
        return Err(RelayError::EmptyProofError);
    }
    let proof = copy_nodes(nodes);
    assert(proof@.len() == nodes_view(proof@).len());
    Ok(
        MembershipProof {
            key_path: crate::light_block::copy_string(key_path),
            proof,
            value: crate::light_block::copy_bytes(&resp.value),
        },
    )
}

/// Whether each of the first `n` answers is right for its key path.
pub open spec fn all_responses_ok(key_paths: Seq<String>, height: u64, responses: Seq<QueryResponse>, n: int) -> bool {
    forall|j: int| 0 <= j < n ==> response_error(#[trigger] key_paths[j]@, height, responses[j]) is None
}

/// Whether `e` is the error that collecting proofs for `key_paths` from
/// `responses` meets: no key paths, a zero trusted height, a count that
/// differs, or else the first answer that is wrong.
pub open spec fn collect_error(
    key_paths: Seq<String>,
    trusted_height: u64,
    responses: Seq<QueryResponse>,
    e: RelayError,
) -> bool {
    &&& (e == RelayError::EmptyKeyPaths <==> key_paths.len() == 0)
    &&& (e == RelayError::ZeroTrustedHeight <==> (key_paths.len() > 0 && trusted_height == 0))
    &&& (e == RelayError::ResponseCountMismatch <==> (key_paths.len() > 0 && trusted_height != 0
        && responses.len() != key_paths.len()))
    &&& ((key_paths.len() > 0 && trusted_height != 0 && responses.len() == key_paths.len())
        ==> exists|i: int|
        0 <= i < key_paths.len() && all_responses_ok(
            key_paths,
            (trusted_height - 1) as u64,
            responses,
            i,
        ) && response_error(#[trigger] key_paths[i]@, (trusted_height - 1) as u64, responses[i])
            == Some(e))
}

/// The membership proofs for `key_paths`, from the answers to their queries
/// made for `trusted_height`, given in the same order as the key paths. The
/// proofs come out in the order of the key paths, whatever order the queries
/// completed in.
pub fn collect_membership_proofs(
    key_paths: &Vec<String>,
    trusted_height: u64,
    responses: &Vec<QueryResponse>,
) -> (r: Result<Vec<MembershipProof>, RelayError>)
    ensures
        r is Ok <==> (key_paths@.len() > 0 && trusted_height != 0 && responses@.len()
            == key_paths@.len() && all_responses_ok(
            key_paths@,
            (trusted_height - 1) as u64,
            responses@,
            key_paths@.len() as int,
        )),
        r matches Err(e) ==> collect_error(key_paths@, trusted_height, responses@, e),
        r matches Ok(ps) ==> {
            &&& ps@.len() == key_paths@.len()
            &&& forall|i: int|
                0 <= i < ps@.len() ==> {
                    &&& (#[trigger] ps@[i]).key_path@ == key_paths@[i]@
                    &&& ps@[i].value@ == responses@[i].value@
                    &&& nodes_view(ps@[i].proof@) == nodes_view(responses@[i].proof.unwrap()@)
                    &&& ps@[i].proof@.len() > 0
                    &&& (responses@[i].value@.len() == 0 ==> ps@[i].spec_is_non_membership())
                }
        },
        (exists|i: int|
            0 <= i < responses@.len() && (#[trigger] responses@[i]).proof is Some
                && responses@[i].proof.unwrap()@.len() == 0) ==> r is Err,
        (exists|i: int| 0 <= i < responses@.len() && (#[trigger] responses@[i]).proof is None)
            ==> r is Err,
{
    if key_paths.len() == 0 {
        return Err(RelayError::EmptyKeyPaths);
    }
    let height = match query_height(trusted_height) {
        Ok(h) => h,
        Err(e) => return Err(e),
    };
    if responses.len() != key_paths.len() {
        return Err(RelayError::ResponseCountMismatch);
    }
    let mut out: Vec<MembershipProof> = Vec::new();
    let mut i: usize = 0;
    while i < key_paths.len()
        invariant
            i <= key_paths@.len(),
            responses@.len() == key_paths@.len(),
            height == trusted_height - 1,
            all_responses_ok(key_paths@, height, responses@, i as int),
            out@.len() == i,
            forall|j: int|
                0 <= j < i ==> {
                    &&& (#[trigger] out@[j]).key_path@ == key_paths@[j]@
                    &&& out@[j].value@ == responses@[j].value@
                    &&& nodes_view(out@[j].proof@) == nodes_view(responses@[j].proof.unwrap()@)
                    &&& out@[j].proof@.len() > 0
                },
        decreases key_paths@.len() - i,
    {
        match membership_proof(&key_paths[i], height, &responses[i]) {
            Ok(p) => out.push(p),
            Err(e) => {
                assert(response_error(key_paths@[i as int]@, height, responses@[i as int]) == Some(e));
                return Err(e);
            },
        }
        i = i + 1;
    }
    proof {
        assert forall|j: int| 0 <= j < responses@.len() implies (#[trigger] responses@[j]).proof is Some
            && responses@[j].proof.unwrap()@.len() > 0 by {
            assert(response_error(key_paths@[j]@, height, responses@[j]) is None);
        }
    }
    Ok(out)
}

} // verus!
