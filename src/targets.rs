//! The fixed set of targets, and one probe task for each of them.
use vstd::prelude::*;
use vstd::string::*;
use crate::task::{is_hyphenated_uuid, Phase, ProbeTask};

verus! {

/// Why the targets could not be resolved; either one stops the program
/// before any task starts.
#[derive(Clone, Copy, Debug, PartialEq, Eq, Structural)]
pub enum ResolveError {
    /// The routing report named no default gateway.
    GatewayNotFound,
    /// The configured endpoint at this position has a key but no address.
    EndpointWithoutAddress { index: usize },
}

/// The index of the first endpoint without an address, if any.
pub open spec fn first_missing(endpoints: Seq<Option<String>>) -> Option<nat> {
    if exists|i: int| 0 <= i < endpoints.len() && endpoints[i] is None {
        let i = choose|i: int|
            0 <= i < endpoints.len() && endpoints[i] is None && forall|j: int|
                0 <= j < i ==> endpoints[j] is Some;
        Some(i as nat)
    } else {
        None
    }
}

/// Puts the gateway first and the configured endpoints after it, in the
/// order given. Fails where the gateway was not found, or else at the first
/// endpoint that has no address.
pub fn resolve_targets(gateway: Option<String>, endpoints: Vec<Option<String>>) -> (r: Result<Vec<String>, ResolveError>)
    ensures
        gateway is None ==> r == Err::<Vec<String>, ResolveError>(ResolveError::GatewayNotFound),
        gateway is Some && first_missing(endpoints@) is Some ==> r == Err::<Vec<String>, ResolveError>(
            ResolveError::EndpointWithoutAddress { index: first_missing(endpoints@)->0 as usize },
        ),
        r is Ok <==> gateway is Some && first_missing(endpoints@) is None,
        r is Ok ==> {
            let v = r->Ok_0@;
            &&& v.len() == endpoints@.len() + 1
            &&& v[0]@ == gateway->0@
            &&& forall|i: int| 0 <= i < endpoints@.len() ==> v[i + 1]@ == (#[trigger] endpoints@[i])->0@
        },
{
    let g = match gateway {
        Some(g) => g,
        None => return Err(ResolveError::GatewayNotFound),
    };
    let mut out: Vec<String> = Vec::new();
    out.push(g);
    let n = endpoints.len();
    let mut i: usize = 0;
    while i < n
        invariant
            n == endpoints@.len(),
            0 <= i <= n,
            gateway is Some,
            out@.len() == i + 1,
            out@[0]@ == gateway->0@,
            forall|j: int| 0 <= j < i ==> endpoints@[j] is Some,
            forall|j: int| 0 <= j < i ==> out@[j + 1]@ == (#[trigger] endpoints@[j])->0@,
        decreases n - i,
    {
        match &endpoints[i] {
            Some(e) => {
                out.push(e.clone());
            },
            None => {
                proof {
                    let k = choose|k: int|
                        0 <= k < endpoints@.len() && endpoints@[k] is None && forall|j: int|
                            0 <= j < k ==> endpoints@[j] is Some;
                    assert(k == i) by {
                        if k < i {
                            assert(endpoints@[k] is Some);
                        } else if k > i {
                            assert(endpoints@[i as int] is Some);
                        }
                    }
                }
                return Err(ResolveError::EndpointWithoutAddress { index: i });
            },
        }
        i = i + 1;
    }
    Ok(out)
}

/// One task per target, in the order of `targets`, each reporting as
/// `client` to the collector at `host`:`port` under an identity of its own.
/// The same address given twice gets two independent tasks.
pub fn plan_tasks(targets: &Vec<String>, client: &str, host: &str, port: &str) -> (r: Vec<ProbeTask>)
    ensures
        r@.len() == targets@.len(),
        forall|i: int| 0 <= i < r@.len() ==> {
            let t = (#[trigger] r@[i])@;
            &&& t.target == targets@[i]@
            &&& t.client == client@
            &&& t.host == host@
            &&& t.port == port@
            &&& t.phase == Phase::Probing
            &&& is_hyphenated_uuid(t.identity)
        },
{
    let mut out: Vec<ProbeTask> = Vec::new();
    let mut i: usize = 0;
    while i < targets.len()
        invariant
            0 <= i <= targets@.len(),
            out@.len() == i,
            forall|j: int| 0 <= j < i ==> {
                let t = (#[trigger] out@[j])@;
                &&& t.target == targets@[j]@
                &&& t.client == client@
                &&& t.host == host@
                &&& t.port == port@
                &&& t.phase == Phase::Probing
                &&& is_hyphenated_uuid(t.identity)
            },
        decreases targets@.len() - i,
    {
        let task = ProbeTask::new(
            targets[i].clone(),
            String::from_str(client),
            String::from_str(host),
            String::from_str(port),
        );
        out.push(task);
        i = i + 1;
    }
    out
}

} // verus!
