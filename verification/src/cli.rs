//! What the shim's command line interface decides.

use vstd::prelude::*;
use vstd::string::*;
use crate::api::DeleteResponse;
use crate::api::Timestamp;
use crate::text::str_eq;

verus! {

/// The exit status that is reported for a shim that is deleted: that of a
/// process ended by the kill signal.
pub const DELETED_EXIT_STATUS: u32 = 137;

/// The place of the first annotation that names the sandbox, or the number
/// of annotations if none does.
pub open spec fn sandbox_annotation_at(annotations: Seq<(String, String)>) -> int
    decreases annotations.len(),
{
    if annotations.len() == 0 {
        0
    } else if annotations[0].0@ == "io.kubernetes.cri.sandbox-id"@ {
        0
    } else {
        1 + sandbox_annotation_at(annotations.skip(1))
    }
}

/// The group that a shim joins: the sandbox that the annotations of the
/// container's runtime specification name, or the container itself if
/// they name none.
pub open spec fn grouping_of(id: Seq<char>, annotations: Seq<(String, String)>) -> Seq<char> {
    let at = sandbox_annotation_at(annotations);
    if at < annotations.len() {
        annotations[at].1@
    } else {
        id
    }
}

proof fn lemma_sandbox_annotation_at(annotations: Seq<(String, String)>, i: int)
    requires
        0 <= i <= annotations.len(),
        forall|k: int|
            0 <= k < i ==> (#[trigger] annotations[k]).0@ != "io.kubernetes.cri.sandbox-id"@,
        i < annotations.len() ==> annotations[i].0@ == "io.kubernetes.cri.sandbox-id"@,
    ensures
        sandbox_annotation_at(annotations) == i,
    decreases i,
{
    if i > 0 {
        let rest = annotations.skip(1);
        assert(annotations[0].0@ != "io.kubernetes.cri.sandbox-id"@);
        assert forall|k: int| 0 <= k < i - 1 implies (#[trigger] rest[k]).0@
            != "io.kubernetes.cri.sandbox-id"@ by {
            assert(rest[k] == annotations[k + 1]);
        }
        if i < annotations.len() {
            assert(rest[i - 1] == annotations[i]);
        }
        lemma_sandbox_annotation_at(rest, i - 1);
    }
}

/// Names the group that the shim of the container `id` joins.
pub fn grouping<'a>(id: &'a str, annotations: &'a Vec<(String, String)>) -> (r: &'a str)
    ensures
        r@ == grouping_of(id@, annotations@),
{
    let mut i: usize = 0;
    while i < annotations.len()
        invariant
            i <= annotations.len(),
            forall|k: int|
                0 <= k < i ==> (#[trigger] annotations@[k]).0@ != "io.kubernetes.cri.sandbox-id"@,
        decreases annotations.len() - i,
    {
        if str_eq(annotations[i].0.as_str(), "io.kubernetes.cri.sandbox-id") {
            proof {
                lemma_sandbox_annotation_at(annotations@, i as int);
            }
            return annotations[i].1.as_str();
        }
        i += 1;
    }
    proof {
        lemma_sandbox_annotation_at(annotations@, i as int);
    }
    id
}

/// The answer to the request to delete the shim itself: no process, the
/// exit status of a killed process, and the time of the request.
pub fn delete_shim(now: Timestamp) -> (r: DeleteResponse)
    ensures
        r == (DeleteResponse { pid: 0, exit_status: DELETED_EXIT_STATUS, exited_at: Some(now) }),
{
    DeleteResponse { pid: 0, exit_status: DELETED_EXIT_STATUS, exited_at: Some(now) }
}

} // verus!
