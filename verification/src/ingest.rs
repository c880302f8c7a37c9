//! The event ingester's decision logic: which node events announce a patch,
//! which patch each announcement names, and the job built for it. The
//! surrounding process reads events off the node's socket and looks patch
//! heads up in its storage; everything it then decides goes through here.

use vstd::prelude::*;
use crate::ci::{CIJob, is_hex_digit, is_hex_seq, seed_git_uri};
use crate::strutil::{contains_seq, contains_str, last_segment, last_segment_seq};

verus! {

/// A reference update announced by the node, reduced to what the broker
/// reads of it: the ref's name.
#[derive(Debug, Clone, PartialEq, Eq)]
pub enum RefUpdate {
    Updated { name: String },
    Created { name: String },
    Deleted { name: String },
    Skipped { name: String },
}

/// A node event, reduced to what the broker reads: a fetch that updated
/// some refs of a repository, or anything else.
#[derive(Debug, Clone, PartialEq, Eq)]
pub enum NodeEvent {
    RefsFetched { rid: String, updated: Vec<RefUpdate> },
    Other,
}

/// A ref name that carries a patch: it contains the patch namespace marker.
pub open spec fn is_patch_ref(name: Seq<char>) -> bool {
    contains_seq(name, "xyz.radicle.patch"@)
}

/// Does this ref name carry a patch?
pub fn patch_ref(name: &str) -> (b: bool)
    ensures
        b == is_patch_ref(name@),
{
    contains_str(name, "xyz.radicle.patch")
}

/// The name a ref update speaks of, whatever its kind.
pub open spec fn update_name(u: RefUpdate) -> Seq<char> {
    match u {
        RefUpdate::Updated { name } => name@,
        RefUpdate::Created { name } => name@,
        RefUpdate::Deleted { name } => name@,
        RefUpdate::Skipped { name } => name@,
    }
}

/// An update that announces a patch: a creation or update of a ref whose
/// name carries the patch marker. Deletions and skips never do.
pub open spec fn announces_patch(u: RefUpdate) -> bool {
    match u {
        RefUpdate::Updated { name } => is_patch_ref(name@),
        RefUpdate::Created { name } => is_patch_ref(name@),
        RefUpdate::Deleted { name } => false,
        RefUpdate::Skipped { name } => false,
    }
}

/// The patch ids announced by a list of ref updates, in list order: one id
/// — the final `/`-segment of the ref name — for each announcing update,
/// and nothing for any other update.
pub open spec fn spec_patch_ids(updates: Seq<RefUpdate>) -> Seq<Seq<char>>
    decreases updates.len(),
{
    if updates.len() == 0 {
        Seq::empty()
    } else {
        let rest = spec_patch_ids(updates.drop_last());
        if announces_patch(updates.last()) {
            rest.push(last_segment_seq(update_name(updates.last())))
        } else {
            rest
        }
    }
}

/// How many of the updates announce a patch.
pub open spec fn count_announcing(updates: Seq<RefUpdate>) -> nat
    decreases updates.len(),
{
    if updates.len() == 0 {
        0
    } else {
        count_announcing(updates.drop_last()) + if announces_patch(updates.last()) {
            1nat
        } else {
            0nat
        }
    }
}

/// The patch ids announced by a list of ref updates.
pub fn patch_ids_of_updates(updates: &Vec<RefUpdate>) -> (r: Vec<String>)
    ensures
        r@.map_values(|s: String| s@) == spec_patch_ids(updates@),
{
    let mut out: Vec<String> = Vec::new();
    let mut i: usize = 0;
    while i < updates.len()
        invariant
            i <= updates@.len(),
            out@.map_values(|s: String| s@) == spec_patch_ids(updates@.take(i as int)),
        decreases updates@.len() - i,
    {
        let u = &updates[i];
        let announced = match u {
            RefUpdate::Updated { name } => patch_ref(name.as_str()),
            RefUpdate::Created { name } => patch_ref(name.as_str()),
            RefUpdate::Deleted { name } => false,
            RefUpdate::Skipped { name } => false,
        };
        if announced {
            let name = match u {
                RefUpdate::Updated { name } => name,
                RefUpdate::Created { name } => name,
                RefUpdate::Deleted { name } => name,
                RefUpdate::Skipped { name } => name,
            };
            let id = last_segment(name.as_str());
            out.push(id);
            proof {
                assert(updates@.take(i + 1).drop_last() =~= updates@.take(i as int));
                assert(updates@.take(i + 1).last() == updates@[i as int]);
                assert(out@.map_values(|s: String| s@) =~= spec_patch_ids(updates@.take(i + 1)));
            }
        } else {
            proof {
                assert(updates@.take(i + 1).drop_last() =~= updates@.take(i as int));
                assert(updates@.take(i + 1).last() == updates@[i as int]);
                assert(out@.map_values(|s: String| s@) =~= spec_patch_ids(updates@.take(i + 1)));
            }
        }
        i += 1;
    }
    proof {
        assert(updates@.take(updates@.len() as int) =~= updates@);
    }
    out
}

/// The patch ids a node event announces: those of its ref updates when it
/// is a fetch, and none otherwise.
pub fn patch_ids_of_event(event: &NodeEvent) -> (r: Vec<String>)
    ensures
        match event {
            NodeEvent::RefsFetched { rid, updated } => r@.map_values(|s: String| s@)
                == spec_patch_ids(updated@),
            NodeEvent::Other => r@.len() == 0,
        },
{
    match event {
        NodeEvent::RefsFetched { rid: _, updated } => patch_ids_of_updates(updated),
        NodeEvent::Other => Vec::new(),
    }
}

/// Filter soundness: a list of updates none of which announces a patch
/// yields no patch ids — and so no jobs.
pub proof fn lemma_filter_soundness(updates: Seq<RefUpdate>)
    requires
        forall|i: int| 0 <= i < updates.len() ==> !announces_patch(#[trigger] updates[i]),
    ensures
        spec_patch_ids(updates).len() == 0,
    decreases updates.len(),
{
    if updates.len() > 0 {
        assert(forall|i: int|
            0 <= i < updates.drop_last().len() ==> !announces_patch(
                #[trigger] updates.drop_last()[i],
            ));
        lemma_filter_soundness(updates.drop_last());
    }
}

/// Filter completeness: the id list is exactly as long as the count of
/// announcing updates — one id per announcing update, none for any other.
pub proof fn lemma_filter_completeness(updates: Seq<RefUpdate>)
    ensures
        spec_patch_ids(updates).len() == count_announcing(updates),
    decreases updates.len(),
{
    if updates.len() > 0 {
        lemma_filter_completeness(updates.drop_last());
    }
}

/// Appending one announcing update appends exactly one patch id: the final
/// `/`-segment of its ref name. Appending any other update changes nothing.
pub proof fn lemma_one_id_per_announcing_update(updates: Seq<RefUpdate>, u: RefUpdate)
    ensures
        announces_patch(u) ==> spec_patch_ids(updates.push(u)) == spec_patch_ids(updates).push(
            last_segment_seq(update_name(u)),
        ),
        !announces_patch(u) ==> spec_patch_ids(updates.push(u)) == spec_patch_ids(updates),
{
    assert(updates.push(u).drop_last() =~= updates);
    assert(updates.push(u).last() == u);
}

/// Is this text a non-empty hex commit id?
pub fn hex_text(s: &str) -> (b: bool)
    ensures
        b == is_hex_seq(s@),
{
    let len = s.unicode_len();
    if len == 0 {
        return false;
    }
    let mut i: usize = 0;
    while i < len
        invariant
            len == s@.len(),
            i <= len,
            forall|m: int| 0 <= m < i ==> is_hex_digit(#[trigger] s@[m]),
        decreases len - i,
    {
        let c = s.get_char(i);
        let ok = ('0' <= c && c <= '9') || ('a' <= c && c <= 'f') || ('A' <= c && c <= 'F');
        if !ok {
            return false;
        }
        i += 1;
    }
    true
}

/// Build the job for one detected patch, validating the job invariant: the
/// repository id and patch id must be non-empty and the head a hex commit
/// id; the job then carries the repository id as both project name and
/// project id, the patch id as the branch, and the seed fetch URL.
pub fn job_for_patch(rid: &str, patch_id: &str, patch_head: &str) -> (r: Option<CIJob>)
    ensures
        match r {
            Some(job) => {
                &&& rid@.len() > 0
                &&& patch_id@.len() > 0
                &&& is_hex_seq(patch_head@)
                &&& job.project_name@ == rid@
                &&& job.project_id@ == rid@
                &&& job.patch_branch@ == patch_id@
                &&& job.patch_head@ == patch_head@
                &&& job.git_uri@ == seed_git_uri(rid@)
                &&& job.well_formed()
            },
            None => !(rid@.len() > 0 && patch_id@.len() > 0 && is_hex_seq(patch_head@)),
        },
{
    if rid.unicode_len() == 0 || patch_id.unicode_len() == 0 || !hex_text(patch_head) {
        return None;
    }
    let mut git_uri = String::new();
    git_uri.append("https://seed.radicle.xyz/");
    git_uri.append(rid);
    git_uri.append(".git");
    proof {
        reveal_strlit("https://seed.radicle.xyz/");
        assert(git_uri@ =~= seed_git_uri(rid@));
    }
    Some(
        CIJob {
            project_name: rid.to_owned(),
            patch_branch: patch_id.to_owned(),
            patch_head: patch_head.to_owned(),
            project_id: rid.to_owned(),
            git_uri,
        },
    )
}

} // verus!
