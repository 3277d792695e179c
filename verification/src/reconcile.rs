//! The assistant reconciler: ensure exactly one remote assistant exists
//! for the configured logical name.
//!
//! The driver lists the remote assistants (one page, up to
//! [`LIST_PAGE_LIMIT`] entries) and hands the listing here;
//! [`reconcile_plan`] decides whether to keep the first assistant whose
//! name matches exactly, to delete it and create a fresh one, or to
//! create one because none matches. A created assistant carries the
//! configured name and model, with the retrieval capability enabled.
//! Returning the match instead of creating again is what keeps repeated
//! reconciliation from piling up duplicate remote assistants.
//!
//! Deleting an assistant cascades: every remote file attached to it is
//! deleted first, tolerating individual file-delete failures, then the
//! assistant object itself. The cascade is a step function whose course
//! is a function of the files still pending alone — an individual
//! failure cannot derail it.

use vstd::prelude::*;

use crate::ids::{AssistantId, FileId};
use crate::strutil::str_eq;

verus! {

/// Page size the driver asks the provider for when listing.
pub const LIST_PAGE_LIMIT: u64 = 100;

/// One entry of the remote assistant listing: its identifier and its
/// (optional) name.
#[derive(Debug)]
pub struct AssistantSummary {
    pub id: AssistantId,
    pub name: Option<String>,
}

/// Whether a listing entry carries exactly this name.
pub open spec fn summary_matches(s: AssistantSummary, name: Seq<char>) -> bool {
    match s.name {
        Option::Some(n) => n@ == name,
        Option::None => false,
    }
}

/// The identifier of the first listing entry whose name matches, if
/// any.
pub open spec fn first_match(list: Seq<AssistantSummary>, name: Seq<char>) -> Option<Seq<char>>
    decreases list.len(),
{
    if list.len() == 0 {
        Option::None
    } else if summary_matches(list[0], name) {
        Option::Some(list[0].id@)
    } else {
        first_match(list.skip(1), name)
    }
}

/// Finds the first assistant in the listing whose name matches exactly.
pub fn first_by_name(assistants: &Vec<AssistantSummary>, name: &str) -> (r: Option<AssistantId>)
    ensures
        r matches Some(id) ==> first_match(assistants@, name@) == Option::Some(id@),
        r is None ==> first_match(assistants@, name@) is None,
{
    let n = assistants.len();
    let mut i: usize = 0;
    proof {
        assert(assistants@.skip(0) =~= assistants@);
    }
    while i < n
        invariant
            n == assistants@.len(),
            0 <= i <= n,
            first_match(assistants@, name@) == first_match(assistants@.skip(i as int), name@),
        decreases n - i,
    {
        let entry = &assistants[i];
        let matched = match &entry.name {
            Option::Some(entry_name) => str_eq(entry_name.as_str(), name),
            Option::None => false,
        };
        proof {
            assert(assistants@.skip(i as int)[0] == assistants@[i as int]);
        }
        if matched {
            return Some(entry.id.dup());
        }
        proof {
            assert(assistants@.skip(i as int).skip(1) =~= assistants@.skip(i as int + 1));
        }
        i = i + 1;
    }
    proof {
        assert(assistants@.skip(n as int).len() == 0);
    }
    None
}

/// What reconciliation decides to do, given the remote listing.
#[derive(Debug)]
pub enum ReconcilePlan {
    /// A match exists and no recreation was asked: use it, create
    /// nothing.
    UseExisting(AssistantId),
    /// A match exists and recreation was asked: delete it (cascading
    /// over its attached files), then create a fresh assistant.
    DeleteThenCreate(AssistantId),
    /// No match exists: create a fresh assistant.
    CreateNew,
}

/// [`ReconcilePlan`] over views, for stating laws.
pub enum ReconcilePlanView {
    UseExisting(Seq<char>),
    DeleteThenCreate(Seq<char>),
    CreateNew,
}

impl View for ReconcilePlan {
    type V = ReconcilePlanView;

    open spec fn view(&self) -> ReconcilePlanView {
        match self {
            ReconcilePlan::UseExisting(id) => ReconcilePlanView::UseExisting(id@),
            ReconcilePlan::DeleteThenCreate(id) => ReconcilePlanView::DeleteThenCreate(id@),
            ReconcilePlan::CreateNew => ReconcilePlanView::CreateNew,
        }
    }
}

/// The reconciliation decision as a function of the listing, the
/// configured name, and the recreate flag.
pub open spec fn spec_reconcile_plan(
    list: Seq<AssistantSummary>,
    name: Seq<char>,
    recreate: bool,
) -> ReconcilePlanView {
    match first_match(list, name) {
        Option::None => ReconcilePlanView::CreateNew,
        Option::Some(id) => if recreate {
            ReconcilePlanView::DeleteThenCreate(id)
        } else {
            ReconcilePlanView::UseExisting(id)
        },
    }
}

/// Decides what reconciliation must do for this listing.
///
/// The driver performs the returned plan: nothing remote for
/// `UseExisting` beyond using the reference; the delete cascade and one
/// create for `DeleteThenCreate`; one create for `CreateNew`. Transport
/// errors while performing it propagate; reconciliation never retries.
pub fn reconcile_plan(assistants: &Vec<AssistantSummary>, name: &str, recreate: bool) -> (r:
    ReconcilePlan)
    ensures
        r@ == spec_reconcile_plan(assistants@, name@, recreate),
{
    match first_by_name(assistants, name) {
        Some(id) => {
            if recreate {
                ReconcilePlan::DeleteThenCreate(id)
            } else {
                ReconcilePlan::UseExisting(id)
            }
        },
        None => ReconcilePlan::CreateNew,
    }
}

/// The views of a sequence of file identifiers.
pub open spec fn file_views(files: Seq<FileId>) -> Seq<Seq<char>> {
    files.map_values(|f: FileId| f@)
}

/// The delete cascade's remaining work: the attached files not yet
/// attempted. The driver derives the initial list with
/// [`crate::files::derive_file_map`] and steps until the assistant
/// itself has been deleted.
#[derive(Debug)]
pub struct DeleteCascade {
    pub pending: Vec<FileId>,
}

/// The next call of the delete cascade.
#[derive(Debug)]
pub enum CascadeAction {
    /// Attempt to delete this remote file; a failure is logged and
    /// tolerated, never fatal.
    DeleteFile(FileId),
    /// All file deletes were attempted: delete the assistant object.
    DeleteAssistant,
}

/// One step of the delete cascade.
///
/// `_prev_delete_failed` reports whether the previous file delete
/// failed; the postcondition does not mention it — the cascade marches
/// on regardless, which is what makes individual file-delete failures
/// non-fatal.
pub fn cascade_step(cascade: DeleteCascade, _prev_delete_failed: bool) -> (r: (
    DeleteCascade,
    CascadeAction,
))
    ensures
        cascade.pending@.len() == 0 ==> r.1 is DeleteAssistant && r.0.pending@.len() == 0,
        cascade.pending@.len() > 0 ==> (r.1 matches CascadeAction::DeleteFile(f) && f@
            == cascade.pending@[0]@ && file_views(r.0.pending@) == file_views(
            cascade.pending@,
        ).skip(1)),
{
    let mut cascade = cascade;
    if cascade.pending.len() == 0 {
        (cascade, CascadeAction::DeleteAssistant)
    } else {
        let ghost orig = cascade.pending@;
        let next = cascade.pending.remove(0);
        proof {
            assert(file_views(cascade.pending@) =~= file_views(orig).skip(1));
        }
        (cascade, CascadeAction::DeleteFile(next))
    }
}

/// Idempotent reconciliation: when an assistant with the configured
/// name already exists and no recreation is asked, the plan is to use
/// that very assistant — no create and no delete is issued. The plan is
/// a function of the listing and the name alone, and `UseExisting`
/// leaves the remote state untouched, so a repeated reconciliation sees
/// the same listing and yields the same reference.
pub proof fn lemma_reconcile_idempotent(list: Seq<AssistantSummary>, name: Seq<char>)
    ensures
        first_match(list, name) matches Some(id) ==> spec_reconcile_plan(list, name, false)
            == ReconcilePlanView::UseExisting(id),
        !(spec_reconcile_plan(list, name, false) is DeleteThenCreate),
        spec_reconcile_plan(list, name, false) is CreateNew <==> first_match(list, name) is None,
{
}

/// Recreate semantics: when a match exists and recreation is asked, the
/// plan is exactly one delete of that assistant followed by exactly one
/// create — and nothing else. The delete cascade that performs the
/// delete ignores individual file-delete outcomes by contract
/// ([`cascade_step`]'s postcondition never mentions them), so failed
/// file deletes cannot change this shape.
pub proof fn lemma_recreate_semantics(list: Seq<AssistantSummary>, name: Seq<char>)
    requires
        first_match(list, name) is Some,
    ensures
        first_match(list, name) matches Some(id) ==> spec_reconcile_plan(list, name, true)
            == ReconcilePlanView::DeleteThenCreate(id),
{
}

} // verus!
