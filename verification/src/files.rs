//! Remote file bookkeeping: the derived name-to-identifier map and the
//! upload decision.
//!
//! The provider's per-assistant file listing has no file names, so the
//! {name → identifier} map for an assistant is derived, never stored:
//! cross-reference the assistant's attached-file identifiers against
//! the account-wide file listing (which has names) and keep only the
//! attached ones. It is recomputed on demand, which avoids staleness.
//!
//! Given that map, [`upload_plan`] decides whether a bundle upload is a
//! fresh upload, a no-op because the file is already present, or a
//! forced replacement.

use vstd::prelude::*;

use crate::ids::FileId;
use crate::reconcile::file_views;
use crate::strutil::str_eq;

verus! {

/// One entry of the account-wide file listing: identifier and file
/// name.
#[derive(Debug)]
pub struct OrgFile {
    pub id: FileId,
    pub filename: String,
}

/// The (file name, identifier) view of one listing entry.
pub open spec fn org_file_view(e: OrgFile) -> (Seq<char>, Seq<char>) {
    (e.filename@, e.id@)
}

/// The views of a sequence of listing entries.
pub open spec fn org_file_views(s: Seq<OrgFile>) -> Seq<(Seq<char>, Seq<char>)> {
    s.map_values(|e: OrgFile| org_file_view(e))
}

/// Whether `id` occurs among the attached-file identifiers.
fn contains_file_id(ids: &Vec<FileId>, id: &FileId) -> (r: bool)
    ensures
        r == file_views(ids@).contains(id@),
{
    let n = ids.len();
    let mut j: usize = 0;
    while j < n
        invariant
            n == ids@.len(),
            0 <= j <= n,
            forall|k: int| 0 <= k < j ==> file_views(ids@)[k] != id@,
        decreases n - j,
    {
        if str_eq(ids[j].as_str(), id.as_str()) {
            assert(file_views(ids@)[j as int] == id@);
            return true;
        }
        j = j + 1;
    }
    assert(forall|k: int| 0 <= k < file_views(ids@).len() ==> file_views(ids@)[k] != id@);
    false
}

/// Derives the {file name → identifier} map for one assistant: the
/// account-wide entries whose identifier is attached to it, in listing
/// order.
pub fn derive_file_map(assistant_file_ids: &Vec<FileId>, org_files: &Vec<OrgFile>) -> (r: Vec<
    OrgFile,
>)
    ensures
        org_file_views(r@) == org_file_views(org_files@).filter(
            |p: (Seq<char>, Seq<char>)| file_views(assistant_file_ids@).contains(p.1),
        ),
{
    let ghost pred = |p: (Seq<char>, Seq<char>)| file_views(assistant_file_ids@).contains(p.1);
    let n = org_files.len();
    let mut r: Vec<OrgFile> = Vec::new();
    let mut i: usize = 0;
    proof {
        reveal(Seq::filter);
        assert(org_file_views(org_files@.take(0)) =~= Seq::<(Seq<char>, Seq<char>)>::empty());
        assert(org_file_views(r@) =~= Seq::<(Seq<char>, Seq<char>)>::empty());
    }
    while i < n
        invariant
            n == org_files@.len(),
            0 <= i <= n,
            pred == (|p: (Seq<char>, Seq<char>)| file_views(assistant_file_ids@).contains(p.1)),
            org_file_views(r@) == org_file_views(org_files@.take(i as int)).filter(pred),
        decreases n - i,
    {
        let entry = &org_files[i];
        let ghost prefix = org_files@.take(i as int);
        let ghost next_prefix = org_files@.take(i as int + 1);
        proof {
            assert(next_prefix.drop_last() =~= prefix);
            assert(next_prefix.last() == org_files@[i as int]);
            assert(org_file_views(next_prefix).drop_last() =~= org_file_views(prefix));
            assert(org_file_views(next_prefix).last() == org_file_view(org_files@[i as int]));
        }
        if contains_file_id(assistant_file_ids, &entry.id) {
            let kept = OrgFile { id: entry.id.dup(), filename: entry.filename.clone() };
            let ghost before = r@;
            r.push(kept);
            proof {
                reveal(Seq::filter);
                assert(org_file_views(r@) =~= org_file_views(before).push(
                    org_file_view(org_files@[i as int]),
                ));
                assert(pred(org_file_views(next_prefix).last()));
                assert(org_file_views(next_prefix).filter(pred) == org_file_views(
                    prefix,
                ).filter(pred).push(org_file_view(org_files@[i as int])));
            }
        } else {
            proof {
                reveal(Seq::filter);
                assert(!pred(org_file_views(next_prefix).last()));
                assert(org_file_views(next_prefix).filter(pred) == org_file_views(prefix).filter(
                    pred,
                ));
            }
        }
        i = i + 1;
    }
    proof {
        assert(org_files@.take(n as int) =~= org_files@);
    }
    r
}

/// The identifier of the first map entry carrying this file name, if
/// any.
pub open spec fn first_lookup(map: Seq<(Seq<char>, Seq<char>)>, name: Seq<char>) -> Option<
    Seq<char>,
>
    decreases map.len(),
{
    if map.len() == 0 {
        Option::None
    } else if map[0].0 == name {
        Option::Some(map[0].1)
    } else {
        first_lookup(map.skip(1), name)
    }
}

/// Looks the file name up in the derived map.
pub fn lookup_file_id(map: &Vec<OrgFile>, file_name: &str) -> (r: Option<FileId>)
    ensures
        r matches Some(id) ==> first_lookup(org_file_views(map@), file_name@) == Option::Some(id@),
        r is None ==> first_lookup(org_file_views(map@), file_name@) is None,
{
    let n = map.len();
    let mut i: usize = 0;
    proof {
        assert(org_file_views(map@).skip(0) =~= org_file_views(map@));
    }
    while i < n
        invariant
            n == map@.len(),
            0 <= i <= n,
            first_lookup(org_file_views(map@), file_name@) == first_lookup(
                org_file_views(map@).skip(i as int),
                file_name@,
            ),
        decreases n - i,
    {
        proof {
            assert(org_file_views(map@).skip(i as int)[0] == org_file_views(map@)[i as int]);
        }
        if str_eq(map[i].filename.as_str(), file_name) {
            return Some(map[i].id.dup());
        }
        proof {
            assert(org_file_views(map@).skip(i as int).skip(1) =~= org_file_views(map@).skip(
                i as int + 1,
            ));
        }
        i = i + 1;
    }
    proof {
        assert(org_file_views(map@).skip(n as int).len() == 0);
    }
    None
}

/// What one bundle upload decides to do.
#[derive(Debug)]
pub enum UploadPlan {
    /// The file name is already attached and no force was asked: reuse
    /// the existing remote file, perform no upload.
    KeepExisting(FileId),
    /// The file name is attached but a forced re-upload was asked:
    /// delete the remote file from the account and from the assistant's
    /// attachments (tolerating individual delete failures — the file
    /// may already be gone), then upload and attach afresh.
    ReplaceExisting(FileId),
    /// The file name is not attached: upload and attach it.
    UploadNew,
}

/// [`UploadPlan`] over views, for stating laws.
pub enum UploadPlanView {
    KeepExisting(Seq<char>),
    ReplaceExisting(Seq<char>),
    UploadNew,
}

impl View for UploadPlan {
    type V = UploadPlanView;

    open spec fn view(&self) -> UploadPlanView {
        match self {
            UploadPlan::KeepExisting(id) => UploadPlanView::KeepExisting(id@),
            UploadPlan::ReplaceExisting(id) => UploadPlanView::ReplaceExisting(id@),
            UploadPlan::UploadNew => UploadPlanView::UploadNew,
        }
    }
}

/// The view of an optional file identifier.
pub open spec fn opt_file_id_view(o: Option<FileId>) -> Option<Seq<char>> {
    match o {
        Option::Some(id) => Option::Some(id@),
        Option::None => Option::None,
    }
}

/// The upload decision as a function of the map lookup and the force
/// flag.
pub open spec fn spec_upload_plan(existing: Option<Seq<char>>, force: bool) -> UploadPlanView {
    match existing {
        Option::None => UploadPlanView::UploadNew,
        Option::Some(id) => if force {
            UploadPlanView::ReplaceExisting(id)
        } else {
            UploadPlanView::KeepExisting(id)
        },
    }
}

/// Decides what uploading one bundle file must do, given the map
/// lookup for its name.
///
/// The fresh-upload path uploads the local file to the account, then
/// attaches it to the assistant; the identifiers the two steps return
/// are expected to match, and a mismatch is logged, never fatal.
pub fn upload_plan(existing: Option<FileId>, force: bool) -> (r: UploadPlan)
    ensures
        r@ == spec_upload_plan(opt_file_id_view(existing), force),
{
    match existing {
        Some(id) => {
            if force {
                UploadPlan::ReplaceExisting(id)
            } else {
                UploadPlan::KeepExisting(id)
            }
        },
        None => UploadPlan::UploadNew,
    }
}

/// Looking a name up after appending an entry for it: when the name was
/// absent, the appended identifier is found.
proof fn lemma_lookup_after_push(
    map: Seq<(Seq<char>, Seq<char>)>,
    name: Seq<char>,
    new_id: Seq<char>,
)
    requires
        first_lookup(map, name) is None,
    ensures
        first_lookup(map.push((name, new_id)), name) == Option::Some(new_id),
    decreases map.len(),
{
    if map.len() == 0 {
        assert(map.push((name, new_id))[0] == (name, new_id));
    } else {
        assert(map.push((name, new_id)).skip(1) =~= map.skip(1).push((name, new_id)));
        lemma_lookup_after_push(map.skip(1), name, new_id);
    }
}

/// Upload idempotence: when the file name is absent from the derived
/// map, a non-forced upload performs exactly one fresh upload; once the
/// map carries the uploaded identifier under that name, a second
/// non-forced call short-circuits to the existing identifier and
/// performs no upload.
pub proof fn lemma_upload_idempotent(
    map: Seq<(Seq<char>, Seq<char>)>,
    name: Seq<char>,
    new_id: Seq<char>,
)
    requires
        first_lookup(map, name) is None,
    ensures
        spec_upload_plan(first_lookup(map, name), false) is UploadNew,
        first_lookup(map.push((name, new_id)), name) == Option::Some(new_id),
        spec_upload_plan(first_lookup(map.push((name, new_id)), name), false)
            == UploadPlanView::KeepExisting(new_id),
{
    lemma_lookup_after_push(map, name, new_id);
}

} // verus!
