//! The file bundle synchronizer's local half: artifact naming, bundle
//! text generation, stale-artifact cleanup, and the agent's data
//! directories.
//!
//! A bundle artifact is the concatenation of all files matching one
//! [`crate::config::FileBundle`], written under the agent's data files
//! directory. Its name carries the assistant's identity, so a recreated
//! assistant naturally invalidates the old artifacts: they become
//! stale and are deleted locally before regeneration — but only ever
//! under the agent's own data directory, never anywhere else.

use vstd::prelude::*;

use crate::config::FileBundle;
use crate::error::Error;
use crate::ids::AssistantId;
use crate::strutil::{contains_seq, lemma_contains_in_extension, str_contains};

verus! {

/// The deterministic artifact name:
/// `{agent}-{bundle}-bundle-{assistant}.{ext}`.
pub open spec fn bundle_artifact_name(
    agent: Seq<char>,
    bundle: Seq<char>,
    assistant: Seq<char>,
    ext: Seq<char>,
) -> Seq<char> {
    agent + "-"@ + bundle + "-bundle-"@ + assistant + "."@ + ext
}

/// Computes the artifact file name for one bundle of one agent.
pub fn bundle_file_name(
    agent_name: &str,
    bundle_name: &str,
    assistant_id: &AssistantId,
    dst_ext: &str,
) -> (r: String)
    ensures
        r@ == bundle_artifact_name(agent_name@, bundle_name@, assistant_id@, dst_ext@),
{
    let mut s = agent_name.to_owned();
    s.append("-");
    s.append(bundle_name);
    s.append("-bundle-");
    s.append(assistant_id.as_str());
    s.append(".");
    s.append(dst_ext);
    s
}

/// Bundle artifact determinism: the artifact name is a function of the
/// agent name, bundle name, assistant reference and extension alone —
/// equal inputs give the byte-identical name — and changing the
/// assistant reference always changes the name.
pub proof fn lemma_bundle_name_determinism(
    agent: Seq<char>,
    bundle: Seq<char>,
    a1: Seq<char>,
    a2: Seq<char>,
    ext: Seq<char>,
)
    ensures
        a1 == a2 ==> bundle_artifact_name(agent, bundle, a1, ext) == bundle_artifact_name(
            agent,
            bundle,
            a2,
            ext,
        ),
        a1 != a2 ==> bundle_artifact_name(agent, bundle, a1, ext) != bundle_artifact_name(
            agent,
            bundle,
            a2,
            ext,
        ),
{
    if a1 != a2 {
        let prefix = agent + "-"@ + bundle + "-bundle-"@;
        let n1 = bundle_artifact_name(agent, bundle, a1, ext);
        let n2 = bundle_artifact_name(agent, bundle, a2, ext);
        if a1.len() != a2.len() {
            assert(n1.len() != n2.len());
        } else {
            assert(exists|k: int| 0 <= k < a1.len() && a1[k] != a2[k]) by {
                if forall|k: int| 0 <= k < a1.len() ==> #[trigger] a1[k] == a2[k] {
                    assert(a1 =~= a2);
                }
            }
            let k = choose|k: int| 0 <= k < a1.len() && a1[k] != a2[k];
            assert(n1[prefix.len() + k] == a1[k]);
            assert(n2[prefix.len() + k] == a2[k]);
        }
    }
}

/// One local file selected for bundling: its path (as printed in the
/// artifact's header lines) and its text, line by line.
#[derive(Debug)]
pub struct BundleEntry {
    pub path: String,
    pub lines: Vec<String>,
}

/// The text of a run of lines, each terminated by a newline.
pub open spec fn lines_text(lines: Seq<String>) -> Seq<char>
    decreases lines.len(),
{
    if lines.len() == 0 {
        Seq::<char>::empty()
    } else {
        lines_text(lines.drop_last()) + lines.last()@ + "\n"@
    }
}

/// The artifact text contributed by one bundled file: a header line
/// identifying its path, a blank line, its lines, and a closing blank
/// run.
pub open spec fn entry_text(e: BundleEntry) -> Seq<char> {
    "\n// ==== file path: "@ + e.path@ + "\n\n"@ + lines_text(e.lines@) + "\n\n\n"@
}

/// The full artifact text: each bundled file's contribution in order.
pub open spec fn bundle_text(entries: Seq<BundleEntry>) -> Seq<char>
    decreases entries.len(),
{
    if entries.len() == 0 {
        Seq::<char>::empty()
    } else {
        bundle_text(entries.drop_last()) + entry_text(entries.last())
    }
}

/// The artifact text of one bundled file.
fn entry_to_text(e: &BundleEntry) -> (r: String)
    ensures
        r@ == entry_text(*e),
{
    let mut s = "\n// ==== file path: ".to_owned();
    s.append(e.path.as_str());
    s.append("\n\n");
    let n = e.lines.len();
    let mut j: usize = 0;
    proof {
        assert(e.lines@.take(0) =~= Seq::<String>::empty());
    }
    while j < n
        invariant
            n == e.lines@.len(),
            0 <= j <= n,
            s@ == "\n// ==== file path: "@ + e.path@ + "\n\n"@ + lines_text(e.lines@.take(j as int)),
        decreases n - j,
    {
        proof {
            assert(e.lines@.take(j as int + 1).drop_last() =~= e.lines@.take(j as int));
            assert(e.lines@.take(j as int + 1).last() == e.lines@[j as int]);
        }
        s.append(e.lines[j].as_str());
        s.append("\n");
        j = j + 1;
    }
    proof {
        assert(e.lines@.take(n as int) =~= e.lines@);
    }
    s.append("\n\n\n");
    s
}

/// Regenerates the artifact text for the given files, in order.
///
/// The artifact is rebuilt from scratch on every synchronization; there
/// is no diffing.
pub fn bundle_to_text(entries: &Vec<BundleEntry>) -> (r: String)
    ensures
        r@ == bundle_text(entries@),
{
    let n = entries.len();
    let mut s = String::new();
    let mut i: usize = 0;
    proof {
        assert(entries@.take(0) =~= Seq::<BundleEntry>::empty());
        assert(s@ =~= bundle_text(entries@.take(0)));
    }
    while i < n
        invariant
            n == entries@.len(),
            0 <= i <= n,
            s@ == bundle_text(entries@.take(i as int)),
        decreases n - i,
    {
        proof {
            assert(entries@.take(i as int + 1).drop_last() =~= entries@.take(i as int));
            assert(entries@.take(i as int + 1).last() == entries@[i as int]);
        }
        let part = entry_to_text(&entries[i]);
        s.append(part.as_str());
        i = i + 1;
    }
    proof {
        assert(entries@.take(n as int) =~= entries@);
    }
    s
}

/// The views of a sequence of path strings.
pub open spec fn path_views(paths: Seq<String>) -> Seq<Seq<char>> {
    paths.map_values(|p: String| p@)
}

/// A path is stale when it is not stamped with the current assistant
/// reference.
pub open spec fn is_stale(path: Seq<char>, assistant: Seq<char>) -> bool {
    !contains_seq(path, assistant)
}

/// A path may be deleted only when it visibly sits under the agent's
/// own data directory.
pub open spec fn is_safe_to_delete(path: Seq<char>) -> bool {
    contains_seq(path, ".laoshi"@)
}

/// The first stale candidate that fails the safety check, if any.
pub open spec fn first_unsafe(paths: Seq<Seq<char>>, assistant: Seq<char>) -> Option<Seq<char>>
    decreases paths.len(),
{
    if paths.len() == 0 {
        Option::None
    } else if is_stale(paths[0], assistant) && !is_safe_to_delete(paths[0]) {
        Option::Some(paths[0])
    } else {
        first_unsafe(paths.skip(1), assistant)
    }
}

/// Plans the cleanup of stale bundle artifacts.
///
/// `candidates` are the generated bundle files currently in the data
/// files directory; every one not stamped with the current assistant
/// reference is slated for local deletion. The plan fails closed: if
/// any such path does not visibly sit under the agent's data directory,
/// the whole plan is an error and nothing at all is to be deleted.
pub fn plan_stale_cleanup(candidates: &Vec<String>, assistant_id: &AssistantId) -> (r: Result<
    Vec<String>,
    Error,
>)
    ensures
        r is Ok <==> first_unsafe(path_views(candidates@), assistant_id@) is None,
        r matches Ok(v) ==> path_views(v@) == path_views(candidates@).filter(
            |p: Seq<char>| is_stale(p, assistant_id@),
        ),
        r matches Err(e) ==> (e matches Error::ShouldNotDeleteLocalFile(p) && first_unsafe(
            path_views(candidates@),
            assistant_id@,
        ) == Option::Some(p@)),
{
    let ghost stale_pred = |p: Seq<char>| is_stale(p, assistant_id@);
    let n = candidates.len();
    let mut stale: Vec<String> = Vec::new();
    let mut i: usize = 0;
    proof {
        reveal(Seq::filter);
        assert(path_views(candidates@).skip(0) =~= path_views(candidates@));
        assert(path_views(candidates@.take(0)) =~= Seq::<Seq<char>>::empty());
        assert(path_views(stale@) =~= Seq::<Seq<char>>::empty());
    }
    while i < n
        invariant
            n == candidates@.len(),
            0 <= i <= n,
            stale_pred == (|p: Seq<char>| is_stale(p, assistant_id@)),
            first_unsafe(path_views(candidates@), assistant_id@) == first_unsafe(
                path_views(candidates@).skip(i as int),
                assistant_id@,
            ),
            path_views(stale@) == path_views(candidates@.take(i as int)).filter(stale_pred),
        decreases n - i,
    {
        let ghost full = path_views(candidates@);
        let ghost prefix = candidates@.take(i as int);
        let ghost next_prefix = candidates@.take(i as int + 1);
        proof {
            reveal(Seq::filter);
            assert(full.skip(i as int)[0] == full[i as int]);
            assert(next_prefix.drop_last() =~= prefix);
            assert(next_prefix.last() == candidates@[i as int]);
            assert(path_views(next_prefix).drop_last() =~= path_views(prefix));
            assert(path_views(next_prefix).last() == candidates@[i as int]@);
        }
        let candidate = &candidates[i];
        if !str_contains(candidate.as_str(), assistant_id.as_str()) {
            // Stale: slated for deletion, but only if visibly ours.
            if !str_contains(candidate.as_str(), ".laoshi") {
                return Err(Error::ShouldNotDeleteLocalFile(candidate.clone()));
            }
            let ghost before = stale@;
            stale.push(candidate.clone());
            proof {
                reveal(Seq::filter);
                assert(path_views(stale@) =~= path_views(before).push(candidates@[i as int]@));
                assert(stale_pred(path_views(next_prefix).last()));
                assert(path_views(next_prefix).filter(stale_pred) == path_views(prefix).filter(
                    stale_pred,
                ).push(candidates@[i as int]@));
            }
        } else {
            proof {
                reveal(Seq::filter);
                assert(!stale_pred(path_views(next_prefix).last()));
                assert(path_views(next_prefix).filter(stale_pred) == path_views(prefix).filter(
                    stale_pred,
                ));
            }
        }
        proof {
            assert(full.skip(i as int).skip(1) =~= full.skip(i as int + 1));
        }
        i = i + 1;
    }
    proof {
        assert(path_views(candidates@).skip(n as int).len() == 0);
        assert(candidates@.take(n as int) =~= candidates@);
    }
    Ok(stale)
}

/// Path safety: whenever some stale candidate falls outside the data
/// directory, the cleanup plan is an error carrying that path, and no
/// deletion list is produced at all.
pub proof fn lemma_cleanup_fails_closed(paths: Seq<Seq<char>>, assistant: Seq<char>, j: int)
    requires
        0 <= j < paths.len(),
        is_stale(paths[j], assistant),
        !is_safe_to_delete(paths[j]),
    ensures
        first_unsafe(paths, assistant) is Some,
    decreases paths.len(),
{
    if !(is_stale(paths[0], assistant) && !is_safe_to_delete(paths[0])) {
        assert(j != 0);
        assert(paths.skip(1)[j - 1] == paths[j]);
        lemma_cleanup_fails_closed(paths.skip(1), assistant, j - 1);
    }
}

/// The agent's data directory, where conversations, instructions and
/// bundles live: `{agent_dir}/.laoshi`.
pub fn data_dir(agent_dir: &str) -> (r: String)
    ensures
        r@ == agent_dir@ + "/.laoshi"@,
        contains_seq(r@, ".laoshi"@),
{
    let mut s = agent_dir.to_owned();
    s.append("/.laoshi");
    proof {
        reveal_strlit("/.laoshi");
        reveal_strlit(".laoshi");
        let start = agent_dir@.len() as int + 1;
        assert(s@.subrange(start, start + ".laoshi"@.len() as int) =~= ".laoshi"@);
    }
    s
}

/// The directory for generated bundle artifacts:
/// `{agent_dir}/.laoshi/files`.
pub fn data_files_dir(agent_dir: &str) -> (r: String)
    ensures
        r@ == agent_dir@ + "/.laoshi"@ + "/files"@,
        contains_seq(r@, ".laoshi"@),
{
    let mut s = data_dir(agent_dir);
    proof {
        lemma_contains_in_extension(s@, "/files"@, ".laoshi"@);
    }
    s.append("/files");
    s
}

/// Joins a directory and a file name with a separator. Everything the
/// directory contains, the joined path still contains — in particular
/// the `.laoshi` stamp that the deletion safety check looks for.
pub fn join_path(dir: &str, file_name: &str) -> (r: String)
    ensures
        r@ == dir@ + "/"@ + file_name@,
        forall|needle: Seq<char>|
            #[trigger] contains_seq(dir@, needle) ==> contains_seq(r@, needle),
{
    let mut s = dir.to_owned();
    s.append("/");
    s.append(file_name);
    proof {
        assert forall|needle: Seq<char>| #[trigger] contains_seq(dir@, needle) implies contains_seq(
            s@,
            needle,
        ) by {
            lemma_contains_in_extension(dir@, "/"@, needle);
            lemma_contains_in_extension(dir@ + "/"@, file_name@, needle);
        }
    }
    s
}

/// Per-bundle synchronization decisions: the artifact's name, and
/// whether the remote upload must be forced because the assistant was
/// recreated or the artifact did not previously exist locally.
#[derive(Debug)]
pub struct BundleSync {
    pub artifact_name: String,
    pub force_reupload: bool,
}

/// Decides the artifact name and the force flag for one bundle.
pub fn plan_bundle_sync(
    agent_name: &str,
    bundle: &FileBundle,
    assistant_id: &AssistantId,
    recreate: bool,
    artifact_existed: bool,
) -> (r: BundleSync)
    ensures
        r.artifact_name@ == bundle_artifact_name(
            agent_name@,
            bundle.bundle_name@,
            assistant_id@,
            bundle.dst_ext@,
        ),
        r.force_reupload == (recreate || !artifact_existed),
{
    BundleSync {
        artifact_name: bundle_file_name(
            agent_name,
            bundle.bundle_name.as_str(),
            assistant_id,
            bundle.dst_ext.as_str(),
        ),
        force_reupload: recreate || !artifact_existed,
    }
}

/// How many bundles reported a fresh upload.
pub open spec fn count_true(flags: Seq<bool>) -> int
    decreases flags.len(),
{
    if flags.len() == 0 {
        0
    } else {
        count_true(flags.drop_last()) + if flags.last() {
            1int
        } else {
            0int
        }
    }
}

/// Counts the bundles whose synchronization performed a fresh upload.
pub fn count_uploads(uploaded: &Vec<bool>) -> (r: u32)
    requires
        uploaded@.len() <= u32::MAX,
    ensures
        r == count_true(uploaded@),
{
    let n = uploaded.len();
    let mut count: u32 = 0;
    let mut i: usize = 0;
    proof {
        assert(uploaded@.take(0) =~= Seq::<bool>::empty());
    }
    while i < n
        invariant
            n == uploaded@.len() <= u32::MAX,
            0 <= i <= n,
            count == count_true(uploaded@.take(i as int)),
            count <= i,
        decreases n - i,
    {
        proof {
            assert(uploaded@.take(i as int + 1).drop_last() =~= uploaded@.take(i as int));
            assert(uploaded@.take(i as int + 1).last() == uploaded@[i as int]);
        }
        if uploaded[i] {
            count = count + 1;
        }
        i = i + 1;
    }
    proof {
        assert(uploaded@.take(n as int) =~= uploaded@);
    }
    count
}

} // verus!
