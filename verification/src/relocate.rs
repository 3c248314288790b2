//! Pruning partial artifacts and relocating the run folder.
//!
//! At the end of a run the shared run folder is moved under the resolved
//! destination root. Before the move, every file directly inside the run
//! folder whose name carries the partial-transfer marker is deleted. A failed
//! move never destroys the source: the run folder stays at its original path
//! for manual recovery. A successful move replaces whatever sat under the
//! destination with the pruned run folder (the overwrite policy is fixed
//! here, in place of the platform-dependent behavior of common move
//! primitives).

use vstd::prelude::*;

verus! {

/// The filename suffix that marks a partial-transfer artifact.
pub open spec fn partial_marker() -> Seq<char> {
    seq!['p', 'a', 'r', 't']
}

/// True of filenames that carry the partial-transfer marker as a suffix.
pub open spec fn is_partial_name(name: Seq<char>) -> bool {
    name.len() >= 4 && name.subrange(name.len() - 4, name.len() as int) == partial_marker()
}

/// Whether this filename carries the partial-transfer marker.
pub fn has_partial_marker(name: &str) -> (r: bool)
    ensures
        r == is_partial_name(name@),
{
    let n = name.unicode_len();
    if n < 4 {
        return false;
    }
    let c0 = name.get_char(n - 4);
    let c1 = name.get_char(n - 3);
    let c2 = name.get_char(n - 2);
    let c3 = name.get_char(n - 1);
    let r = c0 == 'p' && c1 == 'a' && c2 == 'r' && c3 == 't';
    proof {
        let s = name@.subrange(name@.len() - 4, name@.len() as int);
        assert(s.len() == 4);
        assert(s[0] == c0 && s[1] == c1 && s[2] == c2 && s[3] == c3);
        if r {
            assert(s =~= partial_marker());
        } else {
            if s == partial_marker() {
                assert(c0 == 'p' && c1 == 'a' && c2 == 'r' && c3 == 't');
            }
        }
    }
    r
}

/// The prune decision for one run folder: which files stay and which are
/// deleted before the move.
pub struct PrunePlan {
    pub keep: Vec<String>,
    pub remove: Vec<String>,
}

/// Splits the files of a run folder for pruning. Exactly the names carrying
/// the partial-transfer marker are removed; every other file stays,
/// unchanged and in order.
pub fn partition_partial(files: &Vec<String>) -> (plan: PrunePlan)
    ensures
        plan.keep@ == files@.filter(|f: String| !is_partial_name(f@)),
        plan.remove@ == files@.filter(|f: String| is_partial_name(f@)),
{
    let ghost keep_pred = |f: String| !is_partial_name(f@);
    let ghost remove_pred = |f: String| is_partial_name(f@);
    let mut keep: Vec<String> = Vec::new();
    let mut remove: Vec<String> = Vec::new();
    let mut i: usize = 0;
    proof {
        assert(files@.take(0int).filter(keep_pred) =~= Seq::<String>::empty()) by {
            reveal(Seq::filter);
        }
        assert(files@.take(0int).filter(remove_pred) =~= Seq::<String>::empty()) by {
            reveal(Seq::filter);
        }
    }
    while i < files.len()
        invariant
            i <= files.len(),
            keep@ == files@.take(i as int).filter(keep_pred),
            remove@ == files@.take(i as int).filter(remove_pred),
            keep_pred == (|f: String| !is_partial_name(f@)),
            remove_pred == (|f: String| is_partial_name(f@)),
        decreases files.len() - i,
    {
        if has_partial_marker(files[i].as_str()) {
            remove.push(files[i].clone());
        } else {
            keep.push(files[i].clone());
        }
        proof {
            assert(files@.take(i as int + 1) == files@.take(i as int).push(files@[i as int]));
            files@.take(i as int).lemma_filter_push(files@[i as int], keep_pred);
            files@.take(i as int).lemma_filter_push(files@[i as int], remove_pred);
        }
        i = i + 1;
    }
    proof {
        assert(files@.take(files@.len() as int) == files@);
    }
    PrunePlan { keep, remove }
}

/// The filenames of a folder that survive pruning.
pub open spec fn pruned_files(files: Seq<String>) -> Seq<String> {
    files.filter(|f: String| !is_partial_name(f@))
}

/// The slice of the filesystem that a relocation reads and changes: the run
/// folder at its original path, the destination root, and the run folder's
/// image under the destination once it has been moved there.
pub struct FsState {
    /// Whether the run folder still sits at its original path.
    pub run_folder_present: bool,
    /// The names of the files directly inside the run folder; meaningful
    /// only while the folder is present, empty once it is gone.
    pub run_folder_files: Vec<String>,
    /// Whether the destination root exists.
    pub dest_present: bool,
    /// The files of the run folder as relocated under the destination root,
    /// if the folder has been moved there.
    pub relocated_files: Option<Vec<String>>,
}

/// The relocation of a run folder, as a transition on the filesystem slice
/// it touches. The caller reports the outcome of each outside step it ran:
/// whether creating the destination root succeeded (`create_ok`), whether
/// listing the run folder succeeded (`list_ok`), and whether the move
/// primitive reported success (`move_ok`). The steps run in this order:
///
/// 1. A missing run folder fails the relocation at once; nothing is touched.
/// 2. A missing destination root is created; a creation failure is tolerated
///    (the move itself will then report its own failure).
/// 3. The run folder is pruned of partial artifacts; a listing failure is
///    unrecoverable for this call and leaves the folder untouched.
/// 4. The pruned folder is moved under the destination root as a unit,
///    replacing any previous image there; only then is it gone from its
///    original path. A failed move leaves the pruned folder at its original
///    path — the source is never destroyed on failure.
pub fn relocate(fs: FsState, create_ok: bool, list_ok: bool, move_ok: bool) -> (r: (FsState, bool))
    ensures
        r.1 == (fs.run_folder_present && list_ok && move_ok),
        !fs.run_folder_present ==> r.0 == fs,
        fs.run_folder_present ==> r.0.dest_present == (fs.dest_present || create_ok),
        fs.run_folder_present && !list_ok ==> r.0.run_folder_present
            && r.0.run_folder_files == fs.run_folder_files && r.0.relocated_files
            == fs.relocated_files,
        fs.run_folder_present && list_ok && move_ok ==> !r.0.run_folder_present
            && r.0.run_folder_files@ == Seq::<String>::empty() && r.0.relocated_files is Some
            && r.0.relocated_files->0@ == pruned_files(fs.run_folder_files@),
        fs.run_folder_present && list_ok && !move_ok ==> r.0.run_folder_present
            && r.0.run_folder_files@ == pruned_files(fs.run_folder_files@) && r.0.relocated_files
            == fs.relocated_files,
{
    if !fs.run_folder_present {
        return (fs, false);
    }
    let dest_present = fs.dest_present || create_ok;
    if !list_ok {
        let next = FsState {
            run_folder_present: true,
            run_folder_files: fs.run_folder_files,
            dest_present,
            relocated_files: fs.relocated_files,
        };
        return (next, false);
    }
    let plan = partition_partial(&fs.run_folder_files);
    if move_ok {
        let next = FsState {
            run_folder_present: false,
            run_folder_files: Vec::new(),
            dest_present,
            relocated_files: Some(plan.keep),
        };
        (next, true)
    } else {
        let next = FsState {
            run_folder_present: true,
            run_folder_files: plan.keep,
            dest_present,
            relocated_files: fs.relocated_files,
        };
        (next, false)
    }
}

} // verus!
