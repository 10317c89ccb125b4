use vstd::prelude::*;

use crate::error::DirError;
use crate::paths::{base_name, base_name_of, parent_of, parent_path, path_join, join_path};
use crate::progress::ProgressTracker;

verus! {

// ---------------------------------------------------------------------------
// The copy engine.
//
// The engine plans the replication of a source file or directory tree under
// a destination root, then steps through the plan one action at a time.  The
// caller lists the source (one entry per traversal item, with its path
// relative to the source root), performs each planned action, and reports
// each step back; what each action must be, and what the progress counters
// show at every step, is verified here.
// ---------------------------------------------------------------------------

/// One item of a source traversal: its path relative to the traversal root,
/// and whether it is a directory.
pub struct FsEntry {
    /// The path relative to the traversal root; empty for the root itself.
    pub rel_path: String,
    /// Whether the item is a directory; anything else is copied as a file.
    pub is_dir: bool,
}

/// One step of a replication: create a directory, or copy one file's bytes.
#[derive(Debug, Clone, PartialEq)]
pub enum CopyAction {
    /// Create the directory (and any missing ancestors) at `path`.
    MakeDir { path: String },
    /// Copy the bytes of `source` to `dest`.
    CopyFile { source: String, dest: String },
}

/// The number of files (non-directory entries) in a source listing.
pub open spec fn count_files(entries: Seq<FsEntry>) -> nat
    decreases entries.len(),
{
    if entries.len() == 0 {
        0
    } else {
        count_files(entries.drop_last()) + if entries.last().is_dir {
            0nat
        } else {
            1nat
        }
    }
}

/// The number of file-copy actions in a plan.
pub open spec fn count_file_actions(plan: Seq<CopyAction>) -> nat
    decreases plan.len(),
{
    if plan.len() == 0 {
        0
    } else {
        count_file_actions(plan.drop_last()) + if plan.last() matches CopyAction::CopyFile {
            ..
        } {
            1nat
        } else {
            0nat
        }
    }
}

/// The action that replicates one traversal entry: a directory is recreated
/// at its relative place under the destination root, a file is copied from
/// its place under the source root to its relative place under the
/// destination root.
pub open spec fn action_matches_entry(
    a: CopyAction,
    source_root: Seq<char>,
    dest_root: Seq<char>,
    e: FsEntry,
) -> bool {
    if e.is_dir {
        a matches CopyAction::MakeDir { path } && path@ == path_join(dest_root, e.rel_path@)
    } else {
        a matches CopyAction::CopyFile { source, dest } && source@ == path_join(
            source_root,
            e.rel_path@,
        ) && dest@ == path_join(dest_root, e.rel_path@)
    }
}

/// A plan that replicates a source listing under `dest_root`: it creates the
/// destination root first and then replicates each traversal entry in order.
pub open spec fn replication_plan_ok(
    source_root: Seq<char>,
    dest_root: Seq<char>,
    entries: Seq<FsEntry>,
    plan: Seq<CopyAction>,
) -> bool {
    &&& plan.len() == entries.len() + 1
    &&& (plan[0] matches CopyAction::MakeDir { path } && path@ == dest_root)
    &&& forall|i: int|
        0 <= i < entries.len() ==> action_matches_entry(
            #[trigger] plan[i + 1],
            source_root,
            dest_root,
            entries[i],
        )
}

/// Law: a plan that replicates a source listing holds exactly one file-copy
/// action per file of the listing.  With the pre-scan counting the same
/// listing, the progress counters therefore end equal once every action has
/// been performed.
pub proof fn lemma_plan_counts_files(
    source_root: Seq<char>,
    dest_root: Seq<char>,
    entries: Seq<FsEntry>,
    plan: Seq<CopyAction>,
)
    requires
        replication_plan_ok(source_root, dest_root, entries, plan),
    ensures
        count_file_actions(plan) == count_files(entries),
    decreases entries.len(),
{
    if entries.len() == 0 {
        assert(plan.len() == 1);
        assert(plan.drop_last().len() == 0);
        assert(count_file_actions(plan.drop_last()) == 0);
        assert(plan.last() == plan[0]);
        assert(!(plan.last() matches CopyAction::CopyFile { .. }));
    } else {
        let n = entries.len() as int;
        assert(replication_plan_ok(source_root, dest_root, entries.drop_last(), plan.drop_last()))
            by {
            assert(plan.drop_last()[0] == plan[0]);
            assert forall|i: int| 0 <= i < entries.drop_last().len() implies action_matches_entry(
                #[trigger] plan.drop_last()[i + 1],
                source_root,
                dest_root,
                entries.drop_last()[i],
            ) by {
                assert(plan.drop_last()[i + 1] == plan[i + 1]);
                assert(entries.drop_last()[i] == entries[i]);
            }
        }
        lemma_plan_counts_files(source_root, dest_root, entries.drop_last(), plan.drop_last());
        assert(plan.last() == plan[n]);
        assert(action_matches_entry(plan[n], source_root, dest_root, entries[n - 1]));
        assert(entries.last() == entries[n - 1]);
        if entries[n - 1].is_dir {
            assert(!(plan.last() matches CopyAction::CopyFile { .. }));
            assert(count_file_actions(plan) == count_file_actions(plan.drop_last()));
            assert(count_files(entries) == count_files(entries.drop_last()));
        } else {
            assert(plan.last() matches CopyAction::CopyFile { .. });
            assert(count_file_actions(plan) == count_file_actions(plan.drop_last()) + 1);
            assert(count_files(entries) == count_files(entries.drop_last()) + 1);
        }
    }
}

/// Law: replicating an empty source directory plans no file copy at all —
/// only the empty destination directory is created, and the processed
/// counter cannot move.
pub proof fn lemma_empty_listing_plans_no_copy(
    source_root: Seq<char>,
    dest_root: Seq<char>,
    entries: Seq<FsEntry>,
    plan: Seq<CopyAction>,
)
    requires
        replication_plan_ok(source_root, dest_root, entries, plan),
        entries.len() == 0,
    ensures
        count_file_actions(plan) == 0,
{
    lemma_plan_counts_files(source_root, dest_root, entries, plan);
}

/// A file count over a prefix never exceeds the count over the whole
/// listing.
proof fn lemma_count_files_prefix(entries: Seq<FsEntry>, i: int)
    requires
        0 <= i <= entries.len(),
    ensures
        count_files(entries.subrange(0, i)) <= count_files(entries),
    decreases entries.len(),
{
    if i == entries.len() {
        assert(entries.subrange(0, i) =~= entries);
    } else {
        assert(entries.drop_last() =~= entries.subrange(0, entries.len() - 1));
        assert(entries.subrange(0, entries.len() - 1).subrange(0, i) =~= entries.subrange(0, i));
        lemma_count_files_prefix(entries.subrange(0, entries.len() - 1), i);
    }
}

/// The pre-scan: counts every file of the listing into the tracker's total,
/// before any copying begins.
pub fn scan_total(entries: &Vec<FsEntry>, tracker: &mut ProgressTracker)
    requires
        old(tracker).total_files + count_files(entries@) <= usize::MAX,
    ensures
        final(tracker).total_files == old(tracker).total_files + count_files(entries@),
        final(tracker).processed_files == old(tracker).processed_files,
{
    let n = entries.len();
    let mut i: usize = 0;
    proof {
        assert(entries@.subrange(0, 0) =~= Seq::<FsEntry>::empty());
    }
    while i < n
        invariant
            i <= n,
            n == entries@.len(),
            old(tracker).total_files + count_files(entries@) <= usize::MAX,
            tracker.total_files == old(tracker).total_files + count_files(
                entries@.subrange(0, i as int),
            ),
            tracker.processed_files == old(tracker).processed_files,
        decreases n - i,
    {
        proof {
            let pre = entries@.subrange(0, i as int);
            let post = entries@.subrange(0, i + 1);
            assert(post.drop_last() =~= pre);
            assert(post.last() == entries@[i as int]);
            lemma_count_files_prefix(entries@, i + 1);
        }
        if !entries[i].is_dir {
            tracker.increment_total_files();
        }
        i = i + 1;
    }
    proof {
        assert(entries@.subrange(0, n as int) =~= entries@);
    }
}

// ---------------------------------------------------------------------------
// The stepped run.
// ---------------------------------------------------------------------------

/// A planned replication being stepped through: the caller performs the
/// action at `next` and reports it done, which moves `next` forward and —
/// for a file copy — moves the processed counter with it.
#[derive(Debug)]
pub struct CopyRun {
    /// The planned actions, in order.
    pub plan: Vec<CopyAction>,
    /// The index of the first action not yet performed.
    pub next: usize,
}

impl CopyRun {
    /// The position never passes the end of the plan.
    pub open spec fn wf(&self) -> bool {
        self.next <= self.plan@.len()
    }

    /// The number of file copies among the actions already performed.
    pub open spec fn done_files(&self) -> nat {
        count_file_actions(self.plan@.subrange(0, self.next as int))
    }

    /// Plans the replication of the directory `source` as a child of
    /// `dest_dir` named after the source's final component: the child root
    /// is created, then every traversal entry of `entries` is replicated
    /// under it in order.  A source whose path names no final component is
    /// refused.
    pub fn for_directory(source: &str, dest_dir: &str, entries: &Vec<FsEntry>) -> (r: Result<
        CopyRun,
        DirError,
    >)
        ensures
            match r {
                Ok(run) => {
                    &&& run.wf()
                    &&& run.next == 0
                    &&& base_name_of(source@).len() > 0
                    &&& replication_plan_ok(
                        source@,
                        path_join(dest_dir@, base_name_of(source@)),
                        entries@,
                        run.plan@,
                    )
                },
                Err(e) => base_name_of(source@).len() == 0 && e matches DirError::IoFailure {
                    ..
                },
            },
            r is Ok <==> base_name_of(source@).len() > 0,
    {
        let name = match base_name(source) {
            Some(name) => name,
            None => {
                return Err(
                    DirError::IoFailure {
                        message: String::from_str("Invalid source directory name"),
                    },
                );
            },
        };
        let dest_root = join_path(dest_dir, name.as_str());
        let run = Self::plan_under(source, dest_root, entries);
        Ok(run)
    }

    /// Plans the replication of the contents of the directory `source`
    /// straight into `destination`: the destination itself is created, then
    /// every traversal entry of `entries` is replicated under it in order.
    pub fn for_contents(source: &str, destination: &str, entries: &Vec<FsEntry>) -> (run: CopyRun)
        ensures
            run.wf(),
            run.next == 0,
            replication_plan_ok(source@, destination@, entries@, run.plan@),
    {
        let dest_root = String::from_str(destination);
        Self::plan_under(source, dest_root, entries)
    }

    /// Plans the copy of the single file `source` into `dest_dir` under the
    /// source's final component.  A source whose path names no final
    /// component is refused.
    pub fn for_file(source: &str, dest_dir: &str) -> (r: Result<CopyRun, DirError>)
        ensures
            match r {
                Ok(run) => {
                    &&& run.wf()
                    &&& run.next == 0
                    &&& base_name_of(source@).len() > 0
                    &&& run.plan@.len() == 1
                    &&& (run.plan@[0] matches CopyAction::CopyFile { source: s, dest } && s@
                        == source@ && dest@ == path_join(dest_dir@, base_name_of(source@)))
                    &&& count_file_actions(run.plan@) == 1
                },
                Err(e) => base_name_of(source@).len() == 0 && e matches DirError::IoFailure {
                    ..
                },
            },
            r is Ok <==> base_name_of(source@).len() > 0,
    {
        let name = match base_name(source) {
            Some(name) => name,
            None => {
                return Err(
                    DirError::IoFailure { message: String::from_str("Invalid source file name") },
                );
            },
        };
        let dest = join_path(dest_dir, name.as_str());
        let mut plan: Vec<CopyAction> = Vec::new();
        plan.push(CopyAction::CopyFile { source: String::from_str(source), dest });
        proof {
            assert(plan@.drop_last() =~= Seq::<CopyAction>::empty());
            assert(count_file_actions(plan@.drop_last()) == 0);
            assert(plan@.last() == plan@[0]);
            assert(count_file_actions(plan@) == 1);
        }
        Ok(CopyRun { plan, next: 0 })
    }

    /// Plans the replication of a single file or of a whole tree at
    /// `source` onto the exact destination path `dest`: a file has its
    /// destination's parent created and its bytes copied to `dest` itself; a
    /// directory has its contents replicated into `dest`.
    pub fn for_tree(
        source: &str,
        dest: &str,
        source_is_dir: bool,
        entries: &Vec<FsEntry>,
    ) -> (run: CopyRun)
        ensures
            run.wf(),
            run.next == 0,
            source_is_dir ==> replication_plan_ok(source@, dest@, entries@, run.plan@),
            !source_is_dir ==> {
                &&& run.plan@.len() == 2
                &&& (run.plan@[0] matches CopyAction::MakeDir { path } && path@ == parent_of(
                    dest@,
                ))
                &&& (run.plan@[1] matches CopyAction::CopyFile { source: s, dest: d } && s@
                    == source@ && d@ == dest@)
                &&& count_file_actions(run.plan@) == 1
            },
    {
        if source_is_dir {
            let dest_root = String::from_str(dest);
            Self::plan_under(source, dest_root, entries)
        } else {
            let mut plan: Vec<CopyAction> = Vec::new();
            plan.push(CopyAction::MakeDir { path: parent_path(dest) });
            plan.push(
                CopyAction::CopyFile { source: String::from_str(source), dest: String::from_str(
                    dest,
                ) },
            );
            proof {
                let head = plan@.drop_last();
                assert(head.len() == 1);
                assert(head.drop_last() =~= Seq::<CopyAction>::empty());
                assert(count_file_actions(head.drop_last()) == 0);
                assert(head.last() == plan@[0]);
                assert(!(head.last() matches CopyAction::CopyFile { .. }));
                assert(count_file_actions(head) == 0);
                assert(plan@.last() == plan@[1]);
                assert(count_file_actions(plan@) == 1);
            }
            CopyRun { plan, next: 0 }
        }
    }

    /// Builds the plan that creates `dest_root` and replicates each entry of
    /// `entries` under it in order.
    fn plan_under(source: &str, dest_root: String, entries: &Vec<FsEntry>) -> (run: CopyRun)
        ensures
            run.wf(),
            run.next == 0,
            replication_plan_ok(source@, dest_root@, entries@, run.plan@),
    {
        let mut plan: Vec<CopyAction> = Vec::new();
        let ghost dest_root_view = dest_root@;
        plan.push(CopyAction::MakeDir { path: dest_root.clone() });
        let n = entries.len();
        let mut i: usize = 0;
        while i < n
            invariant
                i <= n,
                n == entries@.len(),
                plan@.len() == i + 1,
                (plan@[0] matches CopyAction::MakeDir { path } && path@ == dest_root_view),
                dest_root@ == dest_root_view,
                forall|j: int|
                    0 <= j < i ==> action_matches_entry(
                        #[trigger] plan@[j + 1],
                        source@,
                        dest_root_view,
                        entries@[j],
                    ),
            decreases n - i,
        {
            let entry_dest = join_path(dest_root.as_str(), entries[i].rel_path.as_str());
            if entries[i].is_dir {
                plan.push(CopyAction::MakeDir { path: entry_dest });
            } else {
                let entry_source = join_path(source, entries[i].rel_path.as_str());
                plan.push(CopyAction::CopyFile { source: entry_source, dest: entry_dest });
            }
            i = i + 1;
        }
        CopyRun { plan, next: 0 }
    }

    /// The next action to perform, or `None` when the run is complete.
    pub fn next_action(&self) -> (r: Option<&CopyAction>)
        requires
            self.wf(),
        ensures
            match r {
                Some(a) => self.next < self.plan@.len() && *a == self.plan@[self.next as int],
                None => self.next == self.plan@.len(),
            },
    {
        if self.next < self.plan.len() {
            Some(&self.plan[self.next])
        } else {
            None
        }
    }

    /// Reports the action at `next` performed: the position moves forward,
    /// and a performed file copy moves the processed counter with it.
    pub fn advance(&mut self, tracker: &mut ProgressTracker)
        requires
            old(self).wf(),
            old(self).next < old(self).plan@.len(),
            (old(self).plan@[old(self).next as int] matches CopyAction::CopyFile { .. })
                ==> old(tracker).processed_files < usize::MAX,
        ensures
            final(self).wf(),
            final(self).plan == old(self).plan,
            final(self).next == old(self).next + 1,
            final(tracker).total_files == old(tracker).total_files,
            (old(self).plan@[old(self).next as int] matches CopyAction::CopyFile { .. })
                ==> final(tracker).processed_files == old(tracker).processed_files + 1,
            !(old(self).plan@[old(self).next as int] matches CopyAction::CopyFile { .. })
                ==> final(tracker).processed_files == old(tracker).processed_files,
            final(self).done_files() == final(tracker).processed_files
                - old(tracker).processed_files + old(self).done_files(),
    {
        proof {
            let pre = self.plan@.subrange(0, self.next as int);
            let post = self.plan@.subrange(0, self.next + 1);
            assert(post.drop_last() =~= pre);
            assert(post.last() == self.plan@[self.next as int]);
        }
        let n = self.plan.len();
        let is_file = match &self.plan[self.next] {
            CopyAction::CopyFile { .. } => true,
            CopyAction::MakeDir { .. } => false,
        };
        if is_file {
            tracker.increment_processed_files();
        }
        self.next = self.next + 1;
    }

    /// Whether every action of the plan has been performed.
    pub fn is_complete(&self) -> (r: bool)
        requires
            self.wf(),
        ensures
            r == (self.next == self.plan@.len()),
            r ==> self.done_files() == count_file_actions(self.plan@),
    {
        proof {
            if self.next == self.plan@.len() {
                assert(self.plan@.subrange(0, self.next as int) =~= self.plan@);
            }
        }
        self.next == self.plan.len()
    }
}

} // verus!
