use vstd::prelude::*;

use crate::error::DirError;
use crate::paths::{join_path, path_join, str_eq};

verus! {

// ---------------------------------------------------------------------------
// The persisted configuration, as the core consumes it.
//
// The record is read and written elsewhere; the core takes it as plain
// values: the base path it navigates from, the top-level category names, a
// creation stamp, and per-category subfolder names keyed by category.
// ---------------------------------------------------------------------------

/// The persisted record.
pub struct Config {
    /// The base root, absolute.
    pub base_path: String,
    /// The top-level category names.
    pub directories: Vec<String>,
    /// When the record was created, as the writer stamped it.
    pub created_at: String,
    /// Per-category subfolder names, keyed by category; keys are unique.
    pub subdirectories: Vec<(String, Vec<String>)>,
}

/// The index of the first entry keyed `parent`, or -1 when there is none.
pub open spec fn key_index(entries: Seq<(String, Vec<String>)>, parent: Seq<char>) -> int
    decreases entries.len(),
{
    if entries.len() == 0 {
        -1
    } else if entries[0].0@ == parent {
        0
    } else {
        let rest = key_index(entries.drop_first(), parent);
        if rest < 0 {
            -1
        } else {
            1 + rest
        }
    }
}

/// No two entries share a key.
pub open spec fn unique_keys(entries: Seq<(String, Vec<String>)>) -> bool {
    forall|i: int, j: int|
        0 <= i < j < entries.len() ==> (#[trigger] entries[i]).0@ != (#[trigger] entries[j]).0@
}

/// `key_index` points where the scan stopped: at the first hit, or past the
/// end when there is none.
proof fn lemma_key_index_at(entries: Seq<(String, Vec<String>)>, parent: Seq<char>, i: int)
    requires
        0 <= i <= entries.len(),
        forall|j: int| 0 <= j < i ==> (#[trigger] entries[j]).0@ != parent,
        i == entries.len() || entries[i].0@ == parent,
    ensures
        key_index(entries, parent) == if i == entries.len() {
            -1int
        } else {
            i
        },
    decreases entries.len(),
{
    if entries.len() == 0 {
    } else if i == 0 {
    } else {
        let rest = entries.drop_first();
        assert forall|j: int| 0 <= j < i - 1 implies (#[trigger] rest[j]).0@ != parent by {
            assert(rest[j] == entries[j + 1]);
        }
        if i < entries.len() {
            assert(rest[i - 1] == entries[i as int]);
        }
        lemma_key_index_at(rest, parent, i - 1);
    }
}

/// The initial base path of the navigation, taken from the persisted record:
/// it must be present and non-empty, else nothing is configured.
pub fn base_path_from_config(base_path: Option<String>) -> (r: Result<String, DirError>)
    ensures
        match base_path {
            Some(b) => {
                if b@.len() > 0 {
                    r matches Ok(p) && p@ == b@
                } else {
                    r matches Err(DirError::ConfigMissing)
                }
            },
            None => r matches Err(DirError::ConfigMissing),
        },
{
    match base_path {
        Some(b) => {
            if b.as_str().unicode_len() > 0 {
                Ok(b)
            } else {
                Err(DirError::ConfigMissing)
            }
        },
        None => Err(DirError::ConfigMissing),
    }
}

/// The record written by initialization: the given base path, the three
/// category names, the given stamp, and no subfolders yet.
pub fn initial_config(base_path: String, created_at: String) -> (r: Config)
    ensures
        r.base_path == base_path,
        r.created_at == created_at,
        r.directories.deep_view() == seq!["Internet Urls"@, "Secrets"@, "Emergency"@],
        r.subdirectories@.len() == 0,
{
    let mut directories: Vec<String> = Vec::new();
    directories.push(String::from_str("Internet Urls"));
    directories.push(String::from_str("Secrets"));
    directories.push(String::from_str("Emergency"));
    proof {
        assert(directories.deep_view() =~= seq!["Internet Urls"@, "Secrets"@, "Emergency"@]);
    }
    Config { base_path, directories, created_at, subdirectories: Vec::new() }
}

/// The directories that initialization creates: the base root and its three
/// categories, in order.
pub fn init_directories_plan(base_path: &str) -> (r: Vec<String>)
    ensures
        r.deep_view() == seq![
            base_path@,
            path_join(base_path@, "Internet Urls"@),
            path_join(base_path@, "Secrets"@),
            path_join(base_path@, "Emergency"@),
        ],
{
    let mut dirs: Vec<String> = Vec::new();
    dirs.push(String::from_str(base_path));
    dirs.push(join_path(base_path, "Internet Urls"));
    dirs.push(join_path(base_path, "Secrets"));
    dirs.push(join_path(base_path, "Emergency"));
    proof {
        assert(dirs.deep_view() =~= seq![
            base_path@,
            path_join(base_path@, "Internet Urls"@),
            path_join(base_path@, "Secrets"@),
            path_join(base_path@, "Emergency"@),
        ]);
    }
    dirs
}

/// The tracker of the persisted record: it answers which subfolders a
/// category has and records new ones, each category at most once per name.
pub struct DirectoryTracker {
    /// The record being tracked.
    pub config: Config,
}

impl DirectoryTracker {
    /// The record's category keys are unique.
    pub open spec fn wf(&self) -> bool {
        unique_keys(self.config.subdirectories@)
    }

    /// Builds the tracker over a loaded record, whose keys — one entry per
    /// category, as a parsed record has — must be unique.
    pub fn new(config: Config) -> (r: DirectoryTracker)
        requires
            unique_keys(config.subdirectories@),
        ensures
            r.wf(),
            r.config == config,
    {
        DirectoryTracker { config }
    }

    /// The base path of the record.
    pub fn get_base_path(&self) -> (r: Result<String, DirError>)
        ensures
            r matches Ok(p) && p@ == self.config.base_path@,
    {
        Ok(self.config.base_path.clone())
    }

    /// The subfolders recorded under `parent`, or none when the category has
    /// no entry.
    pub fn get_subdirectories(&self, parent: &str) -> (r: Vec<String>)
        ensures
            ({
                let idx = key_index(self.config.subdirectories@, parent@);
                if idx >= 0 {
                    r.deep_view() == self.config.subdirectories@[idx].1.deep_view()
                } else {
                    r@.len() == 0
                }
            }),
    {
        let n = self.config.subdirectories.len();
        let mut i: usize = 0;
        while i < n
            invariant
                i <= n,
                n == self.config.subdirectories@.len(),
                forall|j: int|
                    0 <= j < i ==> (#[trigger] self.config.subdirectories@[j]).0@ != parent@,
            decreases n - i,
        {
            if str_eq(self.config.subdirectories[i].0.as_str(), parent) {
                proof {
                    lemma_key_index_at(self.config.subdirectories@, parent@, i as int);
                }
                let found = &self.config.subdirectories[i].1;
                let m = found.len();
                let mut out: Vec<String> = Vec::new();
                let mut j: usize = 0;
                while j < m
                    invariant
                        j <= m,
                        m == found@.len(),
                        out@.len() == j,
                        forall|k: int| 0 <= k < j ==> #[trigger] out@[k]@ == found@[k]@,
                    decreases m - j,
                {
                    out.push(found[j].clone());
                    j = j + 1;
                }
                proof {
                    assert forall|k: int| 0 <= k < m implies #[trigger] out.deep_view()[k]
                        == found.deep_view()[k] by {
                        assert(out@[k]@ == found@[k]@);
                    }
                    assert(out.deep_view() =~= found.deep_view());
                }
                return out;
            }
            i = i + 1;
        }
        proof {
            lemma_key_index_at(self.config.subdirectories@, parent@, n as int);
        }
        Vec::new()
    }

    /// Records `subdir` under `parent`: a category without an entry gets one
    /// holding just `subdir`; a name already recorded changes nothing.  The
    /// result says whether the record changed — and so must be saved.
    pub fn add_subdirectory(&mut self, parent: &str, subdir: &str) -> (changed: bool)
        requires
            old(self).wf(),
        ensures
            final(self).wf(),
            final(self).config.base_path == old(self).config.base_path,
            final(self).config.directories == old(self).config.directories,
            final(self).config.created_at == old(self).config.created_at,
            ({
                let entries = old(self).config.subdirectories@;
                let idx = key_index(entries, parent@);
                if idx < 0 {
                    &&& changed
                    &&& final(self).config.subdirectories@.len() == entries.len() + 1
                    &&& final(self).config.subdirectories@.subrange(0, entries.len() as int)
                        == entries
                    &&& final(self).config.subdirectories@[entries.len() as int].0@ == parent@
                    &&& final(self).config.subdirectories@[entries.len() as int].1.deep_view()
                        =~= seq![subdir@]
                } else {
                    let v = entries[idx].1.deep_view();
                    if exists|k: int| 0 <= k < v.len() && v[k] == subdir@ {
                        !changed && final(self).config.subdirectories@ == entries
                    } else {
                        &&& changed
                        &&& final(self).config.subdirectories@.len() == entries.len()
                        &&& forall|k: int|
                            0 <= k < entries.len() && k != idx
                                ==> #[trigger] final(self).config.subdirectories@[k] == entries[k]
                        &&& final(self).config.subdirectories@[idx].0 == entries[idx].0
                        &&& final(self).config.subdirectories@[idx].1.deep_view() =~= v.push(
                            subdir@,
                        )
                    }
                }
            }),
    {
        let ghost entries = self.config.subdirectories@;
        let n = self.config.subdirectories.len();
        let mut i: usize = 0;
        while i < n
            invariant
                i <= n,
                n == self.config.subdirectories@.len(),
                self.config.subdirectories@ == entries,
                entries == old(self).config.subdirectories@,
                self.config.base_path == old(self).config.base_path,
                self.config.directories == old(self).config.directories,
                self.config.created_at == old(self).config.created_at,
                unique_keys(entries),
                forall|j: int|
                    0 <= j < i ==> (#[trigger] self.config.subdirectories@[j]).0@ != parent@,
            decreases n - i,
        {
            if str_eq(self.config.subdirectories[i].0.as_str(), parent) {
                proof {
                    lemma_key_index_at(entries, parent@, i as int);
                }
                let mut pair = self.config.subdirectories.remove(i);
                let m = pair.1.len();
                let mut j: usize = 0;
                let mut present = false;
                while j < m && !present
                    invariant
                        j <= m,
                        m == pair.1@.len(),
                        pair == entries[i as int],
                        present ==> exists|k: int|
                            0 <= k < j && #[trigger] pair.1.deep_view()[k] == subdir@,
                        !present ==> forall|k: int|
                            0 <= k < j ==> #[trigger] pair.1.deep_view()[k] != subdir@,
                    decreases m - j,
                {
                    if str_eq(pair.1[j].as_str(), subdir) {
                        present = true;
                        proof {
                            assert(pair.1.deep_view()[j as int] == pair.1@[j as int]@);
                        }
                    } else {
                        proof {
                            assert(pair.1.deep_view()[j as int] == pair.1@[j as int]@);
                        }
                    }
                    j = j + 1;
                }
                let ghost old_pair = pair;
                let changed = !present;
                if changed {
                    pair.1.push(String::from_str(subdir));
                    proof {
                        let before = entries[i as int].1.deep_view();
                        assert forall|k: int| 0 <= k < before.len() + 1 implies #[trigger] pair
                            .1.deep_view()[k] == before.push(subdir@)[k] by {
                            if k < before.len() {
                                assert(pair.1@[k] == old_pair.1@[k]);
                            } else {
                                assert(pair.1@[k]@ == subdir@);
                            }
                        }
                        assert(pair.1.deep_view() =~= before.push(subdir@));
                    }
                }
                self.config.subdirectories.insert(i, pair);
                proof {
                    let updated = self.config.subdirectories@;
                    assert(updated =~= entries.update(i as int, updated[i as int]));
                    assert(updated[i as int].0 == entries[i as int].0);
                    assert forall|a: int, b: int| 0 <= a < b < updated.len() implies (
                        #[trigger] updated[a]).0@ != (#[trigger] updated[b]).0@ by {
                        if a != i {
                            assert(updated[a] == entries[a]);
                        }
                        if b != i {
                            assert(updated[b] == entries[b]);
                        }
                        assert(updated[a].0@ == entries[a].0@);
                        assert(updated[b].0@ == entries[b].0@);
                    }
                    if !changed {
                        assert(updated =~= entries);
                    }
                }
                return changed;
            }
            i = i + 1;
        }
        proof {
            lemma_key_index_at(entries, parent@, n as int);
        }
        let mut subs: Vec<String> = Vec::new();
        subs.push(String::from_str(subdir));
        self.config.subdirectories.push((String::from_str(parent), subs));
        proof {
            let updated = self.config.subdirectories@;
            assert(updated.subrange(0, entries.len() as int) =~= entries);
            assert(subs.deep_view() =~= seq![subdir@]);
            assert forall|a: int, b: int| 0 <= a < b < updated.len() implies (
                #[trigger] updated[a]).0@ != (#[trigger] updated[b]).0@ by {
                if b < entries.len() {
                    assert(updated[a] == entries[a]);
                    assert(updated[b] == entries[b]);
                } else {
                    assert(updated[a] == entries[a]);
                    assert(updated[b].0@ == parent@);
                }
            }
        }
        true
    }
}

} // verus!
