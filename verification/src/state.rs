use vstd::prelude::*;

use crate::error::DirError;
use crate::paths::{
    base_name, base_name_of, is_canonical, is_canonical_path, resolve_against, resolved_path,
};

verus! {

// ---------------------------------------------------------------------------
// Filesystem answers.
//
// The state itself never touches the filesystem.  The caller canonicalizes
// the resolved path, checks its kind, attempts the working-directory change,
// and hands the outcome in as one of these values; the decision taken on the
// outcome is verified here.
// ---------------------------------------------------------------------------

/// What the filesystem reported for a path that was to become the current
/// directory.
pub enum DirectoryProbe {
    /// The resolved path does not exist.
    Missing,
    /// The resolved path exists but is not a directory.
    NotDirectory,
    /// The resolved path is a directory with the given canonical form;
    /// `os_error` carries the report of a failed working-directory change,
    /// or `None` when the change succeeded.
    Directory { canonical: String, os_error: Option<String> },
}

impl DirectoryProbe {
    /// A canonical form reported by the filesystem has the canonical shape.
    pub open spec fn wf(&self) -> bool {
        match self {
            DirectoryProbe::Directory { canonical, .. } => is_canonical(canonical@),
            _ => true,
        }
    }
}

/// What the filesystem reported for a path whose existence as a regular file
/// was to be verified.
pub enum FileProbe {
    /// The resolved path could not be canonicalized: it does not exist.
    Missing,
    /// The resolved path exists with the given canonical form; `is_file`
    /// tells whether it is a regular file.
    Found { canonical: String, is_file: bool },
}

impl FileProbe {
    /// A canonical form reported by the filesystem has the canonical shape.
    pub open spec fn wf(&self) -> bool {
        match self {
            FileProbe::Found { canonical, .. } => is_canonical(canonical@),
            _ => true,
        }
    }
}

/// What the filesystem reported when the state is forced to follow a
/// navigator-driven move.
pub enum SyncProbe {
    /// The path could not be canonicalized; carries the report.
    CanonicalizeFailed { report: String },
    /// The canonical form, and the report of a failed working-directory
    /// change — `None` when the change succeeded.
    Canonical { canonical: String, os_error: Option<String> },
}

impl SyncProbe {
    /// A canonical form reported by the filesystem has the canonical shape.
    pub open spec fn wf(&self) -> bool {
        match self {
            SyncProbe::Canonical { canonical, .. } => is_canonical(canonical@),
            _ => true,
        }
    }
}

// ---------------------------------------------------------------------------
// The directory state.
// ---------------------------------------------------------------------------

/// The authoritative navigation context: a base root fixed at construction,
/// a current path that is canonical whenever it has been set, and an optional
/// remembered copy destination.
pub struct DirectoryState {
    /// The base root, fixed at construction.
    pub base_path: String,
    /// The current location; canonical after every successful mutation.
    pub current_path: String,
    /// An optional remembered copy destination, distinct from the current
    /// location.
    pub target_directory: Option<String>,
}

impl DirectoryState {
    /// Both tracked paths are canonical.
    pub open spec fn wf(&self) -> bool {
        is_canonical(self.base_path@) && is_canonical(self.current_path@)
    }

    /// Builds the state over `initial_dir`, which becomes both the base root
    /// and the current location.  A path without the canonical shape is
    /// rejected and no state is built.
    pub fn new(initial_dir: String) -> (r: Result<DirectoryState, DirError>)
        ensures
            match r {
                Ok(s) => {
                    &&& s.wf()
                    &&& s.base_path@ == initial_dir@
                    &&& s.current_path@ == initial_dir@
                    &&& s.target_directory is None
                },
                Err(e) => !is_canonical(initial_dir@) && (e matches DirError::InvalidDirectory {
                    path,
                } && path@ == initial_dir@),
            },
            r is Ok <==> is_canonical(initial_dir@),
    {
        if is_canonical_path(initial_dir.as_str()) {
            let base = initial_dir.clone();
            Ok(
                DirectoryState {
                    base_path: base,
                    current_path: initial_dir,
                    target_directory: None,
                },
            )
        } else {
            Err(DirError::InvalidDirectory { path: initial_dir })
        }
    }

    /// The base root; always present.
    pub fn get_base_path(&self) -> (r: Option<&String>)
        ensures
            r matches Some(p) && p@ == self.base_path@,
    {
        Some(&self.base_path)
    }

    /// The remembered copy destination, if one was set.
    pub fn get_target_directory(&self) -> (r: Option<&String>)
        ensures
            match r {
                Some(p) => self.target_directory matches Some(t) && t@ == p@,
                None => self.target_directory is None,
            },
    {
        self.target_directory.as_ref()
    }

    /// Remembers `path` as the copy destination.
    pub fn set_target_directory(&mut self, path: String)
        ensures
            final(self).target_directory == Some(path),
            final(self).base_path == old(self).base_path,
            final(self).current_path == old(self).current_path,
    {
        self.target_directory = Some(path);
    }

    /// The current location.
    pub fn get_current_path(&self) -> (r: &String)
        ensures
            r@ == self.current_path@,
    {
        &self.current_path
    }

    /// Pure resolution of `path` against the current location: absolute
    /// input stands alone, relative input is joined on.  No existence check.
    pub fn resolve_path(&self, path: &str) -> (r: String)
        ensures
            r@ == resolved_path(self.current_path@, path@),
    {
        resolve_against(self.current_path.as_str(), path)
    }

    /// Moves the current location to `path`, resolved against the current
    /// one.  `probe` is the filesystem's answer for the resolved path.  The
    /// move commits only when the path is a directory and the
    /// working-directory change succeeded; every failure leaves the state
    /// unchanged.
    pub fn set_current_path(&mut self, path: &str, probe: DirectoryProbe) -> (r: Result<
        (),
        DirError,
    >)
        requires
            old(self).wf(),
            probe.wf(),
        ensures
            final(self).wf(),
            final(self).base_path == old(self).base_path,
            final(self).target_directory == old(self).target_directory,
            match probe {
                DirectoryProbe::Directory { canonical, os_error } => match os_error {
                    None => r is Ok && final(self).current_path == canonical,
                    Some(e) => (r matches Err(DirError::IoFailure { message })
                        && message == e) && *final(self) == *old(self),
                },
                _ => (r matches Err(DirError::InvalidDirectory { path: p }) && p@ == path@)
                    && *final(self) == *old(self),
            },
    {
        match probe {
            DirectoryProbe::Directory { canonical, os_error } => match os_error {
                None => {
                    self.current_path = canonical;
                    Ok(())
                },
                Some(e) => Err(DirError::IoFailure { message: e }),
            },
            _ => Err(DirError::InvalidDirectory { path: String::from_str(path) }),
        }
    }

    /// Verifies that `file_path`, resolved against the current location,
    /// names an existing regular file; returns its canonical form.  `probe`
    /// is the filesystem's answer for the resolved path.  A missing path
    /// reports the requested name and the directory searched; a directory is
    /// never accepted.
    pub fn verify_file_exists(&self, file_path: &str, probe: FileProbe) -> (r: Result<
        String,
        DirError,
    >)
        requires
            self.wf(),
            probe.wf(),
        ensures
            match probe {
                FileProbe::Missing => r matches Err(DirError::FileNotFound { file, current })
                    && file@ == base_name_of(resolved_path(self.current_path@, file_path@))
                    && current@ == self.current_path@,
                FileProbe::Found { canonical, is_file } => {
                    if is_file {
                        r matches Ok(c) && c == canonical
                    } else {
                        r matches Err(DirError::NotAFile { path }) && path == canonical
                    }
                },
            },
    {
        match probe {
            FileProbe::Found { canonical, is_file } => {
                if is_file {
                    Ok(canonical)
                } else {
                    Err(DirError::NotAFile { path: canonical })
                }
            },
            FileProbe::Missing => {
                let full_path = self.resolve_path(file_path);
                let file = match base_name(full_path.as_str()) {
                    Some(name) => name,
                    None => String::new(),
                };
                Err(DirError::FileNotFound { file, current: self.current_path.clone() })
            },
        }
    }

    /// Forces the current location to the canonical form of `path`,
    /// following a navigator-driven move.  `probe` is the filesystem's
    /// answer for `path`.  The move commits only when canonicalization and
    /// the working-directory change both succeeded.
    pub fn sync_with_navigator(&mut self, path: &str, probe: SyncProbe) -> (r: Result<
        (),
        DirError,
    >)
        requires
            old(self).wf(),
            probe.wf(),
        ensures
            final(self).wf(),
            final(self).base_path == old(self).base_path,
            final(self).target_directory == old(self).target_directory,
            match probe {
                SyncProbe::Canonical { canonical, os_error } => match os_error {
                    None => r is Ok && final(self).current_path == canonical,
                    Some(e) => (r matches Err(DirError::IoFailure { message })
                        && message == e) && *final(self) == *old(self),
                },
                SyncProbe::CanonicalizeFailed { report } => (r matches Err(
                    DirError::IoFailure { message },
                ) && message == report) && *final(self) == *old(self),
            },
    {
        match probe {
            SyncProbe::Canonical { canonical, os_error } => match os_error {
                None => {
                    self.current_path = canonical;
                    Ok(())
                },
                Some(e) => Err(DirError::IoFailure { message: e }),
            },
            SyncProbe::CanonicalizeFailed { report } => Err(
                DirError::IoFailure { message: report },
            ),
        }
    }

    /// The base root.
    pub fn get_base_directory(&self) -> (r: &String)
        ensures
            r@ == self.base_path@,
    {
        &self.base_path
    }

    /// The current location.
    pub fn get_current_directory(&self) -> (r: &String)
        ensures
            r@ == self.current_path@,
    {
        &self.current_path
    }
}

/// Builds the directory state over the process's initial working directory,
/// which the caller supplies.
pub fn initialize_directory_state(initial_dir: String) -> (r: Result<DirectoryState, DirError>)
    ensures
        match r {
            Ok(s) => {
                &&& s.wf()
                &&& s.base_path@ == initial_dir@
                &&& s.current_path@ == initial_dir@
                &&& s.target_directory is None
            },
            Err(_) => !is_canonical(initial_dir@),
        },
        r is Ok <==> is_canonical(initial_dir@),
{
    DirectoryState::new(initial_dir)
}

} // verus!
