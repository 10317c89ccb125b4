use vstd::prelude::*;

use crate::error::DirError;
use crate::paths::{
    is_canonical, is_canonical_path, is_under, lemma_parent_stays_under, parent_of, parent_path,
    path_is_under, relative_path_from, relative_to, resolved_path, str_eq,
};
use crate::state::DirectoryProbe;

verus! {

/// What the filesystem reported for a path whose existence alone was asked.
pub enum ExistsProbe {
    /// The resolved path does not exist.
    Missing,
    /// The resolved path exists, with the given canonical form.
    Canonical { canonical: String },
}

impl ExistsProbe {
    /// A canonical form reported by the filesystem has the canonical shape.
    pub open spec fn wf(&self) -> bool {
        match self {
            ExistsProbe::Canonical { canonical } => is_canonical(canonical@),
            _ => true,
        }
    }
}

/// The navigation tracker confined to a base root: the current directory is
/// always a directory nested under the base, and every successful move is
/// mirrored by the caller onto the process's working directory.
pub struct DirectoryNavigator {
    /// The current location; canonical and under the base.
    pub current_dir: String,
    /// The base root, fixed at construction.
    pub base_dir: String,
}

impl DirectoryNavigator {
    /// Both paths are canonical and the current directory never leaves the
    /// base root.
    pub open spec fn wf(&self) -> bool {
        &&& is_canonical(self.base_dir@)
        &&& is_canonical(self.current_dir@)
        &&& is_under(self.base_dir@, self.current_dir@)
    }

    /// Builds the navigator over `initial_dir`, which becomes both the base
    /// root and the current directory.  A path without the canonical shape
    /// is rejected and no navigator is built.
    pub fn new(initial_dir: String) -> (r: Result<DirectoryNavigator, DirError>)
        ensures
            match r {
                Ok(n) => {
                    &&& n.wf()
                    &&& n.base_dir@ == initial_dir@
                    &&& n.current_dir@ == initial_dir@
                },
                Err(_) => !is_canonical(initial_dir@),
            },
            r is Ok <==> is_canonical(initial_dir@),
    {
        if is_canonical_path(initial_dir.as_str()) {
            let base = initial_dir.clone();
            Ok(DirectoryNavigator { current_dir: initial_dir, base_dir: base })
        } else {
            Err(DirError::InvalidDirectory { path: initial_dir })
        }
    }

    /// Moves the current directory.  `".."` goes to the immediate parent,
    /// refused at the base root itself; any other input resolves against the
    /// current directory and must stay under the base root.  `probe` is the
    /// filesystem's answer for the requested target.  On success the
    /// returned canonical path equals the new current directory; every
    /// failure leaves the navigator unchanged.
    pub fn change_directory(&mut self, dir: &str, probe: DirectoryProbe) -> (r: Result<
        String,
        DirError,
    >)
        requires
            old(self).wf(),
            probe.wf(),
        ensures
            final(self).wf(),
            final(self).base_dir == old(self).base_dir,
            (dir@ == ".."@ && old(self).current_dir@ == old(self).base_dir@) ==> (r matches Err(
                DirError::AlreadyAtBase,
            ) && *final(self) == *old(self)),
            (dir@ == ".."@ && old(self).current_dir@ != old(self).base_dir@) ==> match probe {
                DirectoryProbe::Directory { canonical, os_error } => match os_error {
                    None => r matches Ok(p) && p@ == parent_of(old(self).current_dir@)
                        && final(self).current_dir@ == parent_of(old(self).current_dir@),
                    Some(e) => (r matches Err(DirError::IoFailure { message }) && message == e)
                        && *final(self) == *old(self),
                },
                _ => (r matches Err(DirError::InvalidDirectory { path }) && path@ == dir@)
                    && *final(self) == *old(self),
            },
            dir@ != ".."@ ==> match probe {
                DirectoryProbe::Directory { canonical, os_error } => {
                    if !is_under(old(self).base_dir@, canonical@) {
                        (r matches Err(DirError::OutsideBase { path }) && path == canonical)
                            && *final(self) == *old(self)
                    } else {
                        match os_error {
                            None => r matches Ok(p) && p == canonical && final(self).current_dir
                                == canonical,
                            Some(e) => (r matches Err(DirError::IoFailure { message }) && message
                                == e) && *final(self) == *old(self),
                        }
                    }
                },
                _ => (r matches Err(DirError::InvalidDirectory { path }) && path@ == dir@)
                    && *final(self) == *old(self),
            },
    {
        if str_eq(dir, "..") {
            if str_eq(self.current_dir.as_str(), self.base_dir.as_str()) {
                proof {
                    assert(self.current_dir@ == self.base_dir@);
                }
                return Err(DirError::AlreadyAtBase);
            }
            match probe {
                DirectoryProbe::Directory { canonical: _, os_error } => match os_error {
                    None => {
                        let parent = parent_path(self.current_dir.as_str());
                        proof {
                            lemma_parent_stays_under(self.base_dir@, self.current_dir@);
                        }
                        self.current_dir = parent.clone();
                        Ok(parent)
                    },
                    Some(e) => Err(DirError::IoFailure { message: e }),
                },
                _ => Err(DirError::InvalidDirectory { path: String::from_str(dir) }),
            }
        } else {
            match probe {
                DirectoryProbe::Directory { canonical, os_error } => {
                    if !path_is_under(self.base_dir.as_str(), canonical.as_str()) {
                        Err(DirError::OutsideBase { path: canonical })
                    } else {
                        match os_error {
                            None => {
                                self.current_dir = canonical.clone();
                                Ok(canonical)
                            },
                            Some(e) => Err(DirError::IoFailure { message: e }),
                        }
                    }
                },
                _ => Err(DirError::InvalidDirectory { path: String::from_str(dir) }),
            }
        }
    }

    /// The current directory.
    pub fn get_current_dir(&self) -> (r: &String)
        ensures
            r@ == self.current_dir@,
    {
        &self.current_dir
    }

    /// Verifies that `path`, resolved against the current directory, exists;
    /// returns its canonical form.  `probe` is the filesystem's answer for
    /// the resolved path.
    pub fn verify_path_exists(&self, path: &str, probe: ExistsProbe) -> (r: Result<
        String,
        DirError,
    >)
        requires
            self.wf(),
            probe.wf(),
        ensures
            match probe {
                ExistsProbe::Canonical { canonical } => r matches Ok(p) && p == canonical,
                ExistsProbe::Missing => r matches Err(DirError::PathNotFound { path: p }) && p@
                    == resolved_path(self.current_dir@, path@),
            },
    {
        match probe {
            ExistsProbe::Canonical { canonical } => Ok(canonical),
            ExistsProbe::Missing => {
                let full_path = crate::paths::resolve_against(self.current_dir.as_str(), path);
                Err(DirError::PathNotFound { path: full_path })
            },
        }
    }

    /// Whether a path sits inside the managed tree.  `canonical` is the
    /// path's canonical form, or `None` when it could not be canonicalized —
    /// such a path is never inside.
    pub fn is_subdirectory(&self, canonical: Option<&String>) -> (r: bool)
        ensures
            r == match canonical {
                Some(c) => is_under(self.base_dir@, c@),
                None => false,
            },
    {
        match canonical {
            Some(c) => path_is_under(self.base_dir.as_str(), c.as_str()),
            None => false,
        }
    }

    /// The path of a directory entry relative to the current directory.
    /// `canonical` is the entry's canonical form, or `None` when it could
    /// not be canonicalized; entries outside the current directory have no
    /// relative path.
    pub fn get_relative_path(&self, canonical: Option<&String>) -> (r: Option<String>)
        requires
            self.wf(),
        ensures
            match canonical {
                Some(c) => {
                    if is_under(self.current_dir@, c@) {
                        r matches Some(rel) && rel@ == relative_to(self.current_dir@, c@)
                    } else {
                        r is None
                    }
                },
                None => r is None,
            },
    {
        match canonical {
            Some(c) => {
                if path_is_under(self.current_dir.as_str(), c.as_str()) {
                    Some(relative_path_from(self.current_dir.as_str(), c.as_str()))
                } else {
                    None
                }
            },
            None => None,
        }
    }
}

} // verus!
