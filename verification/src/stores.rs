use vstd::prelude::*;

use crate::copy::{CopyRun, FsEntry, replication_plan_ok, CopyAction, count_file_actions};
use crate::error::DirError;
use crate::paths::{base_name, base_name_of, join_path, parent_of, path_join};
use crate::state::DirectoryState;

verus! {

// ---------------------------------------------------------------------------
// Categorized storage.
//
// Each store owns one category tree under the base root and decides where a
// named file belongs in it; the prompts that gather the choices, and the
// writes that follow, are the caller's.
// ---------------------------------------------------------------------------

/// Where a store operation writes: a directory to create first, when a
/// containing folder was chosen, and the file to write.
pub struct StoragePlan {
    /// The containing folder to create, if one was chosen.
    pub create_dir: Option<String>,
    /// The full path of the file to write.
    pub file_path: String,
}

/// The store of URL files, rooted at `Internet Urls` under the base root.
pub struct UrlStore {
    /// The root of the URL tree.
    pub urls_dir: String,
}

impl UrlStore {
    /// Builds the store over `base_path`.
    pub fn new(base_path: String) -> (r: UrlStore)
        ensures
            r.urls_dir@ == path_join(base_path@, "Internet Urls"@),
    {
        UrlStore { urls_dir: join_path(base_path.as_str(), "Internet Urls") }
    }

    /// Where `filename` is stored: inside `folder` under the URL root when a
    /// folder was chosen, else directly under the URL root.  The chosen
    /// folder is the directory to create first.
    pub fn url_file_path(&self, folder: Option<&String>, filename: &str) -> (r: StoragePlan)
        ensures
            match folder {
                Some(f) => (r.create_dir matches Some(d) && d@ == path_join(self.urls_dir@, f@))
                    && r.file_path@ == path_join(path_join(self.urls_dir@, f@), filename@),
                None => r.create_dir is None && r.file_path@ == path_join(
                    self.urls_dir@,
                    filename@,
                ),
            },
    {
        match folder {
            Some(f) => {
                let folder_path = join_path(self.urls_dir.as_str(), f.as_str());
                let file_path = join_path(folder_path.as_str(), filename);
                StoragePlan { create_dir: Some(folder_path), file_path }
            },
            None => StoragePlan {
                create_dir: None,
                file_path: join_path(self.urls_dir.as_str(), filename),
            },
        }
    }
}

/// The kinds a stored secret can be, each with its own subfolder.
#[derive(Debug, PartialEq)]
pub enum SecretType {
    Email,
    SocialMedia,
    Phone,
    Other,
}

/// The store of secret files, rooted at `Secrets` under the base root, with
/// an optional remembered copy destination.
pub struct SecretStore {
    /// The root of the secrets tree.
    pub secrets_dir: String,
    /// An optional destination that stored categories are copied to.
    pub target_directory: Option<String>,
}

impl SecretStore {
    /// Builds the store over `base_path`.
    pub fn new(base_path: String) -> (r: SecretStore)
        ensures
            r.secrets_dir@ == path_join(base_path@, "Secrets"@),
            r.target_directory is None,
    {
        SecretStore {
            secrets_dir: join_path(base_path.as_str(), "Secrets"),
            target_directory: None,
        }
    }

    /// Remembers `target_dir` as the copy destination.
    pub fn set_target_directory(&mut self, target_dir: String)
        ensures
            final(self).target_directory == Some(target_dir),
            final(self).secrets_dir == old(self).secrets_dir,
    {
        self.target_directory = Some(target_dir);
    }

    /// The root of the secrets tree.
    pub fn get_secrets_dir(&self) -> (r: &String)
        ensures
            r@ == self.secrets_dir@,
    {
        &self.secrets_dir
    }

    /// The kind chosen by its position in the menu; positions past the menu
    /// are refused.
    pub fn secret_type_from_selection(selection: usize) -> (r: Result<SecretType, DirError>)
        ensures
            match selection {
                0usize => r matches Ok(SecretType::Email),
                1usize => r matches Ok(SecretType::SocialMedia),
                2usize => r matches Ok(SecretType::Phone),
                3usize => r matches Ok(SecretType::Other),
                _ => r matches Err(DirError::IoFailure { .. }),
            },
    {
        match selection {
            0usize => Ok(SecretType::Email),
            1usize => Ok(SecretType::SocialMedia),
            2usize => Ok(SecretType::Phone),
            3usize => Ok(SecretType::Other),
            _ => Err(DirError::IoFailure { message: String::from_str("Invalid selection") }),
        }
    }

    /// The directory of one kind: its subfolder under the secrets root, or
    /// the root itself for [`SecretType::Other`].
    pub open spec fn category_view(&self, secret_type: SecretType) -> Seq<char> {
        match secret_type {
            SecretType::Email => path_join(self.secrets_dir@, "Emails"@),
            SecretType::SocialMedia => path_join(self.secrets_dir@, "Social Media IDs"@),
            SecretType::Phone => path_join(self.secrets_dir@, "Phone Numbers"@),
            SecretType::Other => self.secrets_dir@,
        }
    }

    /// The directory a secret of the given kind is stored under.
    pub fn get_category_path(&self, secret_type: &SecretType) -> (r: String)
        ensures
            r@ == self.category_view(*secret_type),
    {
        match secret_type {
            SecretType::Email => join_path(self.secrets_dir.as_str(), "Emails"),
            SecretType::SocialMedia => join_path(self.secrets_dir.as_str(), "Social Media IDs"),
            SecretType::Phone => join_path(self.secrets_dir.as_str(), "Phone Numbers"),
            SecretType::Other => self.secrets_dir.clone(),
        }
    }

    /// The category directories that must exist before storing: one per
    /// named kind.
    pub fn ensure_secret_directories(&self) -> (r: Vec<String>)
        ensures
            r.deep_view() == seq![
                path_join(self.secrets_dir@, "Emails"@),
                path_join(self.secrets_dir@, "Social Media IDs"@),
                path_join(self.secrets_dir@, "Phone Numbers"@),
            ],
    {
        let mut dirs: Vec<String> = Vec::new();
        dirs.push(join_path(self.secrets_dir.as_str(), "Emails"));
        dirs.push(join_path(self.secrets_dir.as_str(), "Social Media IDs"));
        dirs.push(join_path(self.secrets_dir.as_str(), "Phone Numbers"));
        proof {
            assert(dirs.deep_view() =~= seq![
                path_join(self.secrets_dir@, "Emails"@),
                path_join(self.secrets_dir@, "Social Media IDs"@),
                path_join(self.secrets_dir@, "Phone Numbers"@),
            ]);
        }
        dirs
    }

    /// Where `filename` is stored: inside the chosen subfolder of the kind's
    /// category when one was named, else directly in the category.  The
    /// chosen subfolder is the directory to create first.
    pub fn secret_file_path(
        &self,
        secret_type: &SecretType,
        subfolder: Option<&String>,
        filename: &str,
    ) -> (r: StoragePlan)
        ensures
            ({
                let category = self.category_view(*secret_type);
                match subfolder {
                    Some(f) => (r.create_dir matches Some(d) && d@ == path_join(category, f@))
                        && r.file_path@ == path_join(path_join(category, f@), filename@),
                    None => r.create_dir is None && r.file_path@ == path_join(
                        category,
                        filename@,
                    ),
                }
            }),
    {
        let category_path = self.get_category_path(secret_type);
        match subfolder {
            Some(f) => {
                let subfolder_path = join_path(category_path.as_str(), f.as_str());
                let file_path = join_path(subfolder_path.as_str(), filename);
                StoragePlan { create_dir: Some(subfolder_path), file_path }
            },
            None => StoragePlan {
                create_dir: None,
                file_path: join_path(category_path.as_str(), filename),
            },
        }
    }

    /// Plans the copy of a stored item to the remembered destination: a
    /// directory is replicated as a child of the destination named after its
    /// final component, a file is copied under its name.  Without a
    /// destination there is nothing to do; a source whose path names no
    /// final component is refused.
    pub fn copy_to_target_plan(
        &self,
        source: &str,
        source_is_dir: bool,
        entries: &Vec<FsEntry>,
    ) -> (r: Option<Result<CopyRun, DirError>>)
        ensures
            match self.target_directory {
                None => r is None,
                Some(t) => match r {
                    Some(plan) => match plan {
                        Ok(run) => {
                            &&& base_name_of(source@).len() > 0
                            &&& run.wf()
                            &&& run.next == 0
                            &&& source_is_dir ==> replication_plan_ok(
                                source@,
                                path_join(t@, base_name_of(source@)),
                                entries@,
                                run.plan@,
                            )
                            &&& !source_is_dir ==> (run.plan@.len() == 1 && (run.plan@[0] matches
                                CopyAction::CopyFile { source: s, dest } && s@ == source@
                                && dest@ == path_join(t@, base_name_of(source@))))
                        },
                        Err(_) => base_name_of(source@).len() == 0,
                    },
                    None => false,
                },
            },
    {
        let target_dir = match &self.target_directory {
            Some(t) => t,
            None => {
                return None;
            },
        };
        if source_is_dir {
            let name = match base_name(source) {
                Some(name) => name,
                None => {
                    return Some(
                        Err(
                            DirError::IoFailure {
                                message: String::from_str("Could not determine directory name"),
                            },
                        ),
                    );
                },
            };
            let destination = join_path(target_dir.as_str(), name.as_str());
            Some(Ok(CopyRun::for_contents(source, destination.as_str(), entries)))
        } else {
            Some(CopyRun::for_file(source, target_dir.as_str()))
        }
    }
}

/// The kinds a stored emergency file can be, each with its own subfolder.
#[derive(Debug, PartialEq)]
pub enum EmergencyType {
    Videos,
    Audios,
    Images,
    Compressed,
    Coding,
    Apps,
    Secrets,
    Others,
}

/// What storing an emergency file does at its final path: create it empty,
/// or replicate a remembered source onto it.
#[derive(Debug)]
pub enum CriticalAction {
    /// Create an empty file at `path`.
    CreateEmpty { path: String },
    /// Step through `run` to replicate the remembered source.
    Replicate { run: CopyRun },
}

/// The store of emergency files, rooted at `Emergency` under the base root,
/// with an optional remembered source to copy from.
pub struct EmergencyStore {
    /// The root of the emergency tree.
    pub emergency_dir: String,
    /// An optional source whose contents are stored instead of an empty
    /// file.
    pub source_file: Option<String>,
}

impl EmergencyStore {
    /// Builds the store over `base_path`.
    pub fn new(base_path: String) -> (r: EmergencyStore)
        ensures
            r.emergency_dir@ == path_join(base_path@, "Emergency"@),
            r.source_file is None,
    {
        EmergencyStore {
            emergency_dir: join_path(base_path.as_str(), "Emergency"),
            source_file: None,
        }
    }

    /// Remembers `source_path` as the source to store from.
    pub fn set_source_file(&mut self, source_path: String)
        ensures
            final(self).source_file == Some(source_path),
            final(self).emergency_dir == old(self).emergency_dir,
    {
        self.source_file = Some(source_path);
    }

    /// The kind chosen by its position in the menu; positions past the menu
    /// are refused.
    pub fn emergency_type_from_selection(selection: usize) -> (r: Result<EmergencyType, DirError>)
        ensures
            match selection {
                0usize => r matches Ok(EmergencyType::Videos),
                1usize => r matches Ok(EmergencyType::Audios),
                2usize => r matches Ok(EmergencyType::Images),
                3usize => r matches Ok(EmergencyType::Compressed),
                4usize => r matches Ok(EmergencyType::Coding),
                5usize => r matches Ok(EmergencyType::Apps),
                6usize => r matches Ok(EmergencyType::Secrets),
                7usize => r matches Ok(EmergencyType::Others),
                _ => r matches Err(DirError::IoFailure { .. }),
            },
    {
        match selection {
            0usize => Ok(EmergencyType::Videos),
            1usize => Ok(EmergencyType::Audios),
            2usize => Ok(EmergencyType::Images),
            3usize => Ok(EmergencyType::Compressed),
            4usize => Ok(EmergencyType::Coding),
            5usize => Ok(EmergencyType::Apps),
            6usize => Ok(EmergencyType::Secrets),
            7usize => Ok(EmergencyType::Others),
            _ => Err(DirError::IoFailure { message: String::from_str("Invalid selection") }),
        }
    }

    /// The directory of one kind: its subfolder under the emergency root, or
    /// the root itself for [`EmergencyType::Others`].
    pub open spec fn category_view(&self, emergency_type: EmergencyType) -> Seq<char> {
        match emergency_type {
            EmergencyType::Videos => path_join(self.emergency_dir@, "Videos"@),
            EmergencyType::Audios => path_join(self.emergency_dir@, "Audios"@),
            EmergencyType::Images => path_join(self.emergency_dir@, "Images"@),
            EmergencyType::Compressed => path_join(self.emergency_dir@, "Compressed"@),
            EmergencyType::Coding => path_join(self.emergency_dir@, "Coding"@),
            EmergencyType::Apps => path_join(self.emergency_dir@, "Apps"@),
            EmergencyType::Secrets => path_join(self.emergency_dir@, "Secrets"@),
            EmergencyType::Others => self.emergency_dir@,
        }
    }

    /// The directory an emergency file of the given kind is stored under.
    pub fn get_category_path(&self, emergency_type: &EmergencyType) -> (r: String)
        ensures
            r@ == self.category_view(*emergency_type),
    {
        match emergency_type {
            EmergencyType::Videos => join_path(self.emergency_dir.as_str(), "Videos"),
            EmergencyType::Audios => join_path(self.emergency_dir.as_str(), "Audios"),
            EmergencyType::Images => join_path(self.emergency_dir.as_str(), "Images"),
            EmergencyType::Compressed => join_path(self.emergency_dir.as_str(), "Compressed"),
            EmergencyType::Coding => join_path(self.emergency_dir.as_str(), "Coding"),
            EmergencyType::Apps => join_path(self.emergency_dir.as_str(), "Apps"),
            EmergencyType::Secrets => join_path(self.emergency_dir.as_str(), "Secrets"),
            EmergencyType::Others => self.emergency_dir.clone(),
        }
    }

    /// The category directories that must exist before storing: one per
    /// kind, the catch-all included.
    pub fn ensure_emergency_directories(&self) -> (r: Vec<String>)
        ensures
            r.deep_view() == seq![
                path_join(self.emergency_dir@, "Videos"@),
                path_join(self.emergency_dir@, "Audios"@),
                path_join(self.emergency_dir@, "Images"@),
                path_join(self.emergency_dir@, "Compressed"@),
                path_join(self.emergency_dir@, "Coding"@),
                path_join(self.emergency_dir@, "Apps"@),
                path_join(self.emergency_dir@, "Secrets"@),
                path_join(self.emergency_dir@, "Others"@),
            ],
    {
        let mut dirs: Vec<String> = Vec::new();
        dirs.push(join_path(self.emergency_dir.as_str(), "Videos"));
        dirs.push(join_path(self.emergency_dir.as_str(), "Audios"));
        dirs.push(join_path(self.emergency_dir.as_str(), "Images"));
        dirs.push(join_path(self.emergency_dir.as_str(), "Compressed"));
        dirs.push(join_path(self.emergency_dir.as_str(), "Coding"));
        dirs.push(join_path(self.emergency_dir.as_str(), "Apps"));
        dirs.push(join_path(self.emergency_dir.as_str(), "Secrets"));
        dirs.push(join_path(self.emergency_dir.as_str(), "Others"));
        proof {
            assert(dirs.deep_view() =~= seq![
                path_join(self.emergency_dir@, "Videos"@),
                path_join(self.emergency_dir@, "Audios"@),
                path_join(self.emergency_dir@, "Images"@),
                path_join(self.emergency_dir@, "Compressed"@),
                path_join(self.emergency_dir@, "Coding"@),
                path_join(self.emergency_dir@, "Apps"@),
                path_join(self.emergency_dir@, "Secrets"@),
                path_join(self.emergency_dir@, "Others"@),
            ]);
        }
        dirs
    }

    /// Where `filename` is stored: inside the chosen subfolder of the kind's
    /// category when one was named, else directly in the category.  The
    /// chosen subfolder is the directory to create first.
    pub fn critical_file_path(
        &self,
        emergency_type: &EmergencyType,
        subfolder: Option<&String>,
        filename: &str,
    ) -> (r: StoragePlan)
        ensures
            ({
                let category = self.category_view(*emergency_type);
                match subfolder {
                    Some(f) => (r.create_dir matches Some(d) && d@ == path_join(category, f@))
                        && r.file_path@ == path_join(path_join(category, f@), filename@),
                    None => r.create_dir is None && r.file_path@ == path_join(
                        category,
                        filename@,
                    ),
                }
            }),
    {
        let category_path = self.get_category_path(emergency_type);
        match subfolder {
            Some(f) => {
                let subfolder_path = join_path(category_path.as_str(), f.as_str());
                let file_path = join_path(subfolder_path.as_str(), filename);
                StoragePlan { create_dir: Some(subfolder_path), file_path }
            },
            None => StoragePlan {
                create_dir: None,
                file_path: join_path(category_path.as_str(), filename),
            },
        }
    }

    /// What storing does at `final_path`: without a remembered source the
    /// file is created empty; with one, the source — `source_is_dir` and
    /// `entries` describe it — is replicated onto `final_path`.
    pub fn critical_store_plan(
        &self,
        final_path: &str,
        source_is_dir: bool,
        entries: &Vec<FsEntry>,
    ) -> (r: CriticalAction)
        ensures
            match self.source_file {
                None => r matches CriticalAction::CreateEmpty { path } && path@ == final_path@,
                Some(src) => r matches CriticalAction::Replicate { run } && {
                    &&& run.wf()
                    &&& run.next == 0
                    &&& source_is_dir ==> replication_plan_ok(
                        src@,
                        final_path@,
                        entries@,
                        run.plan@,
                    )
                    &&& !source_is_dir ==> {
                        &&& run.plan@.len() == 2
                        &&& (run.plan@[0] matches CopyAction::MakeDir { path } && path@
                            == parent_of(final_path@))
                        &&& (run.plan@[1] matches CopyAction::CopyFile { source, dest }
                            && source@ == src@ && dest@ == final_path@)
                        &&& count_file_actions(run.plan@) == 1
                    }
                },
            },
    {
        match &self.source_file {
            Some(src) => CriticalAction::Replicate {
                run: CopyRun::for_tree(src.as_str(), final_path, source_is_dir, entries),
            },
            None => CriticalAction::CreateEmpty { path: String::from_str(final_path) },
        }
    }
}

/// After a URL store: the copy that mirrors the `Internet Urls` tree from
/// under the base root to under the remembered destination — owed exactly
/// when a destination is remembered and the source tree exists
/// (`source_exists` is the filesystem's answer for it).  The contents copy
/// itself, and the drop prompt that follows, are the caller's.
pub fn handle_post_store_actions(dir_state: &DirectoryState, source_exists: bool) -> (r: Option<
    (String, String),
>)
    ensures
        ({
            let source_urls = path_join(dir_state.base_path@, "Internet Urls"@);
            match dir_state.target_directory {
                Some(t) => {
                    if source_exists {
                        r matches Some(p) && p.0@ == source_urls && p.1@ == path_join(
                            t@,
                            "Internet Urls"@,
                        )
                    } else {
                        r is None
                    }
                },
                None => r is None,
            }
        }),
{
    let base_path = match dir_state.get_base_path() {
        Some(b) => b,
        None => {
            return None;
        },
    };
    let source_urls = join_path(base_path.as_str(), "Internet Urls");
    match dir_state.get_target_directory() {
        Some(target_dir) => {
            if source_exists {
                let target_urls = join_path(target_dir.as_str(), "Internet Urls");
                Some((source_urls, target_urls))
            } else {
                None
            }
        },
        None => None,
    }
}

} // verus!
