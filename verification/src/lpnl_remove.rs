use vstd::prelude::*;

use crate::constants::{pushed_text, push_path, LPNL_BACKUP_DIR, WWW_ROOT_DIR};

verus! {

broadcast use vstd::string::group_string_axioms;

/// What removing a domain's backup deletes.
#[derive(Debug, Clone, Copy, PartialEq, Eq)]
pub enum BackupRemoval {
    /// The backup file, then its folder.
    FileAndDir,
    /// Only the folder: there is no backup file in it.
    DirOnly,
    /// Nothing: there is neither.
    Nothing,
}

/// What removing a domain's backup deletes, given what exists: the file
/// goes with its folder; without the file, an existing folder goes alone.
pub fn backup_removal(file_exists: bool, dir_exists: bool) -> (r: BackupRemoval)
    ensures
        r == (if file_exists {
            BackupRemoval::FileAndDir
        } else if dir_exists {
            BackupRemoval::DirOnly
        } else {
            BackupRemoval::Nothing
        }),
{
    if file_exists {
        BackupRemoval::FileAndDir
    } else if dir_exists {
        BackupRemoval::DirOnly
    } else {
        BackupRemoval::Nothing
    }
}

/// The backup folder of `domain`, as a path pushed onto the backups folder.
pub fn backup_folder(domain: &str) -> (r: String)
    ensures
        r@ == pushed_text(LPNL_BACKUP_DIR@, domain@),
{
    push_path(LPNL_BACKUP_DIR, domain)
}

/// The backup file of `domain` inside `backup_folder`: `<domain>.txt`.
pub fn backup_folder_file(domain: &str) -> (r: String)
    ensures
        r@ == pushed_text(pushed_text(LPNL_BACKUP_DIR@, domain@), domain@ + ".txt"@),
{
    let dir = backup_folder(domain);
    let mut name = String::from_str(domain);
    name.append(".txt");
    push_path(dir.as_str(), name.as_str())
}

/// The web root of `domain` under /var/www.
pub fn www_root(domain: &str) -> (r: String)
    ensures
        r@ == pushed_text(WWW_ROOT_DIR@, domain@),
{
    push_path(WWW_ROOT_DIR, domain)
}

} // verus!
