use vstd::prelude::*;

use crate::constants::{LPNL_BACKUP_DIR, NGINX_SITES_DISABLED_DIR, NGINX_SITES_ENABLED_DIR};
use crate::error::{ListErrorKind, LpnlError};
use crate::host::path_exists;
use crate::text::{decimal, push_decimal};

verus! {

broadcast use vstd::string::group_string_axioms;

/// One entry of a folder listing.
#[derive(Debug, Clone)]
pub enum DirEntryName {
    /// An entry that was read, by its file name.
    Name(String),
    /// An entry that could not be read, with the reason.
    Unreadable(String),
}

/// The line that lists one entry.
pub open spec fn entry_line(e: DirEntryName) -> Seq<char> {
    match e {
        DirEntryName::Name(n) => "  - "@ + n@ + "\n"@,
        DirEntryName::Unreadable(m) => "  - unknown: "@ + m@ + "\n"@,
    }
}

/// The lines that list the entries, in order.
pub open spec fn entry_lines(es: Seq<DirEntryName>) -> Seq<char>
    decreases es.len(),
{
    if es.len() == 0 {
        Seq::empty()
    } else {
        entry_lines(es.drop_last()) + entry_line(es.last())
    }
}

/// The listing of a folder: `empty` when it holds nothing, else the count,
/// `what`, and one line per entry.
pub open spec fn list_text(es: Seq<DirEntryName>, empty: Seq<char>, what: Seq<char>) -> Seq<
    char,
> {
    if es.len() == 0 {
        empty
    } else {
        decimal(es.len()) + " "@ + what + " found:\n"@ + entry_lines(es)
    }
}

/// The error for a folder that could not be read.
pub open spec fn unreadable_dir(e: LpnlError, dir: Seq<char>, reason: Seq<char>) -> bool {
    &&& e matches LpnlError::ListError { kind: ListErrorKind::FsFailure, .. }
    &&& e.msg() == "Unable to read '"@ + dir + "': "@ + reason
}

/// The listing of the folder `dir`, from what reading it gave: its entries,
/// or why it could not be read.
pub fn get_list(listing: &Result<Vec<DirEntryName>, String>, dir: &str, empty: &str, what: &str) -> (r:
    Result<String, LpnlError>)
    requires
        listing matches Ok(es) ==> es@.len() <= u32::MAX,
    ensures
        match listing {
            Ok(es) => r matches Ok(s) && s@ == list_text(es@, empty@, what@),
            Err(reason) => r matches Err(e) && unreadable_dir(e, dir@, reason@),
        },
{
    match listing {
        Err(reason) => {
            let mut message = String::from_str("Unable to read '");
            message.append(dir);
            message.append("': ");
            message.append(reason.as_str());
            Err(LpnlError::ListError { message, kind: ListErrorKind::FsFailure })
        },
        Ok(es) => {
            let mut lines = String::new();
            for k in 0..es.len()
                invariant
                    lines@ == entry_lines(es@.take(k as int)),
            {
                match &es[k] {
                    DirEntryName::Name(n) => {
                        lines.append("  - ");
                        lines.append(n.as_str());
                        lines.append("\n");
                    },
                    DirEntryName::Unreadable(m) => {
                        lines.append("  - unknown: ");
                        lines.append(m.as_str());
                        lines.append("\n");
                    },
                }
                assert(es@.take(k + 1).drop_last() =~= es@.take(k as int));
            }
            assert(es@.take(es@.len() as int) =~= es@);
            if es.len() == 0 {
                return Ok(String::from_str(empty));
            }
            let mut s = String::new();
            push_decimal(&mut s, es.len() as u64);
            s.append(" ");
            s.append(what);
            s.append(" found:\n");
            s.append(lines.as_str());
            Ok(s)
        },
    }
}

/// The error for a missing folder of configs.
pub open spec fn missing_sites_dir(e: LpnlError, enabled: bool) -> bool {
    &&& e matches LpnlError::ListError { kind: ListErrorKind::FsFailure, .. }
    &&& e.msg() == if enabled {
        "Unable to find an enabled configs files' folder in '/etc/nginx/sites-enabled'. Suggest using setup command."@
    } else {
        "Unable to find a disabled configs files' folder in '/etc/nginx/sites-disabled'. Suggest using setup command."@
    }
}

/// Whether the folder of enabled (`enabled`) or disabled configs is there,
/// given whether it exists.
pub fn sites_dir_check(exists: bool, enabled: bool) -> (r: Result<(), LpnlError>)
    ensures
        r is Ok <==> exists,
        r matches Err(e) ==> missing_sites_dir(e, enabled),
{
    if exists {
        return Ok(());
    }
    let message = if enabled {
        String::from_str(
            "Unable to find an enabled configs files' folder in '/etc/nginx/sites-enabled'. Suggest using setup command.",
        )
    } else {
        String::from_str(
            "Unable to find a disabled configs files' folder in '/etc/nginx/sites-disabled'. Suggest using setup command.",
        )
    };
    Err(LpnlError::ListError { message, kind: ListErrorKind::FsFailure })
}

/// Whether the folder of enabled configs is there, read from the file system.
pub fn check_sites_enabled() -> (r: Result<(), LpnlError>)
    ensures
        r matches Err(e) ==> missing_sites_dir(e, true),
{
    sites_dir_check(path_exists(NGINX_SITES_ENABLED_DIR).found(), true)
}

/// Whether the folder of disabled configs is there, read from the file system.
pub fn check_sites_disabled() -> (r: Result<(), LpnlError>)
    ensures
        r matches Err(e) ==> missing_sites_dir(e, false),
{
    sites_dir_check(path_exists(NGINX_SITES_DISABLED_DIR).found(), false)
}

/// The listing of the enabled configs, from what reading their folder gave.
pub fn list_enabled(listing: &Result<Vec<DirEntryName>, String>) -> (r: Result<String, LpnlError>)
    requires
        listing matches Ok(es) ==> es@.len() <= u32::MAX,
    ensures
        (r matches Err(e) && missing_sites_dir(e, true)) || match listing {
            Ok(es) => r matches Ok(s) && s@ == list_text(
                es@,
                "You have 0 enabled config files."@,
                "enabled config files"@,
            ),
            Err(reason) => r matches Err(e) && unreadable_dir(
                e,
                NGINX_SITES_ENABLED_DIR@,
                reason@,
            ),
        },
{
    check_sites_enabled()?;
    get_list(listing, NGINX_SITES_ENABLED_DIR, "You have 0 enabled config files.", "enabled config files")
}

/// The listing of the disabled configs, from what reading their folder gave.
pub fn list_disabled(listing: &Result<Vec<DirEntryName>, String>) -> (r: Result<String, LpnlError>)
    requires
        listing matches Ok(es) ==> es@.len() <= u32::MAX,
    ensures
        (r matches Err(e) && missing_sites_dir(e, false)) || match listing {
            Ok(es) => r matches Ok(s) && s@ == list_text(
                es@,
                "You have 0 disabled config files.\n"@,
                "disabled config files"@,
            ),
            Err(reason) => r matches Err(e) && unreadable_dir(
                e,
                NGINX_SITES_DISABLED_DIR@,
                reason@,
            ),
        },
{
    check_sites_disabled()?;
    get_list(
        listing,
        NGINX_SITES_DISABLED_DIR,
        "You have 0 disabled config files.\n",
        "disabled config files",
    )
}

/// The listing of the backups, from what reading their folder gave.
pub fn list_backups(listing: &Result<Vec<DirEntryName>, String>) -> (r: Result<String, LpnlError>)
    requires
        listing matches Ok(es) ==> es@.len() <= u32::MAX,
    ensures
        match listing {
            Ok(es) => r matches Ok(s) && s@ == list_text(
                es@,
                "You have 0 backups."@,
                "backup config copies"@,
            ),
            Err(reason) => r matches Err(e) && unreadable_dir(e, LPNL_BACKUP_DIR@, reason@),
        },
{
    get_list(listing, LPNL_BACKUP_DIR, "You have 0 backups.", "backup config copies")
}

} // verus!
