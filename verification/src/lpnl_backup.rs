use vstd::prelude::*;

use crate::constants::{
    backup_dir_path, backup_file_path, backup_file_text, conf_path_text, disabled_conf_path, enabled_conf_path,
    LPNL_BACKUP_DIR, NGINX_SITES_DISABLED_DIR, NGINX_SITES_ENABLED_DIR,
};
use crate::error::{BackupErrorKind, LpnlError};
use crate::host::{path_exists, PathCheck};
use crate::validation::{domain_ok, get_domain, invalid_domain};

verus! {

broadcast use vstd::string::group_string_axioms;

/// The two files a backup links: the backup copy and the live config.
pub struct BackupPaths {
    pub backup: String,
    pub config: String,
}

/// The backup copy and the enabled config of `domain`.
pub open spec fn backup_paths_of(p: BackupPaths, domain: Seq<char>) -> bool {
    &&& p.backup@ == backup_file_text(domain)
    &&& p.config@ == conf_path_text(NGINX_SITES_ENABLED_DIR@, domain)
}

/// The error for a backup whose files are missing.
pub open spec fn backup_files_missing(e: LpnlError, domain: Seq<char>) -> bool {
    &&& e matches LpnlError::BackupError { kind: BackupErrorKind::NotFound, .. }
    &&& e.msg() == "Unable to find '"@ + domain + "' files. Suggest using setup or init."@
}

/// A backup is taken only when the domain's backup folder and its enabled
/// config are there; the backup file itself is what `set-backup` creates.
pub fn check_backup_files(domain: &str, folder_exists: bool, config_exists: bool) -> (r: Result<(), LpnlError>)
    ensures
        r is Ok <==> folder_exists && config_exists,
        r matches Err(e) ==> backup_files_missing(e, domain@),
{
    if !folder_exists || !config_exists {
        let mut message = String::from_str("Unable to find '");
        message.append(domain);
        message.append("' files. Suggest using setup or init.");
        return Err(LpnlError::BackupError { message, kind: BackupErrorKind::NotFound });
    }
    Ok(())
}

/// The files of `domain`'s backup, once the domain is checked.
pub fn backup_targets(domain: String) -> (r: Result<BackupPaths, LpnlError>)
    ensures
        r is Ok <==> domain_ok(domain@),
        r matches Ok(p) ==> backup_paths_of(p, domain@),
        r matches Err(e) ==> invalid_domain(e),
{
    let domain = get_domain(domain)?;
    Ok(BackupPaths { backup: backup_file_path(domain.as_str()), config: enabled_conf_path(domain.as_str()) })
}

/// The checks of `set-backup`: the domain, then its backup folder and its
/// enabled config must exist (read from the file system; see
/// `check_backup_files`). The backup file is then written by the caller.
pub fn set_backup_targets(domain: String) -> (r: Result<BackupPaths, LpnlError>)
    ensures
        !domain_ok(domain@) ==> (r matches Err(e) && invalid_domain(e)),
        r matches Ok(p) ==> backup_paths_of(p, domain@),
        r matches Err(e) ==> invalid_domain(e) || backup_files_missing(e, domain@),
        r matches Err(e) && invalid_domain(e) ==> !domain_ok(domain@),
        r matches Err(e) && backup_files_missing(e, domain@) ==> domain_ok(domain@),
{
    let domain = get_domain(domain)?;
    let paths = BackupPaths {
        backup: backup_file_path(domain.as_str()),
        config: enabled_conf_path(domain.as_str()),
    };
    let folder_exists = path_exists(backup_dir_path(domain.as_str()).as_str()).found();
    let config_exists = path_exists(paths.config.as_str()).found();
    check_backup_files(domain.as_str(), folder_exists, config_exists)?;
    Ok(paths)
}

/// The files, as a map from path to content, after the content at `from` is
/// written to `to`.
pub open spec fn files_after_copy(files: Map<Seq<char>, Seq<char>>, from: Seq<char>, to: Seq<char>) -> Map<
    Seq<char>,
    Seq<char>,
> {
    files.insert(to, files[from])
}

/// Restoring gives back what was backed up: copying the enabled config into
/// the backup (as `set_backup_targets` plans), then changing the config to
/// anything, then copying the backup into the config (as
/// `get_backup_targets` plans when the config is enabled), leaves the config
/// and the backup with the content the config had when it was backed up.
pub proof fn law_restore_gives_back_backup(
    domain: Seq<char>,
    set: BackupPaths,
    get: BackupPaths,
    files: Map<Seq<char>, Seq<char>>,
    changed: Seq<char>,
    disabled_exists: bool,
)
    requires
        backup_paths_of(set, domain),
        get.backup@ == backup_file_text(domain),
        get.config@ == restore_target_text(domain, true, disabled_exists),
        files.dom().contains(set.config@),
    ensures
        ({
            let backed_up = files_after_copy(files, set.config@, set.backup@);
            let edited = backed_up.insert(set.config@, changed);
            let restored = files_after_copy(edited, get.backup@, get.config@);
            &&& restored[get.config@] == files[set.config@]
            &&& restored[get.backup@] == files[set.config@]
        }),
{
    reveal_strlit("/etc/lpnl/backups");
    reveal_strlit("/etc/nginx/sites-enabled");
    let b = backup_file_text(domain);
    let c = conf_path_text(NGINX_SITES_ENABLED_DIR@, domain);
    assert(b[5] == LPNL_BACKUP_DIR@[5]);
    assert(c[5] == NGINX_SITES_ENABLED_DIR@[5]);
    assert(b != c);
}

/// The config a backup is restored into: the enabled one, or the disabled
/// one when only that exists.
pub open spec fn restore_target_text(domain: Seq<char>, enabled_exists: bool, disabled_exists: bool) -> Seq<char> {
    if !enabled_exists && disabled_exists {
        conf_path_text(NGINX_SITES_DISABLED_DIR@, domain)
    } else {
        conf_path_text(NGINX_SITES_ENABLED_DIR@, domain)
    }
}

/// The files of restoring `domain`'s backup, given where its config is found.
pub fn restore_targets(domain: &str, enabled_exists: bool, disabled_exists: bool) -> (r: BackupPaths)
    ensures
        r.backup@ == backup_file_text(domain@),
        r.config@ == restore_target_text(domain@, enabled_exists, disabled_exists),
{
    let config = if !enabled_exists && disabled_exists {
        disabled_conf_path(domain)
    } else {
        enabled_conf_path(domain)
    };
    BackupPaths { backup: backup_file_path(domain), config }
}

/// What `get-backup` works on: the backup, the config it is restored into,
/// and what the file system answered about the domain's two configs.
pub struct RestorePlan {
    pub backup: String,
    pub config: String,
    pub enabled_conf: PathCheck,
    pub disabled_conf: PathCheck,
}

/// The plan restores `domain`'s backup into the config that the checks of
/// its two configs point to (see `restore_target_text`).
pub open spec fn restore_plan_of(domain: Seq<char>, p: RestorePlan) -> bool {
    &&& p.backup@ == backup_file_text(domain)
    &&& p.enabled_conf.asked() == conf_path_text(NGINX_SITES_ENABLED_DIR@, domain)
    &&& p.disabled_conf.asked() == conf_path_text(NGINX_SITES_DISABLED_DIR@, domain)
    &&& p.config@ == restore_target_text(domain, p.enabled_conf.answer(), p.disabled_conf.answer())
}

/// The checks of `get-backup`: the domain; the config it restores is the
/// enabled or the disabled one, whichever the file system shows (see
/// `restore_targets`).
pub fn get_backup_targets(domain: String) -> (r: Result<RestorePlan, LpnlError>)
    ensures
        r is Ok <==> domain_ok(domain@),
        r matches Err(e) ==> invalid_domain(e),
        r matches Ok(p) ==> p.backup@ == backup_file_text(domain@) && exists|en: bool, dis: bool|
            p.config@ == restore_target_text(domain@, en, dis),
        r matches Ok(p) ==> restore_plan_of(domain@, p),
{
    let domain = get_domain(domain)?;
    let enabled = path_exists(enabled_conf_path(domain.as_str()).as_str());
    let disabled = path_exists(disabled_conf_path(domain.as_str()).as_str());
    let paths = restore_targets(domain.as_str(), enabled.found(), disabled.found());
    Ok(RestorePlan { backup: paths.backup, config: paths.config, enabled_conf: enabled, disabled_conf: disabled })
}

/// A backup is restored where the file system shows the config: in place
/// when the enabled config was found, into the disabled one when only that
/// was found; and never into a config of another domain.
pub proof fn law_restores_where_found(domain: Seq<char>, p: RestorePlan)
    requires
        restore_plan_of(domain, p),
    ensures
        p.enabled_conf.answer() ==> p.config@ == p.enabled_conf.asked(),
        !p.enabled_conf.answer() && p.disabled_conf.answer() ==> p.config@ == p.disabled_conf.asked(),
        p.config@ == conf_path_text(NGINX_SITES_ENABLED_DIR@, domain) || p.config@ == conf_path_text(
            NGINX_SITES_DISABLED_DIR@,
            domain,
        ),
{
}

/// A step of restoring a backup.
#[derive(Debug, Clone)]
pub enum RestoreStep {
    /// Test the backup's content with nginx.
    TestBackup,
    /// Write the backup over the config.
    WriteBackup,
    /// Test and reload nginx with the restored config.
    Reload,
    /// Write the old config back; the error is that of the step that failed.
    PutBackOld(LpnlError),
}

/// What comes after a step of restoring a backup.
#[derive(Debug, Clone)]
pub enum RestoreNext {
    Do(RestoreStep),
    Done,
    Fail(LpnlError),
}

/// The order of restoring: test, write, reload. A failure once the config
/// is written puts the old config back first; then the failure reported is
/// that of the step that failed, or that of putting the old config back when
/// that fails too.
pub open spec fn restore_after(step: RestoreStep, outcome: Result<(), LpnlError>) -> RestoreNext {
    match step {
        RestoreStep::TestBackup => match outcome {
            Ok(_) => RestoreNext::Do(RestoreStep::WriteBackup),
            Err(e) => RestoreNext::Fail(e),
        },
        RestoreStep::WriteBackup => match outcome {
            Ok(_) => RestoreNext::Do(RestoreStep::Reload),
            Err(e) => RestoreNext::Do(RestoreStep::PutBackOld(e)),
        },
        RestoreStep::Reload => match outcome {
            Ok(_) => RestoreNext::Done,
            Err(e) => RestoreNext::Do(RestoreStep::PutBackOld(e)),
        },
        RestoreStep::PutBackOld(first) => match outcome {
            Ok(_) => RestoreNext::Fail(first),
            Err(e) => RestoreNext::Fail(e),
        },
    }
}

/// What follows `step`, given how it went (see `restore_after`).
pub fn restore_next(step: RestoreStep, outcome: Result<(), LpnlError>) -> (r: RestoreNext)
    ensures
        r == restore_after(step, outcome),
{
    match step {
        RestoreStep::TestBackup => match outcome {
            Ok(_) => RestoreNext::Do(RestoreStep::WriteBackup),
            Err(e) => RestoreNext::Fail(e),
        },
        RestoreStep::WriteBackup => match outcome {
            Ok(_) => RestoreNext::Do(RestoreStep::Reload),
            Err(e) => RestoreNext::Do(RestoreStep::PutBackOld(e)),
        },
        RestoreStep::Reload => match outcome {
            Ok(_) => RestoreNext::Done,
            Err(e) => RestoreNext::Do(RestoreStep::PutBackOld(e)),
        },
        RestoreStep::PutBackOld(first) => match outcome {
            Ok(_) => RestoreNext::Fail(first),
            Err(e) => RestoreNext::Fail(e),
        },
    }
}

} // verus!
