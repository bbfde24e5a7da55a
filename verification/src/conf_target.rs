use vstd::prelude::*;

use crate::constants::{
    conf_path_text, disabled_conf_path, enabled_conf_path, NGINX_SITES_DISABLED_DIR,
    NGINX_SITES_ENABLED_DIR,
};
use crate::lpnl_state_ctrl::lemma_conf_paths_differ;
use crate::error::{AddLocErrorKind, LpnlError, RemoveLocErrorKind};
use crate::host::{path_exists, PathCheck};

verus! {

broadcast use vstd::string::group_string_axioms;

/// What the file system shows of a domain's config.
#[derive(Debug, Clone, Copy)]
pub struct ConfFacts {
    /// The folder of enabled configs exists.
    pub enabled_dir: bool,
    /// The folder of disabled configs exists.
    pub disabled_dir: bool,
    /// The domain's config is among the enabled ones.
    pub enabled_conf: bool,
    /// The domain's config is among the disabled ones.
    pub disabled_conf: bool,
}

/// The four answers of the file system that `ConfFacts` is made of, each
/// with the path it was asked about.
#[derive(Debug, Clone)]
pub struct ConfChecks {
    pub enabled_dir: PathCheck,
    pub disabled_dir: PathCheck,
    pub enabled_conf: PathCheck,
    pub disabled_conf: PathCheck,
}

/// The checks were made of the two folders and of `domain`'s two configs.
pub open spec fn checks_of(c: ConfChecks, domain: Seq<char>) -> bool {
    &&& c.enabled_dir.asked() == NGINX_SITES_ENABLED_DIR@
    &&& c.disabled_dir.asked() == NGINX_SITES_DISABLED_DIR@
    &&& c.enabled_conf.asked() == conf_path_text(NGINX_SITES_ENABLED_DIR@, domain)
    &&& c.disabled_conf.asked() == conf_path_text(NGINX_SITES_DISABLED_DIR@, domain)
}

/// What the checks found.
pub open spec fn facts_of(c: ConfChecks) -> ConfFacts {
    ConfFacts {
        enabled_dir: c.enabled_dir.answer(),
        disabled_dir: c.disabled_dir.answer(),
        enabled_conf: c.enabled_conf.answer(),
        disabled_conf: c.disabled_conf.answer(),
    }
}

/// Asks the file system about the two folders and `domain`'s two configs.
pub fn read_conf(domain: &str) -> (c: ConfChecks)
    ensures
        checks_of(c, domain@),
{
    ConfChecks {
        enabled_dir: path_exists(NGINX_SITES_ENABLED_DIR),
        disabled_dir: path_exists(NGINX_SITES_DISABLED_DIR),
        enabled_conf: path_exists(enabled_conf_path(domain).as_str()),
        disabled_conf: path_exists(disabled_conf_path(domain).as_str()),
    }
}

/// What the checks found, as `ConfFacts`.
pub fn facts_from(c: &ConfChecks) -> (f: ConfFacts)
    ensures
        f == facts_of(*c),
{
    ConfFacts {
        enabled_dir: c.enabled_dir.found(),
        disabled_dir: c.disabled_dir.found(),
        enabled_conf: c.enabled_conf.found(),
        disabled_conf: c.disabled_conf.found(),
    }
}

/// Reads from the file system what `ConfFacts` holds for `domain`.
pub fn conf_facts(domain: &str) -> (f: ConfFacts)
    ensures
        exists|c: ConfChecks| checks_of(c, domain@) && f == facts_of(c),
{
    let c = read_conf(domain);
    facts_from(&c)
}

/// Which config file a command that edits a domain's config works on.
#[derive(Debug, Clone, Copy, PartialEq, Eq)]
pub enum ConfLookup {
    NoEnabledDir,
    NoDisabledDir,
    EnabledAndDisabled,
    Missing,
    Enabled,
    Disabled,
}

/// The folders are checked first, then the config must be in exactly one.
pub open spec fn lookup_of(f: ConfFacts) -> ConfLookup {
    if !f.enabled_dir {
        ConfLookup::NoEnabledDir
    } else if !f.disabled_dir {
        ConfLookup::NoDisabledDir
    } else if f.enabled_conf && f.disabled_conf {
        ConfLookup::EnabledAndDisabled
    } else if !f.enabled_conf && !f.disabled_conf {
        ConfLookup::Missing
    } else if f.enabled_conf {
        ConfLookup::Enabled
    } else {
        ConfLookup::Disabled
    }
}

/// Which config file a command that edits a domain's config works on.
pub fn lookup_conf(f: &ConfFacts) -> (r: ConfLookup)
    ensures
        r == lookup_of(*f),
{
    if !f.enabled_dir {
        ConfLookup::NoEnabledDir
    } else if !f.disabled_dir {
        ConfLookup::NoDisabledDir
    } else if f.enabled_conf && f.disabled_conf {
        ConfLookup::EnabledAndDisabled
    } else if !f.enabled_conf && !f.disabled_conf {
        ConfLookup::Missing
    } else if f.enabled_conf {
        ConfLookup::Enabled
    } else {
        ConfLookup::Disabled
    }
}

/// The message for a lookup that found no config to edit.
pub open spec fn lookup_message(domain: Seq<char>, l: ConfLookup) -> Seq<char> {
    match l {
        ConfLookup::NoEnabledDir =>
            "Unable to find a config files' folder in '/etc/nginx/sites-enabled'. Consider using the setup command."@,
        ConfLookup::NoDisabledDir =>
            "Unable to find a config files' folder in '/etc/nginx/sites-disabled'. Consider using the setup command."@,
        ConfLookup::EnabledAndDisabled => "'"@ + domain
            + "' is enabled and disabled. Try removing file and initializing it again."@,
        _ => "Unable to find '"@ + domain + "' config."@,
    }
}

/// The path of the config a lookup found.
pub open spec fn lookup_path(domain: Seq<char>, l: ConfLookup) -> Seq<char> {
    if l == ConfLookup::Enabled {
        conf_path_text(NGINX_SITES_ENABLED_DIR@, domain)
    } else {
        conf_path_text(NGINX_SITES_DISABLED_DIR@, domain)
    }
}

/// A lookup that found the config to edit.
pub open spec fn found(l: ConfLookup) -> bool {
    l == ConfLookup::Enabled || l == ConfLookup::Disabled
}

/// The config a command edits, `target`, is the one the checks of `domain`
/// found (see `lookup_of`).
pub open spec fn edits_found_config(domain: Seq<char>, checks: ConfChecks, target: Seq<char>) -> bool {
    &&& checks_of(checks, domain)
    &&& found(lookup_of(facts_of(checks)))
    &&& target == lookup_path(domain, lookup_of(facts_of(checks)))
}

/// A command edits the config where the file system found it: both folders
/// were found, and the file edited is the one of the domain's two configs
/// that was found, while the other was not.
pub proof fn law_edits_the_found_config(domain: Seq<char>, checks: ConfChecks, target: Seq<char>)
    requires
        edits_found_config(domain, checks, target),
    ensures
        checks.enabled_dir.answer() && checks.disabled_dir.answer(),
        target == conf_path_text(NGINX_SITES_ENABLED_DIR@, domain) || target == conf_path_text(
            NGINX_SITES_DISABLED_DIR@,
            domain,
        ),
        target == checks.enabled_conf.asked() ==> checks.enabled_conf.answer() && !checks.disabled_conf.answer(),
        target == checks.disabled_conf.asked() ==> checks.disabled_conf.answer() && !checks.enabled_conf.answer(),
        checks.enabled_conf.answer() && !checks.disabled_conf.answer() ==> target == checks.enabled_conf.asked(),
        checks.disabled_conf.answer() && !checks.enabled_conf.answer() ==> target == checks.disabled_conf.asked(),
{
    lemma_conf_paths_differ(domain);
}

/// The message for a failed lookup.
fn lookup_failure_message(domain: &str, l: ConfLookup) -> (r: String)
    requires
        !found(l),
    ensures
        r@ == lookup_message(domain@, l),
{
    match l {
        ConfLookup::NoEnabledDir => String::from_str(
            "Unable to find a config files' folder in '/etc/nginx/sites-enabled'. Consider using the setup command.",
        ),
        ConfLookup::NoDisabledDir => String::from_str(
            "Unable to find a config files' folder in '/etc/nginx/sites-disabled'. Consider using the setup command.",
        ),
        ConfLookup::EnabledAndDisabled => {
            let mut r = String::from_str("'");
            r.append(domain);
            r.append("' is enabled and disabled. Try removing file and initializing it again.");
            r
        },
        _ => {
            let mut r = String::from_str("Unable to find '");
            r.append(domain);
            r.append("' config.");
            r
        },
    }
}

/// The error of a location edit whose lookup failed.
pub open spec fn add_loc_lookup_error(e: LpnlError, domain: Seq<char>, l: ConfLookup) -> bool {
    &&& e.msg() == lookup_message(domain, l)
    &&& match l {
        ConfLookup::NoEnabledDir | ConfLookup::NoDisabledDir => e matches LpnlError::AddLocError {
            kind: AddLocErrorKind::FsFailure,
            ..
        },
        ConfLookup::EnabledAndDisabled => e matches LpnlError::AddLocError {
            kind: AddLocErrorKind::AlreadyExists,
            ..
        },
        _ => e matches LpnlError::AddLocError { kind: AddLocErrorKind::NotFound, .. },
    }
}

/// The error of a location removal whose lookup failed.
pub open spec fn remove_loc_lookup_error(e: LpnlError, domain: Seq<char>, l: ConfLookup) -> bool {
    &&& e.msg() == lookup_message(domain, l)
    &&& match l {
        ConfLookup::NoEnabledDir | ConfLookup::NoDisabledDir => e matches LpnlError::RemoveLocError {
            kind: RemoveLocErrorKind::FsFailure,
            ..
        },
        ConfLookup::EnabledAndDisabled => e matches LpnlError::RemoveLocError {
            kind: RemoveLocErrorKind::AlreadyExists,
            ..
        },
        _ => e matches LpnlError::RemoveLocError { kind: RemoveLocErrorKind::NotFound, .. },
    }
}

/// The config that `add-loc` edits, given what the file system shows.
pub fn add_loc_target(domain: &str, f: &ConfFacts) -> (r: Result<String, LpnlError>)
    ensures
        r is Ok <==> found(lookup_of(*f)),
        r matches Ok(p) ==> p@ == lookup_path(domain@, lookup_of(*f)),
        r matches Err(e) ==> add_loc_lookup_error(e, domain@, lookup_of(*f)),
{
    let l = lookup_conf(f);
    match l {
        ConfLookup::Enabled => Ok(enabled_conf_path(domain)),
        ConfLookup::Disabled => Ok(disabled_conf_path(domain)),
        ConfLookup::NoEnabledDir | ConfLookup::NoDisabledDir => Err(
            LpnlError::AddLocError {
                message: lookup_failure_message(domain, l),
                kind: AddLocErrorKind::FsFailure,
            },
        ),
        ConfLookup::EnabledAndDisabled => Err(
            LpnlError::AddLocError {
                message: lookup_failure_message(domain, l),
                kind: AddLocErrorKind::AlreadyExists,
            },
        ),
        ConfLookup::Missing => Err(
            LpnlError::AddLocError {
                message: lookup_failure_message(domain, l),
                kind: AddLocErrorKind::NotFound,
            },
        ),
    }
}

/// The config that `remove-loc` edits, given what the file system shows.
pub fn remove_loc_target(domain: &str, f: &ConfFacts) -> (r: Result<String, LpnlError>)
    ensures
        r is Ok <==> found(lookup_of(*f)),
        r matches Ok(p) ==> p@ == lookup_path(domain@, lookup_of(*f)),
        r matches Err(e) ==> remove_loc_lookup_error(e, domain@, lookup_of(*f)),
{
    let l = lookup_conf(f);
    match l {
        ConfLookup::Enabled => Ok(enabled_conf_path(domain)),
        ConfLookup::Disabled => Ok(disabled_conf_path(domain)),
        ConfLookup::NoEnabledDir | ConfLookup::NoDisabledDir => Err(
            LpnlError::RemoveLocError {
                message: lookup_failure_message(domain, l),
                kind: RemoveLocErrorKind::FsFailure,
            },
        ),
        ConfLookup::EnabledAndDisabled => Err(
            LpnlError::RemoveLocError {
                message: lookup_failure_message(domain, l),
                kind: RemoveLocErrorKind::AlreadyExists,
            },
        ),
        ConfLookup::Missing => Err(
            LpnlError::RemoveLocError {
                message: lookup_failure_message(domain, l),
                kind: RemoveLocErrorKind::NotFound,
            },
        ),
    }
}

} // verus!
