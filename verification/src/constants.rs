use vstd::prelude::*;

verus! {

/// Where lpnl keeps its own files.
pub const LPNL_MAIN_DIR: &'static str = "/etc/lpnl";

/// Where the backups of the configs are kept, one folder per domain.
pub const LPNL_BACKUP_DIR: &'static str = "/etc/lpnl/backups";

/// Where temporary files for testing configs are written.
pub const LPNL_TMP_DIR: &'static str = "/etc/lpnl/tmp";

/// The main nginx configuration file.
pub const NGINX_CONFIG: &'static str = "/etc/nginx/nginx.conf";

/// The configs that nginx does not include.
pub const NGINX_SITES_DISABLED_DIR: &'static str = "/etc/nginx/sites-disabled";

/// The configs that nginx includes.
pub const NGINX_SITES_ENABLED_DIR: &'static str = "/etc/nginx/sites-enabled";

/// The oldest nginx release that is used as it is found: major part.
pub const LAST_MAJOR_VER: u32 = 1;

/// The oldest nginx release that is used as it is found: minor part.
pub const LAST_MINOR_VER: u32 = 30;

/// The oldest nginx release that is used as it is found: patch part.
pub const LAST_PATCH_VER: u32 = 4;

/// The file in which a config is tested before it is used.
pub const TEST_FILE_DIR: &'static str = "/etc/lpnl/tmp/run_test.txt";

/// The port of a default initialization.
pub const DEFAULT_PORT: u16 = 8080;

/// The domain of a default initialization.
pub const DEFAULT_DOMAIN: &'static str = "localhost";

/// The folder under which default web roots are made.
pub const WWW_ROOT_DIR: &'static str = "/var/www";

/// The file that names the Linux distribution.
pub const OS_RELEASE_DIR: &'static str = "/etc/os-release";

/// `dir/domain.conf`.
pub open spec fn conf_path_text(dir: Seq<char>, domain: Seq<char>) -> Seq<char> {
    dir + "/"@ + domain + ".conf"@
}

/// The config file of `domain` among the enabled ones.
pub fn enabled_conf_path(domain: &str) -> (r: String)
    ensures
        r@ == conf_path_text(NGINX_SITES_ENABLED_DIR@, domain@),
{
    let mut r = String::from_str(NGINX_SITES_ENABLED_DIR);
    r.append("/");
    r.append(domain);
    r.append(".conf");
    r
}

/// The config file of `domain` among the disabled ones.
pub fn disabled_conf_path(domain: &str) -> (r: String)
    ensures
        r@ == conf_path_text(NGINX_SITES_DISABLED_DIR@, domain@),
{
    let mut r = String::from_str(NGINX_SITES_DISABLED_DIR);
    r.append("/");
    r.append(domain);
    r.append(".conf");
    r
}

/// The backup folder of `domain`.
pub open spec fn backup_dir_text(domain: Seq<char>) -> Seq<char> {
    LPNL_BACKUP_DIR@ + "/"@ + domain
}

/// The backup folder of `domain`.
pub fn backup_dir_path(domain: &str) -> (r: String)
    ensures
        r@ == backup_dir_text(domain@),
{
    let mut r = String::from_str(LPNL_BACKUP_DIR);
    r.append("/");
    r.append(domain);
    r
}

/// The backup file of `domain`: `backups/domain/domain.txt`.
pub open spec fn backup_file_text(domain: Seq<char>) -> Seq<char> {
    backup_dir_text(domain) + "/"@ + domain + ".txt"@
}

/// The backup file of `domain`.
pub fn backup_file_path(domain: &str) -> (r: String)
    ensures
        r@ == backup_file_text(domain@),
{
    let mut r = backup_dir_path(domain);
    r.append("/");
    r.append(domain);
    r.append(".txt");
    r
}

/// `dir/name`.
pub fn join_path(dir: &str, name: &str) -> (r: String)
    ensures
        r@ == dir@ + "/"@ + name@,
{
    let mut r = String::from_str(dir);
    r.append("/");
    r.append(name);
    r
}

/// `dir` with `name` pushed onto it as a path (`PathBuf::push`): a name
/// that starts with `/` replaces the whole path.
pub open spec fn pushed_text(dir: Seq<char>, name: Seq<char>) -> Seq<char> {
    if name.len() > 0 && name[0] == '/' {
        name
    } else {
        dir + "/"@ + name
    }
}

/// `dir` with `name` pushed onto it as a path (`PathBuf::push`).
pub fn push_path(dir: &str, name: &str) -> (r: String)
    ensures
        r@ == pushed_text(dir@, name@),
{
    let nv = crate::text::chars_of(name);
    if nv.len() > 0 && nv[0] == '/' {
        return String::from_str(name);
    }
    join_path(dir, name)
}

} // verus!
