use vstd::prelude::*;

use crate::constants::{LAST_MAJOR_VER, LAST_MINOR_VER, LAST_PATCH_VER};
use crate::error::{LpnlError, SetupErrorKind};
use crate::text::{
    after_last, any_line_contains, chars_of, contains, contains_exec, find_line_containing,
    find_line_trim_prefixed, first_line_containing, first_line_trim_prefixed,
    lemma_first_line_trim_prefixed, lemma_lines_occur, lemma_occurrence_in_line,
    lemma_occurs_within, lemma_replace_contains, lemma_trim_len, lines, occurs_at, parse_u32,
    replace, replace_all, some_line_contains, split_bounds, split_on, sub_vec, trim, trimmed,
    u32_parse_error_text, unsigned_text, utf8_error_text, utf8_text,
};

verus! {

broadcast use vstd::string::group_string_axioms;

/// The version `nginx -v` reports.
#[derive(Debug, Clone)]
pub struct NginxVersion {
    /// The version as it is written.
    pub text: String,
    pub major: u32,
    pub minor: u32,
    pub patch: u32,
}

/// The version in what `nginx -v` writes: the trimmed text after the last `/`.
pub open spec fn version_text(s: Seq<char>) -> Seq<char> {
    trim(after_last(s, '/'))
}

/// The `k`-th dot-separated part of a version, if it has one.
pub open spec fn version_part(v: Seq<char>, k: int) -> Option<Seq<char>> {
    let ps = split_on(v, '.');
    if k < ps.len() {
        Some(ps[k])
    } else {
        None
    }
}

/// The number a version part gives: 0 when the part is absent, `None` when it
/// is not a `u32`.
pub open spec fn part_value(p: Option<Seq<char>>) -> Option<nat> {
    match p {
        None => Some(0),
        Some(t) => match unsigned_text(t) {
            Some(v) => if v <= u32::MAX {
                Some(v)
            } else {
                None
            },
            None => None,
        },
    }
}

/// The error for a version part that is not a number; `which` names the part.
pub open spec fn part_error(e: LpnlError, which: Seq<char>, p: Seq<char>) -> bool {
    &&& e matches LpnlError::SetupError { kind: SetupErrorKind::ConvertionFailure, .. }
    &&& e.msg() == "Unable to convert "@ + which + " version from 'nginx -v': "@
        + u32_parse_error_text(p)
}

/// The `k`-th part of the version `vs`, whose characters are `vv` and whose
/// parts are bounded by `bounds`, read as a number.
fn parse_part(vs: &str, vv: &Vec<char>, bounds: &Vec<(usize, usize)>, k: usize, which: &str) -> (r:
    Result<u32, LpnlError>)
    requires
        vv@ == vs@,
        bounds@.len() == split_on(vv@, '.').len(),
        forall|j: int|
            0 <= j < bounds@.len() ==> (#[trigger] bounds@[j]).0 <= bounds@[j].1 <= vv@.len()
                && vv@.subrange(bounds@[j].0 as int, bounds@[j].1 as int) == split_on(vv@, '.')[j],
    ensures
        part_value(version_part(vs@, k as int)) matches Some(v) ==> r == Ok::<u32, LpnlError>(
            v as u32,
        ),
        part_value(version_part(vs@, k as int)) is None ==> (r matches Err(e) && part_error(
            e,
            which@,
            version_part(vs@, k as int)->0,
        )),
{
    if k >= bounds.len() {
        return Ok(0);
    }
    let (a, b) = bounds[k];
    let part = vs.substring_char(a, b);
    match parse_u32(part) {
        Ok(v) => Ok(v),
        Err(m) => {
            let mut message = String::from_str("Unable to convert ");
            message.append(which);
            message.append(" version from 'nginx -v': ");
            message.append(m.as_str());
            Err(LpnlError::SetupError { message, kind: SetupErrorKind::ConvertionFailure })
        },
    }
}

/// What reading the version out of the text `s` gives: the trimmed text
/// after its last `/`, read as up to three dot-separated numbers (absent ones
/// are 0); the first part that is not a `u32` gives the error.
pub open spec fn version_result(s: Seq<char>, r: Result<NginxVersion, LpnlError>) -> bool {
    let vt = version_text(s);
    let a = part_value(version_part(vt, 0));
    let b = part_value(version_part(vt, 1));
    let c = part_value(version_part(vt, 2));
    &&& r is Ok <==> (a is Some && b is Some && c is Some)
    &&& r matches Ok(v) ==> v.text@ == vt && v.major == a->0 && v.minor == b->0 && v.patch == c->0
    &&& a is None ==> (r matches Err(e) && part_error(e, "major"@, version_part(vt, 0)->0))
    &&& a is Some && b is None ==> (r matches Err(e) && part_error(
        e,
        "minor"@,
        version_part(vt, 1)->0,
    ))
    &&& a is Some && b is Some && c is None ==> (r matches Err(e) && part_error(
        e,
        "patch"@,
        version_part(vt, 2)->0,
    ))
}

/// The version that `nginx -v` reports in `stderr` (see `version_result`).
pub fn parse_nginx_version(stderr: &str) -> (r: Result<NginxVersion, LpnlError>)
    ensures
        version_result(stderr@, r),
{
    let sv = chars_of(stderr);
    let slashes = split_bounds(&sv, '/');
    let (a, b) = slashes[slashes.len() - 1];
    let text = trimmed(stderr.substring_char(a, b));
    let vv = chars_of(text.as_str());
    let dots = split_bounds(&vv, '.');
    let major = parse_part(text.as_str(), &vv, &dots, 0, "major")?;
    let minor = parse_part(text.as_str(), &vv, &dots, 1, "minor")?;
    let patch = parse_part(text.as_str(), &vv, &dots, 2, "patch")?;
    Ok(NginxVersion { text, major, minor, patch })
}

/// `(major, minor, patch)` comes before `(x, y, z)`, part by part.
pub open spec fn version_before(major: u32, minor: u32, patch: u32, x: u32, y: u32, z: u32) -> bool {
    major < x || (major == x && (minor < y || (minor == y && patch < z)))
}

/// Whether nginx must be installed: its version is older than 1.30.4.
pub fn needs_install(v: &NginxVersion) -> (r: bool)
    ensures
        r == version_before(v.major, v.minor, v.patch, LAST_MAJOR_VER, LAST_MINOR_VER, LAST_PATCH_VER),
{
    v.major < LAST_MAJOR_VER || (v.major == LAST_MAJOR_VER && (v.minor < LAST_MINOR_VER || (v.minor
        == LAST_MINOR_VER && v.patch < LAST_PATCH_VER)))
}

/// What `lpnl setup` does after asking `nginx -v`.
#[derive(Debug, Clone)]
pub struct SetupCheck {
    pub version: NginxVersion,
    /// The found nginx is too old and a current one is installed.
    pub install: bool,
}

/// The error for output of `nginx -v` that is not text.
pub open spec fn output_not_text(e: LpnlError, stderr: Seq<u8>) -> bool {
    &&& e matches LpnlError::SetupError { kind: SetupErrorKind::ConvertionFailure, .. }
    &&& e.msg() == "Unable to convert stdout from 'nginx -v': "@ + utf8_error_text(stderr)
}

/// What `lpnl setup` does with the error output of `nginx -v`: read it as
/// UTF-8, read the version in it, and install nginx when it is too old.
pub fn check_nginx_version(stderr: &[u8]) -> (r: Result<SetupCheck, LpnlError>)
    ensures
        !vstd::utf8::valid_utf8(stderr@) ==> (r matches Err(e) && output_not_text(e, stderr@)),
        vstd::utf8::valid_utf8(stderr@) ==> version_result(
            vstd::utf8::decode_utf8(stderr@),
            match r {
                Ok(c) => Ok(c.version),
                Err(e) => Err(e),
            },
        ),
        r matches Ok(c) ==> c.install == version_before(
            c.version.major,
            c.version.minor,
            c.version.patch,
            LAST_MAJOR_VER,
            LAST_MINOR_VER,
            LAST_PATCH_VER,
        ),
{
    let text = match utf8_text(stderr) {
        Ok(s) => s,
        Err(m) => {
            let mut message = String::from_str("Unable to convert stdout from 'nginx -v': ");
            message.append(m.as_str());
            return Err(LpnlError::SetupError { message, kind: SetupErrorKind::ConvertionFailure });
        },
    };
    let version = parse_nginx_version(text.as_str())?;
    let install = needs_install(&version);
    Ok(SetupCheck { version, install })
}

/// The include line that makes nginx read the enabled configs.
pub open spec fn sites_include_text() -> Seq<char> {
    "/etc/nginx/sites-enabled/*.conf;"@
}

/// The error for an nginx.conf without an `http` block.
pub open spec fn no_http_block(e: LpnlError) -> bool {
    &&& e matches LpnlError::SetupError { kind: SetupErrorKind::NotFound, .. }
    &&& e.msg() == "Unable to find the 'http' block in '/etc/nginx/nginx.conf'."@
}

/// nginx.conf made to include the enabled configs: `None` when some line
/// already names them; else the first line that begins with `http` once
/// trimmed is replaced, wherever its text occurs, by `http { include ...;`.
pub fn include_sites(conf: &str) -> (r: Result<Option<String>, LpnlError>)
    ensures
        some_line_contains(lines(conf@), sites_include_text()) ==> r == Ok::<
            Option<String>,
            LpnlError,
        >(None),
        !some_line_contains(lines(conf@), sites_include_text()) ==> match first_line_trim_prefixed(
            lines(conf@),
            "http"@,
        ) {
            None => r matches Err(e) && no_http_block(e),
            Some(l) => r matches Ok(Some(s)) && s@ == replace(
                conf@,
                l,
                "http { include "@ + sites_include_text(),
            ),
        },
{
    let cv = chars_of(conf);
    let sites = String::from_str("/etc/nginx/sites-enabled/*.conf;");
    let sv = chars_of(sites.as_str());
    if any_line_contains(&cv, &sv) {
        return Ok(None);
    }
    let http = chars_of("http");
    match find_line_trim_prefixed(&cv, &http) {
        Some((a, b)) => {
            proof {
                reveal_strlit("http");
                lemma_first_line_trim_prefixed(lines(cv@), http@);
                lemma_trim_len(cv@.subrange(a as int, b as int));
            }
            let l = conf.substring_char(a, b);
            let mut part = String::from_str("http { include ");
            part.append(sites.as_str());
            Ok(Some(replace_all(conf, l, part.as_str())))
        },
        None => Err(
            LpnlError::SetupError {
                message: String::from_str(
                    "Unable to find the 'http' block in '/etc/nginx/nginx.conf'.",
                ),
                kind: SetupErrorKind::NotFound,
            },
        ),
    }
}

/// Setup includes the enabled configs once: after `include_sites` has put
/// the include line into nginx.conf, some line names the enabled configs, so
/// running it again changes nothing.
pub proof fn law_include_sites_once(conf: Seq<char>)
    requires
        !some_line_contains(lines(conf), sites_include_text()),
        first_line_trim_prefixed(lines(conf), "http"@) is Some,
    ensures
        some_line_contains(
            lines(
                replace(
                    conf,
                    first_line_trim_prefixed(lines(conf), "http"@)->0,
                    "http { include "@ + sites_include_text(),
                ),
            ),
            sites_include_text(),
        ),
{
    reveal_strlit("http");
    reveal_strlit("http { include ");
    reveal_strlit("/etc/nginx/sites-enabled/*.conf;");
    let ls = lines(conf);
    let l = first_line_trim_prefixed(ls, "http"@)->0;
    lemma_first_line_trim_prefixed(ls, "http"@);
    lemma_trim_len(l);
    lemma_lines_occur(conf, 0);
    let k = choose|k: int| 0 <= k < ls.len() && ls[k] == l;
    assert(contains(conf, ls[k]));
    let t = "http { include "@ + sites_include_text();
    lemma_replace_contains(conf, l, t);
    let added = replace(conf, l, t);
    let q = choose|q: int| occurs_at(added, t, q);
    let x = sites_include_text();
    assert(t.subrange(15, 15 + x.len() as int) =~= x);
    lemma_occurs_within(added, t, x, q, 15);
    lemma_occurrence_in_line(added, x, q + 15);
}

/// The package manager that installs nginx.
#[derive(Debug, Clone, Copy, PartialEq, Eq)]
pub enum Installer {
    Pacman,
    Apt,
    Dnf,
}

/// The message of a distribution that lpnl cannot install nginx on.
pub open spec fn distro_message(id: Seq<char>, id_like: Seq<char>) -> Seq<char> {
    if contains(id_like, "gentoo"@) {
        "Gentoo is not supported. (yet)"@
    } else if contains(id, "nixos"@) {
        "NixOS is not supported. (yet)"@
    } else {
        "Unsupported distro. (yet)"@
    }
}

/// The package manager for a distribution, by its `ID` and `ID_LIKE` lines.
pub open spec fn installer_of(id: Seq<char>, id_like: Seq<char>) -> Option<Installer> {
    if contains(id_like, "arch"@) {
        Some(Installer::Pacman)
    } else if contains(id_like, "debian"@) {
        Some(Installer::Apt)
    } else if contains(id_like, "fedora"@) {
        Some(Installer::Dnf)
    } else {
        None
    }
}

/// The error for a distribution lpnl does not install nginx on; `msg` says why.
pub open spec fn setup_not_found(e: LpnlError, msg: Seq<char>) -> bool {
    &&& e matches LpnlError::SetupError { kind: SetupErrorKind::NotFound, .. }
    &&& e.msg() == msg
}

/// How to install nginx, from the text of /etc/os-release: the first line
/// with `ID="` and the first with `ID_LIKE="` must both be there; the
/// `ID_LIKE` line picks the package manager.
pub fn distro_plan(os_release: &str) -> (r: Result<Installer, LpnlError>)
    ensures
        ({
            let ls = lines(os_release@);
            let id = first_line_containing(ls, "ID=\""@);
            let id_like = first_line_containing(ls, "ID_LIKE=\""@);
            if id is None || id_like is None {
                r matches Err(e) && setup_not_found(e, "Unable to find the distro name."@)
            } else {
                match installer_of(id->0, id_like->0) {
                    Some(i) => r == Ok::<Installer, LpnlError>(i),
                    None => r matches Err(e) && setup_not_found(
                        e,
                        distro_message(id->0, id_like->0),
                    ),
                }
            }
        }),
{
    let ov = chars_of(os_release);
    let id_key = chars_of("ID=\"");
    let like_key = chars_of("ID_LIKE=\"");
    let id = match find_line_containing(&ov, &id_key) {
        Some((a, b)) => sub_vec(&ov, a, b),
        None => {
            return Err(
                LpnlError::SetupError {
                    message: String::from_str("Unable to find the distro name."),
                    kind: SetupErrorKind::NotFound,
                },
            )
        },
    };
    let id_like = match find_line_containing(&ov, &like_key) {
        Some((a, b)) => sub_vec(&ov, a, b),
        None => {
            return Err(
                LpnlError::SetupError {
                    message: String::from_str("Unable to find the distro name."),
                    kind: SetupErrorKind::NotFound,
                },
            )
        },
    };
    if contains_exec(&id_like, &chars_of("arch")) {
        Ok(Installer::Pacman)
    } else if contains_exec(&id_like, &chars_of("debian")) {
        Ok(Installer::Apt)
    } else if contains_exec(&id_like, &chars_of("fedora")) {
        Ok(Installer::Dnf)
    } else if contains_exec(&id_like, &chars_of("gentoo")) {
        Err(
            LpnlError::SetupError {
                message: String::from_str("Gentoo is not supported. (yet)"),
                kind: SetupErrorKind::NotFound,
            },
        )
    } else if contains_exec(&id, &chars_of("nixos")) {
        Err(
            LpnlError::SetupError {
                message: String::from_str("NixOS is not supported. (yet)"),
                kind: SetupErrorKind::NotFound,
            },
        )
    } else {
        Err(
            LpnlError::SetupError {
                message: String::from_str("Unsupported distro. (yet)"),
                kind: SetupErrorKind::NotFound,
            },
        )
    }
}

/// A command that setup runs: the program, its arguments, the line printed
/// when it succeeds, the step named when it fails, and the words that begin
/// the error when it cannot be started.
pub struct CmdStep {
    pub program: String,
    pub args: Vec<String>,
    pub done: String,
    pub what: String,
    pub failure: String,
}

/// The view of a step: program, arguments, and its three messages.
pub open spec fn step_view(s: CmdStep) -> (Seq<char>, Seq<Seq<char>>, Seq<char>, Seq<char>, Seq<char>) {
    (s.program@, s.args@.map_values(|a: String| a@), s.done@, s.what@, s.failure@)
}

/// The step that installs nginx with `program` and `args`.
pub open spec fn install_step_view(program: Seq<char>, args: Seq<Seq<char>>) -> (Seq<char>, Seq<Seq<char>>, Seq<char>, Seq<char>, Seq<char>) {
    (program, args, "Nginx downloaded succesfully."@, "Nginx downloading"@, "Unable to download nginx"@)
}

/// The commands that install nginx with each package manager.
pub open spec fn install_steps_view(i: Installer) -> Seq<(Seq<char>, Seq<Seq<char>>, Seq<char>, Seq<char>, Seq<char>)> {
    match i {
        Installer::Pacman => seq![install_step_view("pacman"@, seq!["-S"@, "nginx"@, "--noconfirm"@])],
        Installer::Apt => seq![
            ("apt"@, seq!["update"@], "Updated 'apt' repositories successfully."@,
                "Updating 'apt' repositories"@, "Unable to update 'apt' repositories"@),
            install_step_view("apt"@, seq!["install"@, "-y"@, "nginx"@]),
        ],
        Installer::Dnf => seq![install_step_view("dnf"@, seq!["install"@, "-y"@, "nginx"@])],
    }
}

/// A step that runs `program` with `args`.
fn step(program: &str, args: Vec<String>, done: &str, what: &str, failure: &str) -> (r: CmdStep)
    ensures
        step_view(r) == (program@, args@.map_values(|a: String| a@), done@, what@, failure@),
{
    CmdStep {
        program: String::from_str(program),
        args,
        done: String::from_str(done),
        what: String::from_str(what),
        failure: String::from_str(failure),
    }
}

/// The arguments, as strings.
fn strings3(a: &str, b: &str, c: &str) -> (r: Vec<String>)
    ensures
        r@.map_values(|s: String| s@) =~= seq![a@, b@, c@],
{
    let mut r = Vec::new();
    r.push(String::from_str(a));
    r.push(String::from_str(b));
    r.push(String::from_str(c));
    r
}

/// The commands that install nginx, in order.
pub fn install_steps(i: Installer) -> (r: Vec<CmdStep>)
    ensures
        r@.map_values(|s: CmdStep| step_view(s)) =~= install_steps_view(i),
{
    let mut r = Vec::new();
    match i {
        Installer::Pacman => {
            r.push(step("pacman", strings3("-S", "nginx", "--noconfirm"), "Nginx downloaded succesfully.", "Nginx downloading", "Unable to download nginx"));
        },
        Installer::Apt => {
            let mut one = Vec::new();
            one.push(String::from_str("update"));
            assert(one@.map_values(|s: String| s@) =~= seq!["update"@]);
            r.push(step("apt", one, "Updated 'apt' repositories successfully.", "Updating 'apt' repositories", "Unable to update 'apt' repositories"));
            r.push(step("apt", strings3("install", "-y", "nginx"), "Nginx downloaded succesfully.", "Nginx downloading", "Unable to download nginx"));
        },
        Installer::Dnf => {
            r.push(step("dnf", strings3("install", "-y", "nginx"), "Nginx downloaded succesfully.", "Nginx downloading", "Unable to download nginx"));
        },
    }
    r
}

} // verus!
