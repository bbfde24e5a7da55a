use vstd::prelude::*;

use crate::conf_target::{add_loc_lookup_error, add_loc_target, edits_found_config, facts_from, read_conf, ConfChecks, found, lookup_of, lookup_path, ConfFacts};
use crate::error::{AddLocErrorKind, LpnlError};
use crate::validation::{
    domain_ok, get_domain, get_location, get_proxy, get_root, invalid_domain, invalid_location,
    invalid_proxy, invalid_root, location_ok, plain_text_ok, url_parses,
};
use crate::text::{
    any_line_contains, chars_of, find_line_trim_prefixed, first_line_trim_prefixed, lemma_first_line_trim_prefixed,
    lemma_trim_len, lines, replace, replace_all, some_line_contains, trim, trimmed,
};

verus! {

broadcast use vstd::string::group_string_axioms;

/// How a new location serves its requests.
#[derive(Debug, Clone, Copy, PartialEq, Eq)]
pub enum LocMode {
    /// From a root directory.
    Root,
    /// By passing them to a proxy.
    Proxy,
}

/// What follows `location <location>` in a new block, up to its value.
pub open spec fn block_opening(mode: LocMode) -> Seq<char> {
    match mode {
        LocMode::Root => " { root "@,
        LocMode::Proxy => " {\n                    proxy_pass "@,
    }
}

/// What follows the value in a new block, through the line feed after its
/// closing brace.
pub open spec fn block_closing(mode: LocMode) -> Seq<char> {
    match mode {
        LocMode::Root => "; }\n"@,
        LocMode::Proxy => ";\n                    proxy_set_header Host $host;\n                    proxy_set_header X-Forwarded-For $proxy_add_x_forwarded_for;\n                    proxy_set_header X-Real-IP $remote_addr;\n                }\n"@,
    }
}

/// The block of a new location, from its head through the line feed after
/// its closing brace.
pub open spec fn location_block(location: Seq<char>, data: Seq<char>, mode: LocMode) -> Seq<char> {
    "location "@ + location + block_opening(mode) + data + block_closing(mode)
}

/// The text that takes the place of the `location / {` line: the new block,
/// then the `location / {` line again.
pub open spec fn loc_block_text(location: Seq<char>, data: Seq<char>, mode: LocMode) -> Seq<char> {
    "\n                "@ + location_block(location, data, mode) + "                \n                location / {"@
}

fn opening_str(mode: LocMode) -> (r: &'static str)
    ensures
        r@ == block_opening(mode),
{
    match mode {
        LocMode::Root => " { root ",
        LocMode::Proxy => " {\n                    proxy_pass ",
    }
}

fn closing_str(mode: LocMode) -> (r: &'static str)
    ensures
        r@ == block_closing(mode),
{
    match mode {
        LocMode::Root => "; }\n",
        LocMode::Proxy => ";\n                    proxy_set_header Host $host;\n                    proxy_set_header X-Forwarded-For $proxy_add_x_forwarded_for;\n                    proxy_set_header X-Real-IP $remote_addr;\n                }\n",
    }
}

/// The new block and the `location / {` line after it.
pub fn loc_block(location: &str, data: &str, mode: LocMode) -> (r: String)
    ensures
        r@ == loc_block_text(location@, data@, mode),
{
    let mut r = String::from_str("\n                ");
    r.append("location ");
    r.append(location);
    r.append(opening_str(mode));
    r.append(data);
    r.append(closing_str(mode));
    r.append("                \n                location / {");
    assert(r@ =~= loc_block_text(location@, data@, mode));
    r
}

/// The error for a location that the config already has.
pub open spec fn location_exists(e: LpnlError, location: Seq<char>) -> bool {
    &&& e matches LpnlError::AddLocError { kind: AddLocErrorKind::AlreadyExists, .. }
    &&& e.msg() == "The config location '"@ + location + "' already exists."@
}

/// The error for a config without a `location /` block.
pub open spec fn no_root_location(e: LpnlError, target: Seq<char>) -> bool {
    &&& e matches LpnlError::AddLocError { kind: AddLocErrorKind::NotFound, .. }
    &&& e.msg() == "Unable to find the 'location /' block in '"@ + target + "'."@
}

/// The config `conf` (read from `target`) with a new location block. When no
/// line mentions `location <location>` yet, the first line that begins with
/// `location / {` once trimmed is replaced, wherever its text occurs, by the
/// new block followed by `location / {`.
pub fn insert_location(conf: &str, location: &str, data: &str, mode: LocMode, target: &str) -> (r:
    Result<String, LpnlError>)
    ensures
        some_line_contains(lines(conf@), "location "@ + location@) ==> (r matches Err(e)
            && location_exists(e, location@)),
        !some_line_contains(lines(conf@), "location "@ + location@) ==> match first_line_trim_prefixed(
            lines(conf@),
            "location / {"@,
        ) {
            None => r matches Err(e) && no_root_location(e, target@),
            Some(l) => r matches Ok(s) && s@ == replace(
                conf@,
                l,
                loc_block_text(location@, data@, mode),
            ),
        },
{
    let cv = chars_of(conf);
    let mut conf_loc = String::from_str("location ");
    conf_loc.append(location);
    let lv = chars_of(conf_loc.as_str());
    if any_line_contains(&cv, &lv) {
        let mut message = String::from_str("The config location '");
        message.append(location);
        message.append("' already exists.");
        return Err(LpnlError::AddLocError { message, kind: AddLocErrorKind::AlreadyExists });
    }
    let root_loc = chars_of("location / {");
    match find_line_trim_prefixed(&cv, &root_loc) {
        Some((a, b)) => {
            proof {
                reveal_strlit("location / {");
                lemma_first_line_trim_prefixed(lines(cv@), root_loc@);
                lemma_trim_len(cv@.subrange(a as int, b as int));
            }
            let l = conf.substring_char(a, b);
            let block = loc_block(location, data, mode);
            Ok(replace_all(conf, l, block.as_str()))
        },
        None => {
            let mut message = String::from_str("Unable to find the 'location /' block in '");
            message.append(target);
            message.append("'.");
            Err(LpnlError::AddLocError { message, kind: AddLocErrorKind::NotFound })
        },
    }
}

/// A line typed at the mode prompt: `proxy` or `root` once trimmed; `None`
/// when the prompt must be shown again.
pub fn mode_from_input(input: String) -> (r: Option<LocMode>)
    ensures
        r == (if trim(input@) == "proxy"@ {
            Some(LocMode::Proxy)
        } else if trim(input@) == "root"@ {
            Some(LocMode::Root)
        } else {
            None
        }),
{
    let t = trimmed(input.as_str());
    let proxy = String::from_str("proxy");
    let root = String::from_str("root");
    if t == proxy {
        return Some(LocMode::Proxy);
    }
    if t == root {
        return Some(LocMode::Root);
    }
    None
}

/// The error for a root and a proxy given together.
pub open spec fn both_flags(e: LpnlError) -> bool {
    &&& e matches LpnlError::AddLocError { kind: AddLocErrorKind::InvalidInput, .. }
    &&& e.msg() == "You can use only 1 flag at a time."@
}

/// A location gets a root or a proxy, not both.
pub fn check_loc_flags(root_given: bool, proxy_given: bool) -> (r: Result<(), LpnlError>)
    ensures
        r is Ok <==> !(root_given && proxy_given),
        r matches Err(e) ==> both_flags(e),
{
    if proxy_given && root_given {
        return Err(
            LpnlError::AddLocError {
                message: String::from_str("You can use only 1 flag at a time."),
                kind: AddLocErrorKind::InvalidInput,
            },
        );
    }
    Ok(())
}

/// Where the content of a new location comes from.
#[derive(Debug, Clone)]
pub enum LocSource {
    /// Neither flag was given: the mode and its value are asked for.
    Ask,
    /// The mode and its checked value, from the flags.
    Given(LocMode, String),
}

/// What `add-loc` does once its arguments are checked: which domain and
/// location, which config file, and where the content comes from.
pub struct AddLocPlan {
    pub domain: String,
    pub location: String,
    pub target: String,
    pub source: LocSource,
    /// What the file system answered about the domain's configs.
    pub checks: ConfChecks,
}

/// The checks of `add-loc` in the order the command makes them: the flags,
/// the domain, the location, the config file (read from the file system, see
/// `add_loc_target`), then the root or proxy given by flag (whether a root
/// exists is read from the file system).
pub fn add_loc(domain: String, nloc: String, nroot: Option<String>, nproxy: Option<String>) -> (r:
    Result<AddLocPlan, LpnlError>)
    ensures
        nroot is Some && nproxy is Some ==> (r matches Err(e) && both_flags(e)),
        !(nroot is Some && nproxy is Some) && !domain_ok(domain@) ==> (r matches Err(e)
            && invalid_domain(e)),
        !(nroot is Some && nproxy is Some) && domain_ok(domain@) && !location_ok(nloc@) ==> (r matches Err(e)
            && invalid_location(e)),
        r matches Ok(p) ==> {
            &&& p.domain@ == domain@
            &&& p.location@ == nloc@
            &&& exists|f: ConfFacts| found(lookup_of(f)) && p.target@ == lookup_path(domain@, lookup_of(f))
            &&& edits_found_config(domain@, p.checks, p.target@)
            &&& match (nroot, nproxy) {
                (None, None) => p.source is Ask,
                (Some(root), _) => p.source matches LocSource::Given(m, v) && m == LocMode::Root
                    && v@ == root@ && plain_text_ok(root@),
                (None, Some(proxy)) => p.source matches LocSource::Given(m, v) && m == LocMode::Proxy
                    && v@ == proxy@ && url_parses(proxy@),
            }
        },
        r matches Err(e) ==> both_flags(e) || invalid_domain(e) || invalid_location(e) || (exists|
            f: ConfFacts,
        | add_loc_lookup_error(e, domain@, lookup_of(f))) || invalid_root(e) || invalid_proxy(e),
        r matches Err(e) && both_flags(e) ==> nroot is Some && nproxy is Some,
        r matches Err(e) && invalid_domain(e) ==> !(nroot is Some && nproxy is Some) && !domain_ok(domain@),
        r matches Err(e) && invalid_location(e) ==> !(nroot is Some && nproxy is Some) && domain_ok(domain@)
            && !location_ok(nloc@),
        r matches Err(e) && (exists|f: ConfFacts| add_loc_lookup_error(e, domain@, lookup_of(f))) ==> !(nroot is Some
            && nproxy is Some) && domain_ok(domain@) && location_ok(nloc@),
        r matches Err(e) && invalid_root(e) ==> nroot is Some && nproxy is None && domain_ok(domain@) && location_ok(
            nloc@,
        ),
        r matches Err(e) && invalid_proxy(e) ==> nroot is None && (nproxy matches Some(p) && !url_parses(p@))
            && domain_ok(domain@) && location_ok(nloc@),
{
    check_loc_flags(nroot.is_some(), nproxy.is_some())?;
    let domain = get_domain(domain)?;
    let location = get_location(nloc)?;
    let checks = read_conf(domain.as_str());
    let facts = facts_from(&checks);
    let target = add_loc_target(domain.as_str(), &facts)?;
    let source = match (nroot, nproxy) {
        (None, None) => LocSource::Ask,
        (Some(root), _) => LocSource::Given(LocMode::Root, get_root(root)?),
        (None, Some(proxy)) => LocSource::Given(LocMode::Proxy, get_proxy(proxy)?),
    };
    Ok(AddLocPlan { domain, location, target, source, checks })
}

} // verus!
