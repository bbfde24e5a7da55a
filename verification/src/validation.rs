use vstd::prelude::*;

use crate::error::{LpnlError, ValidationErrorKind};
use crate::host::path_exists;
use crate::text::{chars_of, contains, contains_exec, lemma_trim_idempotent, parse_u16, starts_with, trim, trimmed, unsigned_text};

verus! {

broadcast use vstd::string::group_string_axioms;

/// Whether `url::Url::parse` accepts `input` as an absolute URL.
pub uninterp spec fn url_parses(input: Seq<char>) -> bool;

/// `url::Url::parse`, reduced to whether it succeeds. What it accepts is the
/// WHATWG URL grammar, which is only named here.
#[verifier::external_body]
fn url_parse_ok(input: &str) -> (r: bool)
    ensures
        r == url_parses(input@),
{
    match url::Url::parse(input) {
        Ok(_) => true,
        Err(_) => false,
    }
}

/// Trimmed, the text holds no `..` and is not empty.
pub open spec fn plain_text_ok(s: Seq<char>) -> bool {
    let t = trim(s);
    !contains(t, ".."@) && t.len() > 0
}

/// A valid domain: trimmed, it holds no `..` and is not empty.
pub open spec fn domain_ok(s: Seq<char>) -> bool {
    plain_text_ok(s)
}

/// A valid location: trimmed, it holds no `..`, is not empty, starts with `/`
/// and is not `/` alone.
pub open spec fn location_ok(s: Seq<char>) -> bool {
    let t = trim(s);
    &&& !contains(t, ".."@)
    &&& t.len() > 0
    &&& starts_with(t, "/"@)
    &&& t != "/"@
}

/// Whether the trimmed text holds no `..` and is not empty.
fn plain_text_validates(s: &str) -> (r: bool)
    ensures
        r == plain_text_ok(s@),
{
    let t = chars_of(trimmed(s).as_str());
    let dots = chars_of("..");
    !contains_exec(&t, &dots) && t.len() > 0
}

/// Whether `domain` may name a config.
pub fn domain_validates(domain: String) -> (r: bool)
    ensures
        r == domain_ok(domain@),
{
    plain_text_validates(domain.as_str())
}

/// Whether `port` may be listened on: any port but 0.
pub fn port_validates(port: u16) -> (r: bool)
    ensures
        r == (port != 0),
{
    if port == 0 {
        return false;
    }
    true
}

/// Whether a root directory is acceptable, given whether it exists: it must
/// exist, and trimmed its path holds no `..` and is not empty.
pub fn root_check(exists: bool, root: &str) -> (r: bool)
    ensures
        r == (exists && plain_text_ok(root@)),
{
    if exists {
        plain_text_validates(root)
    } else {
        false
    }
}

/// Whether `root` is an existing directory with an acceptable path. Whether it
/// exists is read from the file system; the text must pass `plain_text_ok`.
pub fn root_validates(root: String) -> (r: bool)
    ensures
        r ==> plain_text_ok(root@),
{
    let exists = path_exists(root.as_str()).found();
    root_check(exists, root.as_str())
}

/// Whether `nproxy` is an absolute URL.
pub fn proxy_validates(nproxy: String) -> (r: bool)
    ensures
        r == url_parses(nproxy@),
{
    url_parse_ok(nproxy.as_str())
}

/// Whether `loc` may name a location block.
pub fn location_validates(loc: String) -> (r: bool)
    ensures
        r == location_ok(loc@),
{
    let t = chars_of(trimmed(loc.as_str()).as_str());
    let dots = chars_of("..");
    proof {
        reveal_strlit("/");
    }
    if contains_exec(&t, &dots) || t.len() == 0 || t[0] != '/' {
        assert(t.len() > 0 && t[0] != '/' ==> !starts_with(t@, "/"@)) by {
            if t.len() > 0 && t[0] != '/' {
                assert(t@.subrange(0, 1)[0] == t@[0]);
            }
        }
        return false;
    }
    assert(starts_with(t@, "/"@)) by {
        assert(t@.subrange(0, 1) =~= "/"@);
    }
    if t.len() == 1 {
        assert(t@ =~= "/"@);
        return false;
    }
    true
}

/// The error for a refused domain.
pub open spec fn invalid_domain(e: LpnlError) -> bool {
    &&& e matches LpnlError::ValidationError { kind: ValidationErrorKind::InvalidDomain, .. }
    &&& e.msg() == "'..' and empty strings are not allowed."@
}

/// The domain given on the command line, checked.
pub fn get_domain(domain: String) -> (r: Result<String, LpnlError>)
    ensures
        r is Ok <==> domain_ok(domain@),
        r matches Ok(d) ==> d@ == domain@,
        r matches Err(e) ==> invalid_domain(e),
{
    if domain_validates(domain.clone()) {
        Ok(domain)
    } else {
        Err(
            LpnlError::ValidationError {
                message: String::from_str("'..' and empty strings are not allowed."),
                kind: ValidationErrorKind::InvalidDomain,
            },
        )
    }
}

/// A line typed at the domain prompt: the trimmed domain when it is valid,
/// `None` when the prompt must be shown again.
pub fn domain_from_input(input: String) -> (r: Option<String>)
    ensures
        r is Some <==> domain_ok(input@),
        r matches Some(d) ==> d@ == trim(input@),
{
    if !domain_validates(input.clone()) {
        return None;
    }
    Some(trimmed(input.as_str()))
}

/// The error for a refused root directory.
pub open spec fn invalid_root(e: LpnlError) -> bool {
    &&& e matches LpnlError::ValidationError { kind: ValidationErrorKind::InvalidRoot, .. }
    &&& e.msg() == "This root directory does not exist, contains '..' or is an empty string."@
}

/// The root directory given on the command line, checked; whether it exists
/// is read from the file system.
pub fn get_root(root: String) -> (r: Result<String, LpnlError>)
    ensures
        r matches Ok(d) ==> d@ == root@ && plain_text_ok(root@),
        !plain_text_ok(root@) ==> r is Err,
        r matches Err(e) ==> invalid_root(e),
{
    if root_validates(root.clone()) {
        Ok(root)
    } else {
        Err(
            LpnlError::ValidationError {
                message: String::from_str(
                    "This root directory does not exist, contains '..' or is an empty string.",
                ),
                kind: ValidationErrorKind::InvalidRoot,
            },
        )
    }
}

/// A line typed at the root prompt: the trimmed path when it names an
/// acceptable existing directory, `None` when the prompt must be shown again.
pub fn root_from_input(input: String) -> (r: Option<String>)
    ensures
        r matches Some(d) ==> d@ == trim(input@) && plain_text_ok(d@),
        !plain_text_ok(trim(input@)) ==> r is None,
{
    let dir = trimmed(input.as_str());
    if !root_validates(dir.clone()) {
        return None;
    }
    Some(dir)
}

/// The error for a refused port.
pub open spec fn invalid_port(e: LpnlError) -> bool {
    &&& e matches LpnlError::ValidationError { kind: ValidationErrorKind::InvalidPort, .. }
    &&& e.msg() == "Port should be an 'u16' integer value and not zero."@
}

/// The port given on the command line, checked.
pub fn get_port(port: u16) -> (r: Result<u16, LpnlError>)
    ensures
        r is Ok <==> port != 0,
        r matches Ok(p) ==> p == port,
        r matches Err(e) ==> invalid_port(e),
{
    if port_validates(port) {
        Ok(port)
    } else {
        Err(
            LpnlError::ValidationError {
                message: String::from_str("Port should be an 'u16' integer value and not zero."),
                kind: ValidationErrorKind::InvalidPort,
            },
        )
    }
}

/// What a line typed at the port prompt gives.
#[derive(Debug, Clone, Copy, PartialEq, Eq)]
pub enum PortInput {
    /// A port that may be used.
    Port(u16),
    /// The line is not a `u16`.
    NotANumber,
    /// The line is the port 0.
    Zero,
}

/// A line typed at the port prompt, read as a `u16` once trimmed.
pub fn port_from_input(input: String) -> (r: PortInput)
    ensures
        match unsigned_text(trim(input@)) {
            Some(v) => if v > u16::MAX {
                r == PortInput::NotANumber
            } else if v == 0 {
                r == PortInput::Zero
            } else {
                r == PortInput::Port(v as u16)
            },
            None => r == PortInput::NotANumber,
        },
{
    let t = trimmed(input.as_str());
    match parse_u16(t.as_str()) {
        Some(p) => {
            if !port_validates(p) {
                PortInput::Zero
            } else {
                PortInput::Port(p)
            }
        },
        None => PortInput::NotANumber,
    }
}

/// The error for a refused proxy.
pub open spec fn invalid_proxy(e: LpnlError) -> bool {
    &&& e matches LpnlError::ValidationError { kind: ValidationErrorKind::InvalidProxy, .. }
    &&& e.msg() == "Not a valid proxy URL."@
}

/// The proxy given on the command line, checked.
pub fn get_proxy(proxy: String) -> (r: Result<String, LpnlError>)
    ensures
        r is Ok <==> url_parses(proxy@),
        r matches Ok(p) ==> p@ == proxy@,
        r matches Err(e) ==> invalid_proxy(e),
{
    if !proxy_validates(proxy.clone()) {
        return Err(
            LpnlError::ValidationError {
                message: String::from_str("Not a valid proxy URL."),
                kind: ValidationErrorKind::InvalidProxy,
            },
        );
    }
    Ok(proxy)
}

/// A line typed at the proxy prompt: when the line as typed is a URL, the
/// trimmed line; `None` when the prompt must be shown again.
pub fn proxy_from_input(input: String) -> (r: Option<String>)
    ensures
        r is Some <==> url_parses(input@),
        r matches Some(p) ==> p@ == trim(input@),
{
    if !proxy_validates(input.clone()) {
        return None;
    }
    Some(trimmed(input.as_str()))
}

/// The error for a refused location.
pub open spec fn invalid_location(e: LpnlError) -> bool {
    &&& e matches LpnlError::ValidationError { kind: ValidationErrorKind::InvalidLocation, .. }
    &&& e.msg()
        == "This location contains '..', does not start with '/', is an empty string or is a root directory."@
}

/// The location given on the command line, checked.
pub fn get_location(location: String) -> (r: Result<String, LpnlError>)
    ensures
        r is Ok <==> location_ok(location@),
        r matches Ok(l) ==> l@ == location@,
        r matches Err(e) ==> invalid_location(e),
{
    if location_validates(location.clone()) {
        Ok(location)
    } else {
        Err(
            LpnlError::ValidationError {
                message: String::from_str(
                    "This location contains '..', does not start with '/', is an empty string or is a root directory.",
                ),
                kind: ValidationErrorKind::InvalidLocation,
            },
        )
    }
}

/// A line typed at the location prompt: the trimmed location when it is
/// valid, `None` when the prompt must be shown again.
pub fn location_from_input(input: String) -> (r: Option<String>)
    ensures
        r is Some <==> location_ok(input@),
        r matches Some(l) ==> l@ == trim(input@),
{
    if !location_validates(input.clone()) {
        return None;
    }
    Some(trimmed(input.as_str()))
}

/// What a prompt accepts, the check of a value given by flag accepts too:
/// the trimmed line a prompt returns for a domain, root path or location is
/// itself valid.
pub proof fn law_prompted_values_pass_flag_checks(input: Seq<char>)
    ensures
        domain_ok(input) ==> domain_ok(trim(input)),
        plain_text_ok(input) ==> plain_text_ok(trim(input)),
        location_ok(input) ==> location_ok(trim(input)),
{
    lemma_trim_idempotent(input);
}

} // verus!
