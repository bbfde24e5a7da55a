use vstd::prelude::*;

use crate::constants::{pushed_text, push_path, DEFAULT_DOMAIN, DEFAULT_PORT, WWW_ROOT_DIR};
use crate::error::{InitErrorKind, LpnlError};
use crate::text::{decimal, push_decimal};
use crate::validation::{
    domain_ok, get_domain, get_port, get_root, invalid_domain, invalid_port, invalid_root,
    plain_text_ok,
};

verus! {

broadcast use vstd::string::group_string_axioms;

/// The server block of a new config.
pub open spec fn server_conf_text(domain: Seq<char>, port: u16, root: Seq<char>) -> Seq<char> {
    "\nserver { \n    listen "@ + decimal(port as nat) + ";\n    server_name "@ + domain
        + ";\n    add_header X-Server: \"global\";\n    add_header X-Security: \"strict\";\n            \n    location / {\n        root "@
        + root + ";\n    }\n}"@
}

/// A new config; for a test it is wrapped so that nginx can read it alone.
pub open spec fn generated_config(domain: Seq<char>, port: u16, root: Seq<char>, is_for_test: bool) -> Seq<
    char,
> {
    if is_for_test {
        "events {  }  http { "@ + server_conf_text(domain, port, root) + " }"@
    } else {
        server_conf_text(domain, port, root)
    }
}

/// A new config that serves `domain` on `port` from `root`.
pub fn generate_config(domain: String, port: u16, root: String, is_for_test: bool) -> (r: String)
    ensures
        r@ == generated_config(domain@, port, root@, is_for_test),
{
    let mut conf = String::from_str("\nserver { \n    listen ");
    push_decimal(&mut conf, port as u64);
    conf.append(";\n    server_name ");
    conf.append(domain.as_str());
    conf.append(
        ";\n    add_header X-Server: \"global\";\n    add_header X-Security: \"strict\";\n            \n    location / {\n        root ",
    );
    conf.append(root.as_str());
    conf.append(";\n    }\n}");
    if is_for_test {
        let mut test_conf = String::from_str("events {  }  http { ");
        test_conf.append(conf.as_str());
        test_conf.append(" }");
        test_conf
    } else {
        conf
    }
}

/// The error for a domain that already has a config.
pub open spec fn already_initialized(e: LpnlError, domain: Seq<char>, enabled: bool, disabled: bool) -> bool {
    &&& e matches LpnlError::InitError { kind: InitErrorKind::AlreadyExists, .. }
    &&& e.msg() == "'"@ + domain + if enabled && disabled {
        "' is already initialized, enabled and disabled. Try removing file and initializing it again."@
    } else if enabled {
        "' is already initialized and enabled."@
    } else {
        "' is already initialized and disabled."@
    }
}

/// A new config may be written only where the domain has none yet.
pub fn init_conflict(enabled_exists: bool, disabled_exists: bool, domain: &str) -> (r: Result<(), LpnlError>)
    ensures
        r is Ok <==> !enabled_exists && !disabled_exists,
        r matches Err(e) ==> already_initialized(e, domain@, enabled_exists, disabled_exists),
{
    if !enabled_exists && !disabled_exists {
        return Ok(());
    }
    let mut message = String::from_str("'");
    message.append(domain);
    if enabled_exists && !disabled_exists {
        message.append("' is already initialized and enabled.");
    } else if !enabled_exists && disabled_exists {
        message.append("' is already initialized and disabled.");
    } else {
        message.append(
            "' is already initialized, enabled and disabled. Try removing file and initializing it again.",
        );
    }
    Err(LpnlError::InitError { message, kind: InitErrorKind::AlreadyExists })
}

/// A value of `init` that is settled, or that must be asked for.
#[derive(Debug, Clone)]
pub enum Resolved<T> {
    Value(T),
    Ask,
}

/// The domain of `init`: the given one, checked; `localhost` for a default
/// initialization; else it is asked for.
pub fn init_domain(domain: Option<String>, is_default: bool) -> (r: Result<Resolved<String>, LpnlError>)
    ensures
        match domain {
            Some(d) => if domain_ok(d@) {
                r matches Ok(Resolved::Value(v)) && v@ == d@
            } else {
                r matches Err(e) && invalid_domain(e)
            },
            None => if is_default {
                r matches Ok(Resolved::Value(v)) && v@ == DEFAULT_DOMAIN@
            } else {
                r matches Ok(Resolved::Ask)
            },
        },
{
    match domain {
        Some(d) => Ok(Resolved::Value(get_domain(d)?)),
        None => if is_default {
            Ok(Resolved::Value(String::from_str(DEFAULT_DOMAIN)))
        } else {
            Ok(Resolved::Ask)
        },
    }
}

/// The port of `init`: the given one, checked; 8080 for a default
/// initialization; else it is asked for.
pub fn init_port(port: Option<u16>, is_default: bool) -> (r: Result<Resolved<u16>, LpnlError>)
    ensures
        match port {
            Some(p) => if p != 0 {
                r matches Ok(Resolved::Value(v)) && v == p
            } else {
                r matches Err(e) && invalid_port(e)
            },
            None => if is_default {
                r matches Ok(Resolved::Value(v)) && v == DEFAULT_PORT
            } else {
                r matches Ok(Resolved::Ask)
            },
        },
{
    match port {
        Some(p) => Ok(Resolved::Value(get_port(p)?)),
        None => if is_default {
            Ok(Resolved::Value(DEFAULT_PORT))
        } else {
            Ok(Resolved::Ask)
        },
    }
}

/// Where the root of `init` comes from.
#[derive(Debug, Clone)]
pub enum RootChoice {
    /// The root given by flag, checked.
    Given(String),
    /// The default root of the domain, made when it is missing.
    Default(String),
    /// The root is asked for.
    Ask,
}

/// The root of `init`: the given one, checked (whether it exists is read
/// from the file system); the domain's folder under /var/www for a default
/// initialization; else it is asked for.
pub fn init_root(root: Option<String>, is_default: bool, domain: &str) -> (r: Result<RootChoice, LpnlError>)
    ensures
        match root {
            Some(d) => (r matches Ok(RootChoice::Given(v)) && v@ == d@ && plain_text_ok(d@)) || (r matches Err(e)
                && invalid_root(e)),
            None => if is_default {
                r matches Ok(RootChoice::Default(v)) && v@ == pushed_text(WWW_ROOT_DIR@, domain@)
            } else {
                r matches Ok(RootChoice::Ask)
            },
        },
{
    match root {
        Some(d) => Ok(RootChoice::Given(get_root(d)?)),
        None => if is_default {
            Ok(RootChoice::Default(push_path(WWW_ROOT_DIR, domain)))
        } else {
            Ok(RootChoice::Ask)
        },
    }
}

} // verus!
