use vstd::prelude::*;

use crate::constants::{
    conf_path_text, disabled_conf_path, enabled_conf_path, join_path, push_path, pushed_text, NGINX_SITES_DISABLED_DIR,
    NGINX_SITES_ENABLED_DIR,
};
use crate::error::{LpnlError, StateErrorKind};
use crate::host::{path_exists, PathCheck};
use crate::text::{decimal, push_decimal};
use crate::validation::{domain_ok, get_domain, invalid_domain};

verus! {

broadcast use vstd::string::group_string_axioms;

/// Where the config of a domain stands.
#[derive(Debug, Clone)]
pub enum State {
    Enabled,
    Disabled,
    NotFound,
    EnabledAndDisabled,
    Unknown,
}

/// The state of a domain, given whether its config is among the enabled
/// ones and whether it is among the disabled ones.
pub open spec fn state_of(enabled: bool, disabled: bool) -> State {
    if enabled && disabled {
        State::EnabledAndDisabled
    } else if !enabled && !disabled {
        State::NotFound
    } else if enabled {
        State::Enabled
    } else {
        State::Disabled
    }
}

/// The state of a domain, given where its config file is found.
pub fn status_of(enabled_exists: bool, disabled_exists: bool) -> (s: State)
    ensures
        s == state_of(enabled_exists, disabled_exists),
{
    if disabled_exists && enabled_exists {
        State::EnabledAndDisabled
    } else if !disabled_exists && !enabled_exists {
        State::NotFound
    } else if !disabled_exists && enabled_exists {
        State::Enabled
    } else if disabled_exists && !enabled_exists {
        State::Disabled
    } else {
        State::Unknown
    }
}

/// The state of a domain's config together with what the file system
/// answered about its two config files.
#[derive(Debug, Clone)]
pub struct StatusReport {
    pub state: State,
    pub enabled_conf: PathCheck,
    pub disabled_conf: PathCheck,
}

/// The report gives the state of `domain` that its two checks show.
pub open spec fn status_report_of(domain: Seq<char>, r: StatusReport) -> bool {
    &&& r.enabled_conf.asked() == pushed_text(NGINX_SITES_ENABLED_DIR@, domain + ".conf"@)
    &&& r.disabled_conf.asked() == pushed_text(NGINX_SITES_DISABLED_DIR@, domain + ".conf"@)
    &&& r.state == state_of(r.enabled_conf.answer(), r.disabled_conf.answer())
}

/// The state of `domain`'s config and the answers it was read from.
pub fn status_report(domain: String) -> (r: Result<StatusReport, LpnlError>)
    ensures
        r is Ok <==> domain_ok(domain@),
        r matches Err(e) ==> invalid_domain(e),
        r matches Ok(s) ==> status_report_of(domain@, s),
{
    let domain = get_domain(domain)?;
    let mut conf_name = domain.clone();
    conf_name.append(".conf");
    let enabled = path_exists(push_path(NGINX_SITES_ENABLED_DIR, conf_name.as_str()).as_str());
    let disabled = path_exists(push_path(NGINX_SITES_DISABLED_DIR, conf_name.as_str()).as_str());
    let state = status_of(enabled.found(), disabled.found());
    Ok(StatusReport { state, enabled_conf: enabled, disabled_conf: disabled })
}

/// The state reported is the one the file system shows: enabled exactly
/// when the enabled config was found and the disabled one was not, disabled
/// in the opposite case, both or not found when both or neither were found.
pub proof fn law_status_is_what_was_found(domain: Seq<char>, r: StatusReport)
    requires
        status_report_of(domain, r),
    ensures
        r.state is Enabled <==> r.enabled_conf.answer() && !r.disabled_conf.answer(),
        r.state is Disabled <==> !r.enabled_conf.answer() && r.disabled_conf.answer(),
        r.state is EnabledAndDisabled <==> r.enabled_conf.answer() && r.disabled_conf.answer(),
        r.state is NotFound <==> !r.enabled_conf.answer() && !r.disabled_conf.answer(),
        r.enabled_conf.asked() == pushed_text(NGINX_SITES_ENABLED_DIR@, domain + ".conf"@),
        r.disabled_conf.asked() == pushed_text(NGINX_SITES_DISABLED_DIR@, domain + ".conf"@),
{
}

/// The state of `domain`'s config, read from the file system (see
/// `status_report`).
pub fn get_status(domain: String) -> (r: Result<State, LpnlError>)
    ensures
        r is Ok <==> domain_ok(domain@),
        r matches Err(e) ==> invalid_domain(e),
        r matches Ok(s) ==> exists|en: bool, dis: bool| s == state_of(en, dis),
{
    let report = status_report(domain)?;
    Ok(report.state)
}

/// A config file to move: from where, to where.
pub struct Move {
    pub from: String,
    pub to: String,
}

/// The error for a domain whose config is not where a move takes it from.
pub open spec fn move_not_found(e: LpnlError, domain: Seq<char>, enabling: bool) -> bool {
    &&& e matches LpnlError::StateError { kind: StateErrorKind::NotFound, .. }
    &&& e.msg() == "'"@ + domain + (if enabling {
        "' not found or its config file is already enabled."@
    } else {
        "' not found or its config file is already disabled."@
    })
}

/// The move that enables (`enabling`) or disables `domain`, given whether
/// its config is found where the move starts.
pub fn plan_move(domain: &str, source_exists: bool, enabling: bool) -> (r: Result<Move, LpnlError>)
    ensures
        r is Ok <==> source_exists,
        r matches Ok(m) ==> if enabling {
            &&& m.from@ == conf_path_text(NGINX_SITES_DISABLED_DIR@, domain@)
            &&& m.to@ == conf_path_text(NGINX_SITES_ENABLED_DIR@, domain@)
        } else {
            &&& m.from@ == conf_path_text(NGINX_SITES_ENABLED_DIR@, domain@)
            &&& m.to@ == conf_path_text(NGINX_SITES_DISABLED_DIR@, domain@)
        },
        r matches Err(e) ==> move_not_found(e, domain@, enabling),
{
    if !source_exists {
        let mut message = String::from_str("'");
        message.append(domain);
        if enabling {
            message.append("' not found or its config file is already enabled.");
        } else {
            message.append("' not found or its config file is already disabled.");
        }
        return Err(LpnlError::StateError { message, kind: StateErrorKind::NotFound });
    }
    if enabling {
        Ok(Move { from: disabled_conf_path(domain), to: enabled_conf_path(domain) })
    } else {
        Ok(Move { from: enabled_conf_path(domain), to: disabled_conf_path(domain) })
    }
}

/// A move to make, with what the file system answered about its source.
pub struct MovePlan {
    pub from: String,
    pub to: String,
    pub source: PathCheck,
}

/// Turns the move for `domain` into a plan that carries the check of its
/// source.
fn with_source(m: Result<Move, LpnlError>, source: PathCheck) -> (r: Result<MovePlan, LpnlError>)
    ensures
        m is Ok <==> r is Ok,
        m matches Err(e) ==> r == Err::<MovePlan, LpnlError>(e),
        r matches Ok(p) ==> m matches Ok(mv) && p.from@ == mv.from@ && p.to@ == mv.to@ && p.source == source,
{
    match m {
        Ok(mv) => Ok(MovePlan { from: mv.from, to: mv.to, source }),
        Err(e) => Err(e),
    }
}

/// The move that enables `domain`; whether its config is among the disabled
/// ones is read from the file system.
pub fn enable_domain(domain: String) -> (r: Result<MovePlan, LpnlError>)
    ensures
        !domain_ok(domain@) ==> (r matches Err(e) && invalid_domain(e)),
        r matches Ok(m) ==> m.from@ == conf_path_text(NGINX_SITES_DISABLED_DIR@, domain@)
            && m.to@ == conf_path_text(NGINX_SITES_ENABLED_DIR@, domain@),
        r matches Ok(m) ==> m.source.asked() == m.from@ && m.source.answer(),
        r matches Err(e) ==> invalid_domain(e) || move_not_found(e, domain@, true),
        r matches Err(e) && invalid_domain(e) ==> !domain_ok(domain@),
        r matches Err(e) && move_not_found(e, domain@, true) ==> domain_ok(domain@),
{
    let domain = get_domain(domain)?;
    let source = path_exists(disabled_conf_path(domain.as_str()).as_str());
    let m = plan_move(domain.as_str(), source.found(), true);
    with_source(m, source)
}

/// The move that disables `domain`; whether its config is among the enabled
/// ones is read from the file system.
pub fn disable_domain(domain: String) -> (r: Result<MovePlan, LpnlError>)
    ensures
        !domain_ok(domain@) ==> (r matches Err(e) && invalid_domain(e)),
        r matches Ok(m) ==> m.from@ == conf_path_text(NGINX_SITES_ENABLED_DIR@, domain@)
            && m.to@ == conf_path_text(NGINX_SITES_DISABLED_DIR@, domain@),
        r matches Ok(m) ==> m.source.asked() == m.from@ && m.source.answer(),
        r matches Err(e) ==> invalid_domain(e) || move_not_found(e, domain@, false),
        r matches Err(e) && invalid_domain(e) ==> !domain_ok(domain@),
        r matches Err(e) && move_not_found(e, domain@, false) ==> domain_ok(domain@),
{
    let domain = get_domain(domain)?;
    let source = path_exists(enabled_conf_path(domain.as_str()).as_str());
    let m = plan_move(domain.as_str(), source.found(), false);
    with_source(m, source)
}

/// A config is moved only from where the file system found it: enabling
/// moves the domain's disabled config, which was found, into the enabled
/// folder; disabling moves the enabled one, which was found, into the
/// disabled folder; and the file moved is never the one it is moved to.
pub proof fn law_moves_a_found_config(domain: Seq<char>, m: MovePlan, enabling: bool)
    requires
        m.source.asked() == m.from@,
        m.source.answer(),
        enabling ==> m.from@ == conf_path_text(NGINX_SITES_DISABLED_DIR@, domain) && m.to@ == conf_path_text(
            NGINX_SITES_ENABLED_DIR@,
            domain,
        ),
        !enabling ==> m.from@ == conf_path_text(NGINX_SITES_ENABLED_DIR@, domain) && m.to@ == conf_path_text(
            NGINX_SITES_DISABLED_DIR@,
            domain,
        ),
    ensures
        m.source.answer() && m.source.asked() == (if enabling {
            conf_path_text(NGINX_SITES_DISABLED_DIR@, domain)
        } else {
            conf_path_text(NGINX_SITES_ENABLED_DIR@, domain)
        }),
        m.from@ != m.to@,
{
    lemma_conf_paths_differ(domain);
}

/// Disabling undoes enabling: the move that disables a domain takes its
/// config from where enabling puts it, back to where enabling took it from.
pub proof fn law_disable_undoes_enable(domain: Seq<char>, en: Move, dis: Move)
    requires
        en.from@ == conf_path_text(NGINX_SITES_DISABLED_DIR@, domain),
        en.to@ == conf_path_text(NGINX_SITES_ENABLED_DIR@, domain),
        dis.from@ == conf_path_text(NGINX_SITES_ENABLED_DIR@, domain),
        dis.to@ == conf_path_text(NGINX_SITES_DISABLED_DIR@, domain),
    ensures
        dis.from@ == en.to@,
        dis.to@ == en.from@,
{
}

/// The files, as a map from path to content, after the file at `from` is
/// moved to `to` (copied there, then deleted).
pub open spec fn files_after_move(files: Map<Seq<char>, Seq<char>>, from: Seq<char>, to: Seq<char>) -> Map<
    Seq<char>,
    Seq<char>,
> {
    files.remove(from).insert(to, files[from])
}

/// A domain's enabled and disabled config paths differ.
pub proof fn lemma_conf_paths_differ(domain: Seq<char>)
    ensures
        conf_path_text(NGINX_SITES_ENABLED_DIR@, domain) != conf_path_text(NGINX_SITES_DISABLED_DIR@, domain),
{
    reveal_strlit("/etc/nginx/sites-enabled");
    reveal_strlit("/etc/nginx/sites-disabled");
    let a = conf_path_text(NGINX_SITES_ENABLED_DIR@, domain);
    let b = conf_path_text(NGINX_SITES_DISABLED_DIR@, domain);
    assert(a[17] == NGINX_SITES_ENABLED_DIR@[17]);
    assert(b[17] == NGINX_SITES_DISABLED_DIR@[17]);
}

/// Disabling undoes enabling on the files: when the config is among the
/// disabled ones and not among the enabled ones, carrying out the move that
/// enables it, then the move that disables it, leaves every file as it was.
pub proof fn law_enable_then_disable_restores_files(
    domain: Seq<char>,
    en: Move,
    dis: Move,
    files: Map<Seq<char>, Seq<char>>,
)
    requires
        en.from@ == conf_path_text(NGINX_SITES_DISABLED_DIR@, domain),
        en.to@ == conf_path_text(NGINX_SITES_ENABLED_DIR@, domain),
        dis.from@ == conf_path_text(NGINX_SITES_ENABLED_DIR@, domain),
        dis.to@ == conf_path_text(NGINX_SITES_DISABLED_DIR@, domain),
        files.dom().contains(en.from@),
        !files.dom().contains(en.to@),
    ensures
        files_after_move(files_after_move(files, en.from@, en.to@), dis.from@, dis.to@) == files,
{
    lemma_conf_paths_differ(domain);
    let f1 = files_after_move(files, en.from@, en.to@);
    assert(files_after_move(f1, dis.from@, dis.to@) =~= files);
}

/// The moves that take every file `names` lists from one folder to the other.
pub fn plan_move_all(names: &Vec<String>, enabling: bool) -> (r: Vec<Move>)
    ensures
        r@.len() == names@.len(),
        forall|i: int|
            0 <= i < names@.len() ==> {
                let (src, dst) = if enabling {
                    (NGINX_SITES_DISABLED_DIR@, NGINX_SITES_ENABLED_DIR@)
                } else {
                    (NGINX_SITES_ENABLED_DIR@, NGINX_SITES_DISABLED_DIR@)
                };
                &&& (#[trigger] r@[i]).from@ == src + "/"@ + names@[i]@
                &&& r@[i].to@ == dst + "/"@ + names@[i]@
            },
{
    let mut r: Vec<Move> = Vec::new();
    let (src, dst) = if enabling {
        (NGINX_SITES_DISABLED_DIR, NGINX_SITES_ENABLED_DIR)
    } else {
        (NGINX_SITES_ENABLED_DIR, NGINX_SITES_DISABLED_DIR)
    };
    for k in 0..names.len()
        invariant
            r@.len() == k,
            src@ == (if enabling {
                NGINX_SITES_DISABLED_DIR@
            } else {
                NGINX_SITES_ENABLED_DIR@
            }),
            dst@ == (if enabling {
                NGINX_SITES_ENABLED_DIR@
            } else {
                NGINX_SITES_DISABLED_DIR@
            }),
            forall|i: int|
                0 <= i < k ==> {
                    &&& (#[trigger] r@[i]).from@ == src@ + "/"@ + names@[i]@
                    &&& r@[i].to@ == dst@ + "/"@ + names@[i]@
                },
    {
        let name = names[k].as_str();
        r.push(Move { from: join_path(src, name), to: join_path(dst, name) });
    }
    r
}

/// The lines that list the moved files: `  - name` each.
pub open spec fn moved_lines(names: Seq<Seq<char>>) -> Seq<char>
    decreases names.len(),
{
    if names.len() == 0 {
        Seq::empty()
    } else {
        moved_lines(names.drop_last()) + "  - "@ + names.last() + "\n"@
    }
}

/// The report after moving every config: how many and which.
pub open spec fn moved_report_text(names: Seq<Seq<char>>, enabling: bool) -> Seq<char> {
    (if enabling {
        "\nEnabled "@
    } else {
        "\nDisabled "@
    }) + decimal(names.len()) + " configs:\n"@ + moved_lines(names)
}

/// The report after moving every config.
pub fn moved_report(names: &Vec<String>, enabling: bool) -> (r: String)
    requires
        names@.len() <= u32::MAX,
    ensures
        r@ == moved_report_text(names@.map_values(|n: String| n@), enabling),
{
    let ghost views = names@.map_values(|n: String| n@);
    let mut list = String::new();
    for k in 0..names.len()
        invariant
            views == names@.map_values(|n: String| n@),
            list@ == moved_lines(views.take(k as int)),
    {
        list.append("  - ");
        list.append(names[k].as_str());
        list.append("\n");
        assert(views.take(k + 1).drop_last() =~= views.take(k as int));
    }
    assert(views.take(names@.len() as int) =~= views);
    let mut r = if enabling {
        String::from_str("\nEnabled ")
    } else {
        String::from_str("\nDisabled ")
    };
    push_decimal(&mut r, names.len() as u64);
    r.append(" configs:\n");
    r.append(list.as_str());
    r
}

} // verus!
