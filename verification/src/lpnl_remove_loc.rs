use vstd::prelude::*;

use crate::conf_target::{edits_found_config, facts_from, read_conf, ConfChecks, found, lookup_of, lookup_path, remove_loc_lookup_error, remove_loc_target, ConfFacts};
use crate::error::{LpnlError, RemoveLocErrorKind};
use crate::lpnl_add_loc::{block_closing, block_opening, loc_block_text, location_block, LocMode};
use crate::text::{
    any_line_contains, chars_of, contains, find, find_from, find_from_exec, first_line_trim_prefixed,
    lemma_find_contains, lemma_find_from, lemma_first_line_trim_prefixed, lemma_lines_occur,
    lemma_occurrence_in_line, lemma_occurs_within, lemma_replace_first, lemma_trim_len, lines,
    occurs_at, replace, replace_all, some_line_contains, starts_with, trim, strip_ws, is_ws, lemma_strip_add,
    lemma_strip_trim, lemma_strip_replace, lemma_replace_absent, lemma_replace_skip, lemma_trim_idempotent,
};
use crate::validation::{domain_ok, get_domain, get_location, invalid_domain, invalid_location, location_ok};

verus! {

broadcast use vstd::string::group_string_axioms;

/// What `remove-loc` works on once its arguments are checked.
pub struct RemoveLocPlan {
    pub domain: String,
    pub location: String,
    pub target: String,
    /// What the file system answered about the domain's configs.
    pub checks: ConfChecks,
}

/// The checks of `remove-loc` in the order the command makes them: the
/// domain, the location, then the config file (read from the file system,
/// see `remove_loc_target`).
pub fn remove_loc(domain: String, location: String) -> (r: Result<RemoveLocPlan, LpnlError>)
    ensures
        !domain_ok(domain@) ==> (r matches Err(e) && invalid_domain(e)),
        domain_ok(domain@) && !location_ok(location@) ==> (r matches Err(e) && invalid_location(e)),
        r matches Ok(p) ==> {
            &&& p.domain@ == domain@
            &&& p.location@ == location@
            &&& exists|f: ConfFacts| found(lookup_of(f)) && p.target@ == lookup_path(domain@, lookup_of(f))
            &&& edits_found_config(domain@, p.checks, p.target@)
        },
        r matches Err(e) ==> invalid_domain(e) || invalid_location(e) || exists|f: ConfFacts|
            remove_loc_lookup_error(e, domain@, lookup_of(f)),
        r matches Err(e) && invalid_domain(e) ==> !domain_ok(domain@),
        r matches Err(e) && invalid_location(e) ==> domain_ok(domain@) && !location_ok(location@),
        r matches Err(e) && (exists|f: ConfFacts| remove_loc_lookup_error(e, domain@, lookup_of(f))) ==> domain_ok(
            domain@,
        ) && location_ok(location@),
{
    let domain = get_domain(domain)?;
    let location = get_location(location)?;
    let checks = read_conf(domain.as_str());
    let facts = facts_from(&checks);
    let target = remove_loc_target(domain.as_str(), &facts)?;
    Ok(RemoveLocPlan { domain, location, target, checks })
}

/// The head of the block of `location`: `location <location> {`.
pub open spec fn block_head(location: Seq<char>) -> Seq<char> {
    "location "@ + location + " {"@
}

/// The part of `conf` that removing `location` cuts out, as positions: from
/// the first `location <location> {` to two characters past the first `}`
/// after it (the `}` and the line feed that should follow it).
pub open spec fn removal_span(conf: Seq<char>, location: Seq<char>) -> Option<(int, int)> {
    match find(conf, block_head(location)) {
        None => None,
        Some(li) => match find_from(conf, "}"@, li) {
            None => None,
            Some(bb) => Some((li, bb + 2)),
        },
    }
}

/// Cutting at the end of the span is possible: the span ends inside the
/// text, after a one-byte character. (Otherwise the cut, made on the bytes of
/// the text, falls outside it or inside a character.)
pub open spec fn span_cuttable(conf: Seq<char>, location: Seq<char>) -> bool {
    some_line_contains(lines(conf), location) ==> match removal_span(conf, location) {
        Some((li, bi)) => bi <= conf.len() && (conf[bi - 1] as u32) < 0x80,
        None => true,
    }
}

/// The error for a location block that is not found.
pub open spec fn block_not_found(e: LpnlError, location: Seq<char>, target: Seq<char>) -> bool {
    &&& e matches LpnlError::RemoveLocError { kind: RemoveLocErrorKind::NotFound, .. }
    &&& e.msg() == "Unable to find the 'location "@ + location + "' block in '"@ + target + "'."@
}

/// Where the block of `location` starts and where its first `}` is.
fn span_exec(cv: &Vec<char>, location: &str) -> (r: Option<(usize, usize)>)
    ensures
        r is None <==> removal_span(cv@, location@) is None,
        r matches Some((a, b)) ==> removal_span(cv@, location@) == Some((a as int, b + 2)) && a <= b
            && b < cv@.len(),
{
    let mut head = String::from_str("location ");
    head.append(location);
    head.append(" {");
    let hv = chars_of(head.as_str());
    let close = chars_of("}");
    match find_from_exec(cv, &hv, 0) {
        None => None,
        Some(li) => match find_from_exec(cv, &close, li) {
            None => None,
            Some(bb) => {
                proof {
                    reveal_strlit("}");
                    lemma_find_from(cv@, close@, li as int);
                }
                Some((li, bb))
            },
        },
    }
}

/// Whether removing `location` from `conf` can cut where it means to (see
/// `span_cuttable`); when it cannot, the command stops as on a bad cut.
pub fn removal_cuttable(conf: &str, location: &str) -> (r: bool)
    ensures
        r == span_cuttable(conf@, location@),
{
    let cv = chars_of(conf);
    let lv = chars_of(location);
    if !any_line_contains(&cv, &lv) {
        return true;
    }
    match span_exec(&cv, location) {
        None => true,
        Some((li, bb)) => {
            assert(cv@.len() == cv.len());
            bb < cv.len() - 1 && (cv[bb + 1] as u32) < 0x80
        },
    }
}

/// `conf` (read from `target`) without the block of `location`: when some
/// line mentions `location`, the span `removal_span` gives is cut out,
/// wherever its text occurs.
pub fn remove_location(conf: &str, location: &str, target: &str) -> (r: Result<String, LpnlError>)
    requires
        span_cuttable(conf@, location@),
    ensures
        !some_line_contains(lines(conf@), location@) ==> (r matches Err(e) && block_not_found(
            e,
            location@,
            target@,
        )),
        some_line_contains(lines(conf@), location@) ==> match removal_span(conf@, location@) {
            None => r matches Err(e) && block_not_found(e, location@, target@),
            Some((li, bi)) => r matches Ok(s) && s@ == replace(conf@, conf@.subrange(li, bi), Seq::empty()),
        },
{
    let cv = chars_of(conf);
    let lv = chars_of(location);
    let mut message = String::from_str("Unable to find the 'location ");
    message.append(location);
    message.append("' block in '");
    message.append(target);
    message.append("'.");
    if !any_line_contains(&cv, &lv) {
        return Err(LpnlError::RemoveLocError { message, kind: RemoveLocErrorKind::NotFound });
    }
    match span_exec(&cv, location) {
        None => Err(LpnlError::RemoveLocError { message, kind: RemoveLocErrorKind::NotFound }),
        Some((li, bb)) => {
            assert(cv@.len() == cv.len());
            assert(removal_span(conf@, location@) == Some((li as int, bb + 2)));
            assert(bb + 2 <= conf@.len());
            let part = conf.substring_char(li, bb + 2);
            assert(part@.len() >= 2);
            proof {
                reveal_strlit("");
            }
            assert(""@ =~= Seq::<char>::empty());
            Ok(replace_all(conf, part, ""))
        },
    }
}

/// A block's closing text ends with its brace and a line feed, and holds no
/// other closing brace.
proof fn lemma_closing(mode: LocMode)
    ensures
        ({
            let close = block_closing(mode);
            &&& close.len() >= 2
            &&& close[close.len() - 2] == '}'
            &&& close[close.len() - 1] == '\n'
            &&& forall|m: int| 0 <= m < close.len() - 2 ==> close[m] != '}'
        }),
{
    reveal_strlit("; }\n");
    reveal_strlit(";\n                    proxy_set_header Host $host;\n                    proxy_set_header X-Forwarded-For $proxy_add_x_forwarded_for;\n                    proxy_set_header X-Real-IP $remote_addr;\n                }\n");
}

/// The shape of a written block: its head, the location in it, and its only
/// closing brace, second to last before the final line feed.
proof fn lemma_block_shape(location: Seq<char>, data: Seq<char>, mode: LocMode)
    requires
        forall|k: int| 0 <= k < location.len() ==> location[k] != '\n' && location[k] != '}',
        forall|k: int| 0 <= k < data.len() ==> data[k] != '}',
    ensures
        ({
            let w = location_block(location, data, mode);
            let n = location.len() as int;
            let x1 = "location "@ + location;
            &&& w.subrange(0, 9 + n) == x1
            &&& w.subrange(9, 9 + n) == location
            &&& w.subrange(0, 11 + n) == block_head(location)
            &&& w[9 + n] == ' '
            &&& x1.len() == 9 + n
            &&& forall|j: int| 0 <= j < x1.len() ==> x1[j] != '\n'
            &&& forall|j: int| 0 <= j < 11 + n ==> block_head(location)[j] != '\n'
            &&& block_head(location)[0] == 'l'
            &&& block_head(location).len() == 11 + n
            &&& w.len() >= 11 + n + 2
            &&& w[w.len() - 2] == '}'
            &&& w[w.len() - 1] == '\n'
            &&& forall|m: int| 0 <= m < w.len() - 2 ==> w[m] != '}'
        }),
{
    reveal_strlit("location ");
    reveal_strlit(" {");
    reveal_strlit(" { root ");
    reveal_strlit(" {\n                    proxy_pass ");
    lemma_closing(mode);
    let w = location_block(location, data, mode);
    let n = location.len() as int;
    let open = block_opening(mode);
    let close = block_closing(mode);
    let head = block_head(location);
    assert(open[0] == ' ' && open[1] == '{');
    assert(w.subrange(0, 9 + n) =~= "location "@ + location);
    assert(w.subrange(9, 9 + n) =~= location);
    assert(w.subrange(0, 11 + n) =~= head);
    assert forall|j: int| 0 <= j < 11 + n implies head[j] != '\n' by {
        if 9 <= j < 9 + n {
            assert(head[j] == location[j - 9]);
        }
    }
    let o = 9 + n;
    let d = o + open.len();
    let e = d + data.len();
    assert(w.len() == e + close.len());
    assert forall|m: int| 0 <= m < w.len() - 2 implies w[m] != '}' by {
        if m < 9 {
        } else if m < o {
            assert(w[m] == location[m - 9]);
        } else if m < d {
            assert(w[m] == open[m - o]);
        } else if m < e {
            assert(w[m] == data[m - d]);
        } else {
            assert(w[m] == close[m - e]);
        }
    }
    assert(w[w.len() - 2] == close[close.len() - 2]);
    assert(w[w.len() - 1] == close[close.len() - 1]);
}

/// A config none of whose lines mentions `location <location>` holds no
/// block head of that location.
proof fn lemma_no_head(conf: Seq<char>, location: Seq<char>)
    requires
        forall|k: int| 0 <= k < location.len() ==> location[k] != '\n',
        !some_line_contains(lines(conf), "location "@ + location),
    ensures
        !contains(conf, block_head(location)),
{
    reveal_strlit("location ");
    reveal_strlit(" {");
    let x1 = "location "@ + location;
    let head = block_head(location);
    let n = location.len() as int;
    if contains(conf, head) {
        let j = choose|j: int| occurs_at(conf, head, j);
        assert(head.subrange(0, x1.len() as int) =~= x1);
        assert(conf.subrange(j, j + x1.len()) =~= head.subrange(0, x1.len() as int));
        assert(occurs_at(conf, x1, j));
        assert(conf[j + x1.len()] == head[x1.len() as int]);
        assert(head[x1.len() as int] == ' ');
        assert forall|k: int| 0 <= k < x1.len() implies x1[k] != '\n' by {
            if k >= 9 {
                assert(x1[k] == location[k - 9]);
            }
        }
        lemma_occurrence_in_line(conf, x1, j);
    }
}

/// In `conf.take(i0) + b + rest`, where `b` begins with a line feed and
/// sixteen spaces and `conf` holds no head of a block of `location`, that
/// head first occurs at or after `i0 + 17`.
proof fn lemma_head_not_before(conf: Seq<char>, b: Seq<char>, rest: Seq<char>, location: Seq<char>, i0: int)
    requires
        0 <= i0 <= conf.len(),
        b.len() >= 17,
        b[0] == '\n',
        forall|m: int| 1 <= m < 17 ==> b[m] == ' ',
        !contains(conf, block_head(location)),
        ({
            let head = block_head(location);
            &&& head.len() > 0
            &&& head[0] == 'l'
            &&& forall|j: int| 0 <= j < head.len() ==> head[j] != '\n'
        }),
    ensures
        forall|j: int| 0 <= j < i0 + 17 ==> !occurs_at(conf.take(i0) + b + rest, block_head(location), j),
{
    let added = conf.take(i0) + b + rest;
    let head = block_head(location);
    assert forall|j: int| 0 <= j < i0 + 17 implies !occurs_at(added, head, j) by {
        if occurs_at(added, head, j) {
            if j + head.len() <= i0 {
                assert(added.subrange(j, j + head.len()) =~= conf.subrange(j, j + head.len()));
                assert(occurs_at(conf, head, j));
            } else if j <= i0 {
                assert(added[i0] == b[0]);
                assert(added.subrange(j, j + head.len())[i0 - j] == added[i0]);
            } else {
                assert(added[j] == b[j - i0]);
                assert(added.subrange(j, j + head.len())[0] == added[j]);
            }
        }
    }
}

/// Where the first replacement lands: `conf` up to the first occurrence of
/// the line, then the new text, then the rest replaced in turn.
proof fn lemma_first_insertion(conf: Seq<char>, location: Seq<char>, data: Seq<char>, mode: LocMode) -> (r:
    (int, Seq<char>))
    requires
        first_line_trim_prefixed(lines(conf), "location / {"@) is Some,
    ensures
        ({
            let l = first_line_trim_prefixed(lines(conf), "location / {"@)->0;
            let b = loc_block_text(location, data, mode);
            &&& 0 <= r.0 <= conf.len()
            &&& replace(conf, l, b) == conf.take(r.0) + b + r.1
        }),
{
    reveal_strlit("location / {");
    let ls = lines(conf);
    let l = first_line_trim_prefixed(ls, "location / {"@)->0;
    lemma_first_line_trim_prefixed(ls, "location / {"@);
    lemma_trim_len(l);
    lemma_lines_occur(conf, 0);
    let k = choose|k: int| 0 <= k < ls.len() && ls[k] == l;
    assert(contains(conf, ls[k]));
    lemma_find_contains(conf, l);
    let i0 = find(conf, l)->0;
    let b = loc_block_text(location, data, mode);
    lemma_replace_first(conf, l, b, i0);
    (i0, replace(conf.skip(i0 + l.len()), l, b))
}

/// The text put in place of the `location / {` line: a line feed, sixteen
/// spaces, then the block.
proof fn lemma_inserted_shape(location: Seq<char>, data: Seq<char>, mode: LocMode)
    ensures
        ({
            let b = loc_block_text(location, data, mode);
            let w = location_block(location, data, mode);
            &&& b.len() >= 17 + w.len()
            &&& b[0] == '\n'
            &&& forall|m: int| 1 <= m < 17 ==> b[m] == ' '
            &&& b.subrange(17, 17 + w.len() as int) == w
        }),
{
    reveal_strlit("\n                ");
    let b = loc_block_text(location, data, mode);
    let w = location_block(location, data, mode);
    assert(b.subrange(17, 17 + w.len() as int) =~= w);
}

/// The first occurrence of `x` is at `q` when it occurs there and nowhere before.
proof fn lemma_found_at(s: Seq<char>, x: Seq<char>, q: int)
    requires
        occurs_at(s, x, q),
        forall|j: int| 0 <= j < q ==> !occurs_at(s, x, j),
    ensures
        find(s, x) == Some(q),
{
    lemma_find_contains(s, x);
}

/// In a text where a written block stands at `wq`, the first closing brace
/// at or after `wq` is the block's own.
proof fn lemma_block_brace(s: Seq<char>, w: Seq<char>, wq: int)
    requires
        occurs_at(s, w, wq),
        w.len() >= 2,
        w[w.len() - 2] == '}',
        forall|m: int| 0 <= m < w.len() - 2 ==> w[m] != '}',
    ensures
        find_from(s, "}"@, wq) == Some(wq + w.len() - 2),
{
    reveal_strlit("}");
    let c = wq + w.len() - 2;
    assert(s[c] == w[w.len() - 2]);
    assert(s.subrange(c, c + 1) =~= "}"@);
    assert forall|j: int| wq <= j < c implies !occurs_at(s, "}"@, j) by {
        assert(s[j] == w[j - wq]);
        if occurs_at(s, "}"@, j) {
            assert(s.subrange(j, j + 1)[0] == s[j]);
        }
    }
    assert(occurs_at(s, "}"@, c));
    lemma_find_from(s, "}"@, wq);
    if let Some(k) = find_from(s, "}"@, wq) {
        assert(k == c);
    }
}

/// Removing a location cuts out the block that adding it wrote. After the
/// insertion `insert_location` makes into `conf` (of a valid location, where
/// neither the location nor the content holds a closing brace and the location
/// holds no line feed): the new block is in the config; some line mentions
/// `location <location>`, so adding it again is refused; some line mentions
/// the location and the cut can be made, so `remove_location` succeeds; and
/// the span it cuts is exactly the block that was written, from its head
/// through the line feed after its closing brace.
pub proof fn law_remove_cuts_added_block(conf: Seq<char>, location: Seq<char>, data: Seq<char>, mode: LocMode)
    requires
        location_ok(location),
        forall|k: int| 0 <= k < location.len() ==> location[k] != '\n' && location[k] != '}',
        forall|k: int| 0 <= k < data.len() ==> data[k] != '}',
        !some_line_contains(lines(conf), "location "@ + location),
        first_line_trim_prefixed(lines(conf), "location / {"@) is Some,
    ensures
        ({
            let l = first_line_trim_prefixed(lines(conf), "location / {"@)->0;
            let added = replace(conf, l, loc_block_text(location, data, mode));
            &&& contains(added, loc_block_text(location, data, mode))
            &&& some_line_contains(lines(added), "location "@ + location)
            &&& some_line_contains(lines(added), location)
            &&& span_cuttable(added, location)
            &&& removal_span(added, location) matches Some((li, bi)) && added.subrange(li, bi)
                == location_block(location, data, mode)
        }),
{
    let l = first_line_trim_prefixed(lines(conf), "location / {"@)->0;
    let b = loc_block_text(location, data, mode);
    let w = location_block(location, data, mode);
    let head = block_head(location);
    let x1 = "location "@ + location;
    let n = location.len() as int;
    let (i0, rest) = lemma_first_insertion(conf, location, data, mode);
    let added = replace(conf, l, b);
    assert(added.subrange(i0, i0 + b.len()) =~= b);
    assert(occurs_at(added, b, i0));
    lemma_inserted_shape(location, data, mode);
    lemma_block_shape(location, data, mode);
    lemma_trim_len(location);
    lemma_occurs_within(added, b, w, i0, 17);
    let wq = i0 + 17;
    // `location <location>`, then the location alone, each followed by a space
    lemma_occurs_within(added, w, x1, wq, 0);
    lemma_occurs_within(added, w, location, wq, 9);
    assert(added[wq + 9 + n] == w[9 + n]);
    lemma_occurrence_in_line(added, x1, wq);
    lemma_occurrence_in_line(added, location, wq + 9);
    // the head of the block is found first where the block was written
    lemma_occurs_within(added, w, head, wq, 0);
    assert(head.subrange(0, 9 + n) =~= x1);
    assert(head[9 + n] == w[9 + n]);
    lemma_no_head(conf, location);
    lemma_head_not_before(conf, b, rest, location, i0);
    lemma_found_at(added, head, wq);
    // and its first closing brace is the one the block ends with
    lemma_block_brace(added, w, wq);
    let c = wq + w.len() as int - 2;
    assert(removal_span(added, location) == Some((wq, c + 2)));
    assert(added.subrange(wq, c + 2) =~= w);
    assert(added[c + 1] == w[w.len() - 1]);
}

/// What follows a written block: the blank line and the `location / {` line.
pub open spec fn block_tail() -> Seq<char> {
    "                \n                location / {"@
}

/// What a `location / {` line becomes once a location is added and removed
/// again: a line feed and indentation, a blank line, then `location / {`.
pub open spec fn readded_root_line() -> Seq<char> {
    "\n                "@ + block_tail()
}

/// What follows `location / {` in the head of a block of a location that
/// begins with `/ {`.
pub open spec fn head_after_root(location: Seq<char>) -> Seq<char> {
    location.skip(3) + " {"@
}

/// The text after a written block holds no head of a block of `location`
/// starting inside it, unless the location begins with `/ {` and what follows
/// the block continues that head.
proof fn lemma_tail_no_head(rest: Seq<char>, location: Seq<char>)
    requires
        location != "/"@,
        starts_with(location, "/ {"@) ==> !starts_with(rest, head_after_root(location)),
    ensures
        forall|j: int| 0 <= j < block_tail().len() ==> !occurs_at(block_tail() + rest, block_head(location), j),
{
    reveal_strlit("                \n                location / {");
    reveal_strlit("location ");
    reveal_strlit(" {");
    reveal_strlit("/ {");
    reveal_strlit("/");
    let t = block_tail() + rest;
    let head = block_head(location);
    let n = location.len() as int;
    assert(block_tail().len() == 45);
    assert(head.len() == 11 + n);
    assert(head[0] == 'l');
    assert forall|j: int| 0 <= j < 45 implies !occurs_at(t, head, j) by {
        if occurs_at(t, head, j) {
            assert(t.subrange(j, j + head.len())[0] == t[j]);
            assert(t[j] == block_tail()[j]);
            if j == 33 {
                assert(t.subrange(j, j + head.len())[9] == t[42]);
                assert(t.subrange(j, j + head.len())[10] == t[43]);
                assert(t.subrange(j, j + head.len())[11] == t[44]);
                assert(t[42] == '/' && t[43] == ' ' && t[44] == '{');
                if n == 0 {
                    assert(head[9] == ' ');
                } else if n == 1 {
                    assert(head[9] == location[0]);
                    assert(location =~= "/"@);
                } else if n == 2 {
                    assert(head[11] == ' ');
                } else {
                    assert(head[9] == location[0] && head[10] == location[1] && head[11] == location[2]);
                    assert(location.subrange(0, 3) =~= "/ {"@);
                    let y = head_after_root(location);
                    assert(head.subrange(12, head.len() as int) =~= y);
                    assert(rest.subrange(0, y.len() as int) =~= t.subrange(45, 45 + y.len() as int));
                    assert(t.subrange(45, 45 + y.len() as int) =~= t.subrange(j, j + head.len()).subrange(12, head.len() as int));
                    assert(starts_with(rest, y));
                }
            }
        }
    }
}

/// Replacing keeps a text from starting with `y` when it did not, if `y`
/// holds no line feed and what replaces begins with one.
proof fn lemma_replaced_prefix(s: Seq<char>, l: Seq<char>, b: Seq<char>, y: Seq<char>)
    requires
        l.len() > 0,
        b.len() > 0,
        b[0] == '\n',
        forall|k: int| 0 <= k < y.len() ==> y[k] != '\n',
        !starts_with(s, y),
    ensures
        !starts_with(replace(s, l, b), y),
{
    if !contains(s, l) {
        lemma_replace_absent(s, l, b);
    } else {
        lemma_find_contains(s, l);
        let i = find(s, l)->0;
        lemma_replace_first(s, l, b, i);
        let t = replace(s, l, b);
        if starts_with(t, y) {
            if i < y.len() {
                assert(t[i] == b[0]);
                assert(t.subrange(0, y.len() as int)[i] == t[i]);
            } else {
                assert(t.subrange(0, y.len() as int) =~= s.subrange(0, y.len() as int));
            }
        }
    }
}

/// Cutting every `w` out of `pre + lead + w + tail + r`: when no `head` (with
/// which `w` begins) occurs in `pre`, none starts in `lead` (a line feed and
/// spaces) or in `tail`, the first `w` cut is the one after `lead`.
proof fn lemma_cut_between(
    pre: Seq<char>,
    lead: Seq<char>,
    w: Seq<char>,
    tail: Seq<char>,
    r: Seq<char>,
    head: Seq<char>,
)
    requires
        lead.len() == 17,
        lead[0] == '\n',
        forall|m: int| 1 <= m < 17 ==> lead[m] == ' ',
        occurs_at(w, head, 0),
        head.len() > 0,
        head[0] == 'l',
        forall|j: int| 0 <= j < head.len() ==> head[j] != '\n',
        !contains(pre, head),
        forall|j: int| 0 <= j < tail.len() ==> !occurs_at(tail + r, head, j),
    ensures
        replace(pre + lead + w + tail + r, w, Seq::empty()) == pre + (lead + tail) + replace(r, w, Seq::empty()),
{
    let e = Seq::<char>::empty();
    let i = pre.len() as int;
    let t = pre + lead + w + tail + r;
    let q = i + 17;
    assert(t.subrange(q, q + w.len()) =~= w);
    assert forall|j: int| 0 <= j < q implies !occurs_at(t, w, j) by {
        if occurs_at(t, w, j) {
            lemma_occurs_within(t, w, head, j, 0);
            if j + head.len() <= i {
                assert(t.subrange(j, j + head.len()) =~= pre.subrange(j, j + head.len()));
                assert(occurs_at(pre, head, j));
            } else if j <= i {
                assert(t[i] == lead[0]);
                assert(t.subrange(j, j + head.len())[i - j] == t[i]);
            } else {
                assert(t[j] == lead[j - i]);
                assert(t.subrange(j, j + head.len())[0] == t[j]);
            }
        }
    }
    lemma_replace_first(t, w, e, q);
    let u = t.skip(q + w.len());
    assert(u =~= tail + r);
    assert(t.take(q) =~= pre + lead);
    assert forall|j: int| 0 <= j < tail.len() implies !occurs_at(u, w, j) by {
        if occurs_at(u, w, j) {
            lemma_occurs_within(u, w, head, j, 0);
        }
    }
    lemma_replace_skip(u, w, e, tail.len() as int);
    assert(u.take(tail.len() as int) =~= tail);
    assert(u.skip(tail.len() as int) =~= r);
    assert(t.take(q) + e + (tail + replace(r, w, e)) =~= pre + (lead + tail) + replace(r, w, e));
}

/// Cutting out the copies of a written block from `pre + b + r`, where `pre`
/// holds no head of such a block: the first copy is the one in `b`, and
/// nothing after it starts before `r`.
proof fn lemma_cut_after(pre: Seq<char>, r: Seq<char>, location: Seq<char>, data: Seq<char>, mode: LocMode)
    requires
        !contains(pre, block_head(location)),
        forall|k: int| 0 <= k < location.len() ==> location[k] != '\n' && location[k] != '}',
        forall|k: int| 0 <= k < data.len() ==> data[k] != '}',
        location != "/"@,
        starts_with(location, "/ {"@) ==> !starts_with(r, head_after_root(location)),
    ensures
        replace(pre + loc_block_text(location, data, mode) + r, location_block(location, data, mode), Seq::empty())
            == pre + readded_root_line() + replace(r, location_block(location, data, mode), Seq::empty()),
{
    reveal_strlit("\n                ");
    let lead = "\n                "@;
    let w = location_block(location, data, mode);
    lemma_block_shape(location, data, mode);
    assert(occurs_at(w, block_head(location), 0));
    lemma_tail_no_head(r, location);
    assert(pre + loc_block_text(location, data, mode) + r =~= pre + lead + w + block_tail() + r);
    lemma_cut_between(pre, lead, w, block_tail(), r, block_head(location));
}

/// Adding a block in place of every occurrence of `l`, then cutting out
/// every copy of the block, leaves `l` replaced by `readded_root_line()`,
/// when `s` holds no head of a block of `location`.
proof fn lemma_add_then_cut(s: Seq<char>, l: Seq<char>, location: Seq<char>, data: Seq<char>, mode: LocMode)
    requires
        l.len() > 0,
        !contains(s, block_head(location)),
        forall|k: int| 0 <= k < location.len() ==> location[k] != '\n' && location[k] != '}',
        forall|k: int| 0 <= k < data.len() ==> data[k] != '}',
        location != "/"@,
        starts_with(location, "/ {"@) ==> !contains(s, l + head_after_root(location)),
    ensures
        replace(replace(s, l, loc_block_text(location, data, mode)), location_block(location, data, mode), Seq::empty())
            == replace(s, l, readded_root_line()),
    decreases s.len(),
{
    let b = loc_block_text(location, data, mode);
    let w = location_block(location, data, mode);
    let head = block_head(location);
    let k = readded_root_line();
    let e = Seq::<char>::empty();
    if !contains(s, l) {
        lemma_block_shape(location, data, mode);
        assert(occurs_at(w, head, 0));
        lemma_replace_absent(s, l, b);
        lemma_replace_absent(s, l, k);
        if contains(s, w) {
            let j = choose|j: int| occurs_at(s, w, j);
            lemma_occurs_within(s, w, head, j, 0);
        }
        lemma_replace_absent(s, w, e);
    } else {
        lemma_find_contains(s, l);
        let i = find(s, l)->0;
        let s2 = s.skip(i + l.len());
        let pre = s.take(i);
        lemma_replace_first(s, l, b, i);
        lemma_replace_first(s, l, k, i);
        assert(!contains(s2, head)) by {
            if contains(s2, head) {
                let j = choose|j: int| occurs_at(s2, head, j);
                assert(s.subrange(i + l.len() + j, i + l.len() + j + head.len()) =~= s2.subrange(j, j + head.len()));
                assert(occurs_at(s, head, i + l.len() + j));
            }
        }
        assert(!contains(pre, head)) by {
            if contains(pre, head) {
                let j = choose|j: int| occurs_at(pre, head, j);
                assert(s.subrange(j, j + head.len()) =~= pre.subrange(j, j + head.len()));
                assert(occurs_at(s, head, j));
            }
        }
        let y = head_after_root(location);
        if starts_with(location, "/ {"@) {
            assert(!contains(s2, l + y)) by {
                if contains(s2, l + y) {
                    let j = choose|j: int| occurs_at(s2, l + y, j);
                    assert(s.subrange(i + l.len() + j, i + l.len() + j + (l + y).len()) =~= s2.subrange(
                        j,
                        j + (l + y).len(),
                    ));
                    assert(occurs_at(s, l + y, i + l.len() + j));
                }
            }
            assert(!starts_with(s2, y)) by {
                if starts_with(s2, y) {
                    assert(s.subrange(i, i + l.len()) == l);
                    assert(s.subrange(i, i + (l + y).len()) =~= l + y);
                    assert(occurs_at(s, l + y, i));
                }
            }
            lemma_inserted_shape(location, data, mode);
            reveal_strlit("/ {");
            reveal_strlit(" {");
            assert(location.len() >= 3);
            assert(y.len() == location.len() - 1);
            assert forall|m: int| 0 <= m < y.len() implies y[m] != '\n' by {
                if m < location.len() - 3 {
                    assert(y[m] == location[m + 3]);
                } else {
                    assert(y[m] == " {"@[m - (location.len() - 3)]);
                }
            }
            lemma_replaced_prefix(s2, l, b, y);
        }
        lemma_add_then_cut(s2, l, location, data, mode);
        lemma_cut_after(pre, replace(s2, l, b), location, data, mode);
    }
}

proof fn lemma_strip_all_ws(s: Seq<char>)
    requires
        forall|k: int| 0 <= k < s.len() ==> is_ws(s[k]),
    ensures
        strip_ws(s) == Seq::<char>::empty(),
    decreases s.len(),
{
    if s.len() > 0 {
        lemma_strip_all_ws(s.drop_first());
    }
}

/// The line a location's addition and removal leave has the non-whitespace
/// characters of `location / {`.
proof fn lemma_readded_strip()
    ensures
        strip_ws(readded_root_line()) == strip_ws("location / {"@),
{
    reveal_strlit("\n                ");
    reveal_strlit("                \n                location / {");
    reveal_strlit("location / {");
    let k = readded_root_line();
    assert(k.len() == 62);
    let a = k.subrange(0, 50);
    assert(k.subrange(50, 62) =~= "location / {"@);
    assert(k =~= a + "location / {"@);
    assert forall|j: int| 0 <= j < a.len() implies is_ws(a[j]) by {
        assert(a[j] == k[j]);
        assert(k[j] == ' ' || k[j] == '\n');
    }
    lemma_strip_all_ws(a);
    lemma_strip_add(a, "location / {"@);
    assert(Seq::<char>::empty() + strip_ws("location / {"@) =~= strip_ws("location / {"@));
}

/// Removing a location undoes adding it. After the insertion
/// `insert_location` makes into `conf` (of a valid location that holds no
/// line feed or closing brace, and content without a closing brace), cutting
/// out every copy of the written block, as `remove_location` does, gives
/// `conf` with its `location / {` line replaced by `readded_root_line()`. So
/// when that line was `location / {` with only whitespace around it, the
/// result has exactly the non-whitespace characters of `conf`. For a location
/// that begins with `/ {`, the text of that line must not be followed in
/// `conf` by the rest of the location's block head (`head_after_root`): the
/// new `location / {` line followed by that text would form a second block
/// head, and its block would be cut too.
pub proof fn law_remove_undoes_add(conf: Seq<char>, location: Seq<char>, data: Seq<char>, mode: LocMode)
    requires
        location_ok(location),
        forall|k: int| 0 <= k < location.len() ==> location[k] != '\n' && location[k] != '}',
        forall|k: int| 0 <= k < data.len() ==> data[k] != '}',
        !some_line_contains(lines(conf), "location "@ + location),
        first_line_trim_prefixed(lines(conf), "location / {"@) is Some,
        starts_with(location, "/ {"@) ==> !contains(
            conf,
            first_line_trim_prefixed(lines(conf), "location / {"@)->0 + head_after_root(location),
        ),
    ensures
        ({
            let l = first_line_trim_prefixed(lines(conf), "location / {"@)->0;
            let added = replace(conf, l, loc_block_text(location, data, mode));
            let removed = replace(added, location_block(location, data, mode), Seq::empty());
            &&& removed == replace(conf, l, readded_root_line())
            &&& trim(l) == "location / {"@ ==> strip_ws(removed) == strip_ws(conf)
        }),
{
    reveal_strlit("location / {");
    reveal_strlit("/");
    let ls = lines(conf);
    let l = first_line_trim_prefixed(ls, "location / {"@)->0;
    lemma_first_line_trim_prefixed(ls, "location / {"@);
    lemma_trim_len(l);
    lemma_trim_len(location);
    assert(location != "/"@) by {
        if location =~= "/"@ {
            lemma_trim_idempotent(location);
            assert(trim(location) == location) by {
                assert(!is_ws('/'));
            }
        }
    }
    lemma_no_head(conf, location);
    lemma_add_then_cut(conf, l, location, data, mode);
    if trim(l) == "location / {"@ {
        lemma_strip_trim(l);
        lemma_readded_strip();
        lemma_strip_replace(conf, l, readded_root_line());
    }
}

} // verus!
