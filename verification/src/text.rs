use vstd::prelude::*;

verus! {

broadcast use vstd::string::group_string_axioms;

// ----------------------------------------------------------------------
// Specification of the text operations the configuration logic relies on
// ----------------------------------------------------------------------

/// Unicode `White_Space`, the notion of whitespace used by `str::trim`.
pub open spec fn is_ws(c: char) -> bool {
    let u = c as u32;
    ||| 0x09 <= u <= 0x0D
    ||| u == 0x20
    ||| u == 0x85
    ||| u == 0xA0
    ||| u == 0x1680
    ||| 0x2000 <= u <= 0x200A
    ||| u == 0x2028
    ||| u == 0x2029
    ||| u == 0x202F
    ||| u == 0x205F
    ||| u == 0x3000
}

/// `s` without its leading whitespace.
pub open spec fn trim_start(s: Seq<char>) -> Seq<char>
    decreases s.len(),
{
    if s.len() > 0 && is_ws(s[0]) {
        trim_start(s.drop_first())
    } else {
        s
    }
}

/// `s` without its trailing whitespace.
pub open spec fn trim_end(s: Seq<char>) -> Seq<char>
    decreases s.len(),
{
    if s.len() > 0 && is_ws(s.last()) {
        trim_end(s.drop_last())
    } else {
        s
    }
}

/// `s` without leading and trailing whitespace.
pub open spec fn trim(s: Seq<char>) -> Seq<char> {
    trim_end(trim_start(s))
}

/// `p` occurs in `s` at position `i`.
pub open spec fn occurs_at(s: Seq<char>, p: Seq<char>, i: int) -> bool {
    0 <= i && i + p.len() <= s.len() && s.subrange(i, i + p.len()) == p
}

/// `p` occurs somewhere in `s`.
pub open spec fn contains(s: Seq<char>, p: Seq<char>) -> bool {
    exists|i: int| occurs_at(s, p, i)
}

/// `s` begins with `p`.
pub open spec fn starts_with(s: Seq<char>, p: Seq<char>) -> bool {
    occurs_at(s, p, 0)
}

/// The first position at or after `i` where `p` occurs in `s`.
pub open spec fn find_from(s: Seq<char>, p: Seq<char>, i: int) -> Option<int>
    decreases s.len() + 1 - i,
{
    if i + p.len() > s.len() {
        None
    } else if occurs_at(s, p, i) {
        Some(i)
    } else {
        find_from(s, p, i + 1)
    }
}

/// The first position where `p` occurs in `s`.
pub open spec fn find(s: Seq<char>, p: Seq<char>) -> Option<int> {
    find_from(s, p, 0)
}

/// `s` with every occurrence of `p` replaced by `t`, the occurrences taken
/// from left to right without overlap (`str::replace`).
pub open spec fn replace(s: Seq<char>, p: Seq<char>, t: Seq<char>) -> Seq<char>
    decreases s.len(),
{
    if p.len() == 0 || s.len() < p.len() {
        s
    } else if starts_with(s, p) {
        t + replace(s.skip(p.len() as int), p, t)
    } else {
        seq![s[0]] + replace(s.drop_first(), p, t)
    }
}


/// Position of the first line feed at or after `i`, or `s.len()` when none follows.
pub open spec fn line_end(s: Seq<char>, i: int) -> int
    decreases s.len() - i,
{
    if i >= s.len() {
        s.len() as int
    } else if s[i] == '\n' {
        i
    } else {
        line_end(s, i + 1)
    }
}

/// A line whose line feed was removed loses a carriage return before it too.
pub open spec fn strip_cr(l: Seq<char>) -> Seq<char> {
    if l.len() > 0 && l.last() == '\r' {
        l.drop_last()
    } else {
        l
    }
}

/// The lines of `s` that start at or after position `i` (`str::lines`): the
/// text is cut after each line feed, a line feed and a carriage return just
/// before it are dropped, and no empty line follows a final line feed.
pub open spec fn lines_from(s: Seq<char>, i: int) -> Seq<Seq<char>>
    decreases s.len() - i,
{
    if i < 0 || i >= s.len() {
        seq![]
    } else {
        let e = line_end(s, i);
        proof {
            lemma_line_end(s, i);
        }
        if e < s.len() {
            seq![strip_cr(s.subrange(i, e))] + lines_from(s, e + 1)
        } else {
            seq![s.subrange(i, s.len() as int)]
        }
    }
}

/// The lines of `s` (`str::lines`).
pub open spec fn lines(s: Seq<char>) -> Seq<Seq<char>> {
    lines_from(s, 0)
}

/// Some line of `ls` contains `x`.
pub open spec fn some_line_contains(ls: Seq<Seq<char>>, x: Seq<char>) -> bool {
    exists|k: int| 0 <= k < ls.len() && contains(#[trigger] ls[k], x)
}

/// The first line of `ls` that begins with `x` once trimmed.
pub open spec fn first_line_trim_prefixed(ls: Seq<Seq<char>>, x: Seq<char>) -> Option<Seq<char>>
    decreases ls.len(),
{
    if ls.len() == 0 {
        None
    } else if starts_with(trim(ls[0]), x) {
        Some(ls[0])
    } else {
        first_line_trim_prefixed(ls.drop_first(), x)
    }
}

// ----------------------------------------------------------------------
// Lemmas
// ----------------------------------------------------------------------

pub proof fn lemma_line_end(s: Seq<char>, i: int)
    requires
        0 <= i,
    ensures
        i <= line_end(s, i) <= s.len() || (i > s.len() && line_end(s, i) == s.len()),
        line_end(s, i) < s.len() ==> s[line_end(s, i)] == '\n',
        forall|j: int| i <= j < line_end(s, i) ==> s[j] != '\n',
    decreases s.len() - i,
{
    if i < s.len() && s[i] != '\n' {
        lemma_line_end(s, i + 1);
    }
}

proof fn lemma_find_from_bounds(s: Seq<char>, p: Seq<char>, i: int)
    requires
        0 <= i,
    ensures
        find_from(s, p, i) matches Some(k) ==> i <= k && occurs_at(s, p, k) && (forall|j: int|
            i <= j < k ==> !occurs_at(s, p, j)),
        find_from(s, p, i) is None ==> forall|j: int| i <= j ==> !occurs_at(s, p, j),
    decreases s.len() + 1 - i,
{
    if i + p.len() > s.len() {
    } else if occurs_at(s, p, i) {
    } else {
        lemma_find_from_bounds(s, p, i + 1);
    }
}

/// What `find_from` finds is the first occurrence at or after `i`.
pub proof fn lemma_find_from(s: Seq<char>, p: Seq<char>, i: int)
    requires
        0 <= i,
    ensures
        find_from(s, p, i) matches Some(k) ==> i <= k && occurs_at(s, p, k) && (forall|j: int|
            i <= j < k ==> !occurs_at(s, p, j)),
        find_from(s, p, i) is None ==> forall|j: int| i <= j ==> !occurs_at(s, p, j),
{
    lemma_find_from_bounds(s, p, i);
}

/// The first occurrence found is an occurrence, and `p` occurs iff it is found.
pub proof fn lemma_find_contains(s: Seq<char>, p: Seq<char>)
    ensures
        find(s, p) is Some <==> contains(s, p),
        find(s, p) matches Some(k) ==> occurs_at(s, p, k) && forall|j: int|
            0 <= j < k ==> !occurs_at(s, p, j),
{
    lemma_find_from_bounds(s, p, 0);
    if contains(s, p) {
        let k = choose|k: int| occurs_at(s, p, k);
        assert(occurs_at(s, p, k));
    }
}

proof fn lemma_trim_start_skip(s: Seq<char>, i: int)
    requires
        0 <= i <= s.len(),
        forall|j: int| 0 <= j < i ==> is_ws(s[j]),
    ensures
        trim_start(s) == trim_start(s.skip(i)),
    decreases i,
{
    if i > 0 {
        assert(s.drop_first().skip(i - 1) =~= s.skip(i));
        lemma_trim_start_skip(s.drop_first(), i - 1);
    } else {
        assert(s.skip(0) =~= s);
    }
}

proof fn lemma_trim_end_take(s: Seq<char>, j: int)
    requires
        0 <= j <= s.len(),
        forall|k: int| j <= k < s.len() ==> is_ws(s[k]),
    ensures
        trim_end(s) == trim_end(s.take(j)),
    decreases s.len() - j,
{
    if j < s.len() {
        assert(s.drop_last().take(j) =~= s.take(j));
        lemma_trim_end_take(s.drop_last(), j);
    } else {
        assert(s.take(j) =~= s);
    }
}

// ----------------------------------------------------------------------
// Executable operations
// ----------------------------------------------------------------------

/// The characters of a string slice, in order.
pub fn chars_of(s: &str) -> (v: Vec<char>)
    ensures
        v@ == s@,
{
    let mut v: Vec<char> = Vec::new();
    for c in it: s.chars()
        invariant
            v@ == it.seq().take(it.index()),
    {
        v.push(c);
    }
    v
}

/// Whether `c` is whitespace (`char::is_whitespace`).
pub fn is_whitespace(c: char) -> (r: bool)
    ensures
        r == is_ws(c),
{
    let u = c as u32;
    (0x09 <= u && u <= 0x0D) || u == 0x20 || u == 0x85 || u == 0xA0 || u == 0x1680 || (0x2000
        <= u && u <= 0x200A) || u == 0x2028 || u == 0x2029 || u == 0x202F || u == 0x205F || u
        == 0x3000
}

/// The bounds of the trimmed part of `v`.
pub fn trim_bounds(v: &Vec<char>) -> (r: (usize, usize))
    ensures
        r.0 <= r.1 <= v@.len(),
        trim(v@) == v@.subrange(r.0 as int, r.1 as int),
{
    let n = v.len();
    let mut i: usize = 0;
    while i < n && is_whitespace(v[i])
        invariant
            i <= n == v@.len(),
            forall|j: int| 0 <= j < i ==> is_ws(v@[j]),
        decreases n - i,
    {
        i = i + 1;
    }
    proof {
        lemma_trim_start_skip(v@, i as int);
        let t = v@.skip(i as int);
        if t.len() > 0 {
            assert(t[0] == v@[i as int]);
        }
        assert(trim_start(t) == t);
    }
    let mut j: usize = n;
    while j > i && is_whitespace(v[j - 1])
        invariant
            i <= j <= n == v@.len(),
            forall|k: int| j <= k < n ==> is_ws(v@[k]),
        decreases j,
    {
        j = j - 1;
    }
    proof {
        let t = v@.skip(i as int);
        assert(forall|k: int| (j - i) <= k < t.len() ==> t[k] == v@[k + i]);
        lemma_trim_end_take(t, j - i);
        let u = t.take(j - i);
        assert(u =~= v@.subrange(i as int, j as int));
        if u.len() > 0 {
            assert(u.last() == v@[j - 1]);
        }
        assert(trim_end(u) == u);
    }
    (i, j)
}

/// `s` without leading and trailing whitespace (`str::trim`).
pub fn trimmed(s: &str) -> (r: String)
    ensures
        r@ == trim(s@),
{
    let v = chars_of(s);
    let (i, j) = trim_bounds(&v);
    String::from_str(s.substring_char(i, j))
}

/// Whether `p` occurs in `s` at position `i`.
pub fn occurs_at_exec(s: &Vec<char>, p: &Vec<char>, i: usize) -> (r: bool)
    ensures
        r == occurs_at(s@, p@, i as int),
{
    if i > s.len() || p.len() > s.len() - i {
        return false;
    }
    let mut k: usize = 0;
    while k < p.len()
        invariant
            i + p@.len() <= s@.len(),
            s@.len() == s.len(),
            k <= p@.len(),
            forall|m: int| 0 <= m < k ==> s@[i + m] == p@[m],
        decreases p@.len() - k,
    {
        if s[i + k] != p[k] {
            assert(s@.subrange(i as int, i + p@.len())[k as int] != p@[k as int]);
            return false;
        }
        k = k + 1;
    }
    assert(s@.subrange(i as int, i + p@.len()) =~= p@);
    true
}

/// The first position at or after `start` where `p` occurs in `s`.
pub fn find_from_exec(s: &Vec<char>, p: &Vec<char>, start: usize) -> (r: Option<usize>)
    ensures
        r matches Some(k) ==> find_from(s@, p@, start as int) == Some(k as int),
        r is None ==> find_from(s@, p@, start as int) is None,
{
    if p.len() > s.len() || start > s.len() - p.len() {
        return None;
    }
    let last = s.len() - p.len();
    let mut i = start;
    loop
        invariant
            start <= i <= last,
            last + p@.len() == s@.len(),
            find_from(s@, p@, start as int) == find_from(s@, p@, i as int),
        decreases last - i,
    {
        if occurs_at_exec(s, p, i) {
            return Some(i);
        }
        if i == last {
            assert(find_from(s@, p@, i + 1) is None);
            return None;
        }
        i = i + 1;
    }
}

/// Whether `p` occurs in `s`.
pub fn contains_exec(s: &Vec<char>, p: &Vec<char>) -> (r: bool)
    ensures
        r == contains(s@, p@),
{
    proof {
        lemma_find_contains(s@, p@);
    }
    find_from_exec(s, p, 0).is_some()
}

} // verus!

verus! {

/// The characters `v[a..b]` as a vector of their own.
pub fn sub_vec(v: &Vec<char>, a: usize, b: usize) -> (r: Vec<char>)
    requires
        a <= b <= v@.len(),
    ensures
        r@ == v@.subrange(a as int, b as int),
{
    let mut r: Vec<char> = Vec::new();
    let mut k = a;
    while k < b
        invariant
            a <= k <= b <= v@.len(),
            r@ == v@.subrange(a as int, k as int),
        decreases b - k,
    {
        r.push(v[k]);
        assert(r@ =~= v@.subrange(a as int, k + 1));
        k = k + 1;
    }
    r
}

proof fn lemma_replace_step_match(s: Seq<char>, p: Seq<char>, t: Seq<char>, i: int)
    requires
        p.len() > 0,
        occurs_at(s, p, i),
    ensures
        replace(s.skip(i), p, t) == t + replace(s.skip(i + p.len()), p, t),
{
    let x = s.skip(i);
    assert(x.subrange(0, p.len() as int) =~= s.subrange(i, i + p.len()));
    assert(x.skip(p.len() as int) =~= s.skip(i + p.len()));
}

proof fn lemma_replace_step_miss(s: Seq<char>, p: Seq<char>, t: Seq<char>, i: int)
    requires
        p.len() > 0,
        0 <= i,
        i + p.len() <= s.len(),
        !occurs_at(s, p, i),
    ensures
        replace(s.skip(i), p, t) == seq![s[i]] + replace(s.skip(i + 1), p, t),
{
    let x = s.skip(i);
    assert(x.subrange(0, p.len() as int) =~= s.subrange(i, i + p.len()));
    assert(x.drop_first() =~= s.skip(i + 1));
}

proof fn lemma_replace_short(s: Seq<char>, p: Seq<char>, t: Seq<char>)
    requires
        s.len() < p.len(),
    ensures
        replace(s, p, t) == s,
{
}

/// `s` with every occurrence of `p` replaced by `t` (`str::replace`).
pub fn replace_all(s: &str, p: &str, t: &str) -> (r: String)
    requires
        p@.len() > 0,
    ensures
        r@ == replace(s@, p@, t@),
{
    let sv = chars_of(s);
    let pv = chars_of(p);
    let n = sv.len();
    let m = pv.len();
    if m > n {
        return String::from_str(s);
    }
    let mut res = String::new();
    let mut seg: usize = 0;
    let mut i: usize = 0;
    assert(sv@.skip(0) =~= sv@);
    assert(sv@.subrange(0, 0) =~= Seq::<char>::empty());
    while i <= n - m
        invariant
            m <= n,
            n == sv@.len() == s@.len(),
            m == pv@.len() == p@.len(),
            sv@ == s@,
            pv@ == p@,
            m > 0,
            seg <= i <= n,
            res@ + sv@.subrange(seg as int, i as int) + replace(sv@.skip(i as int), pv@, t@)
                == replace(sv@, pv@, t@),
        decreases n - i,
    {
        if occurs_at_exec(&sv, &pv, i) {
            proof {
                lemma_replace_step_match(sv@, pv@, t@, i as int);
            }
            let ghost old_res = res@;
            res.append(s.substring_char(seg, i));
            res.append(t);
            assert(res@ == old_res + sv@.subrange(seg as int, i as int) + t@);
            i = i + m;
            seg = i;
            assert(sv@.subrange(seg as int, seg as int) =~= Seq::<char>::empty());
        } else {
            proof {
                lemma_replace_step_miss(sv@, pv@, t@, i as int);
                assert(sv@.subrange(seg as int, i + 1) =~= sv@.subrange(seg as int, i as int)
                    + seq![sv@[i as int]]);
            }
            i = i + 1;
        }
    }
    proof {
        lemma_replace_short(sv@.skip(i as int), pv@, t@);
        assert(sv@.subrange(seg as int, i as int) + sv@.skip(i as int) =~= sv@.subrange(
            seg as int,
            n as int,
        ));
    }
    res.append(s.substring_char(seg, n));
    res
}

} // verus!

verus! {

/// Position of the first line feed at or after `i` in `v`, or `v.len()`.
pub fn line_end_exec(v: &Vec<char>, i: usize) -> (e: usize)
    requires
        i <= v@.len(),
    ensures
        e == line_end(v@, i as int),
{
    let mut j = i;
    while j < v.len() && v[j] != '\n'
        invariant
            i <= j <= v@.len(),
            line_end(v@, i as int) == line_end(v@, j as int),
        decreases v@.len() - j,
    {
        j = j + 1;
    }
    j
}

/// The line that starts at position `i`: it is `v[i..b]`, and the next one
/// starts at `next`.
pub fn line_at(v: &Vec<char>, i: usize) -> (r: (usize, usize))
    requires
        i < v@.len(),
    ensures
        i <= r.0 <= v@.len(),
        i < r.1 <= v@.len(),
        lines_from(v@, i as int) == seq![v@.subrange(i as int, r.0 as int)] + lines_from(
            v@,
            r.1 as int,
        ),
{
    let e = line_end_exec(v, i);
    proof {
        lemma_line_end(v@, i as int);
    }
    if e < v.len() {
        let b = if e > i && v[e - 1] == '\r' {
            e - 1
        } else {
            e
        };
        assert(strip_cr(v@.subrange(i as int, e as int)) =~= v@.subrange(i as int, b as int));
        (b, e + 1)
    } else {
        assert(lines_from(v@, v@.len() as int) =~= Seq::<Seq<char>>::empty());
        assert(seq![v@.subrange(i as int, v@.len() as int)] + Seq::<Seq<char>>::empty() =~= seq![
            v@.subrange(i as int, v@.len() as int),
        ]);
        (e, e)
    }
}

proof fn lemma_some_line_contains_cons(l: Seq<char>, rest: Seq<Seq<char>>, x: Seq<char>)
    ensures
        some_line_contains(seq![l] + rest, x) == (contains(l, x) || some_line_contains(rest, x)),
{
    let ls = seq![l] + rest;
    assert(ls[0] == l);
    if some_line_contains(rest, x) {
        let k = choose|k: int| 0 <= k < rest.len() && contains(#[trigger] rest[k], x);
        assert(ls[k + 1] == rest[k]);
    }
    if some_line_contains(ls, x) && !contains(l, x) {
        let k = choose|k: int| 0 <= k < ls.len() && contains(#[trigger] ls[k], x);
        assert(rest[k - 1] == ls[k]);
    }
}

/// Whether some line of `v` contains `x`.
pub fn any_line_contains(v: &Vec<char>, x: &Vec<char>) -> (r: bool)
    ensures
        r == some_line_contains(lines(v@), x@),
{
    let n = v.len();
    let mut i: usize = 0;
    while i < n
        invariant
            n == v@.len(),
            i <= n,
            some_line_contains(lines(v@), x@) == some_line_contains(lines_from(v@, i as int), x@),
        decreases n - i,
    {
        let (b, next) = line_at(v, i);
        let line = sub_vec(v, i, b);
        proof {
            lemma_some_line_contains_cons(line@, lines_from(v@, next as int), x@);
        }
        if contains_exec(&line, x) {
            return true;
        }
        i = next;
    }
    assert(lines_from(v@, i as int) =~= Seq::<Seq<char>>::empty());
    false
}

/// The bounds of the first line of `v` that begins with `x` once trimmed.
pub fn find_line_trim_prefixed(v: &Vec<char>, x: &Vec<char>) -> (r: Option<(usize, usize)>)
    ensures
        r matches Some((a, b)) ==> a <= b <= v@.len() && first_line_trim_prefixed(lines(v@), x@)
            == Some(v@.subrange(a as int, b as int)),
        r is None ==> first_line_trim_prefixed(lines(v@), x@) is None,
{
    let n = v.len();
    let mut i: usize = 0;
    while i < n
        invariant
            n == v@.len(),
            i <= n,
            first_line_trim_prefixed(lines(v@), x@) == first_line_trim_prefixed(
                lines_from(v@, i as int),
                x@,
            ),
        decreases n - i,
    {
        let (b, next) = line_at(v, i);
        let line = sub_vec(v, i, b);
        let (ta, tb) = trim_bounds(&line);
        let core = sub_vec(&line, ta, tb);
        let ghost ls = lines_from(v@, i as int);
        assert(ls[0] == line@);
        assert(ls.drop_first() =~= lines_from(v@, next as int));
        if occurs_at_exec(&core, x, 0) {
            return Some((i, b));
        }
        i = next;
    }
    assert(lines_from(v@, i as int) =~= Seq::<Seq<char>>::empty());
    None
}

} // verus!

verus! {

// ----------------------------------------------------------------------
// Decimal numbers
// ----------------------------------------------------------------------

/// An ASCII decimal digit.
pub open spec fn is_digit(c: char) -> bool {
    '0' <= c <= '9'
}

/// The value of a string of decimal digits.
pub open spec fn digits_value(s: Seq<char>) -> nat
    decreases s.len(),
{
    if s.len() == 0 {
        0
    } else {
        digits_value(s.drop_last()) * 10 + ((s.last() as int - '0' as int) as nat)
    }
}

/// The number that `s` writes as an optional `+` followed by one or more
/// decimal digits, as `str::parse` reads unsigned integers; `None` when `s`
/// is not of that form.
pub open spec fn unsigned_text(s: Seq<char>) -> Option<nat> {
    let d = if s.len() > 0 && s[0] == '+' {
        s.drop_first()
    } else {
        s
    };
    if d.len() > 0 && (forall|i: int| 0 <= i < d.len() ==> is_digit(#[trigger] d[i])) {
        Some(digits_value(d))
    } else {
        None
    }
}

/// The digit that writes `d`.
pub open spec fn digit_char(d: nat) -> char {
    (d + '0' as nat) as char
}

/// `n` written in decimal, without leading zeros.
pub open spec fn decimal(n: nat) -> Seq<char>
    decreases n,
{
    if n < 10 {
        seq![digit_char(n)]
    } else {
        decimal(n / 10) + seq![digit_char(n % 10)]
    }
}

/// `n` written in decimal, with a `-` before it when it is negative.
pub open spec fn int_text(n: int) -> Seq<char> {
    if n < 0 {
        seq!['-'] + decimal((-n) as nat)
    } else {
        decimal(n as nat)
    }
}

/// The string of one decimal digit.
fn digit_str(d: u64) -> (r: &'static str)
    requires
        d < 10,
    ensures
        r@ == seq![digit_char(d as nat)],
{
    proof {
        reveal_strlit("0");
        reveal_strlit("1");
        reveal_strlit("2");
        reveal_strlit("3");
        reveal_strlit("4");
        reveal_strlit("5");
        reveal_strlit("6");
        reveal_strlit("7");
        reveal_strlit("8");
        reveal_strlit("9");
    }
    match d {
        0 => "0",
        1 => "1",
        2 => "2",
        3 => "3",
        4 => "4",
        5 => "5",
        6 => "6",
        7 => "7",
        8 => "8",
        _ => "9",
    }
}

/// Appends `n` in decimal to `out`.
pub fn push_decimal(out: &mut String, n: u64)
    ensures
        final(out)@ == old(out)@ + decimal(n as nat),
    decreases n,
{
    if n >= 10 {
        push_decimal(out, n / 10);
    }
    out.append(digit_str(n % 10));
    proof {
        if n >= 10 {
            assert(old(out)@ + decimal(n as nat) =~= old(out)@ + decimal((n / 10) as nat) + seq![
                digit_char((n % 10) as nat),
            ]);
        } else {
            assert(n % 10 == n);
        }
    }
}

/// `n` in decimal (`u64::to_string`).
pub fn u64_text(n: u64) -> (r: String)
    ensures
        r@ == decimal(n as nat),
{
    let mut r = String::new();
    push_decimal(&mut r, n);
    assert(r@ =~= decimal(n as nat));
    r
}

/// `n` in decimal, with a `-` when negative (`i32::to_string`).
pub fn i32_text(n: i32) -> (r: String)
    ensures
        r@ == int_text(n as int),
{
    if n < 0 {
        let m: u64 = (0i64 - (n as i64)) as u64;
        let mut r = String::from_str("-");
        proof {
            reveal_strlit("-");
        }
        push_decimal(&mut r, m);
        r
    } else {
        u64_text(n as u64)
    }
}

/// Reading back what `decimal` writes gives the number again.
pub proof fn lemma_decimal_roundtrip(n: nat)
    ensures
        unsigned_text(decimal(n)) == Some(n),
    decreases n,
{
    lemma_decimal_digits(n);
    let d = decimal(n);
    assert(d.len() > 0);
    assert(d[0] != '+');
}

proof fn lemma_decimal_digits(n: nat)
    ensures
        decimal(n).len() > 0,
        forall|i: int| 0 <= i < decimal(n).len() ==> is_digit(#[trigger] decimal(n)[i]),
        digits_value(decimal(n)) == n,
    decreases n,
{
    assert((n % 10) + '0' as nat <= '9' as nat);
    assert(digit_char(n % 10) as int == (n % 10) + '0' as int);
    if n >= 10 {
        lemma_decimal_digits(n / 10);
        let d = decimal(n);
        let h = decimal(n / 10);
        assert(d.drop_last() =~= h);
        assert(d.last() == digit_char(n % 10));
        assert((n / 10) * 10 + n % 10 == n) by (nonlinear_arith);
        assert(d.last() as int - '0' as int == n % 10);
        assert(digits_value(d) == digits_value(h) * 10 + ((d.last() as int - '0' as int) as nat));
        assert forall|i: int| 0 <= i < d.len() implies is_digit(#[trigger] d[i]) by {
            if i < h.len() {
                assert(d[i] == h[i]);
            }
        }
    } else {
        let d = decimal(n);
        assert(d.drop_last() =~= Seq::<char>::empty());
        assert(n % 10 == n);
        assert(d.last() as int - '0' as int == n);
        assert(digits_value(d) == digits_value(d.drop_last()) * 10 + ((d.last() as int - '0' as int) as nat));
    }
}

} // verus!

verus! {

/// What `u32::from_str` reports, as text, when it refuses `s`.
pub uninterp spec fn u32_parse_error_text(s: Seq<char>) -> Seq<char>;

/// `str::parse::<u32>`. As its documentation says, it accepts exactly an
/// optional `+` followed by decimal digits whose value fits in a `u32`, and
/// gives that value; what its error displays is only named here.
#[verifier::external_body]
pub(crate) fn parse_u32(s: &str) -> (r: Result<u32, String>)
    ensures
        r is Ok <==> (unsigned_text(s@) matches Some(v) && v <= u32::MAX),
        r matches Ok(v) ==> unsigned_text(s@) == Some(v as nat),
        r matches Err(m) ==> m@ == u32_parse_error_text(s@),
{
    match s.parse::<u32>() {
        Ok(v) => Ok(v),
        Err(e) => Err(e.to_string()),
    }
}

/// `str::parse::<u16>`: it accepts exactly an optional `+` followed by
/// decimal digits whose value fits in a `u16`, and gives that value.
#[verifier::external_body]
pub(crate) fn parse_u16(s: &str) -> (r: Option<u16>)
    ensures
        r is Some <==> (unsigned_text(s@) matches Some(v) && v <= u16::MAX),
        r matches Some(v) ==> unsigned_text(s@) == Some(v as nat),
{
    match s.parse::<u16>() {
        Ok(v) => Some(v),
        Err(_) => None,
    }
}

} // verus!

verus! {

/// Trimming never lengthens a text.
pub proof fn lemma_trim_len(s: Seq<char>)
    ensures
        trim(s).len() <= s.len(),
{
    lemma_trim_start_len(s);
    lemma_trim_end_len(trim_start(s));
}

proof fn lemma_trim_start_len(s: Seq<char>)
    ensures
        trim_start(s).len() <= s.len(),
    decreases s.len(),
{
    if s.len() > 0 && is_ws(s[0]) {
        lemma_trim_start_len(s.drop_first());
    }
}

proof fn lemma_trim_end_len(s: Seq<char>)
    ensures
        trim_end(s).len() <= s.len(),
    decreases s.len(),
{
    if s.len() > 0 && is_ws(s.last()) {
        lemma_trim_end_len(s.drop_last());
    }
}

/// The line found by `first_line_trim_prefixed` is one of the lines, and it
/// does begin with the prefix once trimmed.
pub proof fn lemma_first_line_trim_prefixed(ls: Seq<Seq<char>>, x: Seq<char>)
    ensures
        first_line_trim_prefixed(ls, x) matches Some(l) ==> starts_with(trim(l), x) && exists|
            k: int,
        | 0 <= k < ls.len() && ls[k] == l,
    decreases ls.len(),
{
    if ls.len() > 0 && !starts_with(trim(ls[0]), x) {
        lemma_first_line_trim_prefixed(ls.drop_first(), x);
        if first_line_trim_prefixed(ls, x) is Some {
            let k = choose|k: int|
                0 <= k < ls.drop_first().len() && ls.drop_first()[k]
                    == first_line_trim_prefixed(ls, x)->0;
            assert(ls[k + 1] == ls.drop_first()[k]);
        }
    } else if ls.len() > 0 {
        assert(ls[0] == ls[0]);
    }
}

} // verus!

verus! {

/// The pieces of `s` between occurrences of `c` (`str::split` on a char):
/// always at least one piece, and empty pieces are kept.
pub open spec fn split_on(s: Seq<char>, c: char) -> Seq<Seq<char>>
    decreases s.len(),
{
    if s.len() == 0 {
        seq![Seq::empty()]
    } else {
        let rest = split_on(s.drop_last(), c);
        if s.last() == c {
            rest.push(Seq::empty())
        } else {
            rest.update(rest.len() - 1, rest.last().push(s.last()))
        }
    }
}

/// The bounds of the pieces of `v` between occurrences of `c`.
pub fn split_bounds(v: &Vec<char>, c: char) -> (r: Vec<(usize, usize)>)
    ensures
        r@.len() == split_on(v@, c).len(),
        r@.len() > 0,
        forall|k: int|
            0 <= k < r@.len() ==> (#[trigger] r@[k]).0 <= r@[k].1 <= v@.len() && v@.subrange(
                r@[k].0 as int,
                r@[k].1 as int,
            ) == split_on(v@, c)[k],
{
    let mut done: Vec<(usize, usize)> = Vec::new();
    let mut st: usize = 0;
    let n = v.len();
    assert(v@.take(0) =~= Seq::<char>::empty());
    for i in 0..n
        invariant
            n == v@.len(),
            st <= i,
            split_on(v@.take(i as int), c).len() == done@.len() + 1,
            split_on(v@.take(i as int), c).last() == v@.subrange(st as int, i as int),
            forall|k: int|
                0 <= k < done@.len() ==> (#[trigger] done@[k]).0 <= done@[k].1 <= st
                    && v@.subrange(done@[k].0 as int, done@[k].1 as int) == split_on(
                    v@.take(i as int),
                    c,
                )[k],
    {
        let ghost old_split = split_on(v@.take(i as int), c);
        let ghost t = v@.take(i + 1);
        assert(t.drop_last() =~= v@.take(i as int));
        assert(t.last() == v@[i as int]);
        if v[i] == c {
            done.push((st, i));
            st = i + 1;
            assert(v@.subrange(st as int, i + 1) =~= Seq::<char>::empty());
        } else {
            assert(v@.subrange(st as int, i + 1) =~= v@.subrange(st as int, i as int).push(
                v@[i as int],
            ));
        }
    }
    assert(v@.take(n as int) =~= v@);
    done.push((st, n));
    done
}

/// The last piece of `s` after the last `c` (all of `s` when it holds none).
pub open spec fn after_last(s: Seq<char>, c: char) -> Seq<char> {
    split_on(s, c).last()
}

} // verus!

verus! {

/// The first line of `ls` that contains `x`.
pub open spec fn first_line_containing(ls: Seq<Seq<char>>, x: Seq<char>) -> Option<Seq<char>>
    decreases ls.len(),
{
    if ls.len() == 0 {
        None
    } else if contains(ls[0], x) {
        Some(ls[0])
    } else {
        first_line_containing(ls.drop_first(), x)
    }
}

/// The bounds of the first line of `v` that contains `x`.
pub fn find_line_containing(v: &Vec<char>, x: &Vec<char>) -> (r: Option<(usize, usize)>)
    ensures
        r matches Some((a, b)) ==> a <= b <= v@.len() && first_line_containing(lines(v@), x@)
            == Some(v@.subrange(a as int, b as int)),
        r is None ==> first_line_containing(lines(v@), x@) is None,
{
    let n = v.len();
    let mut i: usize = 0;
    while i < n
        invariant
            n == v@.len(),
            i <= n,
            first_line_containing(lines(v@), x@) == first_line_containing(
                lines_from(v@, i as int),
                x@,
            ),
        decreases n - i,
    {
        let (b, next) = line_at(v, i);
        let line = sub_vec(v, i, b);
        let ghost ls = lines_from(v@, i as int);
        assert(ls[0] == line@);
        assert(ls.drop_first() =~= lines_from(v@, next as int));
        if contains_exec(&line, x) {
            return Some((i, b));
        }
        i = next;
    }
    assert(lines_from(v@, i as int) =~= Seq::<Seq<char>>::empty());
    None
}

} // verus!

verus! {

/// What `std::str::Utf8Error` displays for bytes that are not UTF-8.
pub uninterp spec fn utf8_error_text(b: Seq<u8>) -> Seq<char>;

/// `std::str::from_utf8`, copied into a `String`: it succeeds exactly on
/// valid UTF-8 and then gives the characters the bytes encode; the text of
/// its error is only named here.
#[verifier::external_body]
pub(crate) fn utf8_text(b: &[u8]) -> (r: Result<String, String>)
    ensures
        r is Ok <==> vstd::utf8::valid_utf8(b@),
        r matches Ok(s) ==> s@ == vstd::utf8::decode_utf8(b@),
        r matches Err(m) ==> m@ == utf8_error_text(b@),
{
    match std::str::from_utf8(b) {
        Ok(s) => Ok(s.to_string()),
        Err(e) => Err(e.to_string()),
    }
}

} // verus!

verus! {

/// The start of the line that holds position `p`.
pub open spec fn line_start(s: Seq<char>, p: int) -> int
    decreases p,
{
    if p <= 0 {
        0
    } else if s[p - 1] == '\n' {
        p
    } else {
        line_start(s, p - 1)
    }
}

proof fn lemma_line_start(s: Seq<char>, p: int)
    requires
        0 <= p <= s.len(),
    ensures
        0 <= line_start(s, p) <= p,
        line_start(s, p) == 0 || s[line_start(s, p) - 1] == '\n',
        forall|k: int| line_start(s, p) <= k < p ==> s[k] != '\n',
    decreases p,
{
    if p > 0 && s[p - 1] != '\n' {
        lemma_line_start(s, p - 1);
    }
}

/// The lines from a later line start are a tail of the lines from an
/// earlier one.
proof fn lemma_lines_tail(s: Seq<char>, i: int, j: int)
    requires
        0 <= i <= j < s.len(),
        i == j || s[j - 1] == '\n',
    ensures
        exists|k: int| 0 <= k <= lines_from(s, i).len() && lines_from(s, i).skip(k) == lines_from(s, j),
    decreases j - i,
{
    if i == j {
        assert(lines_from(s, i).skip(0) =~= lines_from(s, i));
    } else {
        lemma_line_end(s, i);
        let e = line_end(s, i);
        assert(e <= j - 1) by {
            if e > j - 1 {
                assert(s[j - 1] != '\n');
            }
        }
        let rest = lines_from(s, e + 1);
        assert(lines_from(s, i) == seq![strip_cr(s.subrange(i, e))] + rest);
        lemma_lines_tail(s, e + 1, j);
        let k = choose|k: int| 0 <= k <= rest.len() && rest.skip(k) == lines_from(s, j);
        assert(lines_from(s, i).skip(k + 1) =~= rest.skip(k));
    }
}

/// A text with no line feed lies within one line; so it is seen in the lines
/// unless it ends with a carriage return that a line feed follows.
pub proof fn lemma_occurrence_in_line(s: Seq<char>, x: Seq<char>, p: int)
    requires
        occurs_at(s, x, p),
        x.len() > 0,
        forall|k: int| 0 <= k < x.len() ==> x[k] != '\n',
        x.last() != '\r' || (p + x.len() < s.len() && s[p + x.len()] != '\n'),
    ensures
        some_line_contains(lines(s), x),
{
    lemma_line_start(s, p);
    let j = line_start(s, p);
    let q = p + x.len();
    assert forall|k: int| j <= k < q implies s[k] != '\n' by {
        if k >= p {
            assert(s.subrange(p, q)[k - p] == x[k - p]);
        }
    }
    lemma_lines_tail(s, 0, j);
    let all = lines_from(s, 0);
    let k = choose|k: int| 0 <= k <= all.len() && all.skip(k) == lines_from(s, j);
    lemma_line_end(s, j);
    let e = line_end(s, j);
    assert(e >= q) by {
        if e < q {
            assert(s[e] == '\n');
        }
    }
    let line = lines_from(s, j)[0];
    if e < s.len() {
        assert(line == strip_cr(s.subrange(j, e)));
        let seg = s.subrange(j, e);
        if seg.len() > 0 && seg.last() == '\r' {
            assert(e > q) by {
                if e == q {
                    assert(seg.last() == x.last());
                }
            }
        }
        assert(line.subrange(p - j, q - j) =~= x);
    } else {
        assert(line == s.subrange(j, s.len() as int));
        assert(line.subrange(p - j, q - j) =~= x);
    }
    assert(occurs_at(line, x, p - j));
    assert(lines_from(s, j).len() > 0);
    assert(all.skip(k).len() > 0);
    assert(k < all.len());
    assert(all.skip(k)[0] == all[k]);
    assert(all[k] == line);
    assert(contains(all[k], x));
}

} // verus!

verus! {

/// An occurrence inside an occurrence.
pub proof fn lemma_occurs_within(s: Seq<char>, b: Seq<char>, x: Seq<char>, q: int, m: int)
    requires
        occurs_at(s, b, q),
        occurs_at(b, x, m),
    ensures
        occurs_at(s, x, q + m),
{
    assert(s.subrange(q + m, q + m + x.len()) =~= b.subrange(m, m + x.len()));
}

/// When `p` occurs in `s`, the replacement text occurs in the result.
pub proof fn lemma_replace_contains(s: Seq<char>, p: Seq<char>, t: Seq<char>)
    requires
        p.len() > 0,
        contains(s, p),
    ensures
        contains(replace(s, p, t), t),
    decreases s.len(),
{
    let i = choose|i: int| occurs_at(s, p, i);
    if starts_with(s, p) {
        let r = replace(s, p, t);
        assert(r.subrange(0, t.len() as int) =~= t);
        assert(occurs_at(r, t, 0));
    } else {
        assert(i > 0);
        let d = s.drop_first();
        assert(d.subrange(i - 1, i - 1 + p.len()) =~= s.subrange(i, i + p.len()));
        assert(occurs_at(d, p, i - 1));
        lemma_replace_contains(d, p, t);
        let rest = replace(d, p, t);
        let q = choose|q: int| occurs_at(rest, t, q);
        let r = replace(s, p, t);
        assert(r == seq![s[0]] + rest);
        assert(r.subrange(q + 1, q + 1 + t.len()) =~= rest.subrange(q, q + t.len()));
        assert(occurs_at(r, t, q + 1));
    }
}

/// Replacing starts at the first occurrence: the text before it is kept, the
/// occurrence becomes `t`, and the rest is replaced in turn.
pub proof fn lemma_replace_first(s: Seq<char>, p: Seq<char>, t: Seq<char>, i: int)
    requires
        p.len() > 0,
        occurs_at(s, p, i),
        forall|j: int| 0 <= j < i ==> !occurs_at(s, p, j),
    ensures
        replace(s, p, t) == s.take(i) + t + replace(s.skip(i + p.len()), p, t),
    decreases i,
{
    if i == 0 {
        assert(s.subrange(0, p.len() as int) == p);
        assert(s.take(0) + t =~= t);
    } else {
        assert(!occurs_at(s, p, 0));
        let d = s.drop_first();
        assert(d.subrange(i - 1, i - 1 + p.len()) =~= s.subrange(i, i + p.len()));
        assert forall|j: int| 0 <= j < i - 1 implies !occurs_at(d, p, j) by {
            assert(d.subrange(j, j + p.len()) =~= s.subrange(j + 1, j + 1 + p.len()));
            assert(!occurs_at(s, p, j + 1));
        }
        lemma_replace_first(d, p, t, i - 1);
        assert(d.skip(i - 1 + p.len()) =~= s.skip(i + p.len()));
        assert(seq![s[0]] + d.take(i - 1) =~= s.take(i));
        assert(replace(s, p, t) == seq![s[0]] + replace(d, p, t));
        assert(seq![s[0]] + (d.take(i - 1) + t + replace(s.skip(i + p.len()), p, t)) =~= s.take(i) + t
            + replace(s.skip(i + p.len()), p, t));
    }
}

/// Every line occurs in the text.
pub proof fn lemma_lines_occur(s: Seq<char>, i: int)
    requires
        0 <= i,
    ensures
        forall|k: int| 0 <= k < lines_from(s, i).len() ==> contains(s, #[trigger] lines_from(s, i)[k]),
    decreases s.len() - i,
{
    if i < s.len() {
        lemma_line_end(s, i);
        let e = line_end(s, i);
        let ls = lines_from(s, i);
        let head = ls[0];
        if e < s.len() {
            lemma_lines_occur(s, e + 1);
            let seg = s.subrange(i, e);
            assert(head == strip_cr(seg));
            assert(s.subrange(i, i + head.len()) =~= head);
            assert(occurs_at(s, head, i));
            assert forall|k: int| 0 <= k < ls.len() implies contains(s, #[trigger] ls[k]) by {
                if k > 0 {
                    assert(ls[k] == lines_from(s, e + 1)[k - 1]);
                } else {
                    assert(occurs_at(s, head, i));
                }
            }
        } else {
            assert(s.subrange(i, i + head.len()) =~= head);
            assert(occurs_at(s, head, i));
            assert forall|k: int| 0 <= k < ls.len() implies contains(s, #[trigger] ls[k]) by {
                assert(k == 0);
                assert(occurs_at(s, head, i));
            }
        }
    }
}

} // verus!

verus! {

proof fn lemma_trim_start_head(s: Seq<char>)
    ensures
        trim_start(s).len() > 0 ==> !is_ws(trim_start(s)[0]),
        trim_start(s).len() == 0 || trim_start(s).last() == s.last(),
    decreases s.len(),
{
    if s.len() > 0 && is_ws(s[0]) {
        lemma_trim_start_head(s.drop_first());
    }
}

proof fn lemma_trim_end_prefix(s: Seq<char>)
    ensures
        trim_end(s).len() <= s.len(),
        trim_end(s) == s.take(trim_end(s).len() as int),
        trim_end(s).len() > 0 ==> !is_ws(trim_end(s).last()),
    decreases s.len(),
{
    if s.len() > 0 && is_ws(s.last()) {
        lemma_trim_end_prefix(s.drop_last());
        let t = trim_end(s.drop_last());
        assert(s.drop_last().take(t.len() as int) =~= s.take(t.len() as int));
    } else {
        assert(s.take(s.len() as int) =~= s);
    }
}

/// Trimming twice trims no more than once.
pub proof fn lemma_trim_idempotent(s: Seq<char>)
    ensures
        trim(trim(s)) == trim(s),
{
    let u = trim_start(s);
    let t = trim_end(u);
    lemma_trim_start_head(s);
    lemma_trim_end_prefix(u);
    if t.len() > 0 {
        assert(t[0] == u[0]);
        assert(trim_start(t) == t);
        assert(trim_end(t) == t);
    } else {
        assert(trim_start(t) == t);
        assert(trim_end(t) == t);
    }
}

} // verus!

verus! {

/// `s` with every whitespace character taken out.
pub open spec fn strip_ws(s: Seq<char>) -> Seq<char>
    decreases s.len(),
{
    if s.len() == 0 {
        s
    } else if is_ws(s[0]) {
        strip_ws(s.drop_first())
    } else {
        seq![s[0]] + strip_ws(s.drop_first())
    }
}

/// Taking whitespace out of two texts put together.
pub proof fn lemma_strip_add(a: Seq<char>, b: Seq<char>)
    ensures
        strip_ws(a + b) == strip_ws(a) + strip_ws(b),
    decreases a.len(),
{
    if a.len() == 0 {
        assert(a + b =~= b);
        assert(strip_ws(a) + strip_ws(b) =~= strip_ws(b));
    } else {
        assert((a + b).drop_first() =~= a.drop_first() + b);
        lemma_strip_add(a.drop_first(), b);
        assert((a + b)[0] == a[0]);
        if !is_ws(a[0]) {
            assert(seq![a[0]] + (strip_ws(a.drop_first()) + strip_ws(b)) =~= seq![a[0]]
                + strip_ws(a.drop_first()) + strip_ws(b));
        }
    }
}

/// Trimming takes out only whitespace.
pub proof fn lemma_strip_trim(s: Seq<char>)
    ensures
        strip_ws(trim(s)) == strip_ws(s),
{
    lemma_strip_trim_start(s);
    lemma_strip_trim_end(trim_start(s));
}

proof fn lemma_strip_trim_start(s: Seq<char>)
    ensures
        strip_ws(trim_start(s)) == strip_ws(s),
    decreases s.len(),
{
    if s.len() > 0 && is_ws(s[0]) {
        lemma_strip_trim_start(s.drop_first());
    }
}

proof fn lemma_strip_trim_end(s: Seq<char>)
    ensures
        strip_ws(trim_end(s)) == strip_ws(s),
    decreases s.len(),
{
    if s.len() > 0 && is_ws(s.last()) {
        lemma_strip_trim_end(s.drop_last());
        let l = seq![s.last()];
        assert(s =~= s.drop_last() + l);
        lemma_strip_add(s.drop_last(), l);
        assert(l.drop_first() =~= Seq::<char>::empty());
        assert(is_ws(l[0]));
        assert(strip_ws(l) == strip_ws(l.drop_first()));
        assert(strip_ws(l).len() == 0);
        assert(strip_ws(s.drop_last()) + strip_ws(l) =~= strip_ws(s.drop_last()));
    }
}

/// Replacing a text that does not occur changes nothing.
pub proof fn lemma_replace_absent(s: Seq<char>, p: Seq<char>, t: Seq<char>)
    requires
        p.len() > 0,
        !contains(s, p),
    ensures
        replace(s, p, t) == s,
    decreases s.len(),
{
    if s.len() >= p.len() {
        assert(!occurs_at(s, p, 0));
        let d = s.drop_first();
        if contains(d, p) {
            let j = choose|j: int| occurs_at(d, p, j);
            assert(s.subrange(j + 1, j + 1 + p.len()) =~= d.subrange(j, j + p.len()));
            assert(occurs_at(s, p, j + 1));
        }
        lemma_replace_absent(d, p, t);
        assert(seq![s[0]] + d =~= s);
    }
}

/// Where `p` does not occur before position `k`, replacing keeps the text
/// before `k` and goes on from there.
pub proof fn lemma_replace_skip(s: Seq<char>, p: Seq<char>, t: Seq<char>, k: int)
    requires
        p.len() > 0,
        0 <= k <= s.len(),
        forall|j: int| 0 <= j < k ==> !occurs_at(s, p, j),
    ensures
        replace(s, p, t) == s.take(k) + replace(s.skip(k), p, t),
    decreases k,
{
    if k == 0 {
        assert(s.skip(0) =~= s);
        assert(s.take(0) + replace(s, p, t) =~= replace(s, p, t));
    } else if s.len() < p.len() {
        assert(s.skip(k).len() < p.len());
        assert(s.take(k) + s.skip(k) =~= s);
    } else {
        assert(!occurs_at(s, p, 0));
        let d = s.drop_first();
        assert forall|j: int| 0 <= j < k - 1 implies !occurs_at(d, p, j) by {
            if j + p.len() <= d.len() {
                assert(s.subrange(j + 1, j + 1 + p.len()) =~= d.subrange(j, j + p.len()));
                assert(!occurs_at(s, p, j + 1));
            }
        }
        lemma_replace_skip(d, p, t, k - 1);
        assert(d.skip(k - 1) =~= s.skip(k));
        assert(seq![s[0]] + d.take(k - 1) =~= s.take(k));
        assert(seq![s[0]] + (d.take(k - 1) + replace(s.skip(k), p, t)) =~= s.take(k) + replace(
            s.skip(k),
            p,
            t,
        ));
    }
}

/// Replacing a text by one with the same non-whitespace characters keeps
/// the non-whitespace characters of the whole.
pub proof fn lemma_strip_replace(s: Seq<char>, p: Seq<char>, t: Seq<char>)
    requires
        p.len() > 0,
        strip_ws(p) == strip_ws(t),
    ensures
        strip_ws(replace(s, p, t)) == strip_ws(s),
    decreases s.len(),
{
    if p.len() == 0 || s.len() < p.len() {
    } else if starts_with(s, p) {
        let rest = s.skip(p.len() as int);
        lemma_strip_replace(rest, p, t);
        lemma_strip_add(t, replace(rest, p, t));
        assert(s.subrange(0, p.len() as int) == p);
        assert(s =~= p + rest);
        lemma_strip_add(p, rest);
    } else {
        let d = s.drop_first();
        lemma_strip_replace(d, p, t);
        lemma_strip_add(seq![s[0]], replace(d, p, t));
        lemma_strip_add(seq![s[0]], d);
        assert(s =~= seq![s[0]] + d);
    }
}

} // verus!
