use vstd::prelude::*;

use crate::text::{chars_of, contains, contains_exec, decimal, push_decimal};

verus! {

broadcast use vstd::string::group_string_axioms;

/// Hours, minutes and seconds of an uptime given in seconds.
pub fn uptime_parts(total: u64) -> (r: (u64, u64, u64))
    ensures
        r.0 == total / 3600,
        r.1 == (total - r.0 * 3600) / 60,
        r.2 == total - r.0 * 3600 - r.1 * 60,
        r.0 * 3600 + r.1 * 60 + r.2 == total,
        r.1 < 60,
        r.2 < 60,
{
    let hours = total / 3600;
    assert(hours * 3600 <= total) by (nonlinear_arith)
        requires
            hours == total / 3600,
    ;
    let rest = total - hours * 3600;
    assert(rest < 3600) by (nonlinear_arith)
        requires
            hours == total / 3600,
            rest == total - hours * 3600,
    ;
    let minutes = rest / 60;
    let seconds = rest - minutes * 60;
    (hours, minutes, seconds)
}

/// A number written with at least two digits.
pub open spec fn two_digits(n: u64) -> Seq<char> {
    if n < 10 {
        seq!['0'] + decimal(n as nat)
    } else {
        decimal(n as nat)
    }
}

/// An uptime written `HH:MM:SS`.
pub open spec fn uptime_text(h: u64, m: u64, s: u64) -> Seq<char> {
    two_digits(h) + ":"@ + two_digits(m) + ":"@ + two_digits(s)
}

/// Appends `n` with at least two digits.
fn push_two_digits(out: &mut String, n: u64)
    ensures
        final(out)@ == old(out)@ + two_digits(n),
{
    if n < 10 {
        out.append("0");
        proof {
            reveal_strlit("0");
        }
    }
    push_decimal(out, n);
    assert(out@ =~= old(out)@ + two_digits(n));
}

/// An uptime written `HH:MM:SS`, from its seconds.
pub fn uptime_string(total: u64) -> (r: String)
    ensures
        ({
            let h = total / 3600;
            let m = (total - h * 3600) / 60;
            let s = total - h * 3600 - m * 60;
            r@ == uptime_text(h as u64, m as u64, s as u64)
        }),
{
    let (h, m, s) = uptime_parts(total);
    let mut r = String::new();
    push_two_digits(&mut r, h);
    r.append(":");
    push_two_digits(&mut r, m);
    r.append(":");
    push_two_digits(&mut r, s);
    r
}

/// Bytes in a GiB.
pub const GIB: u64 = 1073741824;

/// Used, total and available space of a disk in whole GiB: the used space is
/// the total less the available space, each first rounded down to GiB.
pub fn disk_gb(total: u64, available: u64) -> (r: (u64, u64, u64))
    requires
        available / GIB <= total / GIB,
    ensures
        r.0 == total / GIB - available / GIB,
        r.1 == total / GIB,
        r.2 == available / GIB,
{
    let used = total / GIB - available / GIB;
    let total_space = total / GIB;
    let free = available / GIB;
    (used, total_space, free)
}

/// What `str::to_lowercase` makes of `s`: a function of `s` alone, given by
/// Unicode's lowercase mappings, only named here.
pub uninterp spec fn lowercase(s: Seq<char>) -> Seq<char>;

/// `str::to_lowercase`.
#[verifier::external_body]
fn to_lowercase(s: &str) -> (r: String)
    ensures
        r@ == lowercase(s@),
{
    s.to_lowercase()
}

/// A sensor label that names the CPU: once lowercased it mentions `cpu`,
/// `package`, `tctl` or `k10temp`.
pub open spec fn cpu_label(label: Seq<char>) -> bool {
    let l = lowercase(label);
    contains(l, "cpu"@) || contains(l, "package"@) || contains(l, "tctl"@) || contains(
        l,
        "k10temp"@,
    )
}

/// Whether a sensor label names the CPU.
pub fn is_cpu_label(label: &str) -> (r: bool)
    ensures
        r == cpu_label(label@),
{
    let l = chars_of(to_lowercase(label).as_str());
    contains_exec(&l, &chars_of("cpu")) || contains_exec(&l, &chars_of("package")) || contains_exec(
        &l,
        &chars_of("tctl"),
    ) || contains_exec(&l, &chars_of("k10temp"))
}

/// The first sensor whose label names the CPU.
pub fn cpu_sensor_index(labels: &Vec<String>) -> (r: Option<usize>)
    ensures
        r matches Some(i) ==> i < labels@.len() && cpu_label(labels@[i as int]@) && forall|j: int|
            0 <= j < i ==> !cpu_label(#[trigger] labels@[j]@),
        r is None ==> forall|j: int| 0 <= j < labels@.len() ==> !cpu_label(#[trigger] labels@[j]@),
{
    for i in 0..labels.len()
        invariant
            forall|j: int| 0 <= j < i ==> !cpu_label(#[trigger] labels@[j]@),
    {
        if is_cpu_label(labels[i].as_str()) {
            return Some(i);
        }
    }
    None
}

} // verus!
