//! The textual summary of a batch run in test mode.
use vstd::prelude::*;
use crate::outcome::HurlRun;

verus! {

/// The character of a decimal digit.
pub open spec fn digit_char(d: nat) -> char {
    if d == 0 { '0' } else if d == 1 { '1' } else if d == 2 { '2' } else if d == 3 { '3' }
    else if d == 4 { '4' } else if d == 5 { '5' } else if d == 6 { '6' } else if d == 7 { '7' }
    else if d == 8 { '8' } else { '9' }
}

/// The decimal writing of `n`, without leading zeros.
pub open spec fn decimal(n: nat) -> Seq<char>
    decreases n,
{
    if n < 10 {
        seq![digit_char(n)]
    } else {
        decimal(n / 10).push(digit_char(n % 10))
    }
}

/// `part / total` as a percentage in tenths, rounded to the nearest tenth
/// with ties to even; zero when `total` is zero.
pub open spec fn percent_tenths(part: nat, total: nat) -> nat {
    if total == 0 {
        0
    } else {
        let q = (1000 * part) / total;
        let r = (1000 * part) % total;
        if 2 * r > total || (2 * r == total && q % 2 == 1) {
            q + 1
        } else {
            q
        }
    }
}

/// A percentage given in tenths, written with one decimal place.
pub open spec fn percent_text(tenths: nat) -> Seq<char> {
    decimal(tenths / 10) + "."@ + decimal(tenths % 10)
}

/// The number of runs of the batch that succeeded.
pub open spec fn success_count(runs: Seq<HurlRun>) -> nat
    decreases runs.len(),
{
    if runs.len() == 0 {
        0
    } else {
        success_count(runs.drop_last()) + if runs.last().hurl_result.success { 1nat } else { 0nat }
    }
}

/// The summary of a batch of `total` files of which `success` succeeded,
/// run in `duration` milliseconds.
pub open spec fn summary_text(total: nat, success: nat, duration: nat) -> Seq<char> {
    let failed = (total - success) as nat;
    "--------------------------------------------------------------------------------\nExecuted files:  "@
        + decimal(total) + "\nSucceeded files: "@ + decimal(success) + " ("@
        + percent_text(percent_tenths(success, total)) + "%)\nFailed files:    "@
        + decimal(failed) + " ("@ + percent_text(percent_tenths(failed, total))
        + "%)\nDuration:        "@ + decimal(duration) + " ms\n"@
}

proof fn lemma_success_count_bound(runs: Seq<HurlRun>)
    ensures
        success_count(runs) <= runs.len(),
    decreases runs.len(),
{
    if runs.len() > 0 {
        lemma_success_count_bound(runs.drop_last());
    }
}

/// In the summary of a batch of at least one file, the succeeded and the
/// failed files add up to all files, and their two percentages, each rounded
/// to a tenth, add up to exactly one hundred.
pub proof fn lemma_summary_adds_up(runs: Seq<HurlRun>)
    requires
        runs.len() > 0,
    ensures
        success_count(runs) <= runs.len(),
        success_count(runs) + (runs.len() - success_count(runs)) == runs.len(),
        percent_tenths(success_count(runs), runs.len())
            + percent_tenths((runs.len() - success_count(runs)) as nat, runs.len()) == 1000,
{
    lemma_success_count_bound(runs);
    lemma_percents_add_up(success_count(runs), runs.len());
}

proof fn lemma_percents_add_up(success: nat, total: nat)
    requires
        total > 0,
        success <= total,
    ensures
        percent_tenths(success, total) + percent_tenths((total - success) as nat, total) == 1000,
{
    let failed = (total - success) as nat;
    let a = 1000 * success;
    let b = 1000 * failed;
    assert(a + b == 1000 * total) by (nonlinear_arith)
        requires a == 1000 * success, b == 1000 * failed, failed == total - success;
    let q1 = a / total;
    let r1 = a % total;
    let q2 = b / total;
    let r2 = b % total;
    assert(a == q1 * total + r1 && 0 <= r1 < total) by (nonlinear_arith)
        requires q1 == a / total, r1 == a % total, total > 0;
    assert(b == q2 * total + r2 && 0 <= r2 < total) by (nonlinear_arith)
        requires q2 == b / total, r2 == b % total, total > 0;
    let d: int = 1000 - q1 - q2;
    assert(r1 + r2 == d * total) by (nonlinear_arith)
        requires a + b == 1000 * total, a == q1 * total + r1, b == q2 * total + r2, d == 1000 - q1 - q2;
    assert(0 <= d < 2) by (nonlinear_arith)
        requires r1 + r2 == d * total, 0 <= r1 < total, 0 <= r2 < total, total > 0;
    if d == 0 {
        assert(d * total == 0) by (nonlinear_arith)
            requires d == 0;
        assert(r1 == 0 && r2 == 0);
    } else {
        assert(d * total == total) by (nonlinear_arith)
            requires d == 1;
        assert(r1 + r2 == total);
    }
}

/// The character string of one decimal digit.
fn digit_str(d: u128) -> (s: &'static str)
    requires
        d < 10,
    ensures
        s@ == seq![digit_char(d as nat)],
{
    if d == 0 { proof { reveal_strlit("0"); } "0" }
    else if d == 1 { proof { reveal_strlit("1"); } "1" }
    else if d == 2 { proof { reveal_strlit("2"); } "2" }
    else if d == 3 { proof { reveal_strlit("3"); } "3" }
    else if d == 4 { proof { reveal_strlit("4"); } "4" }
    else if d == 5 { proof { reveal_strlit("5"); } "5" }
    else if d == 6 { proof { reveal_strlit("6"); } "6" }
    else if d == 7 { proof { reveal_strlit("7"); } "7" }
    else if d == 8 { proof { reveal_strlit("8"); } "8" }
    else { proof { reveal_strlit("9"); } "9" }
}

/// Appends the decimal writing of `n` to `s`.
pub fn push_decimal(s: &mut String, n: u128)
    ensures
        final(s)@ == old(s)@ + decimal(n as nat),
    decreases n,
{
    if n >= 10 {
        push_decimal(s, n / 10);
    }
    s.append(digit_str(n % 10));
    assert(final(s)@ == old(s)@ + decimal(n as nat));
}

/// Computes `part / total` as a percentage in tenths, rounded half to even.
pub fn percent(part: usize, total: usize) -> (t: u128)
    requires
        part <= total,
    ensures
        t == percent_tenths(part as nat, total as nat),
        t <= 1000,
{
    if total == 0 {
        return 0;
    }
    let a: u128 = 1000 * (part as u128);
    let n: u128 = total as u128;
    let q: u128 = a / n;
    let r: u128 = a % n;
    assert(q <= 1000) by (nonlinear_arith)
        requires q == a / n, a == 1000 * part, part <= n, n > 0;
    if 2 * r > n || (2 * r == n && q % 2 == 1) {
        assert(q < 1000) by (nonlinear_arith)
            requires q == a / n, r == a % n, a == 1000 * part, part <= n, n > 0, r > 0;
        q + 1
    } else {
        q
    }
}

/// Appends a percentage given in tenths, with one decimal place.
fn push_percent(s: &mut String, tenths: u128)
    ensures
        final(s)@ == old(s)@ + percent_text(tenths as nat),
{
    push_decimal(s, tenths / 10);
    s.append(".");
    push_decimal(s, tenths % 10);
}

/// Counts the runs of the batch that succeeded.
pub fn count_success(runs: &Vec<HurlRun>) -> (n: usize)
    ensures
        n == success_count(runs@),
        n <= runs@.len(),
{
    let mut n: usize = 0;
    let mut k: usize = 0;
    while k < runs.len()
        invariant
            0 <= k <= runs@.len(),
            n == success_count(runs@.take(k as int)),
            n <= k,
        decreases runs@.len() - k,
    {
        assert(runs@.take(k + 1).drop_last() == runs@.take(k as int));
        if runs[k].hurl_result.success {
            n += 1;
        }
        k += 1;
    }
    assert(runs@.take(k as int) == runs@);
    n
}

/// Returns the text summary of a batch run that took `duration` milliseconds.
pub fn get_summary(runs: &Vec<HurlRun>, duration: u128) -> (text: String)
    ensures
        text@ == summary_text(runs@.len(), success_count(runs@), duration as nat),
{
    let total = runs.len();
    let success = count_success(runs);
    let failed = total - success;
    let mut s = String::new();
    s.append("--------------------------------------------------------------------------------\nExecuted files:  ");
    push_decimal(&mut s, total as u128);
    s.append("\nSucceeded files: ");
    push_decimal(&mut s, success as u128);
    s.append(" (");
    push_percent(&mut s, percent(success, total));
    s.append("%)\nFailed files:    ");
    push_decimal(&mut s, failed as u128);
    s.append(" (");
    push_percent(&mut s, percent(failed, total));
    s.append("%)\nDuration:        ");
    push_decimal(&mut s, duration);
    s.append(" ms\n");
    s
}

} // verus!
