//! Run identifiers: `run_<milliseconds>_<8 hex digits>_<sequence number>`.

use vstd::prelude::*;
use crate::state::state_file_name_of;
use crate::text::{push_char, push_str, replace_char};

verus! {

/// The character of a digit below 16 (`0`-`9`, then `a`-`f`).
pub open spec fn digit_char(d: int) -> char {
    if d == 0 { '0' }
    else if d == 1 { '1' }
    else if d == 2 { '2' }
    else if d == 3 { '3' }
    else if d == 4 { '4' }
    else if d == 5 { '5' }
    else if d == 6 { '6' }
    else if d == 7 { '7' }
    else if d == 8 { '8' }
    else if d == 9 { '9' }
    else if d == 10 { 'a' }
    else if d == 11 { 'b' }
    else if d == 12 { 'c' }
    else if d == 13 { 'd' }
    else if d == 14 { 'e' }
    else { 'f' }
}

/// The decimal digits of `n`, most significant first, without leading zeros.
pub open spec fn decimal(n: nat) -> Seq<char>
    decreases n,
{
    if n < 10 {
        seq![digit_char(n as int)]
    } else {
        decimal(n / 10).push(digit_char((n % 10) as int))
    }
}

/// The last `k` hexadecimal digits of `n`, most significant first, padded
/// with zeros.
pub open spec fn hex_digits(n: nat, k: nat) -> Seq<char>
    decreases k,
{
    if k == 0 {
        Seq::empty()
    } else {
        hex_digits(n / 16, (k - 1) as nat).push(digit_char((n % 16) as int))
    }
}

/// The multiplier that spreads the process id over the suffix.
pub open spec fn spread() -> u128 {
    0x9e3779b97f4a7c15u128
}

/// The 32-bit suffix of a run id made at `ms` by process `pid`.
pub open spec fn suffix_of(ms: u128, pid: u32) -> u128 {
    (ms ^ ((pid as u128) * spread()) as u128) & 0xFFFF_FFFFu128
}

/// The run id made at `ms` milliseconds after the epoch by process `pid` as
/// its `seq`-th run.
pub open spec fn run_id_of(ms: u128, pid: u32, seq: u64) -> Seq<char> {
    "run_"@ + decimal(ms as nat) + "_"@ + hex_digits(suffix_of(ms, pid) as nat, 8) + "_"@ + decimal(
        seq as nat,
    )
}

fn digit(d: u128) -> (c: char)
    requires
        d < 16,
    ensures
        c == digit_char(d as int),
{
    match d {
        0 => '0',
        1 => '1',
        2 => '2',
        3 => '3',
        4 => '4',
        5 => '5',
        6 => '6',
        7 => '7',
        8 => '8',
        9 => '9',
        10 => 'a',
        11 => 'b',
        12 => 'c',
        13 => 'd',
        14 => 'e',
        _ => 'f',
    }
}

fn push_decimal(s: &mut String, n: u128)
    ensures
        final(s)@ == old(s)@ + decimal(n as nat),
    decreases n,
{
    if n >= 10 {
        push_decimal(s, n / 10);
    }
    push_char(s, digit(n % 10));
    assert(s@ =~= old(s)@ + decimal(n as nat));
}

fn push_hex(s: &mut String, n: u128, k: u32)
    ensures
        final(s)@ == old(s)@ + hex_digits(n as nat, k as nat),
    decreases k,
{
    if k == 0 {
        assert(old(s)@ + hex_digits(n as nat, 0) =~= old(s)@);
        return;
    }
    push_hex(s, n / 16, k - 1);
    push_char(s, digit(n % 16));
    assert(s@ =~= old(s)@ + hex_digits(n as nat, k as nat));
}

/// The run id made at `ms` milliseconds after the epoch by process `pid` as
/// its `seq`-th run: `run_`, the milliseconds in decimal, `_`, 8 lowercase
/// hex digits of `(ms ^ (pid * 0x9e3779b97f4a7c15)) & 0xFFFFFFFF`, `_`, and
/// the sequence number in decimal.
pub fn format_run_id(ms: u128, pid: u32, seq: u64) -> (r: String)
    ensures
        r@ == run_id_of(ms, pid, seq),
{
    assert((pid as u128) * 0x9e3779b97f4a7c15u128 <= 0xFFFF_FFFFu128 * 0x9e3779b97f4a7c15u128)
        by (nonlinear_arith);
    let spread_pid: u128 = (pid as u128) * 0x9e3779b97f4a7c15u128;
    let suffix: u128 = (ms ^ spread_pid) & 0xFFFF_FFFFu128;
    let mut s = String::new();
    push_str(&mut s, "run_");
    push_decimal(&mut s, ms);
    push_str(&mut s, "_");
    push_hex(&mut s, suffix, 8);
    push_str(&mut s, "_");
    push_decimal(&mut s, seq as u128);
    proof {
        assert(s@ =~= run_id_of(ms, pid, seq));
    }
    s
}

// ── Laws ─────────────────────────────────────────────────────────────────────

proof fn lemma_digit_char_injective(a: int, b: int)
    requires
        0 <= a < 16,
        0 <= b < 16,
        digit_char(a) == digit_char(b),
    ensures
        a == b,
{
}

proof fn lemma_decimal_len(n: nat)
    ensures
        decimal(n).len() >= 1,
        n >= 10 ==> decimal(n).len() >= 2,
    decreases n,
{
    if n >= 10 {
        lemma_decimal_len(n / 10);
    }
}

proof fn lemma_hex_len(n: nat, k: nat)
    ensures
        hex_digits(n, k).len() == k,
    decreases k,
{
    if k > 0 {
        lemma_hex_len(n / 16, (k - 1) as nat);
    }
}

/// Different numbers have different decimal forms.
pub proof fn lemma_decimal_injective(a: nat, b: nat)
    requires
        decimal(a) == decimal(b),
    ensures
        a == b,
    decreases a,
{
    lemma_decimal_len(a);
    lemma_decimal_len(b);
    if a < 10 && b < 10 {
        assert(decimal(a) == seq![digit_char(a as int)]);
        assert(decimal(b) == seq![digit_char(b as int)]);
        assert(decimal(a)[0] == digit_char(a as int));
        assert(decimal(b)[0] == digit_char(b as int));
        lemma_digit_char_injective(a as int, b as int);
    } else if a >= 10 && b >= 10 {
        let la = decimal(a).len() - 1;
        assert(decimal(a) == decimal(a / 10).push(digit_char((a % 10) as int)));
        assert(decimal(b) == decimal(b / 10).push(digit_char((b % 10) as int)));
        assert(decimal(a)[la] == digit_char((a % 10) as int));
        assert(decimal(b)[la] == digit_char((b % 10) as int));
        lemma_digit_char_injective((a % 10) as int, (b % 10) as int);
        assert(decimal(a).drop_last() == decimal(b).drop_last());
        assert(decimal(a / 10) =~= decimal(a).drop_last());
        assert(decimal(b / 10) =~= decimal(b).drop_last());
        lemma_decimal_injective(a / 10, b / 10);
    }
}

/// No digit is `_` or a path separator.
proof fn lemma_digit_not_special(d: int)
    ensures
        digit_char(d) != '/',
        digit_char(d) != '\\',
        digit_char(d) != '_',
{
}

/// The digits of a number hold no `_` and no path separator.
proof fn lemma_decimal_plain(n: nat)
    ensures
        forall|i: int|
            0 <= i < decimal(n).len() ==> decimal(n)[i] != '/' && decimal(n)[i] != '\\'
                && decimal(n)[i] != '_',
    decreases n,
{
    lemma_digit_not_special(n as int);
    lemma_digit_not_special((n % 10) as int);
    if n >= 10 {
        lemma_decimal_plain(n / 10);
        let p = decimal(n / 10);
        assert forall|i: int| 0 <= i < decimal(n).len() implies decimal(n)[i] != '/' && decimal(n)[i]
            != '\\' && decimal(n)[i] != '_' by {
            if i < p.len() {
                assert(decimal(n)[i] == p[i]);
            }
        }
    }
}

/// Hexadecimal digits hold no `_` and no path separator.
proof fn lemma_hex_plain(n: nat, k: nat)
    ensures
        forall|i: int|
            0 <= i < hex_digits(n, k).len() ==> hex_digits(n, k)[i] != '/' && hex_digits(n, k)[i]
                != '\\' && hex_digits(n, k)[i] != '_',
    decreases k,
{
    if k > 0 {
        lemma_digit_not_special((n % 16) as int);
        lemma_hex_plain(n / 16, (k - 1) as nat);
        let p = hex_digits(n / 16, (k - 1) as nat);
        assert forall|i: int| 0 <= i < hex_digits(n, k).len() implies hex_digits(n, k)[i] != '/'
            && hex_digits(n, k)[i] != '\\' && hex_digits(n, k)[i] != '_' by {
            if i < p.len() {
                assert(hex_digits(n, k)[i] == p[i]);
            }
        }
    }
}

/// Two runs get the same id only when they were made at the same millisecond
/// with the same sequence number; so runs of one process, whose sequence
/// numbers differ, never share an id, and neither do runs made at different
/// milliseconds.
pub proof fn law_run_ids_differ(ms1: u128, pid1: u32, seq1: u64, ms2: u128, pid2: u32, seq2: u64)
    requires
        ms1 != ms2 || seq1 != seq2,
    ensures
        run_id_of(ms1, pid1, seq1) != run_id_of(ms2, pid2, seq2),
{
    let d1 = decimal(ms1 as nat);
    let d2 = decimal(ms2 as nat);
    let e1 = decimal(seq1 as nat);
    let e2 = decimal(seq2 as nat);
    let h1 = hex_digits(suffix_of(ms1, pid1) as nat, 8);
    let h2 = hex_digits(suffix_of(ms2, pid2) as nat, 8);
    lemma_hex_len(suffix_of(ms1, pid1) as nat, 8);
    lemma_hex_len(suffix_of(ms2, pid2) as nat, 8);
    lemma_decimal_plain(ms1 as nat);
    lemma_decimal_plain(ms2 as nat);
    reveal_strlit("run_");
    reveal_strlit("_");
    let r1 = run_id_of(ms1, pid1, seq1);
    let r2 = run_id_of(ms2, pid2, seq2);
    assert(r1 =~= "run_"@ + d1 + "_"@ + h1 + "_"@ + e1);
    assert(r2 =~= "run_"@ + d2 + "_"@ + h2 + "_"@ + e2);
    if r1 == r2 {
        let l1 = d1.len() as int;
        let l2 = d2.len() as int;
        assert(r1[4 + l1] == '_');
        assert(r2[4 + l2] == '_');
        if l1 < l2 {
            assert(r2[4 + l1] == d2[l1]);
        } else if l2 < l1 {
            assert(r1[4 + l2] == d1[l2]);
        }
        assert(l1 == l2);
        assert(d1 =~= r1.subrange(4, 4 + l1));
        assert(d2 =~= r2.subrange(4, 4 + l2));
        lemma_decimal_injective(ms1 as nat, ms2 as nat);
        assert(e1 =~= r1.subrange(14 + l1, r1.len() as int));
        assert(e2 =~= r2.subrange(14 + l2, r2.len() as int));
        lemma_decimal_injective(seq1 as nat, seq2 as nat);
    }
}

/// Replacing a character that does not occur changes nothing.
proof fn lemma_replace_absent(s: Seq<char>, c: char, with: Seq<char>)
    requires
        forall|i: int| 0 <= i < s.len() ==> s[i] != c,
    ensures
        replace_char(s, c, with) == s,
    decreases s.len(),
{
    if s.len() > 0 {
        lemma_replace_absent(s.drop_last(), c, with);
        assert(s.drop_last().push(s.last()) =~= s);
    }
}

/// A run id holds no path separator.
proof fn lemma_run_id_no_separator(ms: u128, pid: u32, seq: u64)
    ensures
        forall|i: int|
            0 <= i < run_id_of(ms, pid, seq).len() ==> run_id_of(ms, pid, seq)[i] != '/'
                && run_id_of(ms, pid, seq)[i] != '\\',
{
    reveal_strlit("run_");
    reveal_strlit("_");
    let d = decimal(ms as nat);
    let h = hex_digits(suffix_of(ms, pid) as nat, 8);
    let e = decimal(seq as nat);
    lemma_decimal_plain(ms as nat);
    lemma_decimal_plain(seq as nat);
    lemma_hex_plain(suffix_of(ms, pid) as nat, 8);
    lemma_hex_len(suffix_of(ms, pid) as nat, 8);
    let r = run_id_of(ms, pid, seq);
    assert(r =~= "run_"@ + d + "_"@ + h + "_"@ + e);
    assert forall|i: int| 0 <= i < r.len() implies r[i] != '/' && r[i] != '\\' by {
        if i < 4 {
            assert(r[i] == "run_"@[i]);
        } else if i < 4 + d.len() {
            assert(r[i] == d[i - 4]);
        } else if i == 4 + d.len() {
            assert(r[i] == '_');
        } else if i < 13 + d.len() {
            assert(r[i] == h[i - 5 - d.len()]);
        } else if i == 13 + d.len() {
            assert(r[i] == '_');
        } else {
            assert(r[i] == e[i - 14 - d.len()]);
        }
    }
}

/// Two runs of one agent whose ids differ (see [`law_run_ids_differ`]) keep
/// their state in different files, so they never overwrite each other's state.
pub proof fn law_runs_keep_separate_state(
    user: Seq<char>,
    agent: Seq<char>,
    sep: char,
    ms1: u128,
    pid1: u32,
    seq1: u64,
    ms2: u128,
    pid2: u32,
    seq2: u64,
)
    requires
        sep == '/' || sep == '\\',
        ms1 != ms2 || seq1 != seq2,
    ensures
        state_file_name_of(user, agent, run_id_of(ms1, pid1, seq1), sep) != state_file_name_of(
            user,
            agent,
            run_id_of(ms2, pid2, seq2),
            sep,
        ),
{
    let r1 = run_id_of(ms1, pid1, seq1);
    let r2 = run_id_of(ms2, pid2, seq2);
    lemma_run_id_no_separator(ms1, pid1, seq1);
    lemma_run_id_no_separator(ms2, pid2, seq2);
    lemma_replace_absent(r1, sep, "_"@);
    lemma_replace_absent(r2, sep, "_"@);
    law_run_ids_differ(ms1, pid1, seq1, ms2, pid2, seq2);
    let p = "notilens_"@ + user + "_"@ + replace_char(agent, sep, "_"@) + "_"@;
    let n1 = state_file_name_of(user, agent, r1, sep);
    let n2 = state_file_name_of(user, agent, r2, sep);
    assert(n1 =~= p + r1 + ".json"@);
    assert(n2 =~= p + r2 + ".json"@);
    if n1 == n2 {
        assert(r1.len() == r2.len());
        assert(r1 =~= n1.subrange(p.len() as int, (p.len() + r1.len()) as int));
        assert(r2 =~= n2.subrange(p.len() as int, (p.len() + r2.len()) as int));
    }
}

} // verus!
