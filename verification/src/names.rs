//! Syscall-number-to-name resolution.
//!
//! A deliberately partial, hand-maintained table covers common process,
//! file, memory, signal and thread lifecycle calls; every number outside
//! the table resolves to a generated placeholder embedding the raw number,
//! so resolution is total and never fails.
use vstd::prelude::*;
use vstd::string::StringExecFns;

verus! {

/// The character for one decimal digit value.
pub open spec fn digit_char(d: nat) -> char {
    if d == 0 {
        '0'
    } else if d == 1 {
        '1'
    } else if d == 2 {
        '2'
    } else if d == 3 {
        '3'
    } else if d == 4 {
        '4'
    } else if d == 5 {
        '5'
    } else if d == 6 {
        '6'
    } else if d == 7 {
        '7'
    } else if d == 8 {
        '8'
    } else {
        '9'
    }
}

/// The decimal representation of a natural number, most significant
/// digit first, with no leading zeros (a single '0' for zero).
pub open spec fn dec_rep(n: nat) -> Seq<char>
    decreases n,
{
    if n < 10 {
        seq![digit_char(n)]
    } else {
        dec_rep(n / 10) + seq![digit_char(n % 10)]
    }
}

/// The decimal representation of an integer: a leading '-' for a
/// negative value, then the representation of its magnitude.
pub open spec fn dec_rep_signed(n: int) -> Seq<char> {
    if n >= 0 {
        dec_rep(n as nat)
    } else {
        seq!['-'] + dec_rep((-n) as nat)
    }
}

/// The table entry for a syscall number, or `None` outside the table.
pub open spec fn spec_table_name(n: int) -> Option<Seq<char>> {
    if n == 0 {
        Some("read"@)
    } else if n == 1 {
        Some("write"@)
    } else if n == 2 {
        Some("open"@)
    } else if n == 3 {
        Some("close"@)
    } else if n == 5 {
        Some("fstat"@)
    } else if n == 9 {
        Some("mmap"@)
    } else if n == 10 {
        Some("mprotect"@)
    } else if n == 12 {
        Some("brk"@)
    } else if n == 13 {
        Some("rt_sigaction"@)
    } else if n == 14 {
        Some("rt_sigprocmask"@)
    } else if n == 32 {
        Some("dup"@)
    } else if n == 33 {
        Some("dup2"@)
    } else if n == 56 {
        Some("clone"@)
    } else if n == 59 {
        Some("execve"@)
    } else if n == 60 {
        Some("exit"@)
    } else if n == 61 {
        Some("wait4"@)
    } else if n == 62 {
        Some("lseek"@)
    } else if n == 63 {
        Some("readv"@)
    } else if n == 64 {
        Some("writev"@)
    } else if n == 186 {
        Some("gettid"@)
    } else if n == 202 {
        Some("futex"@)
    } else if n == 218 {
        Some("set_tid_address"@)
    } else if n == 231 {
        Some("exit_group"@)
    } else if n == 257 {
        Some("openat"@)
    } else if n == 273 {
        Some("set_robust_list"@)
    } else if n == 302 {
        Some("prlimit64"@)
    } else if n == 318 {
        Some("getrandom"@)
    } else {
        None
    }
}

/// The total name resolution: the table entry where one exists, else the
/// generated placeholder "sys_" followed by the number in decimal.
pub open spec fn spec_syscall_name(n: int) -> Seq<char> {
    match spec_table_name(n) {
        Some(s) => s,
        None => "sys_"@ + dec_rep_signed(n),
    }
}

/// One decimal digit as a string slice.
fn digit_str(d: u64) -> (r: &'static str)
    requires
        d < 10,
    ensures
        r@ == seq![digit_char(d as nat)],
{
    let r: &'static str = if d == 0 {
        "0"
    } else if d == 1 {
        "1"
    } else if d == 2 {
        "2"
    } else if d == 3 {
        "3"
    } else if d == 4 {
        "4"
    } else if d == 5 {
        "5"
    } else if d == 6 {
        "6"
    } else if d == 7 {
        "7"
    } else if d == 8 {
        "8"
    } else {
        "9"
    };
    proof {
        reveal_strlit("0");
        reveal_strlit("1");
        reveal_strlit("2");
        reveal_strlit("3");
        reveal_strlit("4");
        reveal_strlit("5");
        reveal_strlit("6");
        reveal_strlit("7");
        reveal_strlit("8");
        reveal_strlit("9");
        assert(r@ =~= seq![digit_char(d as nat)]);
    }
    r
}

/// Renders an unsigned number in decimal.
pub fn u64_to_dec(n: u64) -> (r: String)
    ensures
        r@ == dec_rep(n as nat),
    decreases n,
{
    if n < 10 {
        digit_str(n).to_owned()
    } else {
        let mut s = u64_to_dec(n / 10);
        s.append(digit_str(n % 10));
        s
    }
}

/// Renders a signed number in decimal.
pub fn i64_to_dec(n: i64) -> (r: String)
    ensures
        r@ == dec_rep_signed(n as int),
{
    if n >= 0 {
        u64_to_dec(n as u64)
    } else {
        let wide: i128 = -(n as i128);
        let mag: u64 = wide as u64;
        let mut s = "-".to_owned();
        proof {
            reveal_strlit("-");
            assert(s@ =~= seq!['-']);
        }
        s.append(u64_to_dec(mag).as_str());
        s
    }
}

/// Resolves a syscall number to its name. Total: a number outside the
/// table yields the placeholder "sys_<number>" rather than a failure.
pub fn syscall_name(n: i64) -> (r: String)
    ensures
        r@ == spec_syscall_name(n as int),
{
    match n {
        0 => "read".to_owned(),
        1 => "write".to_owned(),
        2 => "open".to_owned(),
        3 => "close".to_owned(),
        5 => "fstat".to_owned(),
        9 => "mmap".to_owned(),
        10 => "mprotect".to_owned(),
        12 => "brk".to_owned(),
        13 => "rt_sigaction".to_owned(),
        14 => "rt_sigprocmask".to_owned(),
        32 => "dup".to_owned(),
        33 => "dup2".to_owned(),
        56 => "clone".to_owned(),
        59 => "execve".to_owned(),
        60 => "exit".to_owned(),
        61 => "wait4".to_owned(),
        62 => "lseek".to_owned(),
        63 => "readv".to_owned(),
        64 => "writev".to_owned(),
        186 => "gettid".to_owned(),
        202 => "futex".to_owned(),
        218 => "set_tid_address".to_owned(),
        231 => "exit_group".to_owned(),
        257 => "openat".to_owned(),
        273 => "set_robust_list".to_owned(),
        302 => "prlimit64".to_owned(),
        318 => "getrandom".to_owned(),
        _ => {
            let mut s = "sys_".to_owned();
            s.append(i64_to_dec(n).as_str());
            s
        },
    }
}

} // verus!
