use rastreador::names::{i64_to_dec, syscall_name, u64_to_dec};
use rastreador::regs::{syscall_args, syscall_num, syscall_ret, RegisterSnapshot};

fn snapshot() -> RegisterSnapshot {
    RegisterSnapshot {
        orig_rax: 1,
        rax: 42,
        rdi: 10,
        rsi: 11,
        rdx: 12,
        r10: 13,
        r8: 14,
        r9: 15,
    }
}

#[test]
fn table_names_resolve() {
    assert_eq!(syscall_name(0), "read");
    assert_eq!(syscall_name(1), "write");
    assert_eq!(syscall_name(2), "open");
    assert_eq!(syscall_name(3), "close");
    assert_eq!(syscall_name(59), "execve");
    assert_eq!(syscall_name(60), "exit");
    assert_eq!(syscall_name(231), "exit_group");
    assert_eq!(syscall_name(257), "openat");
    assert_eq!(syscall_name(318), "getrandom");
}

#[test]
fn unmapped_numbers_get_placeholders() {
    assert_eq!(syscall_name(4), "sys_4");
    assert_eq!(syscall_name(999), "sys_999");
    assert_eq!(syscall_name(319), "sys_319");
}

#[test]
fn name_resolution_is_total_on_negative_and_extreme_numbers() {
    assert_eq!(syscall_name(-1), "sys_-1");
    assert_eq!(syscall_name(i64::MIN), "sys_-9223372036854775808");
    assert_eq!(syscall_name(i64::MAX), "sys_9223372036854775807");
}

#[test]
fn decimal_rendering() {
    assert_eq!(u64_to_dec(0), "0");
    assert_eq!(u64_to_dec(7), "7");
    assert_eq!(u64_to_dec(10), "10");
    assert_eq!(u64_to_dec(1234567890), "1234567890");
    assert_eq!(u64_to_dec(u64::MAX), "18446744073709551615");
    assert_eq!(i64_to_dec(-42), "-42");
    assert_eq!(i64_to_dec(0), "0");
}

#[test]
fn register_fields_decode_in_abi_order() {
    let regs = snapshot();
    assert_eq!(syscall_num(&regs), 1);
    assert_eq!(syscall_ret(&regs), 42);
    assert_eq!(syscall_args(&regs), [10, 11, 12, 13, 14, 15]);
}

#[test]
fn signed_reinterpretation_of_registers() {
    let regs = RegisterSnapshot {
        orig_rax: u64::MAX,
        rax: u64::MAX - 1,
        rdi: 0,
        rsi: 0,
        rdx: 0,
        r10: 0,
        r8: 0,
        r9: 0,
    };
    assert_eq!(syscall_num(&regs), -1);
    assert_eq!(syscall_ret(&regs), -2);
}
