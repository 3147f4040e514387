//! Remote memory reader: recovers a NUL-terminated string from a
//! tracee's address space.
//!
//! A null remote pointer yields an absent result without any read; a
//! failed or empty copy yields an absent result; the copied bytes are cut
//! at the first zero byte and must decode as UTF-8, else the result is
//! again absent. No outcome is a fatal error: argument pointers are often
//! invalid or unreadable and the trace must continue regardless.
use vstd::prelude::*;
use vstd::utf8::{decode_utf8, valid_utf8};

verus! {

/// Index of the first zero byte, or the length when none occurs.
pub open spec fn first_nul(s: Seq<u8>) -> int
    decreases s.len(),
{
    if s.len() == 0 {
        0
    } else if s[0] == 0 {
        0
    } else {
        1 + first_nul(s.drop_first())
    }
}

/// The prefix up to (not including) the first zero byte.
pub open spec fn nul_prefix(s: Seq<u8>) -> Seq<u8> {
    s.subrange(0, first_nul(s))
}

/// `first_nul` is the unique index with a zero-free prefix that either
/// sits on a zero byte or is the whole length.
proof fn lemma_first_nul_at(s: Seq<u8>, i: int)
    requires
        0 <= i <= s.len(),
        forall|j: int| 0 <= j < i ==> s[j] != 0,
        i < s.len() ==> s[i] == 0,
    ensures
        first_nul(s) == i,
    decreases i,
{
    if i == 0 {
    } else {
        assert(s[0] != 0);
        lemma_first_nul_at(s.drop_first(), i - 1);
    }
}

/// Relies on String::from_utf8: succeeds exactly on valid UTF-8 input and
/// then holds those bytes decoded.
#[verifier::external_body]
fn bytes_to_utf8(v: Vec<u8>) -> (r: Option<String>)
    ensures
        r is Some <==> valid_utf8(v@),
        r is Some ==> r->0@ == decode_utf8(v@),
{
    String::from_utf8(v).ok()
}

/// Relies on nix::sys::uio::process_vm_readv: copies up to `max_len`
/// bytes out of the tracee's address space in one call; yields the bytes
/// actually transferred, or nothing when the copy failed or moved none.
#[verifier::external_body]
fn read_child_bytes(pid: i32, addr: u64, max_len: usize) -> (r: Option<Vec<u8>>)
    ensures
        r matches Some(v) ==> 1 <= v@.len() <= max_len,
{
    let mut buf: Vec<u8> = vec![0u8; max_len];
    let mut local = [std::io::IoSliceMut::new(buf.as_mut_slice())];
    let remote = [nix::sys::uio::RemoteIoVec { base: addr as usize, len: max_len }];
    let pid = nix::unistd::Pid::from_raw(pid);
    match nix::sys::uio::process_vm_readv(pid, &mut local, &remote) {
        Ok(n) if 1 <= n && n <= max_len => {
            buf.truncate(n);
            Some(buf)
        },
        _ => None,
    }
}

/// Interprets copied bytes as a NUL-terminated string: cuts the buffer at
/// the first zero byte (or keeps it whole when none occurs) and accepts
/// the prefix exactly when it is valid text.
pub fn extract_string(bytes: Vec<u8>) -> (r: Option<String>)
    ensures
        r is Some <==> valid_utf8(nul_prefix(bytes@)),
        r is Some ==> r->0@ == decode_utf8(nul_prefix(bytes@)),
{
    let ghost orig = bytes@;
    let mut buf = bytes;
    let n = buf.len();
    let mut i: usize = 0;
    while i < n && buf[i] != 0
        invariant
            buf@ == orig,
            n == orig.len(),
            0 <= i <= n,
            forall|j: int| 0 <= j < i ==> orig[j] != 0,
        decreases n - i,
    {
        i = i + 1;
    }
    proof {
        lemma_first_nul_at(orig, i as int);
    }
    buf.truncate(i);
    bytes_to_utf8(buf)
}

/// Attempts to recover a NUL-terminated string argument from the
/// tracee's memory. A null remote pointer is answered absent at once,
/// with no read attempted; a failed, empty or non-text read is answered
/// absent as well, never as an error.
pub fn read_string_from_child(pid: i32, addr: u64, max_len: usize) -> (r: Option<String>)
    ensures
        addr == 0 ==> r is None,
        r matches Some(s) ==> s@.len() <= max_len,
{
    if addr == 0 {
        return None;
    }
    match read_child_bytes(pid, addr, max_len) {
        Some(buf) => {
            proof {
                lemma_first_nul_bounds(buf@);
                if valid_utf8(nul_prefix(buf@)) {
                    lemma_decode_len(nul_prefix(buf@));
                }
            }
            extract_string(buf)
        },
        None => None,
    }
}

/// The first zero byte's index never exceeds the length.
proof fn lemma_first_nul_bounds(s: Seq<u8>)
    ensures
        0 <= first_nul(s) <= s.len(),
    decreases s.len(),
{
    if s.len() != 0 && s[0] != 0 {
        lemma_first_nul_bounds(s.drop_first());
    }
}

/// Decoding valid UTF-8 yields at most one character per byte.
proof fn lemma_decode_len(bytes: Seq<u8>)
    requires
        valid_utf8(bytes),
    ensures
        decode_utf8(bytes).len() <= bytes.len(),
    decreases bytes.len(),
{
    if bytes.len() != 0 {
        assert(1 <= vstd::utf8::length_of_first_scalar(bytes) <= bytes.len());
        lemma_decode_len(vstd::utf8::pop_first_scalar(bytes));
    }
}

} // verus!
