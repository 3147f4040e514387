use rastreador::memory::{extract_string, read_string_from_child};

#[test]
fn bytes_are_cut_at_the_first_nul() {
    let r = extract_string(vec![b'a', b'b', b'c', 0, b'd', b'e']);
    assert_eq!(r, Some(String::from("abc")));
}

#[test]
fn bytes_without_a_nul_are_kept_whole() {
    let r = extract_string(vec![b'/', b't', b'm', b'p']);
    assert_eq!(r, Some(String::from("/tmp")));
}

#[test]
fn a_leading_nul_yields_the_empty_string() {
    let r = extract_string(vec![0, b'x', b'y']);
    assert_eq!(r, Some(String::new()));
}

#[test]
fn invalid_text_is_absent_not_fatal() {
    let r = extract_string(vec![0xff, 0xfe, 0x01]);
    assert_eq!(r, None);
}

#[test]
fn invalid_text_after_the_nul_does_not_matter() {
    let r = extract_string(vec![b'o', b'k', 0, 0xff, 0xfe]);
    assert_eq!(r, Some(String::from("ok")));
}

#[test]
fn multibyte_text_survives_the_cut() {
    let mut bytes = String::from("señal").into_bytes();
    bytes.push(0);
    bytes.push(0xff);
    let r = extract_string(bytes);
    assert_eq!(r, Some(String::from("señal")));
}

#[test]
fn null_address_is_absent_without_a_read() {
    assert_eq!(read_string_from_child(1, 0, 4096), None);
}

#[test]
fn unreadable_process_is_absent_not_fatal() {
    // No process can carry this identifier, so the remote copy fails;
    // the reader answers absent instead of failing the trace.
    assert_eq!(read_string_from_child(-1, 0x1000, 64), None);
}
