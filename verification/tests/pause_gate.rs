use rastreador::gate::{PauseGate, TermMode};

const ICANON_BIT: u32 = 0o000002;
const ECHO_BIT: u32 = 0o000010;

fn discipline() -> TermMode {
    TermMode { iflag: 0x2102, oflag: 0x3, cflag: 0xbf, lflag: 0x8a3b }
}

#[test]
fn raw_mode_clears_only_the_requested_local_bits() {
    let before = discipline();
    let (_, raw) = PauseGate::begin(before, ICANON_BIT | ECHO_BIT);
    assert_eq!(raw.lflag & (ICANON_BIT | ECHO_BIT), 0);
    assert_eq!(raw.lflag, before.lflag & !(ICANON_BIT | ECHO_BIT));
    assert_eq!(raw.iflag, before.iflag);
    assert_eq!(raw.oflag, before.oflag);
    assert_eq!(raw.cflag, before.cflag);
}

#[test]
fn gate_restores_the_captured_discipline_after_a_successful_read() {
    let before = discipline();
    let (gate, _) = PauseGate::begin(before, ICANON_BIT | ECHO_BIT);
    assert_eq!(gate.finish(true), before);
}

#[test]
fn gate_restores_the_captured_discipline_after_a_failed_read() {
    let before = discipline();
    let (gate, _) = PauseGate::begin(before, ICANON_BIT | ECHO_BIT);
    assert_eq!(gate.finish(false), before);
}
