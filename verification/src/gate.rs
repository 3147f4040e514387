//! The interactive pause gate's discipline handling.
//!
//! One invocation captures the terminal discipline, switches off canonical
//! input and echo, has the caller block for one keypress, and restores
//! the captured discipline unconditionally — also when the read failed,
//! since a terminal left in raw mode outlives the whole process.
use vstd::prelude::*;

verus! {

/// The terminal discipline, modelled by the four mode-flag words of the
/// line discipline.
#[derive(Clone, Copy, Debug, PartialEq, Eq, Structural)]
pub struct TermMode {
    pub iflag: u32,
    pub oflag: u32,
    pub cflag: u32,
    pub lflag: u32,
}

/// The discipline with the given local-mode bits cleared (canonical
/// input and echo, for a pause) and every other word untouched.
pub open spec fn spec_raw_mode(m: TermMode, clear: u32) -> TermMode {
    TermMode { iflag: m.iflag, oflag: m.oflag, cflag: m.cflag, lflag: m.lflag & !clear }
}

/// What beginning a gate invocation yields: the guard holding the
/// captured discipline, and the raw discipline to install.
pub open spec fn spec_gate_begin(current: TermMode, clear: u32) -> (PauseGate, TermMode) {
    (PauseGate { saved: current }, spec_raw_mode(current, clear))
}

/// What finishing a gate invocation restores: the captured discipline,
/// whatever became of the operator read.
pub open spec fn spec_gate_finish(g: PauseGate, read_ok: bool) -> TermMode {
    g.saved
}

/// A pause-gate invocation in flight: holds the discipline captured
/// before the local modes were cleared.
#[derive(Clone, Copy, Debug, PartialEq, Eq, Structural)]
pub struct PauseGate {
    pub saved: TermMode,
}

impl PauseGate {
    /// Captures the current discipline and computes the raw one to
    /// install: the `clear` bits (canonical input and echo) switched off
    /// in the local-mode word, all other words kept.
    pub fn begin(current: TermMode, clear: u32) -> (r: (PauseGate, TermMode))
        ensures
            r == spec_gate_begin(current, clear),
            r.1.lflag & clear == 0,
    {
        let raw = TermMode {
            iflag: current.iflag,
            oflag: current.oflag,
            cflag: current.cflag,
            lflag: current.lflag & !clear,
        };
        proof {
            let l = current.lflag;
            assert(l & !clear & clear == 0) by (bit_vector);
        }
        (PauseGate { saved: current }, raw)
    }

    /// Yields the discipline to restore once the keypress read returned.
    /// The result is the captured discipline whether or not the read
    /// succeeded.
    pub fn finish(self, read_ok: bool) -> (r: TermMode)
        ensures
            r == spec_gate_finish(self, read_ok),
    {
        self.saved
    }
}

/// After a gate invocation completes — begun on any discipline, finished
/// after a successful or a failed operator read — the discipline it
/// restores equals exactly the one captured before the invocation.
pub proof fn lemma_gate_restores(current: TermMode, clear: u32, read_ok: bool)
    ensures
        spec_gate_finish(spec_gate_begin(current, clear).0, read_ok) == current,
{
}

} // verus!
