//! Terminal mode management: snapshot, raw-mode configuration, restore.
//!
//! The kernel's termios record is carried opaquely as `termios::Termios`
//! for full-fidelity snapshots and restores. The fields the raw-mode
//! recipe changes are mirrored in the plain `TermState`, on which the
//! recipe itself is verified: it clears echo, canonical input and signal
//! generation, clears break-ignore and CR-to-NL translation, sets
//! break-as-interrupt, and makes reads return as soon as one byte is
//! available (minimum read count 1, no timeout).

use vstd::prelude::*;

use termios::Termios;

verus! {

/// Number of control characters in a termios record (Linux).
pub const NCCS: usize = 32;

/// Index of the read-timeout control character.
pub const VTIME: usize = 5;

/// Index of the minimum-read-count control character.
pub const VMIN: usize = 6;

/// Input-mode flag: ignore break conditions (Linux value).
pub const IGNBRK: u32 = 0o000001;

/// Input-mode flag: a break condition raises an interrupt (Linux value).
pub const BRKINT: u32 = 0o000002;

/// Input-mode flag: translate carriage return to newline (Linux value).
pub const ICRNL: u32 = 0o000400;

/// Local-mode flag: generate signals from control characters (Linux value).
pub const ISIG: u32 = 0o000001;

/// Local-mode flag: canonical (line-buffered) input (Linux value).
pub const ICANON: u32 = 0o000002;

/// Local-mode flag: echo input back to the terminal (Linux value).
pub const ECHO: u32 = 0o000010;

/// The modifiable portion of a terminal configuration, as plain values:
/// the four flag words and the control-character array.
#[derive(Debug, PartialEq, Eq)]
pub struct TermState {
    pub iflag: u32,
    pub oflag: u32,
    pub cflag: u32,
    pub lflag: u32,
    pub cc: Vec<u8>,
}

impl TermState {
    /// A terminal state is well formed when it carries the full
    /// control-character array.
    pub open spec fn wf(&self) -> bool {
        self.cc@.len() == NCCS as int
    }
}

/// The input-mode word after the raw-mode recipe: break-ignore and
/// CR-to-NL translation cleared, break-as-interrupt set.
pub open spec fn raw_iflag(iflag: u32) -> u32 {
    (iflag & !(IGNBRK | ICRNL)) | BRKINT
}

/// The local-mode word after the raw-mode recipe: echo, canonical input
/// and signal generation cleared.
pub open spec fn raw_lflag(lflag: u32) -> u32 {
    lflag & !(ECHO | ICANON | ISIG)
}

/// The control-character array after the raw-mode recipe: minimum read
/// count one byte, no read timeout.
pub open spec fn raw_cc(cc: Seq<u8>) -> Seq<u8> {
    cc.update(VMIN as int, 1u8).update(VTIME as int, 0u8)
}

/// Apply the raw-mode recipe to a terminal state. Output and control
/// mode words are left untouched.
pub fn make_raw(t: &TermState) -> (r: TermState)
    requires
        t.wf(),
    ensures
        r.wf(),
        r.iflag == raw_iflag(t.iflag),
        r.oflag == t.oflag,
        r.cflag == t.cflag,
        r.lflag == raw_lflag(t.lflag),
        r.cc@ == raw_cc(t.cc@),
{
    let mut cc = t.cc.clone();
    proof {
        assert forall|i: int| 0 <= i < t.cc@.len() implies cc@[i] == t.cc@[i] by {
            assert(cloned::<u8>(t.cc@[i], cc@[i]));
        }
        assert(cc@ =~= t.cc@);
    }
    cc[VMIN] = 1;
    cc[VTIME] = 0;
    TermState {
        iflag: (t.iflag & !(IGNBRK | ICRNL)) | BRKINT,
        oflag: t.oflag,
        cflag: t.cflag,
        lflag: t.lflag & !(ECHO | ICANON | ISIG),
        cc,
    }
}

/// Raw-mode idempotence: applying the recipe twice in a row yields the
/// same terminal state as applying it once. Together with the `make_raw`
/// contract (output and control words untouched), the whole state is
/// a fixed point of a second application.
pub proof fn lemma_raw_mode_idempotent(t: TermState)
    requires
        t.wf(),
    ensures
        raw_iflag(raw_iflag(t.iflag)) == raw_iflag(t.iflag),
        raw_lflag(raw_lflag(t.lflag)) == raw_lflag(t.lflag),
        raw_cc(raw_cc(t.cc@)) == raw_cc(t.cc@),
{
    let i = t.iflag;
    let l = t.lflag;
    assert(raw_iflag(raw_iflag(i)) == raw_iflag(i)) by (bit_vector);
    assert(raw_lflag(raw_lflag(l)) == raw_lflag(l)) by (bit_vector);
    assert(raw_cc(raw_cc(t.cc@)) =~= raw_cc(t.cc@));
}

#[verifier::external_type_specification]
#[verifier::external_body]
pub struct ExTermios(Termios);

/// Relies on termios::Termios::from_fd: reads the descriptor's current
/// terminal parameters; fails with the OS error when the descriptor is
/// not a terminal.
#[verifier::external_body]
fn fetch_attrs(fd: i32) -> (r: Result<Termios, i32>) {
    match Termios::from_fd(fd) {
        Ok(t) => Ok(t),
        Err(e) => Err(e.raw_os_error().unwrap_or(0)),
    }
}

/// Relies on the public termios fields (through termios::Termios's Deref):
/// copies the four flag words and the control-character array out as
/// plain values.
#[verifier::external_body]
fn read_state(t: &Termios) -> (st: TermState)
    ensures
        st.wf(),
{
    TermState {
        iflag: t.c_iflag,
        oflag: t.c_oflag,
        cflag: t.c_cflag,
        lflag: t.c_lflag,
        cc: t.c_cc.to_vec(),
    }
}

/// Relies on the public termios fields (through termios::Termios's
/// DerefMut): returns a copy of `t` with the four flag words and the
/// control-character array replaced by `st`'s. Fields the recipe never
/// touches (line discipline, speeds) keep `t`'s values.
#[verifier::external_body]
fn write_state(t: &Termios, st: &TermState) -> (r: Termios)
    requires
        st.wf(),
{
    let mut r = *t;
    r.c_iflag = st.iflag;
    r.c_oflag = st.oflag;
    r.c_cflag = st.cflag;
    r.c_lflag = st.lflag;
    r.c_cc.copy_from_slice(&st.cc);
    r
}

/// Relies on termios::tcsetattr with TCSAFLUSH: applies the parameters
/// after pending output is transmitted, discarding unread input; fails
/// with the OS error when none of them could be applied.
#[verifier::external_body]
fn set_attrs(fd: i32, t: &Termios) -> (r: Result<(), i32>) {
    match termios::tcsetattr(fd, termios::TCSAFLUSH, t) {
        Ok(()) => Ok(()),
        Err(e) => Err(e.raw_os_error().unwrap_or(0)),
    }
}

/// Capture the descriptor's current terminal parameters, for a later
/// `restore`. Fails with the OS errno when the kernel call does.
pub fn snapshot(fd: i32) -> (r: Result<Termios, i32>) {
    fetch_attrs(fd)
}

/// Put the descriptor's terminal into raw mode and return the parameters
/// it had before, for a later `restore`. The new parameters are exactly
/// the old ones with `make_raw` applied to their modifiable portion.
/// Fails with the OS errno when reading or writing the parameters does.
pub fn apply_raw_mode(fd: i32) -> (r: Result<Termios, i32>) {
    let orig = match fetch_attrs(fd) {
        Ok(t) => t,
        Err(e) => return Err(e),
    };
    let raw = make_raw(&read_state(&orig));
    match set_attrs(fd, &write_state(&orig, &raw)) {
        Ok(()) => Ok(orig),
        Err(e) => Err(e),
    }
}

/// Write a previously captured snapshot back to the descriptor, exactly
/// as captured. Fails with the OS errno when the kernel call does;
/// teardown paths are free to ignore that error.
pub fn restore(fd: i32, saved: &Termios) -> (r: Result<(), i32>) {
    set_attrs(fd, saved)
}

} // verus!
