//! The terminal's mode flags, raw mode, and the guarantee that the modes
//! captured at start are the ones written back at the end.
use vstd::prelude::*;

use nix::sys::termios::{ControlFlags, InputFlags, LocalFlags, OutputFlags};

verus! {

/// The four flag words of a terminal's attributes.
#[derive(Debug, Clone, Copy, PartialEq, Eq, Structural)]
pub struct TermModes {
    pub input: u32,
    pub output: u32,
    pub control: u32,
    pub local: u32,
}

/// The flags that raw mode turns off, or on, in each word.
#[derive(Debug, Clone, Copy, PartialEq, Eq, Structural)]
pub struct RawMasks {
    /// Break to interrupt, CR to NL, parity checking, output flow control.
    pub input_off: u32,
    /// Output post-processing.
    pub output_off: u32,
    /// Eight-bit characters.
    pub control_on: u32,
    /// Echo, canonical input, extended input processing, signal keys.
    pub local_off: u32,
}

/// The modes `orig` with the flags of `m` turned off, or on, and every other
/// flag kept.
pub open spec fn raw_spec(orig: TermModes, m: RawMasks) -> TermModes {
    TermModes {
        input: orig.input & !m.input_off,
        output: orig.output & !m.output_off,
        control: orig.control | m.control_on,
        local: orig.local & !m.local_off,
    }
}

/// Applies the masks `m` to the modes `orig`.
pub fn apply_raw_masks(orig: TermModes, m: RawMasks) -> (r: TermModes)
    ensures
        r == raw_spec(orig, m),
{
    TermModes {
        input: orig.input & !m.input_off,
        output: orig.output & !m.output_off,
        control: orig.control | m.control_on,
        local: orig.local & !m.local_off,
    }
}

/// The raw-mode masks on Linux for x86_64 and aarch64, where the flags have
/// these values: BRKINT 0x2, INPCK 0x10, ICRNL 0x100 and IXON 0x400 in the
/// input word; OPOST 0x1 in the output word; CS8 0x30 in the control word;
/// ISIG 0x1, ICANON 0x2, ECHO 0x8 and IEXTEN 0x8000 in the local word.
pub open spec fn raw_masks() -> RawMasks {
    RawMasks { input_off: 0x512, output_off: 0x1, control_on: 0x30, local_off: 0x800b }
}

/// Relies on nix::sys::termios::InputFlags::BRKINT (break to interrupt), which nix defines as
/// libc's constant of that name; the value is the one libc gives on Linux for
/// x86_64 and aarch64.
#[verifier::external_body]
fn flag_brkint() -> (r: u32)
    ensures
        r == 0x2,
{
    InputFlags::BRKINT.bits()
}

/// Relies on nix::sys::termios::InputFlags::ICRNL (carriage return to newline on input), which nix defines as
/// libc's constant of that name; the value is the one libc gives on Linux for
/// x86_64 and aarch64.
#[verifier::external_body]
fn flag_icrnl() -> (r: u32)
    ensures
        r == 0x100,
{
    InputFlags::ICRNL.bits()
}

/// Relies on nix::sys::termios::InputFlags::INPCK (input parity checking), which nix defines as
/// libc's constant of that name; the value is the one libc gives on Linux for
/// x86_64 and aarch64.
#[verifier::external_body]
fn flag_inpck() -> (r: u32)
    ensures
        r == 0x10,
{
    InputFlags::INPCK.bits()
}

/// Relies on nix::sys::termios::InputFlags::IXON (output flow control), which nix defines as
/// libc's constant of that name; the value is the one libc gives on Linux for
/// x86_64 and aarch64.
#[verifier::external_body]
fn flag_ixon() -> (r: u32)
    ensures
        r == 0x400,
{
    InputFlags::IXON.bits()
}

/// Relies on nix::sys::termios::OutputFlags::OPOST (output post-processing), which nix defines as
/// libc's constant of that name; the value is the one libc gives on Linux for
/// x86_64 and aarch64.
#[verifier::external_body]
fn flag_opost() -> (r: u32)
    ensures
        r == 0x1,
{
    OutputFlags::OPOST.bits()
}

/// Relies on nix::sys::termios::ControlFlags::CS8 (eight-bit characters), which nix defines as
/// libc's constant of that name; the value is the one libc gives on Linux for
/// x86_64 and aarch64.
#[verifier::external_body]
fn flag_cs8() -> (r: u32)
    ensures
        r == 0x30,
{
    ControlFlags::CS8.bits()
}

/// Relies on nix::sys::termios::LocalFlags::ECHO (echo of input), which nix defines as
/// libc's constant of that name; the value is the one libc gives on Linux for
/// x86_64 and aarch64.
#[verifier::external_body]
fn flag_echo() -> (r: u32)
    ensures
        r == 0x8,
{
    LocalFlags::ECHO.bits()
}

/// Relies on nix::sys::termios::LocalFlags::ICANON (canonical (line) input), which nix defines as
/// libc's constant of that name; the value is the one libc gives on Linux for
/// x86_64 and aarch64.
#[verifier::external_body]
fn flag_icanon() -> (r: u32)
    ensures
        r == 0x2,
{
    LocalFlags::ICANON.bits()
}

/// Relies on nix::sys::termios::LocalFlags::IEXTEN (extended input processing), which nix defines as
/// libc's constant of that name; the value is the one libc gives on Linux for
/// x86_64 and aarch64.
#[verifier::external_body]
fn flag_iexten() -> (r: u32)
    ensures
        r == 0x8000,
{
    LocalFlags::IEXTEN.bits()
}

/// Relies on nix::sys::termios::LocalFlags::ISIG (signal keys), which nix defines as
/// libc's constant of that name; the value is the one libc gives on Linux for
/// x86_64 and aarch64.
#[verifier::external_body]
fn flag_isig() -> (r: u32)
    ensures
        r == 0x1,
{
    LocalFlags::ISIG.bits()
}

/// The flags that raw mode changes: break to interrupt, CR to NL, parity
/// checking and output flow control off; output post-processing off;
/// eight-bit characters on; echo, canonical input, extended input
/// processing and signal keys off.
fn raw_mode_masks() -> (r: RawMasks)
    ensures
        r == raw_masks(),
{
    let (brkint, icrnl, inpck, ixon) = (flag_brkint(), flag_icrnl(), flag_inpck(), flag_ixon());
    let (echo, icanon, iexten, isig) = (flag_echo(), flag_icanon(), flag_iexten(), flag_isig());
    assert(brkint | icrnl | inpck | ixon == 0x512) by (bit_vector)
        requires
            brkint == 0x2 && icrnl == 0x100 && inpck == 0x10 && ixon == 0x400,
    ;
    assert(echo | icanon | iexten | isig == 0x800b) by (bit_vector)
        requires
            echo == 0x8 && icanon == 0x2 && iexten == 0x8000 && isig == 0x1,
    ;
    RawMasks {
        input_off: brkint | icrnl | inpck | ixon,
        output_off: flag_opost(),
        control_on: flag_cs8(),
        local_off: echo | icanon | iexten | isig,
    }
}

/// Raw mode applied to modes already raw changes nothing: entering raw mode
/// twice leaves the terminal as entering it once did.
pub proof fn lemma_raw_mode_idempotent(t: TermModes, m: RawMasks)
    ensures
        raw_spec(raw_spec(t, m), m) == raw_spec(t, m),
{
    let (i, o, c, l) = (t.input, t.output, t.control, t.local);
    let (mi, mo, mc, ml) = (m.input_off, m.output_off, m.control_on, m.local_off);
    assert((i & !mi) & !mi == i & !mi) by (bit_vector);
    assert((o & !mo) & !mo == o & !mo) by (bit_vector);
    assert((c | mc) | mc == c | mc) by (bit_vector);
    assert((l & !ml) & !ml == l & !ml) by (bit_vector);
}

/// The attributes of a session: those captured at start, and whether raw
/// mode has been asked for since.
pub struct RawModeSession {
    original: TermModes,
    raw: bool,
}

impl RawModeSession {
    /// The modes captured when the session began.
    pub closed spec fn original(&self) -> TermModes {
        self.original
    }

    /// Whether raw mode has been entered.
    pub closed spec fn is_raw(&self) -> bool {
        self.raw
    }

    /// Begins a session on the modes `original`, read from the terminal.
    pub fn begin(original: TermModes) -> (r: RawModeSession)
        ensures
            r.original() == original,
            !r.is_raw(),
    {
        RawModeSession { original, raw: false }
    }

    /// The modes to write to put the terminal in raw mode: the captured
    /// modes with the raw-mode flags changed, all others kept.
    pub fn enable_raw_mode(&mut self) -> (r: TermModes)
        ensures
            final(self).original() == old(self).original(),
            final(self).is_raw(),
            r == raw_spec(old(self).original(), raw_masks()),
    {
        let m = raw_mode_masks();
        self.raw = true;
        apply_raw_masks(self.original, m)
    }

    /// Ends the session and gives the modes to write back: always those
    /// captured at its start, whatever was written since.
    pub fn restore(self) -> (r: TermModes)
        ensures
            r == self.original(),
    {
        self.original
    }
}

} // verus!
