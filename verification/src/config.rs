//! Validated run mode: listening or streaming, never both or neither.

use vstd::prelude::*;

verus! {

/// What the process was asked to be.
#[derive(Debug, PartialEq, Eq)]
pub enum Mode {
    /// Receive datagrams on `port` and play them back.
    Listening { port: u16, bits: usize, rate: usize },
    /// Capture audio and send it to `addr:port` in chunks of
    /// `chunksize` frames.
    Streaming { addr: String, port: u16, bits: usize, rate: usize, chunksize: usize },
}

/// Why no mode could be selected.
#[derive(Clone, Copy, Debug, PartialEq, Eq, Structural)]
pub enum ModeError {
    /// Both the listen and the stream flag were set.
    BothModes,
    /// Neither flag was set.
    NoMode,
}

impl ModeError {
    /// A short human-readable account of the rejection.
    pub fn describe(&self) -> (r: &'static str)
        ensures
            *self == ModeError::BothModes ==> r@ == "can't listen and stream from the same app"@,
            *self == ModeError::NoMode ==> r@ == "choose either listening or streaming"@,
    {
        match self {
            ModeError::BothModes => "can't listen and stream from the same app",
            ModeError::NoMode => "choose either listening or streaming",
        }
    }
}

/// Turn the two command-line flags into a validated mode.
///
/// Succeeds exactly when one flag and only one is set; the values pass
/// through untouched into the matching variant.
pub fn select_mode(
    listen: bool,
    stream: bool,
    addr: String,
    port: u16,
    bits: usize,
    rate: usize,
    chunksize: usize,
) -> (r: Result<Mode, ModeError>)
    ensures
        (listen != stream) <==> r is Ok,
        listen && !stream ==> (r matches Ok(m) && m matches Mode::Listening {
            port: p,
            bits: b,
            rate: ra,
        } && p == port && b == bits && ra == rate),
        stream && !listen ==> (r matches Ok(m) && m matches Mode::Streaming {
            addr: a,
            port: p,
            bits: b,
            rate: ra,
            chunksize: c,
        } && a@ == addr@ && p == port && b == bits && ra == rate && c == chunksize),
        listen && stream ==> r == Err::<Mode, ModeError>(ModeError::BothModes),
        !listen && !stream ==> r == Err::<Mode, ModeError>(ModeError::NoMode),
{
    match (listen, stream) {
        (true, false) => Ok(Mode::Listening { port, bits, rate }),
        (false, true) => Ok(Mode::Streaming { addr, port, bits, rate, chunksize }),
        (true, true) => Err(ModeError::BothModes),
        (false, false) => Err(ModeError::NoMode),
    }
}

} // verus!
