//! Ownership of the local terminal's raw mode, and the terminal type sent to
//! the remote side.

use vstd::prelude::*;

verus! {

/// The mode of the local terminal.
#[derive(Debug, Clone, Copy, PartialEq, Eq, Structural)]
pub enum TerminalMode {
    /// Line editing and echo are done by the terminal.
    Cooked,
    /// Input is delivered unprocessed.
    Raw,
}

/// Records that the local terminal is in raw mode on behalf of a session.
///
/// The guard is created from the answer to the question "is raw mode already
/// active" and says whether raw mode has to be switched on. Releasing it says
/// whether raw mode has to be switched off: once, whatever number of paths
/// release it.
#[derive(Debug, Clone, Copy, PartialEq, Eq, Structural)]
pub struct RawModeGuard {
    pub enabled: bool,
    pub released: bool,
}

/// The terminal type sent with a pseudo-terminal request when the environment
/// names none.
pub open spec fn default_terminal_type() -> Seq<char> {
    "xterm"@
}

/// The terminal type for a pseudo-terminal request: the environment's value
/// where there is one, the fallback otherwise.
pub open spec fn terminal_type_of(term: Option<Seq<char>>) -> Seq<char> {
    match term {
        Some(t) => t,
        None => default_terminal_type(),
    }
}

impl RawModeGuard {
    /// Whether releasing the guard still has to switch raw mode off.
    pub open spec fn live(self) -> bool {
        self.enabled && !self.released
    }

    /// Acquires raw mode. `already_raw` is the terminal's answer to the mode
    /// query. The second component tells whether raw mode has to be switched
    /// on, which is the case exactly when it was not active; the guard owns
    /// raw mode either way.
    pub fn new(already_raw: bool) -> (r: (RawModeGuard, bool))
        ensures
            r.0 == (RawModeGuard { enabled: true, released: false }),
            r.1 == !already_raw,
    {
        let mut enabled = already_raw;
        let mut switch_on = false;
        if !enabled {
            switch_on = true;
            enabled = true;
        }
        (RawModeGuard { enabled, released: false }, switch_on)
    }

    /// Releases the guard and tells whether raw mode has to be switched off
    /// now: true on the first release of a guard that owns raw mode, false on
    /// every later one.
    pub fn release(&mut self) -> (switch_off: bool)
        ensures
            switch_off == old(self).live(),
            final(self).enabled == old(self).enabled,
            final(self).released,
            !final(self).live(),
    {
        let switch_off = self.enabled && !self.released;
        self.released = true;
        switch_off
    }

    /// Whether the guard still owns raw mode.
    pub fn is_live(&self) -> (b: bool)
        ensures
            b == self.live(),
    {
        self.enabled && !self.released
    }
}

/// Chooses the terminal type for the pseudo-terminal request.
pub fn terminal_type(term: Option<String>) -> (r: String)
    ensures
        r@ == terminal_type_of(
            match term {
                Some(t) => Some(t@),
                None => None,
            },
        ),
{
    match term {
        Some(t) => t,
        None => "xterm".to_owned(),
    }
}

} // verus!
