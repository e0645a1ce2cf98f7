use vstd::prelude::*;

verus! {

/// One logical keypress, as the terminal reports it.
#[derive(Clone, Copy, Debug, PartialEq, Eq, Structural)]
pub enum Key {
    /// A printable character, or `'\n'` for Enter and `'\t'` for Tab.
    Char(char),
    /// A character pressed together with Control.
    Ctrl(char),
    Left,
    Right,
    Backspace,
    Delete,
    Esc,
    /// Any other named key (arrows up and down, Home, function keys, ...).
    Other,
}

/// What flows between the three activities.
#[derive(Clone, Debug, PartialEq, Eq)]
pub enum Event {
    /// A keypress, from the input listener to the coordinator.
    KeyInput(Key),
    /// Decoded text: from the transport worker inbound, or from the
    /// coordinator outbound.
    Message(String),
    /// Asks the transport worker to close the device.
    ClosePort,
}

} // verus!
