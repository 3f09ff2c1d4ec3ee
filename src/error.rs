//! Why an encode can fail.
use vstd::prelude::*;

verus! {

/// The ways encoding a game can fail.
#[derive(Clone, Copy, Debug, PartialEq, Eq, Structural)]
pub enum UnparseError {
    /// The port count is not between 1 and 4, or a frame holds another
    /// number of ports.
    PortCount,
    /// The start record lists more players than there are ports.
    TooManyPlayers,
    /// A frame's index would not fit in 32 bits.
    FrameIndexOverflow,
    /// A port number is not one of the four ports.
    InvalidPort,
    /// A field that the game's version requires is absent.
    MissingField,
    /// A text field does not fit its fixed byte budget.
    TextTooLong,
    /// The verbatim session-start bytes are too many to declare.
    StartTooLong,
    /// A metadata string is too long to encode its length.
    MetadataTooLong,
}

} // verus!
