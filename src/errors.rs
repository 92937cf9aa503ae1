use vstd::prelude::*;

verus! {

/// Every failure the library reports to its callers.
#[derive(Debug, Clone, Copy, PartialEq, Eq, Structural)]
pub enum Error {
    /// The message buffer already holds as many messages as it may.
    QueueIsFull,
    /// The character has no snapshot in the encoding.
    CannotEncodeCharacter(char),
    /// A message must hold at least one byte.
    EmptyMessage,
    /// A message may hold at most `MAX_MESSAGE_LEN_BYTES` bytes.
    MessageTooLong,
    /// A list of open shutters named one location twice.
    DuplicateShutterLocation,
    /// An encoding needs at least one character.
    EmptyEncoding,
    /// A character cannot be shown with every shutter closed.
    AllClosedCharacter,
    /// Two characters have the same upper-case form.
    DuplicateCharacter,
    /// Two characters were given the same snapshot.
    DuplicateCharacterShutterPositions,
    /// The end-of-message marker cannot be shown with every shutter closed.
    AllClosedMessageEnd,
    /// The end-of-message marker shares its snapshot with a character.
    DuplicateMessageEndShutterPositions,
    /// An encoded message must end with exactly one end marker and nothing after it.
    MalformedEncodedMessage,
    /// A buffer must be able to hold at least one message.
    ZeroQueueCapacity,
    /// Servo identifiers run from 0 to `MAX_SERVO_ID`.
    InvalidServoId,
    /// Servo angles lie within half the travel range on either side.
    InvalidServoAngle,
    /// An internal invariant was broken; the state machine never reaches this.
    InvariantViolation,
    /// The listening address of the configuration is empty.
    EmptyAddress,
    /// The configured buffer size is zero.
    ZeroQueueSize,
    /// The configured environment is neither "production" nor "development".
    InvalidEnvironment,
    /// The servo hardware reported a failure.
    DeviceError,
}

} // verus!
