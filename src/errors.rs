use vstd::prelude::*;

verus! {

/// A command was rejected by a business rule; nothing was produced.
#[derive(Debug, Clone, Copy, PartialEq, Eq, Hash, Structural)]
pub enum CommandError {
    AlreadyCreated,
    NotOpened,
}

impl CommandError {
    pub fn description(&self) -> (r: &'static str)
        ensures
            *self == CommandError::NotOpened ==> r@ == "attempt to execute command on account that is not opened"@,
            *self == CommandError::AlreadyCreated ==> r@ == "attempt to create when already created"@,
    {
        match self {
            CommandError::NotOpened => "attempt to execute command on account that is not opened",
            CommandError::AlreadyCreated => "attempt to create when already created",
        }
    }
}

/// A replayed event is illegal for the state it arrives in: the history
/// is corrupt or out of order.
#[derive(Debug, Clone, Copy, PartialEq, Eq, Hash, Structural)]
pub enum EventError {
    AlreadyOpened,
    NotInitialized,
    NotOpened,
}

impl EventError {
    pub fn description(&self) -> (r: &'static str)
        ensures
            *self == EventError::NotInitialized ==> r@ == "attempt to execute event before creation"@,
            *self == EventError::AlreadyOpened ==> r@ == "attempt to open when already opened"@,
            *self == EventError::NotOpened ==> r@ == "attempt to close when not opened"@,
    {
        match self {
            EventError::NotInitialized => "attempt to execute event before creation",
            EventError::AlreadyOpened => "attempt to open when already opened",
            EventError::NotOpened => "attempt to close when not opened",
        }
    }
}

/// The backing store failed to read or append.
#[derive(Debug, Clone, Copy, PartialEq, Eq, Hash, Structural)]
pub enum BankAccountEventStoreError {
    Unavailable,
}

/// Why loading, executing or saving failed. Errors of the layers below are
/// carried unchanged.
#[derive(Debug, Clone, Copy, PartialEq, Eq, Hash, Structural)]
pub enum BankAccountError {
    Command(CommandError),
    Event(EventError),
    Store(BankAccountEventStoreError),
    /// The stored history would take a balance or a generation counter
    /// outside the range of `u64`.
    CantApplyEvent,
}

} // verus!
