use vstd::prelude::*;

verus! {

/// The conditions under which the interpreter refuses to go on.
#[derive(Clone, Copy, Debug, PartialEq, Eq)]
pub enum ErrorKind {
    /// The instruction word matches no opcode pattern.
    DecodeFailure,
    /// A call was made with the stack already at its full depth.
    StackOverflow,
    /// A return was made with no call outstanding.
    StackUnderflow,
    /// An address left the 4096-byte memory, a sprite row left the 32-row
    /// display, or a 16-bit register could not hold the computed address.
    OutOfBoundsAccess,
    /// A program image is larger than the space above the load address.
    InputSizeError,
}

/// What is reported when the machine halts: the kind of failure, the address
/// of the instruction that caused it, and the instruction word, when one
/// could be fetched.
#[derive(Clone, Copy, Debug, PartialEq, Eq)]
pub struct Fault {
    pub kind: ErrorKind,
    pub address: u16,
    pub opcode: Option<u16>,
}

/// The externally visible condition of the interpreter.
#[derive(Clone, Copy, Debug, PartialEq, Eq)]
pub enum Status {
    /// Each tick executes one instruction.
    Running,
    /// A key wait is in progress: no instruction executes until a key goes
    /// from released to pressed, whose index is then stored in `register`.
    AwaitingKey { register: u8 },
    /// A fatal condition was met; the machine no longer changes.
    Halted { fault: Fault },
}

} // verus!
