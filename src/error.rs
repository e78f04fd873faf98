use vstd::prelude::*;

verus! {

/// The failures of the emulator.
#[derive(Debug)]
pub enum IronNesError {
    /// The cartridge image is malformed or not supported.
    CartridgeError,
    /// A bus access that no device answers, or that the device refuses.
    MemoryError(String),
    /// An opcode with no handler, or an addressing mode used where it means nothing.
    IllegalInstruction,
}

pub type IronNesResult<T> = Result<T, IronNesError>;

/// The kind of an error, without its message.
#[derive(Clone, Copy, PartialEq, Eq, Structural, Debug)]
pub enum Fault {
    Cartridge,
    Memory,
    Illegal,
}

impl IronNesError {
    pub open spec fn fault(&self) -> Fault {
        match self {
            IronNesError::CartridgeError => Fault::Cartridge,
            IronNesError::MemoryError(_) => Fault::Memory,
            IronNesError::IllegalInstruction => Fault::Illegal,
        }
    }

    /// A memory error with the given message.
    pub fn memory(msg: &str) -> (r: Self)
        ensures
            r matches IronNesError::MemoryError(m) && m@ == msg@,
    {
        IronNesError::MemoryError(String::from_str(msg))
    }

    /// The error as text.
    pub fn to_string(&self) -> (r: String)
        ensures
            self matches IronNesError::MemoryError(m) ==> r@ == "MemError: "@ + m@,
            self is CartridgeError ==> r@ == "Error reading cartridge contents"@,
            self is IllegalInstruction ==> r@ == "Instruction is not supported"@,
    {
        match self {
            IronNesError::CartridgeError => String::from_str("Error reading cartridge contents"),
            IronNesError::MemoryError(m) => {
                let mut s = String::from_str("MemError: ");
                s.append(m.as_str());
                s
            },
            IronNesError::IllegalInstruction => String::from_str("Instruction is not supported"),
        }
    }
}

/// `r` with its error reduced to the kind of the error.
pub open spec fn outcome<T>(r: IronNesResult<T>) -> Result<T, Fault> {
    match r {
        Ok(v) => Ok(v),
        Err(e) => Err(e.fault()),
    }
}

/// `r` is what the outcome `o` describes: the same value, or an error of the same kind.
pub open spec fn agrees<T>(r: IronNesResult<T>, o: Result<T, Fault>) -> bool {
    outcome(r) == o
}

} // verus!
