use vstd::prelude::*;

verus! {

/// A raw, undecoded 32-bit instruction encoding.
pub type Word = u32;

/// The architectural registers of the current ISA revision.
#[derive(Debug, Clone, Copy, PartialEq, Eq, Structural)]
pub enum RegisterID {
    /// Hard-wired zero register.
    X0,
    A0,
}

/// Every way a decode can fail.
#[derive(Debug, Clone, Copy, PartialEq, Eq, Structural)]
pub enum Error {
    /// Reserved for encodings whose opcode is known but which are malformed otherwise.
    InvalidInstruction,
    /// The opcode field selects no known operation; carries the whole word.
    UnknownInstruction(Word),
    /// A register field names no architectural register; carries the field's value.
    InvalidRegister(u32),
}

/// The register that a numeric identifier names, if any.
pub open spec fn register_of(id: u32) -> Option<RegisterID> {
    if id == 0 {
        Some(RegisterID::X0)
    } else if id == 1 {
        Some(RegisterID::A0)
    } else {
        None
    }
}

/// Resolving a numeric identifier: the register it names, or `InvalidRegister(id)`.
pub open spec fn resolved(id: u32) -> Result<RegisterID, Error> {
    match register_of(id) {
        Some(r) => Ok(r),
        None => Err(Error::InvalidRegister(id)),
    }
}

impl RegisterID {
    /// Maps a numeric register identifier to the register it names.
    pub fn resolve(id: u32) -> (r: Result<RegisterID, Error>)
        ensures
            r == resolved(id),
    {
        match id {
            0 => Ok(RegisterID::X0),
            1 => Ok(RegisterID::A0),
            _ => Err(Error::InvalidRegister(id)),
        }
    }
}

/// The operations that an opcode can select.
#[derive(Debug, Clone, Copy, PartialEq, Eq, Structural)]
pub enum Operation {
    LoadImmediate,
}

/// A decoded instruction. Every field holds a value that passed validation.
#[derive(Debug, Clone, Copy, PartialEq, Eq, Structural)]
pub struct Instruction {
    pub operation: Operation,
    pub src1: RegisterID,
    pub src2: RegisterID,
    pub dest: RegisterID,
    pub imm: u16,
}

/// Opcode: bits [0, 5).
pub open spec fn opcode_field(word: Word) -> u32 {
    word & 0x1f
}

/// Destination register: bits [5, 9).
pub open spec fn dest_field(word: Word) -> u32 {
    (word >> 5u32) & 0xf
}

/// First source register: bits [9, 13).
pub open spec fn src1_field(word: Word) -> u32 {
    (word >> 9u32) & 0xf
}

/// Second source register: bits [13, 17). Its top bit is also the immediate's lowest.
pub open spec fn src2_field(word: Word) -> u32 {
    (word >> 13u32) & 0xf
}

/// Immediate operand: bits [16, 32), taken as they stand.
pub open spec fn imm_field(word: Word) -> u16 {
    (word >> 16u32) as u16
}

/// The operation that an opcode selects, if any.
pub open spec fn operation_of(opcode: u32) -> Option<Operation> {
    if opcode == 1 {
        Some(Operation::LoadImmediate)
    } else {
        None
    }
}

/// What decoding `word` gives. The opcode is checked first, then the register
/// fields in the order dest, src1, src2; the first failure is reported.
pub open spec fn decoded(word: Word) -> Result<Instruction, Error> {
    if operation_of(opcode_field(word)) is None {
        Err(Error::UnknownInstruction(word))
    } else if register_of(dest_field(word)) is None {
        Err(Error::InvalidRegister(dest_field(word)))
    } else if register_of(src1_field(word)) is None {
        Err(Error::InvalidRegister(src1_field(word)))
    } else if register_of(src2_field(word)) is None {
        Err(Error::InvalidRegister(src2_field(word)))
    } else {
        Ok(
            Instruction {
                operation: operation_of(opcode_field(word))->Some_0,
                src1: register_of(src1_field(word))->Some_0,
                src2: register_of(src2_field(word))->Some_0,
                dest: register_of(dest_field(word))->Some_0,
                imm: imm_field(word),
            },
        )
    }
}

/// Decodes one instruction word into a validated instruction.
pub fn decode(word: Word) -> (r: Result<Instruction, Error>)
    ensures
        r == decoded(word),
{
    let operation = match word & 0x1f {
        1 => Operation::LoadImmediate,
        _ => return Err(Error::UnknownInstruction(word)),
    };
    let dest = match RegisterID::resolve((word >> 5) & 0xf) {
        Ok(r) => r,
        Err(e) => return Err(e),
    };
    let src1 = match RegisterID::resolve((word >> 9) & 0xf) {
        Ok(r) => r,
        Err(e) => return Err(e),
    };
    let src2 = match RegisterID::resolve((word >> 13) & 0xf) {
        Ok(r) => r,
        Err(e) => return Err(e),
    };
    let imm = (word >> 16) as u16;
    Ok(Instruction { operation, src1, src2, dest, imm })
}

impl TryFrom<Word> for Instruction {
    type Error = Error;

    fn try_from(word: Word) -> (r: Result<Self, Self::Error>) {
        decode(word)
    }
}

impl vstd::std_specs::convert::TryFromSpecImpl<Word> for Instruction {
    open spec fn obeys_try_from_spec() -> bool {
        true
    }

    open spec fn try_from_spec(word: Word) -> Result<Self, Self::Error> {
        decoded(word)
    }
}

/// Decoding is deterministic: any two results of decoding the same word are
/// equal, since the result depends on the word alone.
pub proof fn lemma_decode_deterministic(
    word: Word,
    first: Result<Instruction, Error>,
    second: Result<Instruction, Error>,
)
    requires
        first == decoded(word),
        second == decoded(word),
    ensures
        first == second,
{
}

/// A word whose low five bits select no operation fails with
/// `UnknownInstruction`, which carries the word itself.
pub proof fn lemma_unknown_opcode(word: Word)
    requires
        operation_of(word & 0x1f) is None,
    ensures
        decoded(word) == Err::<Instruction, Error>(Error::UnknownInstruction(word)),
{
}

/// A word with a known opcode, one of whose register fields names no
/// architectural register, fails with `InvalidRegister`, which carries the
/// value of one of those fields that names no register.
pub proof fn lemma_invalid_register(word: Word)
    requires
        operation_of(opcode_field(word)) is Some,
        register_of(dest_field(word)) is None || register_of(src1_field(word)) is None
            || register_of(src2_field(word)) is None,
    ensures
        decoded(word) is Err,
        decoded(word)->Err_0 is InvalidRegister,
        ({
            let id = decoded(word)->Err_0->InvalidRegister_0;
            &&& register_of(id) is None
            &&& id == dest_field(word) || id == src1_field(word) || id == src2_field(word)
        }),
{
}

/// The immediate of a decoded instruction is the word's top sixteen bits, with
/// nothing lost: together with the low sixteen bits it gives the word back.
pub proof fn lemma_immediate_is_top_half(word: Word)
    requires
        decoded(word) is Ok,
    ensures
        decoded(word)->Ok_0.imm as int == word as int / 0x10000,
        decoded(word)->Ok_0.imm as int * 0x10000 + word as int % 0x10000 == word as int,
{
    assert(((word >> 16u32) as u16) as u32 == word / 0x10000u32) by (bit_vector);
}

} // verus!
