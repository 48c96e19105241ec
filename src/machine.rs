use std::collections::HashMap;

use vstd::prelude::*;
use vstd::string::*;

use crate::decode::RegisterID;

verus! {

/// A memory address.
pub type Address = u32;

/// A memory word.
pub type MemWord = u32;

/// Storage for the architectural registers' current values.
#[derive(Debug, Default)]
pub struct Registers {
    a0: u32,
}

impl Registers {
    /// The value held by `A0`.
    pub closed spec fn a0_value(&self) -> u32 {
        self.a0
    }

    /// The value that register `id` reads as; `X0` always reads as zero.
    pub open spec fn value(&self, id: RegisterID) -> u32 {
        match id {
            RegisterID::X0 => 0,
            RegisterID::A0 => self.a0_value(),
        }
    }

    /// A register file in which every register holds zero.
    pub fn new() -> (r: Registers)
        ensures
            r.value(RegisterID::X0) == 0,
            r.value(RegisterID::A0) == 0,
    {
        Registers { a0: 0 }
    }

    /// Reads register `id`.
    pub fn get(&self, id: RegisterID) -> (r: u32)
        ensures
            r == self.value(id),
    {
        match id {
            RegisterID::X0 => 0,
            RegisterID::A0 => self.a0,
        }
    }

    /// Writes `v` to register `id`. A write to the zero register changes nothing.
    pub fn set(&mut self, id: RegisterID, v: u32)
        ensures
            id == RegisterID::X0 ==> final(self).a0_value() == old(self).a0_value(),
            id == RegisterID::A0 ==> final(self).a0_value() == v,
    {
        match id {
            RegisterID::X0 => {},
            RegisterID::A0 => {
                self.a0 = v;
            },
        }
    }
}

/// The lower-case hexadecimal digit for `d` (below 16).
pub open spec fn hex_digit(d: u32) -> char
    recommends
        d < 16,
{
    seq!['0', '1', '2', '3', '4', '5', '6', '7', '8', '9', 'a', 'b', 'c', 'd', 'e', 'f'][d as int]
}

/// The nibble of `v` that stands `i` digits from the left in an eight-digit
/// rendering.
pub open spec fn nibble(v: u32, i: int) -> u32 {
    (v >> ((28 - 4 * i) as u32)) & 0xf
}

/// `v` written as eight lower-case hexadecimal digits, zero-padded.
pub open spec fn hex8(v: u32) -> Seq<char> {
    Seq::new(8, |i: int| hex_digit(nibble(v, i)))
}

/// The machine's diagnostic summary for a given value of `A0`.
pub open spec fn state_text(a0: u32) -> Seq<char> {
    seq!['a', '0', ':'] + hex8(a0)
}

/// An emulated machine: one register file and one sparse memory.
#[derive(Debug, Default)]
pub struct Machine {
    regs: Registers,
    mem: HashMap<Address, MemWord>,
}

impl Machine {
    /// The machine's register file.
    pub closed spec fn registers(&self) -> Registers {
        self.regs
    }

    /// The machine's memory, by address; unwritten addresses are absent.
    pub closed spec fn memory(&self) -> Map<Address, MemWord> {
        self.mem@
    }

    /// A machine whose registers are all zero and whose memory is empty.
    pub fn new() -> (r: Machine)
        ensures
            r.registers().value(RegisterID::A0) == 0,
            r.memory() == Map::<Address, MemWord>::empty(),
    {
        Machine { regs: Registers::new(), mem: HashMap::new() }
    }

    /// A summary of the register values, such as `a0:0000002a`.
    pub fn state(&self) -> (r: String)
        ensures
            r@ == state_text(self.registers().value(RegisterID::A0)),
    {
        render_state(self.regs.a0)
    }
}

/// The diagnostic summary for a machine whose `A0` holds `v`.
pub fn render_state(v: u32) -> (r: String)
    ensures
        r@ == state_text(v),
{
    let digits = "0123456789abcdef";
    let prefix = "a0:";
    proof {
        reveal_strlit("0123456789abcdef");
        reveal_strlit("a0:");
    }
    let mut s = String::from_str(prefix);
    let mut i: u32 = 0;
    while i < 8
        invariant
            i <= 8,
            digits@ == seq![
                '0', '1', '2', '3', '4', '5', '6', '7', '8', '9', 'a', 'b', 'c', 'd', 'e', 'f',
            ],
            digits.is_ascii(),
            s@ == seq!['a', '0', ':'] + hex8(v).take(i as int),
        decreases 8 - i,
    {
        let shift: u32 = 28 - 4 * i;
        let d = (v >> shift) & 0xf;
        assert(d < 16) by (bit_vector)
            requires
                d == (v >> shift) & 0xf,
        ;
        let digit = digits.substring_ascii(d as usize, d as usize + 1);
        s.append(digit);
        assert(hex8(v).take(i as int + 1) =~= hex8(v).take(i as int) + digit@);
        i = i + 1;
    }
    assert(hex8(v).take(8) =~= hex8(v));
    s
}

} // verus!
