use vstd::prelude::*;

verus! {

/// The CPU's registers, singly and as 16-bit pairs.
#[derive(Clone, Copy, Debug, PartialEq, Eq, Structural)]
pub enum Register {
    A,
    B,
    C,
    D,
    E,
    F,
    H,
    L,
    BC,
    DE,
    HL,
    SP,
    PC,
}

impl Register {
    /// Whether this names an 8-bit operand of the load and arithmetic
    /// instructions: A, B, C, D, E, H or L.
    pub open spec fn is_r8(self) -> bool {
        match self {
            Register::A | Register::B | Register::C | Register::D | Register::E
            | Register::H | Register::L => true,
            _ => false,
        }
    }

    /// The register's assembler name.
    pub fn name(&self) -> (r: &'static str) {
        match self {
            Register::A => "A",
            Register::B => "B",
            Register::C => "C",
            Register::D => "D",
            Register::E => "E",
            Register::F => "F",
            Register::H => "H",
            Register::L => "L",
            Register::BC => "BC",
            Register::DE => "DE",
            Register::HL => "HL",
            Register::SP => "SP",
            Register::PC => "PC",
        }
    }
}

} // verus!
