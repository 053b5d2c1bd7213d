//! The values that a caller supplies for a circuit's private witness slots.

use vstd::prelude::*;
use vstd::string::StringExecFns;
use crate::zkas::{HeapType, Opcode, VarType};

verus! {

/// A field element, held as the 32 bytes of its canonical representation,
/// least significant byte first.
#[derive(Clone, Copy, Debug)]
pub struct FieldElement {
    pub repr: [u8; 32],
}

/// A point of the curve in affine coordinates.
#[derive(Clone, Copy, Debug)]
pub struct CurvePoint {
    pub x: FieldElement,
    pub y: FieldElement,
}

/// A point together with the fixed generator it is multiplied against.
#[derive(Clone, Copy, Debug)]
pub struct FixedBasePoint {
    pub point: CurvePoint,
    pub generator: CurvePoint,
}

/// The lower-case hexadecimal digit of a value below sixteen.
pub open spec fn hex_digit(n: u8) -> char {
    if n == 0 {
        '0'
    } else if n == 1 {
        '1'
    } else if n == 2 {
        '2'
    } else if n == 3 {
        '3'
    } else if n == 4 {
        '4'
    } else if n == 5 {
        '5'
    } else if n == 6 {
        '6'
    } else if n == 7 {
        '7'
    } else if n == 8 {
        '8'
    } else if n == 9 {
        '9'
    } else if n == 10 {
        'a'
    } else if n == 11 {
        'b'
    } else if n == 12 {
        'c'
    } else if n == 13 {
        'd'
    } else if n == 14 {
        'e'
    } else {
        'f'
    }
}

/// The two hexadecimal digits of a byte, high digit first.
pub open spec fn hex_byte(b: u8) -> Seq<char> {
    seq![hex_digit(b / 16), hex_digit(b % 16)]
}

/// The digits of the bytes `bytes[from..]`, last byte first.
pub open spec fn hex_descending(bytes: Seq<u8>, from: int) -> Seq<char>
    decreases bytes.len() - from,
{
    if from < 0 || from >= bytes.len() {
        Seq::<char>::empty()
    } else {
        hex_descending(bytes, from + 1) + hex_byte(bytes[from])
    }
}

/// The text form of a field element: `0x`, then its 64 hexadecimal digits,
/// most significant first.
pub open spec fn field_text(repr: Seq<u8>) -> Seq<char> {
    seq!['0', 'x'] + hex_descending(repr, 0)
}

fn hex_digit_str(n: u8) -> (r: &'static str)
    requires
        n < 16,
    ensures
        r@ == seq![hex_digit(n)],
{
    proof {
        reveal_strlit("0");
        reveal_strlit("1");
        reveal_strlit("2");
        reveal_strlit("3");
        reveal_strlit("4");
        reveal_strlit("5");
        reveal_strlit("6");
        reveal_strlit("7");
        reveal_strlit("8");
        reveal_strlit("9");
        reveal_strlit("a");
        reveal_strlit("b");
        reveal_strlit("c");
        reveal_strlit("d");
        reveal_strlit("e");
        reveal_strlit("f");
    }
    let r = match n {
        0 => "0",
        1 => "1",
        2 => "2",
        3 => "3",
        4 => "4",
        5 => "5",
        6 => "6",
        7 => "7",
        8 => "8",
        9 => "9",
        10 => "a",
        11 => "b",
        12 => "c",
        13 => "d",
        14 => "e",
        _ => "f",
    };
    assert(r@ =~= seq![hex_digit(n)]);
    r
}

impl FieldElement {
    /// The text by which the element is shown in diagnostics and exports.
    pub fn debug_text(&self) -> (r: String)
        ensures
            r@ == field_text(self.repr@),
    {
        let mut out = String::from_str("0x");
        proof {
            reveal_strlit("0x");
            assert(out@ =~= seq!['0', 'x'] + hex_descending(self.repr@, 32));
        }
        let mut i: usize = 32;
        while i > 0
            invariant
                i <= 32,
                self.repr@.len() == 32,
                out@ == seq!['0', 'x'] + hex_descending(self.repr@, i as int),
            decreases i,
        {
            i = i - 1;
            let b: u8 = self.repr[i];
            let ghost before = out@;
            out.append(hex_digit_str(b / 16));
            out.append(hex_digit_str(b % 16));
            proof {
                assert(out@ =~= before + hex_byte(b));
                assert(out@ =~= seq!['0', 'x'] + hex_descending(self.repr@, i as int));
            }
        }
        out
    }
}

/// The value supplied for one witness slot. The payload is absent while only
/// the shape of a circuit is being built.
#[derive(Clone, Debug)]
pub enum Witness {
    EcPoint(Option<CurvePoint>),
    EcNiPoint(Option<CurvePoint>),
    EcFixedPoint(Option<FixedBasePoint>),
    Base(Option<FieldElement>),
    Scalar(Option<FieldElement>),
    MerklePath(Option<Vec<FieldElement>>),
    Uint32(Option<u32>),
    Uint64(Option<u64>),
}

impl Witness {
    /// The type that the value belongs to, whatever its payload.
    pub open spec fn tag(self) -> VarType {
        match self {
            Witness::EcPoint(_) => VarType::EcPoint,
            Witness::EcNiPoint(_) => VarType::EcNiPoint,
            Witness::EcFixedPoint(_) => VarType::EcFixedPoint,
            Witness::Base(_) => VarType::Base,
            Witness::Scalar(_) => VarType::Scalar,
            Witness::MerklePath(_) => VarType::MerklePath,
            Witness::Uint32(_) => VarType::Uint32,
            Witness::Uint64(_) => VarType::Uint64,
        }
    }

    /// The type that the value belongs to, whatever its payload.
    pub fn var_type(&self) -> (r: VarType)
        ensures
            r == self.tag(),
    {
        match self {
            Witness::EcPoint(_) => VarType::EcPoint,
            Witness::EcNiPoint(_) => VarType::EcNiPoint,
            Witness::EcFixedPoint(_) => VarType::EcFixedPoint,
            Witness::Base(_) => VarType::Base,
            Witness::Scalar(_) => VarType::Scalar,
            Witness::MerklePath(_) => VarType::MerklePath,
            Witness::Uint32(_) => VarType::Uint32,
            Witness::Uint64(_) => VarType::Uint64,
        }
    }

    /// Human-readable name of the value's type, for diagnostics.
    pub fn name(&self) -> (r: &'static str)
        ensures
            r@ == self.tag().name_spec(),
    {
        self.var_type().name()
    }
}

/// A circuit as instantiated for one proof attempt.
#[derive(Clone, Debug)]
pub struct ZkCircuit {
    /// Supplied witness values, in slot order.
    pub witnesses: Vec<Witness>,
    /// The program: each opcode with its arguments.
    pub opcodes: Vec<(Opcode, Vec<(HeapType, usize)>)>,
}

impl ZkCircuit {
    /// The kinds of the program's opcodes, in program order.
    pub open spec fn program(&self) -> Seq<Opcode> {
        Seq::new(self.opcodes@.len(), |i: int| self.opcodes@[i].0)
    }
}

} // verus!
