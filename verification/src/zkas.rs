//! What validation reads of a compiled circuit: the declared witness types and
//! the kinds of the opcodes.

use vstd::prelude::*;

verus! {

/// The declared type of one witness slot.
#[derive(Clone, Copy, Debug, PartialEq, Eq, Structural)]
pub enum VarType {
    /// Elliptic curve point, possibly the identity.
    EcPoint,
    /// Elliptic curve point that is never the identity.
    EcNiPoint,
    /// Elliptic curve point used with a fixed base.
    EcFixedPoint,
    /// Element of the base field.
    Base,
    /// Element of the scalar field.
    Scalar,
    /// Authentication path of a Merkle tree.
    MerklePath,
    /// Unsigned 32-bit integer.
    Uint32,
    /// Unsigned 64-bit integer.
    Uint64,
}

impl VarType {
    /// The name of the type as a sequence of characters.
    pub open spec fn name_spec(self) -> Seq<char> {
        match self {
            VarType::EcPoint => "EcPoint"@,
            VarType::EcNiPoint => "EcNiPoint"@,
            VarType::EcFixedPoint => "EcFixedPoint"@,
            VarType::Base => "Base"@,
            VarType::Scalar => "Scalar"@,
            VarType::MerklePath => "MerklePath"@,
            VarType::Uint32 => "Uint32"@,
            VarType::Uint64 => "Uint64"@,
        }
    }

    /// Human-readable name of the type, for diagnostics.
    pub fn name(&self) -> (r: &'static str)
        ensures
            r@ == self.name_spec(),
    {
        match self {
            VarType::EcPoint => "EcPoint",
            VarType::EcNiPoint => "EcNiPoint",
            VarType::EcFixedPoint => "EcFixedPoint",
            VarType::Base => "Base",
            VarType::Scalar => "Scalar",
            VarType::MerklePath => "MerklePath",
            VarType::Uint32 => "Uint32",
            VarType::Uint64 => "Uint64",
        }
    }
}

/// The kind of one operation of a circuit program.
#[derive(Clone, Copy, Debug, PartialEq, Eq, Structural)]
pub enum Opcode {
    Noop,
    EcAdd,
    EcMul,
    EcMulBase,
    EcMulShort,
    EcMulVarBase,
    EcGetX,
    EcGetY,
    PoseidonHash,
    MerkleRoot,
    BaseAdd,
    BaseMul,
    BaseSub,
    WitnessBase,
    RangeCheck,
    LessThanStrict,
    LessThanLoose,
    BoolCheck,
    CondSelect,
    ZeroCondSelect,
    ConstrainEqualBase,
    ConstrainEqualPoint,
    /// Binds a circuit value to the next public instance.
    ConstrainInstance,
    DebugPrint,
}

/// Where an opcode's argument lives.
#[derive(Clone, Copy, Debug, PartialEq, Eq, Structural)]
pub enum HeapType {
    /// A variable on the heap.
    Var,
    /// A literal.
    Lit,
}

/// The part of a compiled circuit that declares its witnesses.
#[derive(Clone, Debug)]
pub struct ZkBinary {
    /// Declared witness types, one per slot, in slot order.
    pub witnesses: Vec<VarType>,
}

/// The number of `ConstrainInstance` opcodes in a program: the number of
/// public instances that the circuit asks for.
pub open spec fn instance_arity(program: Seq<Opcode>) -> nat
    decreases program.len(),
{
    if program.len() == 0 {
        0
    } else {
        instance_arity(program.drop_last()) + if program.last() == Opcode::ConstrainInstance {
            1nat
        } else {
            0nat
        }
    }
}

/// The arity of a concatenation is the sum of the arities.
pub proof fn lemma_instance_arity_concat(a: Seq<Opcode>, b: Seq<Opcode>)
    ensures
        instance_arity(a + b) == instance_arity(a) + instance_arity(b),
    decreases b.len(),
{
    if b.len() == 0 {
        assert(a + b =~= a);
    } else {
        assert((a + b).drop_last() =~= a + b.drop_last());
        lemma_instance_arity_concat(a, b.drop_last());
    }
}

/// The arity of a program is the number of times `ConstrainInstance` occurs
/// in it, whatever the order of the opcodes.
pub proof fn lemma_instance_arity_is_count(program: Seq<Opcode>)
    ensures
        instance_arity(program) == program.to_multiset().count(Opcode::ConstrainInstance),
    decreases program.len(),
{
    broadcast use vstd::seq_lib::group_to_multiset_ensures;

    if program.len() == 0 {
    } else {
        lemma_instance_arity_is_count(program.drop_last());
        assert(program =~= program.drop_last().push(program.last()));
    }
}

/// Inserting an opcode of another kind anywhere leaves the arity unchanged.
pub proof fn lemma_instance_arity_insert_other(program: Seq<Opcode>, at: int, op: Opcode)
    requires
        0 <= at <= program.len(),
        op != Opcode::ConstrainInstance,
    ensures
        instance_arity(program.insert(at, op)) == instance_arity(program),
{
    let head = program.subrange(0, at);
    let tail = program.subrange(at, program.len() as int);
    assert(program.insert(at, op) =~= (head + seq![op]) + tail);
    assert(program =~= head + tail);
    assert((head + seq![op]).drop_last() =~= head);
    lemma_instance_arity_concat(head + seq![op], tail);
    lemma_instance_arity_concat(head, tail);
}

/// Removing an opcode of another kind leaves the arity unchanged.
pub proof fn lemma_instance_arity_remove_other(program: Seq<Opcode>, at: int)
    requires
        0 <= at < program.len(),
        program[at] != Opcode::ConstrainInstance,
    ensures
        instance_arity(program.remove(at)) == instance_arity(program),
{
    let shorter = program.remove(at);
    assert(shorter.insert(at, program[at]) =~= program);
    lemma_instance_arity_insert_other(shorter, at, program[at]);
}

/// Two programs that hold the same opcodes in any order have the same arity.
/// In particular, moving opcodes of other kinds around changes nothing.
pub proof fn lemma_instance_arity_reorder(a: Seq<Opcode>, b: Seq<Opcode>)
    requires
        a.to_multiset() == b.to_multiset(),
    ensures
        instance_arity(a) == instance_arity(b),
{
    lemma_instance_arity_is_count(a);
    lemma_instance_arity_is_count(b);
}

} // verus!
