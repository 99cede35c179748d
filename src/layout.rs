use vstd::prelude::*;

verus! {

/// The kind of arithmetic operation held at a position of an object pool.
#[derive(Clone, Copy, Debug, PartialEq, Eq, Structural)]
pub enum OpKind {
    Zero,
    Dot,
    SqrDot,
}

/// Number of kinds that a pool cycles through, in the order Zero, Dot, SqrDot.
pub const KINDS: usize = 3;

/// Number of values that one object consumes.
pub const OPERANDS: usize = 2;

/// The kind at position `i` of a pool that repeats Zero, Dot, SqrDot.
pub open spec fn kind_of(i: nat) -> OpKind {
    if i % 3 == 0 {
        OpKind::Zero
    } else if i % 3 == 1 {
        OpKind::Dot
    } else {
        OpKind::SqrDot
    }
}

/// Objects in a pool built from `n` instances of each kind.
pub open spec fn object_count(n: nat) -> nat {
    3 * n
}

/// Values in a pool that serves `n` instances of each kind.
pub open spec fn value_count(n: nat) -> nat {
    6 * n
}

/// The two value positions that object `i` reads.
pub open spec fn operand_slots(i: nat) -> (nat, nat) {
    (2 * i, 2 * i + 1)
}

/// The kind of operation at position `i` of a cyclic pool.
pub fn kind_at(i: usize) -> (k: OpKind)
    ensures
        k == kind_of(i as nat),
{
    let r: usize = i % KINDS;
    if r == 0 {
        OpKind::Zero
    } else if r == 1 {
        OpKind::Dot
    } else {
        OpKind::SqrDot
    }
}

/// Length of the object pool for `n` instances of each kind.
pub fn object_pool_len(n: usize) -> (len: usize)
    requires
        value_count(n as nat) <= usize::MAX,
    ensures
        len == object_count(n as nat),
{
    KINDS * n
}

/// Length of the value pool for `n` instances of each kind.
pub fn value_pool_len(n: usize) -> (len: usize)
    requires
        value_count(n as nat) <= usize::MAX,
    ensures
        len == value_count(n as nat),
{
    KINDS * OPERANDS * n
}

/// The positions of the two values that object `i` reads, in a value pool of
/// `values_len` values serving `objects_len` objects.
pub fn operand_indices(i: usize, objects_len: usize, values_len: usize) -> (r: (usize, usize))
    requires
        i < objects_len,
        OPERANDS * objects_len <= values_len,
    ensures
        r.0 as nat == operand_slots(i as nat).0,
        r.1 as nat == operand_slots(i as nat).1,
        r.0 < values_len,
        r.1 < values_len,
{
    let first: usize = OPERANDS * i;
    (first, first + 1)
}

/// For every `n`, a pool of `object_count(n)` objects fits in a value pool of
/// `value_count(n)` values: each object `i` reads the two positions `2i` and
/// `2i + 1`, both in bounds, and no two objects read the same position.
pub proof fn lemma_pool_layout(n: nat)
    ensures
        value_count(n) == 2 * object_count(n),
        forall|i: nat|
            i < object_count(n) ==> {
                &&& operand_slots(i).0 < value_count(n)
                &&& operand_slots(i).1 < value_count(n)
            },
        forall|i: nat, j: nat|
            i < object_count(n) && j < object_count(n) && i != j ==> {
                &&& operand_slots(i).0 != operand_slots(j).0
                &&& operand_slots(i).0 != operand_slots(j).1
                &&& operand_slots(i).1 != operand_slots(j).1
            },
{
}

} // verus!
