use vstd::prelude::*;
use crate::layout::{kind_of, object_count, operand_indices, operand_slots, value_count, OpKind};

verus! {

/// The instance that a pool built from per-kind sequences holds at a position
/// of kind `kind` in round `k`.
pub open spec fn instance_of<T>(kind: OpKind, zeros: Seq<T>, dots: Seq<T>, sqrdots: Seq<T>, k: int) -> T {
    match kind {
        OpKind::Zero => zeros[k],
        OpKind::Dot => dots[k],
        OpKind::SqrDot => sqrdots[k],
    }
}

/// `r` holds `zeros[k]`, `dots[k]`, `sqrdots[k]` at positions `3k`, `3k + 1`,
/// `3k + 2`, for every `k` below `n`, and nothing else.
pub open spec fn is_interleaving<T>(r: Seq<T>, zeros: Seq<T>, dots: Seq<T>, sqrdots: Seq<T>, n: nat) -> bool {
    &&& r.len() == object_count(n)
    &&& forall|k: int| 0 <= k < n ==> #[trigger] r[3 * k] == zeros[k]
    &&& forall|k: int| 0 <= k < n ==> #[trigger] r[3 * k + 1] == dots[k]
    &&& forall|k: int| 0 <= k < n ==> #[trigger] r[3 * k + 2] == sqrdots[k]
}

/// Builds one object pool out of `n` instances of each kind, in the repeating
/// order Zero, Dot, SqrDot.
pub fn interleave<T: Copy>(zeros: &Vec<T>, dots: &Vec<T>, sqrdots: &Vec<T>) -> (r: Vec<T>)
    requires
        dots.len() == zeros.len(),
        sqrdots.len() == zeros.len(),
        3 * zeros.len() <= usize::MAX,
    ensures
        is_interleaving(r@, zeros@, dots@, sqrdots@, zeros.len() as nat),
{
    let n: usize = zeros.len();
    let mut r: Vec<T> = Vec::with_capacity(3 * n);
    let mut k: usize = 0;
    while k < n
        invariant
            n == zeros.len(),
            dots.len() == n,
            sqrdots.len() == n,
            3 * n <= usize::MAX,
            k <= n,
            is_interleaving(r@, zeros@, dots@, sqrdots@, k as nat),
        decreases n - k,
    {
        let ghost before = r@;
        r.push(zeros[k]);
        r.push(dots[k]);
        r.push(sqrdots[k]);
        assert forall|j: int| 0 <= j < k + 1 implies #[trigger] r@[3 * j] == zeros@[j] by {
            if j < k {
                assert(r@[3 * j] == before[3 * j]);
            }
        }
        assert forall|j: int| 0 <= j < k + 1 implies #[trigger] r@[3 * j + 1] == dots@[j] by {
            if j < k {
                assert(r@[3 * j + 1] == before[3 * j + 1]);
            }
        }
        assert forall|j: int| 0 <= j < k + 1 implies #[trigger] r@[3 * j + 2] == sqrdots@[j] by {
            if j < k {
                assert(r@[3 * j + 2] == before[3 * j + 2]);
            }
        }
        k = k + 1;
    }
    r
}

/// An interleaved pool follows the repeating order Zero, Dot, SqrDot: position
/// `i` holds, of the kind that `kind_of(i)` names, the instance of round `i / 3`.
pub proof fn lemma_interleaving_follows_kinds<T>(r: Seq<T>, zeros: Seq<T>, dots: Seq<T>, sqrdots: Seq<T>, n: nat)
    requires
        is_interleaving(r, zeros, dots, sqrdots, n),
    ensures
        forall|i: nat| i < object_count(n) ==>
            #[trigger] r[i as int] == instance_of(kind_of(i), zeros, dots, sqrdots, (i / 3) as int),
{
    assert forall|i: nat| i < object_count(n) implies
        #[trigger] r[i as int] == instance_of(kind_of(i), zeros, dots, sqrdots, (i / 3) as int) by {
        let k: int = (i / 3) as int;
        assert(i == 3 * k + i % 3);
        assert(k < n);
        if i % 3 == 0 {
            assert(r[3 * k] == zeros[k]);
        } else if i % 3 == 1 {
            assert(r[3 * k + 1] == dots[k]);
        } else {
            assert(r[3 * k + 2] == sqrdots[k]);
        }
    }
}

/// An object pool together with the value pool that feeds it, two values per
/// object: object `i` reads the values at `2i` and `2i + 1`.
pub struct Pools<T, V> {
    objects: Vec<T>,
    values: Vec<V>,
}

impl<T, V: Copy> Pools<T, V> {
    /// The objects, in the order in which a pass applies them.
    pub closed spec fn objects(&self) -> Seq<T> {
        self.objects@
    }

    /// The operand values.
    pub closed spec fn values(&self) -> Seq<V> {
        self.values@
    }

    /// Every object has its two values.
    pub open spec fn wf(&self) -> bool {
        2 * self.objects().len() <= self.values().len()
    }

    /// Pairs `objects` with `values`; `None` when the values are fewer than
    /// two per object.
    pub fn new(objects: Vec<T>, values: Vec<V>) -> (r: Option<Self>)
        ensures
            r is Some <==> 2 * objects.len() <= values.len(),
            r matches Some(p) ==> p.wf() && p.objects() == objects@ && p.values() == values@,
    {
        if objects.len() <= values.len() / 2 {
            Some(Pools { objects, values })
        } else {
            None
        }
    }

    /// Number of objects.
    pub fn len(&self) -> (n: usize)
        ensures
            n == self.objects().len(),
    {
        self.objects.len()
    }

    /// Number of values.
    pub fn values_len(&self) -> (n: usize)
        ensures
            n == self.values().len(),
    {
        self.values.len()
    }

    /// The object at position `i`.
    pub fn object(&self, i: usize) -> (o: &T)
        requires
            i < self.objects().len(),
        ensures
            *o == self.objects()[i as int],
    {
        &self.objects[i]
    }

    /// The two values that object `i` is applied to.
    pub fn operands(&self, i: usize) -> (r: (V, V))
        requires
            self.wf(),
            i < self.objects().len(),
        ensures
            r.0 == self.values()[operand_slots(i as nat).0 as int],
            r.1 == self.values()[operand_slots(i as nat).1 as int],
    {
        let (a, b) = operand_indices(i, self.objects.len(), self.values.len());
        (self.values[a], self.values[b])
    }
}

impl<T: Copy, V: Copy> Pools<T, V> {
    /// Builds the pools of a benchmark from `n` instances of each kind and
    /// `6n` values: the objects repeat Zero, Dot, SqrDot. `None` when the
    /// three sequences differ in length or the values are not six per round.
    pub fn from_kinds(zeros: &Vec<T>, dots: &Vec<T>, sqrdots: &Vec<T>, values: Vec<V>) -> (r: Option<Self>)
        ensures
            r is Some <==> dots.len() == zeros.len() && sqrdots.len() == zeros.len()
                && values.len() == value_count(zeros.len() as nat),
            r matches Some(p) ==> {
                &&& p.wf()
                &&& is_interleaving(p.objects(), zeros@, dots@, sqrdots@, zeros.len() as nat)
                &&& p.values() == values@
            },
    {
        let n: usize = zeros.len();
        if dots.len() != n || sqrdots.len() != n || values.len() % 6 != 0 || values.len() / 6 != n {
            return None;
        }
        let objects = interleave(zeros, dots, sqrdots);
        Some(Pools { objects, values })
    }
}

} // verus!
