//! The freeze capability: a type has it when no cell of hidden mutable state
//! can be reached from a value of the type without going through a reference.
//!
//! Rust offers no way to derive such a property from a type's definition, so a
//! type opts in by describing how it is put together ([`Shape`]) and the
//! description is held to the rules of composition: a cell is never frozen,
//! a reference or a marker always is, and an aggregate is frozen exactly when
//! each of its fields is.
use core::marker::PhantomData;
use vstd::prelude::*;

verus! {

broadcast use vstd::std_specs::vec::group_vec_axioms;

/// How a type is put together, as far as hidden mutability is concerned.
#[derive(Debug, PartialEq, Eq)]
pub enum Shape {
    /// Plain data without parts: an integer, a `bool`, a `char`.
    Scalar,
    /// A shared or mutable reference. What it points at is behind an
    /// indirection and does not count.
    Reference,
    /// A raw pointer. Like a reference, it ends the search.
    Pointer,
    /// A marker without storage.
    Phantom,
    /// A cell whose content can change behind a shared reference.
    Cell,
    /// A struct, a tuple or an array: the shapes of the fields it holds
    /// directly, in order.
    Aggregate(Vec<Shape>),
}

impl Shape {
    /// The freeze capability, by composition: a cell lacks it, an aggregate has
    /// it when every field has it, every other leaf has it.
    pub open spec fn frozen(self) -> bool
        decreases self,
    {
        match self {
            Shape::Cell => false,
            Shape::Aggregate(fields) => forall|i: int|
                0 <= i < fields@.len() ==> (#[trigger] fields@[i]).frozen(),
            _ => true,
        }
    }

    /// Whether a cell can be reached from the shape through directly held
    /// fields alone.
    pub open spec fn holds_cell(self) -> bool
        decreases self,
    {
        match self {
            Shape::Cell => true,
            Shape::Aggregate(fields) => exists|i: int|
                0 <= i < fields@.len() && (#[trigger] fields@[i]).holds_cell(),
            _ => false,
        }
    }

    /// Decides the freeze capability of a described type.
    pub fn is_frozen(&self) -> (r: bool)
        ensures
            r == self.frozen(),
        decreases self,
    {
        match self {
            Shape::Cell => false,
            Shape::Aggregate(fields) => {
                let mut i: usize = 0;
                while i < fields.len()
                    invariant
                        *self == Shape::Aggregate(*fields),
                        i <= fields@.len(),
                        forall|j: int| 0 <= j < i ==> (#[trigger] fields@[j]).frozen(),
                    decreases fields@.len() - i,
                {
                    assert(decreases_to!(*self => (self->0)@[i as int]));
                    if !fields[i].is_frozen() {
                        return false;
                    }
                    i += 1;
                }
                true
            },
            _ => true,
        }
    }
}

/// The rule of composition, spelled out: an aggregate is frozen exactly when
/// every field that it holds directly is frozen.
pub proof fn lemma_aggregate_frozen(fields: Vec<Shape>)
    ensures
        Shape::Aggregate(fields).frozen() <==> forall|i: int|
            0 <= i < fields@.len() ==> (#[trigger] fields@[i]).frozen(),
{
    let shape = Shape::Aggregate(fields);
    if shape.frozen() {
        assert forall|i: int| 0 <= i < fields@.len() implies (#[trigger] fields@[i]).frozen() by {
            assert(decreases_to!(shape => (shape->0)@[i]));
        }
    }
}

/// A shape is frozen exactly when it holds no cell: the rule of composition
/// and the search for a cell agree on every shape.
pub proof fn lemma_frozen_iff_no_cell(shape: Shape)
    ensures
        shape.frozen() <==> !shape.holds_cell(),
    decreases shape,
{
    match shape {
        Shape::Aggregate(fields) => {
            assert forall|i: int| 0 <= i < fields@.len() implies (#[trigger] fields@[i]).frozen()
                == !fields@[i].holds_cell() by {
                lemma_frozen_iff_no_cell(fields@[i]);
            }
        },
        _ => {},
    }
}

/// An aggregate with a cell among its fields is never frozen, whatever the
/// other fields are.
pub proof fn lemma_cell_field_denies_freeze(fields: Vec<Shape>, i: int)
    requires
        0 <= i < fields@.len(),
        fields@[i].holds_cell(),
    ensures
        !Shape::Aggregate(fields).frozen(),
{
    let shape = Shape::Aggregate(fields);
    assert(decreases_to!(shape => (shape->0)@[i]));
    lemma_frozen_iff_no_cell(fields@[i]);
}

/// The freeze capability of a type.
///
/// A type opts in by describing its shape. An implementation that is verified
/// cannot describe a shape that holds a cell; one that is not verified asserts
/// by hand that its description is true and frozen, and a wrong assertion is a
/// soundness hole, not a defect that a test would find.
///
/// No cell type has the capability: this module implements it for none, and a
/// description that names a cell does not meet the contract of `shape`.
pub trait Freeze {
    /// Describes how the type is put together.
    fn shape() -> (shape: Shape)
        ensures
            shape.frozen(),
    ;
}

impl<'a, T: ?Sized> Freeze for &'a T {
    fn shape() -> (shape: Shape)
        ensures
            shape == Shape::Reference,
    {
        Shape::Reference
    }
}

impl<'a, T: ?Sized> Freeze for &'a mut T {
    fn shape() -> (shape: Shape)
        ensures
            shape == Shape::Reference,
    {
        Shape::Reference
    }
}

impl<T: ?Sized> Freeze for PhantomData<T> {
    fn shape() -> (shape: Shape)
        ensures
            shape == Shape::Phantom,
    {
        Shape::Phantom
    }
}

impl<A: Freeze, B: Freeze> Freeze for (A, B) {
    fn shape() -> (shape: Shape)
        ensures
            shape matches Shape::Aggregate(fields) && fields@.len() == 2 && call_ensures(
                A::shape,
                (),
                fields@[0],
            ) && call_ensures(B::shape, (), fields@[1]),
    {
        let mut fields: Vec<Shape> = Vec::new();
        fields.push(A::shape());
        fields.push(B::shape());
        Shape::Aggregate(fields)
    }
}

impl<T: Freeze, const N: usize> Freeze for [T; N] {
    fn shape() -> (shape: Shape)
        ensures
            shape matches Shape::Aggregate(fields) && fields@.len() == N && forall|i: int|
                0 <= i < N ==> call_ensures(T::shape, (), #[trigger] fields@[i]),
    {
        let mut fields: Vec<Shape> = Vec::new();
        let mut i: usize = 0;
        while i < N
            invariant
                i <= N,
                fields@.len() == i,
                forall|j: int| 0 <= j < i ==> (#[trigger] fields@[j]).frozen(),
                forall|j: int| 0 <= j < i ==> call_ensures(T::shape, (), #[trigger] fields@[j]),
            decreases N - i,
        {
            fields.push(T::shape());
            i += 1;
        }
        Shape::Aggregate(fields)
    }
}

impl Freeze for () {
    fn shape() -> (shape: Shape)
        ensures
            shape == Shape::Phantom,
    {
        Shape::Phantom
    }
}

impl Freeze for bool {
    fn shape() -> (shape: Shape)
        ensures
            shape == Shape::Scalar,
    {
        Shape::Scalar
    }
}

impl Freeze for char {
    fn shape() -> (shape: Shape)
        ensures
            shape == Shape::Scalar,
    {
        Shape::Scalar
    }
}

impl Freeze for u8 {
    fn shape() -> (shape: Shape)
        ensures
            shape == Shape::Scalar,
    {
        Shape::Scalar
    }
}

impl Freeze for u16 {
    fn shape() -> (shape: Shape)
        ensures
            shape == Shape::Scalar,
    {
        Shape::Scalar
    }
}

impl Freeze for u32 {
    fn shape() -> (shape: Shape)
        ensures
            shape == Shape::Scalar,
    {
        Shape::Scalar
    }
}

impl Freeze for u64 {
    fn shape() -> (shape: Shape)
        ensures
            shape == Shape::Scalar,
    {
        Shape::Scalar
    }
}

impl Freeze for u128 {
    fn shape() -> (shape: Shape)
        ensures
            shape == Shape::Scalar,
    {
        Shape::Scalar
    }
}

impl Freeze for usize {
    fn shape() -> (shape: Shape)
        ensures
            shape == Shape::Scalar,
    {
        Shape::Scalar
    }
}

impl Freeze for i8 {
    fn shape() -> (shape: Shape)
        ensures
            shape == Shape::Scalar,
    {
        Shape::Scalar
    }
}

impl Freeze for i16 {
    fn shape() -> (shape: Shape)
        ensures
            shape == Shape::Scalar,
    {
        Shape::Scalar
    }
}

impl Freeze for i32 {
    fn shape() -> (shape: Shape)
        ensures
            shape == Shape::Scalar,
    {
        Shape::Scalar
    }
}

impl Freeze for i64 {
    fn shape() -> (shape: Shape)
        ensures
            shape == Shape::Scalar,
    {
        Shape::Scalar
    }
}

impl Freeze for i128 {
    fn shape() -> (shape: Shape)
        ensures
            shape == Shape::Scalar,
    {
        Shape::Scalar
    }
}

impl Freeze for isize {
    fn shape() -> (shape: Shape)
        ensures
            shape == Shape::Scalar,
    {
        Shape::Scalar
    }
}

} // verus!
