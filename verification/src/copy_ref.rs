//! A read-only borrow held as a copy of the value's bits.
//!
//! A [`CopyRef`] stands where a `&'a T` would stand, but stores a plain-copy
//! stand-in of `T` instead of a pointer to it. It is no larger than `T`, it is
//! `Copy`, and it dereferences to the value it was made from.
use crate::freeze::Freeze;
use core::marker::PhantomData;
use core::ops::Deref;
use vstd::layout::size_of;
use vstd::prelude::*;

verus! {

/// A type that can be held, bit for bit, in a plain-copy stand-in of the same
/// size.
///
/// The implementor promises that `as_raw` views the receiver's own storage as
/// `Raw`, that `from_raw` views a stand-in as the value it came from, and that
/// nothing is lost on the way: whatever `raw_spec` gives for a value,
/// `from_raw_spec` reads back as that value. The type must be frozen, since a
/// copy of the bits of a value that can change behind a shared reference would
/// go stale.
///
/// An implementation that is not verified makes these promises by hand.
pub trait Elegible: Freeze + Sized {
    /// The stand-in: freely copyable and as large as `Self`.
    type Raw: Copy;

    /// The stand-in that holds the bits of a value.
    spec fn raw_spec(&self) -> Self::Raw;

    /// The value that a stand-in's bits denote.
    spec fn from_raw_spec(raw: Self::Raw) -> Self;

    /// Reading back the stand-in of a value gives the value.
    proof fn lemma_round_trip(&self)
        ensures
            Self::from_raw_spec(self.raw_spec()) == *self,
    ;

    /// Views the receiver's storage as its stand-in, without copying.
    fn as_raw(&self) -> (raw: &Self::Raw)
        ensures
            *raw == self.raw_spec(),
    ;

    /// Views a stand-in that holds the bits of some value as that value.
    fn from_raw(raw: &Self::Raw) -> (value: &Self)
        requires
            Self::from_raw_spec(*raw).raw_spec() == *raw,
        ensures
            *value == Self::from_raw_spec(*raw),
    ;
}

/// Whether a stand-in holds the bits of some value of `T`.
pub open spec fn is_raw_of_some<T: Elegible>(raw: T::Raw) -> bool {
    T::from_raw_spec(raw).raw_spec() == raw
}

/// A plain-copy frozen type is its own stand-in.
impl<V: Copy + Freeze> Elegible for V {
    type Raw = V;

    open spec fn raw_spec(&self) -> V {
        *self
    }

    open spec fn from_raw_spec(raw: V) -> V {
        raw
    }

    proof fn lemma_round_trip(&self) {
    }

    fn as_raw(&self) -> (raw: &V) {
        self
    }

    fn from_raw(raw: &V) -> (value: &V) {
        raw
    }
}

/// A type that is its own stand-in is as large as its stand-in, so a token of
/// it can always be made.
pub proof fn lemma_own_stand_in_fits<V: Copy + Freeze>()
    ensures
        size_of::<V>() == size_of::<<V as Elegible>::Raw>(),
{
}

/// Why a token could not be made: the declared stand-in does not fit the type.
///
/// Either is a defect of the declaration itself. There is nothing to retry.
#[derive(Clone, Copy, Debug, PartialEq, Eq, Structural)]
pub enum Violation {
    /// The type and its stand-in differ in size.
    SizeMismatch { value_size: usize, raw_size: usize },
    /// `as_raw` handed out storage that does not start where the value starts.
    AddressMismatch,
}

/// Judges a construction from the size of the type, the size of its stand-in,
/// and whether `as_raw` handed out the value's own storage. The sizes are
/// looked at first.
pub fn validate(value_size: usize, raw_size: usize, in_place: bool) -> (verdict: Result<
    (),
    Violation,
>)
    ensures
        value_size != raw_size ==> verdict == Err::<(), Violation>(
            (Violation::SizeMismatch { value_size, raw_size }),
        ),
        value_size == raw_size && !in_place ==> verdict == Err::<(), Violation>(
            Violation::AddressMismatch,
        ),
        value_size == raw_size && in_place ==> verdict == Ok::<(), Violation>(()),
{
    if value_size != raw_size {
        Err(Violation::SizeMismatch { value_size, raw_size })
    } else if !in_place {
        Err(Violation::AddressMismatch)
    } else {
        Ok(())
    }
}

/// `core::ptr::addr_eq` on the two references: whether they point at the same
/// address. Nothing is claimed of the answer, since where a value lies is not
/// part of what the value is.
#[verifier::external_body]
fn same_address<T, R>(value: &T, raw: &R) -> bool {
    core::ptr::addr_eq(value, raw)
}

/// A copy of the bits of a `T`, tied to the borrow it was taken from.
#[derive(Debug)]
pub struct CopyRef<'a, T: Elegible> {
    copy: T::Raw,
    _borrow: PhantomData<&'a T>,
}

impl<'a, T: Elegible> View for CopyRef<'a, T> {
    type V = T;

    /// The value that the stored bits denote.
    open spec fn view(&self) -> T {
        T::from_raw_spec(self.raw())
    }
}

impl<'a, T: Elegible> CopyRef<'a, T> {
    /// The stored bits are those of some `T`, and `T` is as large as its
    /// stand-in.
    #[verifier::type_invariant]
    spec fn well_formed(&self) -> bool {
        &&& size_of::<T>() == size_of::<T::Raw>()
        &&& is_raw_of_some::<T>(self.copy)
    }

    /// The stored bits.
    pub closed spec fn raw(&self) -> T::Raw {
        self.copy
    }

    /// Holds the given bits.
    fn holding(raw: T::Raw) -> (token: Self)
        requires
            size_of::<T>() == size_of::<T::Raw>(),
            is_raw_of_some::<T>(raw),
        ensures
            token.raw() == raw,
    {
        CopyRef { copy: raw, _borrow: PhantomData }
    }

    /// Takes a copy of the bits of `value`.
    ///
    /// The caller answers for the layout. [`CopyRef::try_new`] asks nothing
    /// and checks at run time instead.
    pub fn new(value: &'a T) -> (token: Self)
        requires
            size_of::<T>() == size_of::<T::Raw>(),
        ensures
            token.raw() == value.raw_spec(),
            token@ == *value,
    {
        let raw = value.as_raw();
        proof {
            value.lemma_round_trip();
        }
        Self::holding(*raw)
    }

    /// Takes a copy of the bits of `value`, after checking that `T` is as large
    /// as its stand-in and that `as_raw` handed out the storage of `value`
    /// itself.
    ///
    /// A size mismatch is always found. Where the sizes agree, the comparison
    /// of the two addresses decides between the token and
    /// [`Violation::AddressMismatch`].
    pub fn try_new(value: &'a T) -> (made: Result<Self, Violation>)
        ensures
            (match made {
                Ok(token) => {
                    &&& size_of::<T>() == size_of::<T::Raw>()
                    &&& token.raw() == value.raw_spec()
                    &&& token@ == *value
                },
                Err(Violation::SizeMismatch { value_size, raw_size }) => {
                    &&& value_size == size_of::<T>()
                    &&& raw_size == size_of::<T::Raw>()
                    &&& value_size != raw_size
                },
                Err(Violation::AddressMismatch) => size_of::<T>() == size_of::<T::Raw>(),
            }),
    {
        let raw = value.as_raw();
        let in_place = same_address(value, raw);
        match validate(core::mem::size_of::<T>(), core::mem::size_of::<T::Raw>(), in_place) {
            Ok(()) => {
                proof {
                    value.lemma_round_trip();
                }
                Ok(Self::holding(*raw))
            },
            Err(violation) => Err(violation),
        }
    }
}

impl<'a, T: Elegible> Clone for CopyRef<'a, T> {
    /// A copy of the stored bits and of the tie to the borrow. The borrowed value
    /// is not touched again.
    fn clone(&self) -> (token: Self)
        ensures
            token == *self,
            token.raw() == self.raw(),
            token@ == self@,
    {
        proof {
            use_type_invariant(self);
        }
        CopyRef { copy: self.copy, _borrow: self._borrow }
    }
}

impl<'a, T: Elegible> Copy for CopyRef<'a, T> {

}

impl<'a, T: Elegible> Deref for CopyRef<'a, T> {
    type Target = T;

    /// Views the stored bits as the value they denote. A token exists only for
    /// a type that is as large as its stand-in.
    fn deref(&self) -> (value: &T)
        ensures
            *value == self@,
            size_of::<T>() == size_of::<T::Raw>(),
    {
        proof {
            use_type_invariant(self);
        }
        T::from_raw(&self.copy)
    }
}

/// A token made from a value dereferences to that value: the bits that
/// construction stores read back as the value they were taken from.
pub proof fn lemma_token_round_trip<'a, T: Elegible>(value: T, token: CopyRef<'a, T>)
    requires
        token.raw() == value.raw_spec(),
    ensures
        token@ == value,
        is_raw_of_some::<T>(token.raw()),
{
    value.lemma_round_trip();
}

/// However often a token is duplicated, every duplicate denotes the value
/// that the first token denotes: in a chain in which each token holds the
/// bits of the one before it, all views agree.
pub proof fn lemma_duplicates_agree<'a, T: Elegible>(chain: Seq<CopyRef<'a, T>>, i: int)
    requires
        0 <= i < chain.len(),
        forall|k: int| 0 < k < chain.len() ==> (#[trigger] chain[k]).raw() == chain[k - 1].raw(),
    ensures
        chain[i].raw() == chain[0].raw(),
        chain[i]@ == chain[0]@,
    decreases i,
{
    if i > 0 {
        lemma_duplicates_agree(chain, i - 1);
    }
}

} // verus!
