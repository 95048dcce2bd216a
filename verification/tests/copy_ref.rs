use copy_ref::copy_ref::{validate, CopyRef, Elegible, Violation};
use copy_ref::freeze::{Freeze, Shape};
use std::mem::size_of;

struct Resource(u32);

impl Resource {
    fn as_u32(&self) -> u32 {
        self.0
    }
}

impl Freeze for Resource {
    fn shape() -> Shape {
        Shape::Aggregate(vec![u32::shape()])
    }
}

// `from_raw` rebuilds the value that the bits denote and lends it out for good.
impl Elegible for Resource {
    type Raw = u32;

    fn raw_spec(&self) -> u32 {
        self.0
    }

    fn from_raw_spec(raw: u32) -> Resource {
        Resource(raw)
    }

    fn lemma_round_trip(&self) {}

    fn as_raw(&self) -> &u32 {
        &self.0
    }

    fn from_raw(raw: &u32) -> &Resource {
        Box::leak(Box::new(Resource(*raw)))
    }
}

/// Twice as large as the stand-in it declares.
struct Wide {
    low: u32,
    high: u32,
}

impl Freeze for Wide {
    fn shape() -> Shape {
        Shape::Aggregate(vec![u32::shape(), u32::shape()])
    }
}

impl Elegible for Wide {
    type Raw = u32;

    fn raw_spec(&self) -> u32 {
        self.low
    }

    fn from_raw_spec(raw: u32) -> Wide {
        Wide { low: raw, high: 0 }
    }

    fn lemma_round_trip(&self) {}

    fn as_raw(&self) -> &u32 {
        &self.low
    }

    fn from_raw(raw: &u32) -> &Wide {
        Box::leak(Box::new(Wide { low: *raw, high: 0 }))
    }
}

/// As large as its stand-in, but the stand-in lies on the heap.
struct Relocated(Box<usize>);

impl Freeze for Relocated {
    fn shape() -> Shape {
        Shape::Aggregate(vec![Shape::Pointer])
    }
}

impl Elegible for Relocated {
    type Raw = usize;

    fn raw_spec(&self) -> usize {
        *self.0
    }

    fn from_raw_spec(raw: usize) -> Relocated {
        Relocated(Box::new(raw))
    }

    fn lemma_round_trip(&self) {}

    fn as_raw(&self) -> &usize {
        &self.0
    }

    fn from_raw(raw: &usize) -> &Relocated {
        Box::leak(Box::new(Relocated(Box::new(*raw))))
    }
}

#[test]
fn it_is_indeed_smaller() {
    assert!(size_of::<CopyRef<Resource>>() < size_of::<&Resource>());
}

#[test]
fn can_copy() {
    let x = Resource(13);
    let r = CopyRef::new(&x);
    let r2 = r;
    let r3 = r;
    assert_eq!(r2.as_u32(), 13);
    assert_eq!(r3.as_u32(), 13);
}

#[test]
fn all_three_tokens_report_the_value() {
    let x = Resource(13);
    let r = CopyRef::new(&x);
    let r2 = r;
    let r3 = r;
    assert_eq!(r.as_u32(), 13);
    assert_eq!(r2.as_u32(), 13);
    assert_eq!(r3.as_u32(), 13);
}

#[test]
fn sizes_of_the_types_under_test_agree() {
    assert_eq!(size_of::<Resource>(), size_of::<<Resource as Elegible>::Raw>());
    assert_eq!(size_of::<Relocated>(), size_of::<<Relocated as Elegible>::Raw>());
    assert_eq!(size_of::<u64>(), size_of::<<u64 as Elegible>::Raw>());
    assert_ne!(size_of::<Wide>(), size_of::<<Wide as Elegible>::Raw>());
}

#[test]
fn token_is_as_large_as_the_stand_in() {
    assert_eq!(size_of::<CopyRef<Resource>>(), 4);
    assert_eq!(size_of::<CopyRef<u8>>(), 1);
}

#[test]
fn token_reads_back_the_value_it_was_made_from() {
    for v in [0u32, 1, 13, 0x8000_0000, u32::MAX] {
        let x = Resource(v);
        let token = CopyRef::new(&x);
        assert_eq!(token.as_u32(), v);
        assert_eq!((*token).0, x.0);
    }
}

#[test]
fn checked_construction_reads_back_the_value() {
    let x = Resource(13);
    let token = match CopyRef::try_new(&x) {
        Ok(token) => token,
        Err(violation) => panic!("{:?}", violation),
    };
    assert_eq!(token.as_u32(), 13);
}

#[test]
fn a_plain_copy_type_is_its_own_stand_in() {
    let x: u64 = 0xDEAD_BEEF_0000_0001;
    let token = CopyRef::new(&x);
    assert_eq!(*token, 0xDEAD_BEEF_0000_0001);
    let checked = CopyRef::try_new(&x);
    assert!(matches!(checked, Ok(t) if *t == x));
}

#[test]
fn duplicates_of_duplicates_agree() {
    let x = Resource(13);
    let first = CopyRef::new(&x);
    let mut current = first;
    for _ in 0..1000 {
        let next = current.clone();
        assert_eq!(next.as_u32(), first.as_u32());
        current = next;
    }
    assert_eq!(current.as_u32(), 13);
}

#[test]
fn clone_and_copy_give_the_same_token() {
    let x = Resource(21);
    let token = CopyRef::new(&x);
    let copied = token;
    let cloned = token.clone();
    assert_eq!(copied.as_u32(), 21);
    assert_eq!(cloned.as_u32(), 21);
}

#[test]
fn size_mismatch_is_rejected_at_construction() {
    let wide = Wide { low: 13, high: 14 };
    assert_eq!(wide.high, 14);
    let made = CopyRef::try_new(&wide);
    assert_eq!(
        made.err(),
        Some(Violation::SizeMismatch { value_size: 8, raw_size: 4 })
    );
}

#[test]
fn relocated_stand_in_is_rejected_at_construction() {
    let relocated = Relocated(Box::new(13));
    let made = CopyRef::try_new(&relocated);
    assert_eq!(made.err(), Some(Violation::AddressMismatch));
}

#[test]
fn validate_accepts_equal_sizes_in_place() {
    assert_eq!(validate(4, 4, true), Ok(()));
    assert_eq!(validate(0, 0, true), Ok(()));
}

#[test]
fn validate_reports_the_sizes_that_differ() {
    assert_eq!(
        validate(8, 4, true),
        Err(Violation::SizeMismatch { value_size: 8, raw_size: 4 })
    );
    assert_eq!(
        validate(4, 8, true),
        Err(Violation::SizeMismatch { value_size: 4, raw_size: 8 })
    );
}

#[test]
fn validate_looks_at_the_sizes_first() {
    assert_eq!(
        validate(8, 4, false),
        Err(Violation::SizeMismatch { value_size: 8, raw_size: 4 })
    );
}

#[test]
fn validate_reports_a_stand_in_that_is_elsewhere() {
    assert_eq!(validate(4, 4, false), Err(Violation::AddressMismatch));
}
