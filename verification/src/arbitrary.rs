//! The default generator and shrinker of each supported type.
//!
//! [`Arbitrary`] names, for a type, the generator and shrinker a property
//! uses when the author does not pick them explicitly. The behaviour of each
//! pairing is specified on the generator and shrinker implementations
//! themselves.

use vstd::prelude::*;
use crate::dup::{Dup, Share};
use crate::generate::{
    Generator,
    IntegerGenerator,
    UnsignedIntegerGenerator,
    FromIteratorGenerator,
    OptionGenerator,
    RandGenerator,
};
use crate::shrink::{
    Shrink,
    Empty,
    IntegerShrinker,
    UnsignedIntegerShrinker,
    FromIteratorShrinker,
    DefaultShrinker,
};

verus! {

/// A type with a default generator and a default shrinker.
pub trait Arbitrary: Sized + DeepView + Dup {
    type Generator: Generator<Output = Self>;

    type Shrink: Shrink<Item = Self> + Share;

    /// The type's default generator.
    fn arbitrary() -> Self::Generator;

    /// The type's default shrinker.
    fn shrink() -> Self::Shrink;
}

impl Arbitrary for i8 {
    type Generator = IntegerGenerator<i8>;

    type Shrink = IntegerShrinker<i8>;

    fn arbitrary() -> Self::Generator {
        IntegerGenerator::new()
    }

    fn shrink() -> Self::Shrink {
        IntegerShrinker::new()
    }
}

impl Arbitrary for i16 {
    type Generator = IntegerGenerator<i16>;

    type Shrink = IntegerShrinker<i16>;

    fn arbitrary() -> Self::Generator {
        IntegerGenerator::new()
    }

    fn shrink() -> Self::Shrink {
        IntegerShrinker::new()
    }
}

impl Arbitrary for i32 {
    type Generator = IntegerGenerator<i32>;

    type Shrink = IntegerShrinker<i32>;

    fn arbitrary() -> Self::Generator {
        IntegerGenerator::new()
    }

    fn shrink() -> Self::Shrink {
        IntegerShrinker::new()
    }
}

impl Arbitrary for i64 {
    type Generator = IntegerGenerator<i64>;

    type Shrink = IntegerShrinker<i64>;

    fn arbitrary() -> Self::Generator {
        IntegerGenerator::new()
    }

    fn shrink() -> Self::Shrink {
        IntegerShrinker::new()
    }
}

impl Arbitrary for isize {
    type Generator = IntegerGenerator<isize>;

    type Shrink = IntegerShrinker<isize>;

    fn arbitrary() -> Self::Generator {
        IntegerGenerator::new()
    }

    fn shrink() -> Self::Shrink {
        IntegerShrinker::new()
    }
}

impl Arbitrary for u8 {
    type Generator = UnsignedIntegerGenerator<u8>;

    type Shrink = UnsignedIntegerShrinker<u8>;

    fn arbitrary() -> Self::Generator {
        UnsignedIntegerGenerator::new()
    }

    fn shrink() -> Self::Shrink {
        UnsignedIntegerShrinker::new()
    }
}

impl Arbitrary for u16 {
    type Generator = UnsignedIntegerGenerator<u16>;

    type Shrink = UnsignedIntegerShrinker<u16>;

    fn arbitrary() -> Self::Generator {
        UnsignedIntegerGenerator::new()
    }

    fn shrink() -> Self::Shrink {
        UnsignedIntegerShrinker::new()
    }
}

impl Arbitrary for u32 {
    type Generator = UnsignedIntegerGenerator<u32>;

    type Shrink = UnsignedIntegerShrinker<u32>;

    fn arbitrary() -> Self::Generator {
        UnsignedIntegerGenerator::new()
    }

    fn shrink() -> Self::Shrink {
        UnsignedIntegerShrinker::new()
    }
}

impl Arbitrary for u64 {
    type Generator = UnsignedIntegerGenerator<u64>;

    type Shrink = UnsignedIntegerShrinker<u64>;

    fn arbitrary() -> Self::Generator {
        UnsignedIntegerGenerator::new()
    }

    fn shrink() -> Self::Shrink {
        UnsignedIntegerShrinker::new()
    }
}

impl Arbitrary for usize {
    type Generator = UnsignedIntegerGenerator<usize>;

    type Shrink = UnsignedIntegerShrinker<usize>;

    fn arbitrary() -> Self::Generator {
        UnsignedIntegerGenerator::new()
    }

    fn shrink() -> Self::Shrink {
        UnsignedIntegerShrinker::new()
    }
}

impl Arbitrary for bool {
    type Generator = RandGenerator<bool>;

    type Shrink = DefaultShrinker<bool>;

    fn arbitrary() -> Self::Generator {
        RandGenerator::new()
    }

    fn shrink() -> Self::Shrink {
        DefaultShrinker::new()
    }
}

impl Arbitrary for char {
    type Generator = RandGenerator<char>;

    type Shrink = Empty<char>;

    fn arbitrary() -> Self::Generator {
        RandGenerator::new()
    }

    fn shrink() -> Self::Shrink {
        Empty::empty()
    }
}

impl<T: Arbitrary> Arbitrary for Vec<T> {
    type Generator = FromIteratorGenerator<Vec<T>, T::Generator>;

    type Shrink = FromIteratorShrinker<Vec<T>, T::Shrink>;

    fn arbitrary() -> Self::Generator {
        FromIteratorGenerator::new(T::arbitrary())
    }

    fn shrink() -> Self::Shrink {
        FromIteratorShrinker::new(T::shrink())
    }
}

impl<T: Arbitrary> Arbitrary for Option<T> {
    type Generator = OptionGenerator<T::Generator>;

    type Shrink = Empty<Option<T>>;

    fn arbitrary() -> Self::Generator {
        OptionGenerator::new(T::arbitrary())
    }

    fn shrink() -> Self::Shrink {
        Empty::empty()
    }
}

impl Arbitrary for () {
    type Generator = ();

    type Shrink = ();

    fn arbitrary() -> Self::Generator {
    }

    fn shrink() -> Self::Shrink {
    }
}

impl<A: Arbitrary> Arbitrary for (A,) {
    type Generator = (A::Generator,);

    type Shrink = (A::Shrink,);

    fn arbitrary() -> Self::Generator {
        (A::arbitrary(),)
    }

    fn shrink() -> Self::Shrink {
        (A::shrink(),)
    }
}

impl<A: Arbitrary, B: Arbitrary> Arbitrary for (A, B) {
    type Generator = (A::Generator, B::Generator);

    type Shrink = (A::Shrink, B::Shrink);

    fn arbitrary() -> Self::Generator {
        (A::arbitrary(), B::arbitrary())
    }

    fn shrink() -> Self::Shrink {
        (A::shrink(), B::shrink())
    }
}

impl<A: Arbitrary, B: Arbitrary, C: Arbitrary> Arbitrary for (A, B, C) {
    type Generator = (A::Generator, B::Generator, C::Generator);

    type Shrink = (A::Shrink, B::Shrink, C::Shrink);

    fn arbitrary() -> Self::Generator {
        (A::arbitrary(), B::arbitrary(), C::arbitrary())
    }

    fn shrink() -> Self::Shrink {
        (A::shrink(), B::shrink(), C::shrink())
    }
}

} // verus!
