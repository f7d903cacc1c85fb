//! The sizes and alignments of C's fundamental types on a target.
use crate::alignment::Alignment;
use crate::bits::is_next_power_of_two;
use crate::integral::Signedness;
use crate::size::{group_size, Size, SizeBit};
use crate::triple::{data_model_of, DataModel, Triple};
use vstd::arithmetic::power2::pow2;
use vstd::prelude::*;

verus! {

broadcast use group_size;

/// The size and alignment of a type.
#[derive(Debug, Clone, Copy, PartialEq, Eq, Structural)]
pub struct TypeMeta {
    pub size: Size,
    pub alignment: Alignment,
}

impl TypeMeta {
    /// The type is `bytes` large and naturally aligned: its alignment is the
    /// smallest power of two that is at least its size.
    pub open spec fn natural(self, bytes: nat) -> bool {
        &&& self.size@ == bytes
        &&& is_next_power_of_two(bytes, pow2(self.alignment@))
    }

    fn new(size: Size, alignment: Alignment) -> (r: Self)
        ensures
            r.size == size,
            r.alignment == alignment,
    {
        TypeMeta { size, alignment }
    }

    /// A naturally aligned type of the given size.
    fn from_size(size: Size) -> (r: Self)
        requires
            size@ <= usize::MAX / 2 + 1,
        ensures
            r.natural(size@),
    {
        Self::new(size, Alignment::from_size_ceil(size))
    }

    /// The size in bits.
    pub fn size_bits(&self) -> (r: SizeBit)
        requires
            self.size@ * 8 <= usize::MAX,
        ensures
            r@ == self.size@ * 8,
    {
        self.size.size_bits()
    }
}

/// The layout of C's fundamental types on a target.
#[derive(Debug, Clone, Copy, PartialEq, Eq, Structural)]
pub struct TargetInfo {
    pub pointer: TypeMeta,
    pub boolean: TypeMeta,
    pub short: TypeMeta,
    pub int: TypeMeta,
    pub long: TypeMeta,
    pub long_long: TypeMeta,
    pub float: TypeMeta,
    pub double: TypeMeta,
    pub long_double: TypeMeta,
    pub character: TypeMeta,
    pub char_signess: Signedness,
}

impl TargetInfo {
    /// What [`TargetInfo::new`] gives for a data model. `long double` is laid
    /// out as `double`.
    pub open spec fn describes(self, dm: DataModel) -> bool {
        &&& self.pointer.natural(8)
        &&& self.boolean.natural(1)
        &&& self.short.natural(2)
        &&& self.int.natural(4)
        &&& self.long.natural(if dm == DataModel::LLP64 { 4 } else { 8 })
        &&& self.long_long.natural(8)
        &&& self.float.natural(4)
        &&& self.double.natural(8)
        &&& self.long_double.natural(8)
        &&& self.character.natural(1)
        &&& self.char_signess == Signedness::Unsigned
    }

    /// Every size is one of the fundamental ones, at most 8 bytes.
    pub open spec fn wf(self) -> bool {
        &&& 1 <= self.pointer.size@ <= 8
        &&& 1 <= self.boolean.size@ <= 8
        &&& 1 <= self.short.size@ <= 8
        &&& 1 <= self.int.size@ <= 8
        &&& 1 <= self.long.size@ <= 8
        &&& 1 <= self.long_long.size@ <= 8
        &&& 1 <= self.float.size@ <= 8
        &&& 1 <= self.double.size@ <= 8
        &&& 1 <= self.long_double.size@ <= 8
        &&& 1 <= self.character.size@ <= 8
    }

    /// The layout for a target; the target must have a data model.
    pub fn new(triple: Triple) -> (r: Self)
        requires
            data_model_of(triple) is Some,
        ensures
            r.describes(data_model_of(triple)->0),
            r.wf(),
    {
        let data_model = match triple.data_model() {
            Some(dm) => dm,
            None => DataModel::LP64,
        };
        let pointer = TypeMeta::from_size(data_model.pointer_width());
        let boolean = TypeMeta::from_size(Size::new(1));
        let short = TypeMeta::from_size(data_model.short_size());
        let int_meta = TypeMeta::from_size(data_model.int_size());
        let long = TypeMeta::from_size(data_model.long_size());
        let long_long = TypeMeta::from_size(data_model.long_long_size());
        let float = TypeMeta::from_size(data_model.float_size());
        let double = TypeMeta::from_size(data_model.double_size());
        let long_double = TypeMeta::from_size(data_model.double_size());
        let character = TypeMeta::from_size(data_model.char_size());
        let char_signess = data_model.char_signess();
        TargetInfo {
            pointer,
            boolean,
            short,
            int: int_meta,
            long,
            long_long,
            float,
            double,
            long_double,
            character,
            char_signess,
        }
    }
}

} // verus!
