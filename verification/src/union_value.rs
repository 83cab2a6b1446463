//! The single tagged value: one union discriminant bound to one payload
//! offset, constructed together and immutable thereafter, plus the
//! conversion that derives the tag from the variant type itself.

use crate::offsets::Push;
use crate::offsets::WIPOffset;
use vstd::prelude::*;

verus! {

/// A union marker type. The associated `Tag` type is the union's
/// discriminant: a small copyable scalar able to push itself into the
/// buffer. A type without this capability cannot be used with any of the
/// tagged aggregates below; that rejection happens at compile time.
pub trait TaggedUnion {
    type Tag: Push<Output = Self::Tag> + Clone + Copy;
}

/// Marks a work-in-progress offset as being for a union value: exactly one
/// tag paired with exactly one payload offset. The pair is constructed in
/// one step and is read-only afterwards, so a caller can never change the
/// tag without changing the offset or vice versa.
pub struct UnionWIPOffset<T: TaggedUnion> {
    tag: T::Tag,
    value_offset: WIPOffset<T>,
}

impl<T: TaggedUnion> UnionWIPOffset<T> {
    /// The tag stored in this pair.
    pub closed spec fn spec_tag(self) -> T::Tag {
        self.tag
    }

    /// The payload offset stored in this pair.
    pub closed spec fn spec_value_offset(self) -> WIPOffset<T> {
        self.value_offset
    }

    /// The pair that constructing from `(tag, value_offset)` yields.
    pub closed spec fn spec_new(tag: T::Tag, value_offset: WIPOffset<T>) -> Self {
        UnionWIPOffset { tag, value_offset }
    }

    /// Binds a tag to a payload offset. No validation happens at run time:
    /// that `tag` belongs to the union and `value_offset` is an offset for
    /// the union marker type is enforced by the types alone.
    pub fn new(tag: T::Tag, value_offset: WIPOffset<T>) -> (r: Self)
        ensures
            r == Self::spec_new(tag, value_offset),
            r.spec_tag() == tag,
            r.spec_value_offset() == value_offset,
    {
        UnionWIPOffset { tag, value_offset }
    }

    /// Reads the stored tag; no side effect, the same value on every call.
    pub fn tag(&self) -> (t: T::Tag)
        ensures
            t == self.spec_tag(),
    {
        self.tag
    }

    /// Reads the stored payload offset; no side effect, the same value on
    /// every call.
    pub fn value_offset(&self) -> (o: WIPOffset<T>)
        ensures
            o == self.spec_value_offset(),
    {
        self.value_offset
    }
}

/// A payload type that is a variant of union `U`. Its discriminant is fixed
/// by the schema (`spec_variant_tag`), not chosen at the call site:
/// converting a payload offset through `from_value_offset` derives the tag
/// from the variant type itself, which removes the last way to pair a tag
/// with an offset of the wrong variant.
pub trait UnionVariant<U: TaggedUnion>: Sized {
    /// The schema-fixed discriminant of this variant within `U`.
    spec fn spec_variant_tag() -> U::Tag;

    /// Returns the variant's discriminant.
    fn variant_tag() -> (t: U::Tag)
        ensures
            t == Self::spec_variant_tag(),
    ;

    /// Law (tag/offset pairing): converting a payload offset for this
    /// variant yields a single tagged value whose tag is the variant's
    /// schema-fixed discriminant and whose payload offset keeps the given
    /// coordinate. The caller supplies only the offset; the tag is derived.
    fn from_value_offset(value_offset: WIPOffset<Self>) -> (r: UnionWIPOffset<U>)
        ensures
            r == UnionWIPOffset::<U>::spec_new(
                Self::spec_variant_tag(),
                value_offset.spec_cast::<U>(),
            ),
            r.spec_tag() == Self::spec_variant_tag(),
            r.spec_value_offset().spec_value() == value_offset.spec_value(),
    {
        UnionWIPOffset::new(Self::variant_tag(), value_offset.cast::<U>())
    }
}

/// Law (round trip): constructing a single tagged value from a tag and a
/// payload offset and reading both back returns exactly the inputs, for
/// every tag and offset.
pub proof fn lemma_tagged_value_round_trip<T: TaggedUnion>(tag: T::Tag, value_offset: WIPOffset<T>)
    ensures
        UnionWIPOffset::<T>::spec_new(tag, value_offset).spec_tag() == tag,
        UnionWIPOffset::<T>::spec_new(tag, value_offset).spec_value_offset() == value_offset,
{
}

} // verus!
