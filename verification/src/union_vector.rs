//! Vectors of union values: the construction-site helper that turns
//! heterogeneous variant offsets into one ordered sequence of tagged
//! values, the split into the parallel tags and payload-offset vectors,
//! and the pair type that holds the two finished vector offsets.

use crate::offsets::ForwardsUOffset;
use crate::offsets::Vector;
use crate::offsets::WIPOffset;
use crate::union_value::TaggedUnion;
use crate::union_value::UnionVariant;
use crate::union_value::UnionWIPOffset;
use vstd::prelude::*;

verus! {

/// The tags of a sequence of tagged values, in the same order.
pub open spec fn tags_of<U: TaggedUnion>(items: Seq<UnionWIPOffset<U>>) -> Seq<U::Tag> {
    items.map(|i: int, v: UnionWIPOffset<U>| v.spec_tag())
}

/// The payload offsets of a sequence of tagged values, in the same order.
pub open spec fn value_offsets_of<U: TaggedUnion>(items: Seq<UnionWIPOffset<U>>) -> Seq<
    WIPOffset<U>,
> {
    items.map(|i: int, v: UnionWIPOffset<U>| v.spec_value_offset())
}

/// Construction-site helper: accumulates variant payload offsets, deriving
/// each tag through the variant's own conversion, and yields the
/// uniformly-typed ordered sequence of single tagged values that a
/// union-vector field is built from. It performs no buffer I/O, and its
/// output order is exactly the input order.
pub struct UnionVectorBuilder<U: TaggedUnion> {
    items: Vec<UnionWIPOffset<U>>,
}

impl<U: TaggedUnion> UnionVectorBuilder<U> {
    /// The ordered sequence of tagged values accumulated so far.
    pub closed spec fn items_seq(self) -> Seq<UnionWIPOffset<U>> {
        self.items@
    }

    /// An empty helper: nothing accumulated yet.
    pub fn new() -> (r: Self)
        ensures
            r.items_seq() == Seq::<UnionWIPOffset<U>>::empty(),
    {
        UnionVectorBuilder { items: Vec::new() }
    }

    /// How many tagged values have been accumulated.
    pub fn len(&self) -> (n: usize)
        ensures
            n == self.items_seq().len(),
    {
        self.items.len()
    }

    /// Law (order preservation, tag/offset pairing): appends exactly one
    /// tagged value at the end — its tag the variant's schema-fixed
    /// discriminant, its payload offset the given one — and leaves every
    /// earlier entry unchanged, so input order is kept exactly.
    pub fn push_variant<T: UnionVariant<U>>(&mut self, value_offset: WIPOffset<T>)
        ensures
            final(self).items_seq() == old(self).items_seq().push(
                UnionWIPOffset::<U>::spec_new(
                    T::spec_variant_tag(),
                    value_offset.spec_cast::<U>(),
                ),
            ),
            final(self).items_seq().len() == old(self).items_seq().len() + 1,
            final(self).items_seq().last().spec_tag() == T::spec_variant_tag(),
            final(self).items_seq().last().spec_value_offset().spec_value()
                == value_offset.spec_value(),
    {
        self.items.push(T::from_value_offset(value_offset));
    }

    /// Hands the accumulated tagged values out, in insertion order.
    pub fn finish(self) -> (r: Vec<UnionWIPOffset<U>>)
        ensures
            r@ == self.items_seq(),
    {
        self.items
    }
}

/// Splits an ordered sequence of tagged values into the two parallel
/// vectors a union-vector field needs: the tag at index `i` of the first
/// describes the payload offset at index `i` of the second. Writing both
/// into the buffer in this order is what keeps the finished pair aligned.
pub fn split_tagged_values<U: TaggedUnion>(items: &Vec<UnionWIPOffset<U>>) -> (r: (
    Vec<U::Tag>,
    Vec<WIPOffset<U>>,
))
    ensures
        r.0@ == tags_of(items@),
        r.1@ == value_offsets_of(items@),
{
    let mut tags: Vec<U::Tag> = Vec::new();
    let mut values: Vec<WIPOffset<U>> = Vec::new();
    let mut i: usize = 0;
    while i < items.len()
        invariant
            i <= items@.len(),
            tags@.len() == i as int,
            values@.len() == i as int,
            forall|j: int| 0 <= j < i as int ==> tags@[j] == items@[j].spec_tag(),
            forall|j: int| 0 <= j < i as int ==> values@[j] == items@[j].spec_value_offset(),
        decreases items@.len() - i,
    {
        let item = &items[i];
        tags.push(item.tag());
        values.push(item.value_offset());
        i = i + 1;
    }
    proof {
        assert(tags@ =~= tags_of(items@));
        assert(values@ =~= value_offsets_of(items@));
    }
    (tags, values)
}

/// Law (vector correspondence): for a sequence of `n` tagged values, the
/// parallel tag and payload-offset sequences both have length `n`, and at
/// every index the tag is the one of the tagged value whose payload offset
/// stands at that same index.
pub proof fn lemma_vector_correspondence<U: TaggedUnion>(items: Seq<UnionWIPOffset<U>>)
    ensures
        tags_of(items).len() == items.len(),
        value_offsets_of(items).len() == items.len(),
        forall|i: int|
            0 <= i < items.len() ==> tags_of(items)[i] == items[i].spec_tag() && value_offsets_of(
                items,
            )[i] == items[i].spec_value_offset(),
{
}

/// Combines a work-in-progress offset to a vector of union tags with the
/// offset to the parallel vector of the unions' payload offsets. The two
/// vectors are finalized in the buffer before this pair is made, so the
/// pair cannot check after the fact that they match: the caller must have
/// built both from one ordered sequence of tagged values (the helper above
/// and `split_tagged_values` do exactly that), or the finished buffer
/// silently associates wrong variants at the mismatched indices.
pub struct UnionVectorWIPOffsets<'a, T: TaggedUnion> {
    tags: WIPOffset<Vector<'a, T::Tag>>,
    values_offset: WIPOffset<Vector<'a, ForwardsUOffset<T>>>,
}

impl<'a, T: TaggedUnion> UnionVectorWIPOffsets<'a, T> {
    /// The stored offset of the tags vector.
    pub closed spec fn spec_tags(self) -> WIPOffset<Vector<'a, T::Tag>> {
        self.tags
    }

    /// The stored offset of the payload-offsets vector.
    pub closed spec fn spec_values_offset(self) -> WIPOffset<Vector<'a, ForwardsUOffset<T>>> {
        self.values_offset
    }

    /// The pair that constructing from the two vector offsets yields.
    pub closed spec fn spec_new(
        tags: WIPOffset<Vector<'a, T::Tag>>,
        values_offset: WIPOffset<Vector<'a, ForwardsUOffset<T>>>,
    ) -> Self {
        UnionVectorWIPOffsets { tags, values_offset }
    }

    /// Binds the two vector offsets together. Both must come from the same
    /// ordered sequence of tagged values; see the type's documentation.
    pub fn new(
        tags: WIPOffset<Vector<'a, T::Tag>>,
        values_offset: WIPOffset<Vector<'a, ForwardsUOffset<T>>>,
    ) -> (r: Self)
        ensures
            r == Self::spec_new(tags, values_offset),
            r.spec_tags() == tags,
            r.spec_values_offset() == values_offset,
    {
        UnionVectorWIPOffsets { tags, values_offset }
    }

    /// Reads the tags-vector offset; no side effect, the same value on
    /// every call.
    pub fn tags(&self) -> (r: WIPOffset<Vector<'a, T::Tag>>)
        ensures
            r == self.spec_tags(),
    {
        self.tags
    }

    /// Reads the payload-offsets-vector offset; no side effect, the same
    /// value on every call.
    pub fn values_offset(&self) -> (r: WIPOffset<Vector<'a, ForwardsUOffset<T>>>)
        ensures
            r == self.spec_values_offset(),
    {
        self.values_offset
    }
}

impl<'a, T: TaggedUnion> Clone for UnionVectorWIPOffsets<'a, T> {
    fn clone(&self) -> (r: Self)
        ensures
            r == *self,
    {
        UnionVectorWIPOffsets { tags: self.tags, values_offset: self.values_offset }
    }
}

impl<'a, T: TaggedUnion> Copy for UnionVectorWIPOffsets<'a, T> {

}

/// Law (round trip): constructing a tagged vector pair from the two vector
/// offsets and reading both back returns exactly the inputs.
pub proof fn lemma_vector_pair_round_trip<'a, T: TaggedUnion>(
    tags: WIPOffset<Vector<'a, T::Tag>>,
    values_offset: WIPOffset<Vector<'a, ForwardsUOffset<T>>>,
)
    ensures
        UnionVectorWIPOffsets::<'a, T>::spec_new(tags, values_offset).spec_tags() == tags,
        UnionVectorWIPOffsets::<'a, T>::spec_new(tags, values_offset).spec_values_offset()
            == values_offset,
{
}

} // verus!
