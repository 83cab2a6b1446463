use union_offsets::offsets::ForwardsUOffset;
use union_offsets::offsets::Vector;
use union_offsets::offsets::WIPOffset;
use union_offsets::union_value::TaggedUnion;
use union_offsets::union_value::UnionVariant;
use union_offsets::union_value::UnionWIPOffset;
use union_offsets::union_vector::split_tagged_values;
use union_offsets::union_vector::UnionVectorBuilder;
use union_offsets::union_vector::UnionVectorWIPOffsets;

/// The `Shape` union: variant `Circle` has tag 1, variant `Square` has tag 2.
struct Shape;

impl TaggedUnion for Shape {
    type Tag = u8;
}

struct Circle;

impl UnionVariant<Shape> for Circle {
    fn spec_variant_tag() -> u8 {
        1
    }

    fn variant_tag() -> u8 {
        1
    }
}

struct Square;

impl UnionVariant<Shape> for Square {
    fn spec_variant_tag() -> u8 {
        2
    }

    fn variant_tag() -> u8 {
        2
    }
}

#[test]
fn from_value_offset_derives_circle_tag() {
    let payload: WIPOffset<Circle> = WIPOffset::new(64);
    let tagged = Circle::from_value_offset(payload);
    assert_eq!(tagged.tag(), 1);
    assert_eq!(tagged.value_offset().value(), 64);
}

#[test]
fn from_value_offset_derives_square_tag() {
    let payload: WIPOffset<Square> = WIPOffset::new(28);
    let tagged = Square::from_value_offset(payload);
    assert_eq!(tagged.tag(), 2);
    assert_eq!(tagged.value_offset().value(), 28);
}

#[test]
fn tagged_value_round_trip() {
    let payload: WIPOffset<Shape> = WIPOffset::new(12);
    let tagged = UnionWIPOffset::<Shape>::new(2, payload);
    assert_eq!(tagged.tag(), 2);
    assert_eq!(tagged.value_offset().value(), 12);
}

#[test]
fn offset_value_round_trip_and_cast() {
    let payload: WIPOffset<Circle> = WIPOffset::new(7);
    assert_eq!(payload.value(), 7);
    let as_union: WIPOffset<Shape> = payload.cast();
    assert_eq!(as_union.value(), 7);
}

#[test]
fn offsets_are_plain_copyable_coordinates() {
    let payload: WIPOffset<Shape> = WIPOffset::new(40);
    let copy = payload;
    assert_eq!(payload.value(), copy.value());
    assert_eq!(payload.clone().value(), 40);
}

#[test]
fn helper_preserves_input_order() {
    let mut builder: UnionVectorBuilder<Shape> = UnionVectorBuilder::new();
    builder.push_variant::<Circle>(WIPOffset::new(5));
    builder.push_variant::<Square>(WIPOffset::new(6));
    builder.push_variant::<Circle>(WIPOffset::new(7));
    assert_eq!(builder.len(), 3);
    let items = builder.finish();
    let positions: Vec<u32> = items.iter().map(|i| i.value_offset().value()).collect();
    assert_eq!(positions, vec![5, 6, 7]);
}

#[test]
fn empty_helper_yields_empty_vectors() {
    let builder: UnionVectorBuilder<Shape> = UnionVectorBuilder::new();
    assert_eq!(builder.len(), 0);
    let items = builder.finish();
    assert_eq!(items.len(), 0);
    let (tags, values) = split_tagged_values(&items);
    assert_eq!(tags.len(), 0);
    assert_eq!(values.len(), 0);
}

#[test]
fn vector_scenario_circle_square_circle() {
    let mut builder: UnionVectorBuilder<Shape> = UnionVectorBuilder::new();
    builder.push_variant::<Circle>(WIPOffset::new(20));
    builder.push_variant::<Square>(WIPOffset::new(36));
    builder.push_variant::<Circle>(WIPOffset::new(52));
    let items = builder.finish();

    let (tags, values) = split_tagged_values(&items);
    assert_eq!(tags, vec![1, 2, 1]);
    assert_eq!(values.len(), 3);
    assert_eq!(values[0].value(), 20);
    assert_eq!(values[1].value(), 36);
    assert_eq!(values[2].value(), 52);

    // The buffer layer would now write the two vectors and return their
    // offsets; combine those into the pair and read them back.
    let tags_offset: WIPOffset<Vector<u8>> = WIPOffset::new(96);
    let values_offset: WIPOffset<Vector<ForwardsUOffset<Shape>>> = WIPOffset::new(112);
    let pair = UnionVectorWIPOffsets::<Shape>::new(tags_offset, values_offset);
    assert_eq!(pair.tags().value(), 96);
    assert_eq!(pair.values_offset().value(), 112);
}

#[test]
fn accessors_are_idempotent() {
    let tagged = UnionWIPOffset::<Shape>::new(1, WIPOffset::new(24));
    assert_eq!(tagged.tag(), tagged.tag());
    assert_eq!(tagged.value_offset().value(), tagged.value_offset().value());

    let pair = UnionVectorWIPOffsets::<Shape>::new(WIPOffset::new(8), WIPOffset::new(16));
    assert_eq!(pair.tags().value(), pair.tags().value());
    assert_eq!(pair.values_offset().value(), pair.values_offset().value());
    let copy = pair;
    assert_eq!(copy.tags().value(), 8);
    assert_eq!(copy.clone().values_offset().value(), 16);
}
