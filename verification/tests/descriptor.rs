use clips::types::ALL_BITS;
use clips::types::BOOLEAN_BIT;
use clips::types::EXTERNAL_ADDRESS_BIT;
use clips::types::FACT_ADDRESS_BIT;
use clips::types::FLOAT_BIT;
use clips::types::INSTANCE_ADDRESS_BIT;
use clips::types::INSTANCE_NAME_BIT;
use clips::types::INTEGER_BIT;
use clips::types::MULTIFIELD_BIT;
use clips::types::STRING_BIT;
use clips::types::SYMBOL_BIT;
use clips::types::VOID_BIT;
use clips::Type;

#[test]
fn empty_mask_renders_wildcard() {
    assert_eq!(Type::empty().format(), "*");
}

#[test]
fn any_marker_renders_wildcard() {
    // The explicit "any" marker is the mask with no bits set; uniting it
    // into an empty mask still renders the wildcard.
    let any = Type::from_bits(0);
    assert_eq!(Type::empty().with(any).format(), "*");
}

#[test]
fn integer_and_symbol_render_in_canonical_order() {
    let t = Type::from_bits(INTEGER_BIT | SYMBOL_BIT);
    assert_eq!(t.format(), "ly");
}

#[test]
fn rendering_ignores_union_order() {
    let a = Type::from_bits(SYMBOL_BIT).with(Type::from_bits(INTEGER_BIT));
    let b = Type::from_bits(INTEGER_BIT).with(Type::from_bits(SYMBOL_BIT));
    assert_eq!(a.format(), "ly");
    assert_eq!(a.format(), b.format());
}

#[test]
fn rendering_is_stable() {
    let t = Type::from_bits(FLOAT_BIT | STRING_BIT | VOID_BIT);
    assert_eq!(t.format(), t.format());
    assert_eq!(t.format(), "dsv");
}

#[test]
fn every_kind_has_its_own_character() {
    assert_eq!(Type::from_bits(BOOLEAN_BIT).format(), "b");
    assert_eq!(Type::from_bits(FLOAT_BIT).format(), "d");
    assert_eq!(Type::from_bits(EXTERNAL_ADDRESS_BIT).format(), "e");
    assert_eq!(Type::from_bits(FACT_ADDRESS_BIT).format(), "f");
    assert_eq!(Type::from_bits(INSTANCE_ADDRESS_BIT).format(), "i");
    assert_eq!(Type::from_bits(INTEGER_BIT).format(), "l");
    assert_eq!(Type::from_bits(MULTIFIELD_BIT).format(), "m");
    assert_eq!(Type::from_bits(INSTANCE_NAME_BIT).format(), "n");
    assert_eq!(Type::from_bits(STRING_BIT).format(), "s");
    assert_eq!(Type::from_bits(SYMBOL_BIT).format(), "y");
    assert_eq!(Type::from_bits(VOID_BIT).format(), "v");
}

#[test]
fn full_mask_renders_all_characters_in_canonical_order() {
    assert_eq!(Type::all().format(), "bdefilmnsyv");
    assert_eq!(Type::all().format().len(), 11);
    assert_eq!(ALL_BITS, 0x07ff);
}

#[test]
fn contains_follows_the_bits() {
    let t = Type::from_bits(INTEGER_BIT | SYMBOL_BIT);
    assert!(t.contains(INTEGER_BIT));
    assert!(t.contains(SYMBOL_BIT));
    assert!(!t.contains(FLOAT_BIT));
    assert!(t.contains(0));
    assert!(!t.is_empty());
    assert!(Type::empty().is_empty());
}
