use aurora::MessageFlags;
use twilight_model::channel::message::MessageFlags as TwilightFlags;

#[test]
fn named_flags_have_discords_bits() {
    assert_eq!(MessageFlags::ephemeral().bits(), TwilightFlags::EPHEMERAL.bits());
    assert_eq!(MessageFlags::suppress_embeds().bits(), TwilightFlags::SUPPRESS_EMBEDS.bits());
    assert_eq!(MessageFlags::is_components_v2().bits(), TwilightFlags::IS_COMPONENTS_V2.bits());
    assert_eq!(MessageFlags::empty().bits(), 0);
}

#[test]
fn union_and_difference_agree_with_bitflags() {
    let a = MessageFlags::from_bits_retain(0b1010_0101);
    let b = MessageFlags::from_bits_retain(0b0110_0110);
    let ta = TwilightFlags::from_bits_retain(0b1010_0101);
    let tb = TwilightFlags::from_bits_retain(0b0110_0110);
    assert_eq!(a.union(b).bits(), (ta | tb).bits());
    assert_eq!(a.difference(b).bits(), ta.difference(tb).bits());
    assert!(a.union(b).contains(b));
    assert!(!a.contains(b));
}

#[test]
fn unknown_bits_are_kept() {
    let f = MessageFlags::from_bits_retain(1 << 63);
    assert_eq!(f.bits(), 1 << 63);
    assert_eq!(f.union(MessageFlags::ephemeral()).bits(), (1 << 63) | 0x40);
}
