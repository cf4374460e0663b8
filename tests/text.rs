use gluex::{bytes_to_fixed, string_to_fixed, trim_fixed_string, DonationEntry, Pubkey, SubGoal, TotalGoal};

#[test]
fn fixed_text_pads_and_cuts() {
    let short: [u8; 6] = string_to_fixed("abc");
    assert_eq!(short, [97, 98, 99, 0, 0, 0]);
    let cut: [u8; 2] = string_to_fixed("abc");
    assert_eq!(cut, [97, 98]);
    let bytes: [u8; 3] = bytes_to_fixed(&[1, 2, 3, 4]);
    assert_eq!(bytes, [1, 2, 3]);
    let utf: [u8; 4] = string_to_fixed("é!");
    assert_eq!(utf, [0xC3, 0xA9, 33, 0]);
}

#[test]
fn fixed_text_reads_back() {
    assert_eq!(trim_fixed_string(&[104, 105, 0, 120]), "hi");
    assert_eq!(trim_fixed_string(&[104, 105]), "hi");
    assert_eq!(trim_fixed_string(&[0, 104]), "");
    assert_eq!(trim_fixed_string(&[]), "");
    assert_eq!(trim_fixed_string(&[0xFF, 65, 0]), "\u{FFFD}A");
}

#[test]
fn records_from_parts() {
    let title: [u8; 48] = string_to_fixed("walk");
    let slot = SubGoal::from_title(title);
    assert_eq!(slot.title, title);
    assert!(!slot.is_active);
    assert_eq!(slot.incentive_amount, 0);
    assert_eq!(slot.verifier, Pubkey::default());
    let entry = DonationEntry::from_parts(Pubkey::new_from_array([3; 32]), 5, 6, *b"SOL\0\0\0\0\0");
    assert_eq!((entry.amount, entry.ts), (5, 6));
    assert_eq!(TotalGoal::description_capacity(), 512);
}

#[test]
fn keys_compare_by_bytes() {
    let mut bytes = [4u8; 32];
    let a = Pubkey::new_from_array(bytes);
    bytes[31] = 5;
    let b = Pubkey::new_from_array(bytes);
    assert!(a.same(&a));
    assert!(!a.same(&b));
    assert_ne!(a, b);
}
