use punch_graph::{Combo, PunchKind};

#[test]
fn codes_run_from_one_to_six_in_order() {
    assert_eq!(1, PunchKind::Jab.as_u8());
    assert_eq!(2, PunchKind::Cross.as_u8());
    assert_eq!(3, PunchKind::LeadHook.as_u8());
    assert_eq!(4, PunchKind::RearHook.as_u8());
    assert_eq!(5, PunchKind::LeadUppercut.as_u8());
    assert_eq!(6, PunchKind::RearUppercut.as_u8());
}

#[test]
fn u8_from_punch_is_its_code() {
    assert_eq!(1u8, u8::from(PunchKind::Jab));
    assert_eq!(4u8, u8::from(PunchKind::RearHook));
    assert_eq!(6u8, u8::from(PunchKind::RearUppercut));
    let code: u8 = PunchKind::LeadUppercut.into();
    assert_eq!(5, code);
}

#[test]
fn codes_are_distinct() {
    let punches = [
        PunchKind::Jab,
        PunchKind::Cross,
        PunchKind::LeadHook,
        PunchKind::RearHook,
        PunchKind::LeadUppercut,
        PunchKind::RearUppercut,
    ];
    for (i, a) in punches.iter().enumerate() {
        for (j, b) in punches.iter().enumerate() {
            assert_eq!(i == j, a.as_u8() == b.as_u8());
            assert_eq!(i == j, a == b);
        }
    }
}

#[test]
fn combo_keeps_its_punches_in_order() {
    let combo = Combo::new(&[PunchKind::Jab, PunchKind::Cross, PunchKind::LeadHook]);
    assert_eq!("Combo([Jab, Cross, LeadHook])", format!("{:?}", combo));
}

#[test]
fn empty_combo() {
    let combo = Combo::new(&[]);
    assert_eq!("Combo([])", format!("{:?}", combo));
    assert_eq!(Combo::new(&[]), combo);
}

#[test]
fn combos_compare_by_their_punches() {
    let one_two = Combo::new(&[PunchKind::Jab, PunchKind::Cross]);
    assert_eq!(Combo::new(&[PunchKind::Jab, PunchKind::Cross]), one_two);
    assert_ne!(Combo::new(&[PunchKind::Cross, PunchKind::Jab]), one_two);
    assert_ne!(Combo::new(&[PunchKind::Jab]), one_two);
    assert_ne!(
        Combo::new(&[PunchKind::Jab, PunchKind::Cross, PunchKind::Jab]),
        one_two
    );
}

#[test]
fn combo_from_a_vec() {
    let punches = vec![PunchKind::RearUppercut, PunchKind::RearUppercut];
    let combo = Combo::new(&punches);
    assert_eq!("Combo([RearUppercut, RearUppercut])", format!("{:?}", combo));
}

#[test]
fn cloned_combo_is_equal() {
    let combo = Combo::new(&[PunchKind::LeadHook, PunchKind::RearHook]);
    let copy = combo.clone();
    assert_eq!(combo, copy);
    assert_eq!("Combo([LeadHook, RearHook])", format!("{:?}", copy));
}
