use field_guide::{DemoEnum, DemoStruct};

#[test]
fn a_named_amount_keeps_its_name_and_amount() {
    let value = DemoEnum::VariantTwo { item: String::from("widgets"), amount: 4 };
    match value {
        DemoEnum::VariantTwo { item, amount } => {
            assert_eq!(item, "widgets");
            assert_eq!(amount, 4);
        }
        DemoEnum::VariantOne(_) => panic!("a named amount read back as a record"),
    }
}

#[test]
fn a_named_amount_may_be_empty_or_large() {
    let value = DemoEnum::VariantTwo { item: String::new(), amount: usize::MAX };
    match value {
        DemoEnum::VariantTwo { item, amount } => {
            assert_eq!(item, "");
            assert_eq!(amount, usize::MAX);
        }
        DemoEnum::VariantOne(_) => panic!("a named amount read back as a record"),
    }
}

#[test]
fn a_wrapped_record_keeps_its_fields() {
    let value = DemoEnum::VariantOne(DemoStruct::new(8, String::from("inside")));
    match value {
        DemoEnum::VariantOne(record) => {
            assert_eq!(record.field_one, 8);
            assert_eq!(record.field_two, Some(String::from("inside")));
        }
        DemoEnum::VariantTwo { .. } => panic!("a record read back as a named amount"),
    }
}

#[test]
fn the_two_variants_are_told_apart() {
    let one = DemoEnum::VariantOne(DemoStruct::new_just_one(4));
    let two = DemoEnum::VariantTwo { item: String::from("widgets"), amount: 4 };
    assert!(matches!(one, DemoEnum::VariantOne(_)));
    assert!(!matches!(one, DemoEnum::VariantTwo { .. }));
    assert!(matches!(two, DemoEnum::VariantTwo { .. }));
    assert!(!matches!(two, DemoEnum::VariantOne(_)));
}
