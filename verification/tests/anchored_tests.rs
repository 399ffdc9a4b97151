use anchored::Anchored;

#[test]
fn new_then_get_reads_the_value_back() {
    let a = Anchored::new(41_u64);
    assert_eq!(*a.get(), 41);
}

#[test]
fn get_mut_writes_through() {
    let mut a = Anchored::new(String::from("guarded"));
    a.get_mut().push_str(" value");
    assert_eq!(a.get(), "guarded value");
}

#[test]
fn into_inner_hands_the_value_back() {
    let a = Anchored::new(vec![1_u8, 2, 3]);
    assert_eq!(a.into_inner(), vec![1, 2, 3]);
}
