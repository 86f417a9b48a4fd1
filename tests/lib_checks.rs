#[test]
fn it_works() {
    assert_eq!(true, true);
}
