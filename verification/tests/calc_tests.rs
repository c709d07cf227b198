use workpool::calc::add;

#[test]
fn it_works() {
    let result = add(2, 2);
    assert_eq!(result, 4);
}

#[test]
fn adds_right_to_left() {
    assert_eq!(add(0, 0), 0);
    assert_eq!(add(1, 2), 3);
}
