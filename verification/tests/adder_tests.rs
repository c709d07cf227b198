use workpool::adder::add;
use workpool::adder::greeting;
use workpool::adder::Guess;
use workpool::adder::Rectangle;

#[test]
fn another() {
    let lament = "Wow! I failed to pass the test...";
    assert!(lament.starts_with("Wow!"));
}

#[test]
fn true_or_false() {
    assert!(true)
}

#[test]
fn larger_can_hold_smaller() {
    let larger: Rectangle = Rectangle { width: 8, height: 7 };
    let smaller: Rectangle = Rectangle { width: 5, height: 1 };

    assert!(larger.can_hold(&smaller));
}

#[test]
fn add_four() {
    let result: usize = add(2, 2);
    assert_eq!(result, 4);
}

#[test]
fn is_not_equal_to_one() {
    let two: i32 = 2;
    assert_ne!(two, 1);
}

#[test]
fn greeting_contains_name() {
    let result = greeting("Carol");
    assert!(
        result.contains("Carol"),
        "Greeting didn't contain name, value was {}",
        result
    );
}

#[test]
fn greeting_exact_text() {
    assert_eq!(greeting("Carol"), "Hello, Carol!");
    assert_eq!(greeting(""), "Hello, !");
}

#[test]
fn smaller_cannot_hold_larger() {
    let larger: Rectangle = Rectangle { width: 8, height: 7 };
    let smaller: Rectangle = Rectangle { width: 5, height: 1 };
    assert!(!smaller.can_hold(&larger));
}

#[test]
fn guess_keeps_its_value() {
    let g = Guess::new(1);
    assert_eq!(g.value(), 1);
    let g = Guess::new(100);
    assert_eq!(g.value(), 100);
}
