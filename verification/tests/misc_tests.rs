use workpool::advanced_traits::Animal;
use workpool::advanced_traits::Dog;
use workpool::advanced_traits::Human;
use workpool::advanced_traits::Pilot;
use workpool::advanced_traits::Wizard;
use workpool::blog_state::Post;
use workpool::coins::plus_one;
use workpool::coins::value_in_cents;
use workpool::coins::Coin;
use workpool::coins::UsState;
use workpool::concepts::func_with_ret_value;
use workpool::creatures::Pie;
use workpool::creatures::SeaCreature;
use workpool::funcs::add_one;
use workpool::funcs::do_twice;
use workpool::generics::largest;
use workpool::generics::largest_char;
use workpool::generics::largest_i32;
use workpool::generics::Point;
use workpool::guessing::evaluate_guess;
use workpool::guessing::roll_die;
use workpool::guessing::secret_number;
use workpool::guessing::GuessOutcome;
use workpool::lifetimes::longest;
use workpool::lifetimes::ImportantExcerpt;
use workpool::ownership::calculate_length;
use workpool::ownership::change;
use workpool::ownership::first_word;
use workpool::ownership::gives_ownership;
use workpool::ownership::takes_and_gives_back;
use workpool::rectangles::area;
use workpool::rectangles::Rectangle;
use workpool::shirts::Inventory;
use workpool::shirts::ShirtColor;
use workpool::summaries::notify;
use workpool::summaries::returns_summarizable;
use workpool::summaries::NewsArticle;
use workpool::summaries::Pair;
use workpool::summaries::Summary;
use workpool::users::build_user;

#[test]
fn blog_post_workflow() {
    let mut post = Post::new();
    post.add_text("I ate a salad for lunch today");
    assert_eq!(post.content(), "");
    post.request_review();
    assert_eq!(post.content(), "");
    post.approve();
    assert_eq!(post.content(), "I ate a salad for lunch today");
}

#[test]
fn blog_post_never_moves_backwards() {
    let mut post = Post::new();
    post.add_text("draft");
    post.request_review();
    post.approve();
    post.request_review();
    assert_eq!(post.content(), "draft");
}

#[test]
fn giveaway_prefers_the_user_choice() {
    let store = Inventory {
        shirts: vec![ShirtColor::Blue, ShirtColor::Red, ShirtColor::Blue],
    };
    assert_eq!(store.giveaway(Some(ShirtColor::Red)), ShirtColor::Red);
    assert_eq!(store.giveaway(None), ShirtColor::Blue);
}

#[test]
fn most_stocked_breaks_ties_toward_blue() {
    let even = Inventory {
        shirts: vec![ShirtColor::Red, ShirtColor::Blue],
    };
    assert_eq!(even.most_stocked(), ShirtColor::Blue);
    let red_heavy = Inventory {
        shirts: vec![ShirtColor::Red, ShirtColor::Blue, ShirtColor::Red],
    };
    assert_eq!(red_heavy.most_stocked(), ShirtColor::Red);
    let empty = Inventory { shirts: vec![] };
    assert_eq!(empty.most_stocked(), ShirtColor::Blue);
}

#[test]
fn coins_have_their_values() {
    assert_eq!(value_in_cents(Coin::Penny), 1);
    assert_eq!(value_in_cents(Coin::Nickel), 5);
    assert_eq!(value_in_cents(Coin::Dime), 10);
    assert_eq!(value_in_cents(Coin::Quarter(UsState::Alaska)), 25);
    assert_eq!(value_in_cents(Coin::Quarter(UsState::Alabama)), 25);
}

#[test]
fn plus_one_steps_inside_the_option() {
    assert_eq!(plus_one(Some(5)), Some(6));
    assert_eq!(plus_one(None), None);
}

#[test]
fn ret_value_formula() {
    assert_eq!(func_with_ret_value(), 44444);
}

#[test]
fn eating_takes_one_slice() {
    let mut pie = Pie { slices: 8 };
    pie.eat_slice("ferris");
    assert_eq!(pie.slices, 7);
    let mut ferris = SeaCreature {
        name: String::from("ferris"),
        pie: Pie { slices: 6 },
    };
    ferris.eat();
    assert_eq!(ferris.pie.slices, 5);
}

#[test]
fn do_twice_doubles_the_application() {
    assert_eq!(do_twice(add_one, 5), 12);
    assert_eq!(add_one(0), 1);
}

#[test]
fn largest_finds_the_maximum() {
    let numbers = vec![34, 50, 25, 100, 65];
    assert_eq!(largest_i32(&numbers), 100);
    assert_eq!(largest(&numbers), 100);
    let chars = vec!['y', 'm', 'a', 'q'];
    assert_eq!(largest_char(&chars), 'y');
}

#[test]
fn points_mix_their_coordinates() {
    let p1 = Point { x: 5, y: 10 };
    assert_eq!(*p1.x(), 5);
    assert_eq!(*p1.y(), 10);
    let p2 = Point { x: "Hello", y: 'c' };
    let p3 = p1.mixup(p2);
    assert_eq!(p3.x, 5);
    assert_eq!(p3.y, 'c');
}

#[test]
fn guessing_outcomes() {
    assert_eq!(evaluate_guess(10, 50), GuessOutcome::TooSmall);
    assert_eq!(evaluate_guess(90, 50), GuessOutcome::TooBig);
    assert_eq!(evaluate_guess(50, 50), GuessOutcome::Win);
}

#[test]
fn random_draws_stay_in_range() {
    for _ in 0..50 {
        let s = secret_number();
        assert!((1..=100).contains(&s));
        let d = roll_die();
        assert!((1..=6).contains(&d));
    }
}

#[test]
fn ownership_helpers() {
    assert_eq!(gives_ownership(), "Reply: Hello!");
    let s = String::from("Hey, Hello!");
    assert_eq!(takes_and_gives_back(s), "Hey, Hello!");
    let s1 = String::from("Hello");
    assert_eq!(calculate_length(&s1), 5);
    let mut s2 = String::from("hello");
    change(&mut s2);
    assert_eq!(s2, "hello, world");
}

#[test]
fn first_word_stops_at_the_first_space() {
    assert_eq!(first_word("Hello world"), "Hello");
    assert_eq!(first_word("Hello"), "Hello");
    assert_eq!(first_word(" leading"), "");
    assert_eq!(first_word(""), "");
}

#[test]
fn longest_picks_the_longer_string() {
    let string1 = String::from("abcd");
    let string2 = "xyz";
    assert_eq!(longest(string1.as_str(), string2), "abcd");
    assert_eq!(longest("ab", "wxyz"), "wxyz");
    let novel = String::from("Call me Ishmael. Some years ago...");
    let first_sentence = first_word(novel.as_str());
    let excerpt = ImportantExcerpt { part: first_sentence };
    assert_eq!(excerpt.level(), 3);
}

#[test]
fn summaries_read_as_expected() {
    let tweet = returns_summarizable();
    assert_eq!(tweet.summarize_author(), "@horse_ebooks");
    assert_eq!(
        tweet.summarize(),
        "horse_ebooks: of course, as you probably already know, people"
    );
    let article = NewsArticle {
        headline: String::from("Penguins win the Stanley Cup Championship!"),
        location: String::from("Pittsburgh, PA, USA"),
        author: String::from("Iceburgh"),
        content: String::from("The Pittsburgh Penguins once again are the best."),
    };
    assert_eq!(
        article.summarize(),
        "Penguins win the Stanley Cup Championship!, by Iceburgh (Pittsburgh, PA, USA)"
    );
    assert_eq!(article.summarize_author(), "Iceburgh");
    assert_eq!(
        notify(&article),
        "Breaking news!: Penguins win the Stanley Cup Championship!, by Iceburgh (Pittsburgh, PA, USA)"
    );
    let pair = Pair::new(5, 10);
    let _ = pair;
}

#[test]
fn trait_methods_with_the_same_name() {
    let person = Human;
    assert_eq!(person.fly(), "*waving arms furiously*");
    assert_eq!(Pilot::fly(&person), "This is your captain speaking.");
    assert_eq!(Wizard::fly(&person), "Up!");
    assert_eq!(Dog::baby_name(), "Spot");
    assert_eq!(<Dog as Animal>::baby_name(), "puppy");
}

#[test]
fn rectangle_functions() {
    let rect = Rectangle { width: 30, height: 50 };
    assert_eq!(rect.area(), 1500);
    assert_eq!(area(&rect), 1500);
    assert!(rect.width());
    let sq = Rectangle::square(3);
    assert_eq!(sq.width, 3);
    assert_eq!(sq.height, 3);
    assert!(rect.can_hold(&Rectangle { width: 10, height: 40 }));
    assert!(!rect.can_hold(&Rectangle { width: 60, height: 45 }));
}

#[test]
fn built_user_is_active() {
    let user = build_user(
        String::from("someone@example.com"),
        String::from("some_username123"),
    );
    assert_eq!(user.email, "someone@example.com");
    assert_eq!(user.username, "some_username123");
    assert!(user.active);
    assert_eq!(user.sign_in_count, 1);
}
