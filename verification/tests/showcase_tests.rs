use showcase::arith::{add_numbers, factorial};
use showcase::geometry::{Point, Rectangle};
use showcase::my_module::PublicStruct;
use showcase::search::{find_item, largest};
use showcase::summary::{NewsArticle, Summary, Tweet};
use showcase::text::{calculate_length, change_string, longest};

#[test]
fn largest_number() {
    let number_list = vec![34, 50, 25, 100, 65];
    assert_eq!(*largest(&number_list), 100);
}

#[test]
fn largest_char() {
    let char_list = vec!['y', 'm', 'c', 'a'];
    assert_eq!(*largest(&char_list), 'y');
}

#[test]
fn largest_single_element() {
    let one = vec![7u64];
    assert_eq!(*largest(&one), 7);
}

#[test]
fn largest_with_duplicates_of_maximum() {
    let with_ties = vec![3, 9, 1, 9, 2];
    assert_eq!(*largest(&with_ties), 9);
}

#[test]
fn largest_of_negatives() {
    let negatives = vec![-5, -2, -9];
    assert_eq!(*largest(&negatives), -2);
}

#[test]
fn add_numbers_sums() {
    assert_eq!(add_numbers(10, 5), 15);
    assert_eq!(add_numbers(-3, 3), 0);
    assert_eq!(add_numbers(i32::MAX - 1, 1), i32::MAX);
}

#[test]
fn factorial_values() {
    assert_eq!(factorial(0), 1);
    assert_eq!(factorial(1), 1);
    assert_eq!(factorial(5), 120);
    assert_eq!(factorial(20), 2432902008176640000);
}

#[test]
fn find_item_present() {
    let numbers = vec![1, 2, 3, 4, 5];
    assert_eq!(find_item(&numbers, 3), Some(2));
}

#[test]
fn find_item_absent() {
    let numbers = vec![1, 2, 3, 4, 5];
    assert_eq!(find_item(&numbers, 6), None);
}

#[test]
fn find_item_first_of_duplicates() {
    let numbers = vec![4, 7, 4, 7];
    assert_eq!(find_item(&numbers, 7), Some(1));
}

#[test]
fn find_item_empty() {
    let numbers: Vec<i32> = vec![];
    assert_eq!(find_item(&numbers, 1), None);
}

#[test]
fn calculate_length_counts_bytes() {
    assert_eq!(calculate_length(&String::from("world")), 5);
    assert_eq!(calculate_length(&String::from("")), 0);
    // A two-byte character counts as two bytes.
    assert_eq!(calculate_length(&String::from("h\u{e9}llo")), 6);
}

#[test]
fn change_string_appends() {
    let mut s = String::from("mutable");
    change_string(&mut s);
    assert_eq!(s, "mutable changed");
}

#[test]
fn longest_picks_longer() {
    assert_eq!(longest("abcd", "xy"), "abcd");
    assert_eq!(longest("xy", "abcd"), "abcd");
}

#[test]
fn longest_tie_picks_second() {
    assert_eq!(longest("ab", "cd"), "cd");
}

#[test]
fn rectangle_area() {
    let rect = Rectangle { width: 30, height: 50 };
    assert_eq!(rect.area(), 1500);
}

#[test]
fn rectangle_can_hold() {
    let rect = Rectangle { width: 30, height: 50 };
    assert!(rect.can_hold(&Rectangle { width: 10, height: 40 }));
    assert!(!rect.can_hold(&Rectangle { width: 30, height: 40 }));
    assert!(!rect.can_hold(&Rectangle { width: 60, height: 40 }));
}

#[test]
fn rectangle_square() {
    let square = Rectangle::square(25);
    assert_eq!(square.width, 25);
    assert_eq!(square.height, 25);
    assert_eq!(square.area(), 625);
}

#[test]
fn point_accessors() {
    let p: Point<i32> = Point { x: 5, y: 10 };
    assert_eq!(*p.x(), 5);
    assert_eq!(*p.y(), 10);
}

#[test]
fn tweet_summary() {
    let tweet = Tweet {
        username: String::from("horse_ebooks"),
        content: String::from("of course, as you probably already know"),
        reply: false,
        retweet: false,
    };
    assert_eq!(tweet.summarize_author(), "@horse_ebooks");
    assert_eq!(
        tweet.summarize(),
        "@horse_ebooks: of course, as you probably already know"
    );
}

#[test]
fn article_summary_uses_default() {
    let article = NewsArticle {
        headline: String::from("Penguins win the Stanley Cup Championship!"),
        location: String::from("Pittsburgh, PA, USA"),
        author: String::from("Iceburgh"),
        content: String::from(
            "The Pittsburgh Penguins once again are the best hockey team in the NHL.",
        ),
    };
    assert_eq!(article.summarize_author(), "@Iceburgh");
    assert_eq!(article.summarize(), "(Read more from @Iceburgh...)");
}

#[test]
fn public_struct_new() {
    let s = PublicStruct::new(42);
    assert_eq!(s.field, 42);
}
