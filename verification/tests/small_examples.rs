use primer::advanced_functions::{add_one, do_twice};
use primer::beings::{Animal, Dog, Human, Wizard};
use primer::data_types;
use primer::functional_language_features::CountToFive;
use primer::generics::{largest, Pair};
use primer::guess::Guess;
use primer::gui::{Button, Dimensions, Screen, SelectBox};
use primer::integer_statistics::{median, mode};
use primer::length::{Meters, Millimeters};
use primer::lifetimes::{longest, ImportantExcerpt};
use primer::ownership::weird_calculate_length;
use primer::references::{calculate_length, change};
use primer::slices::{dumb_first_word, first_word};
use primer::traits::{returns_summarizable, NewsArticle, Summary, Tweet};
use primer::tree::Node;
use primer::vec_wrapper::Wrapper;

#[test]
fn guesses_keep_their_value() {
    assert_eq!(Guess::new(1).value(), 1);
    assert_eq!(Guess::new(50).value(), 50);
    assert_eq!(Guess::new(100).value(), 100);
}

#[test]
fn a_screen_runs_its_components() {
    let mut screen = Screen::new();
    screen.push(Box::new(SelectBox::new(
        Dimensions {
            width: 75,
            height: 10,
        },
        vec![
            String::from("Yes"),
            String::from("Maybe"),
            String::from("No"),
        ],
    )));
    screen.push(Box::new(Button::new(
        Dimensions {
            width: 50,
            height: 10,
        },
        String::from("OK"),
    )));
    screen.run();
}

#[test]
fn summaries_read_as_expected() {
    let tweet = Tweet {
        username: String::from("horse_ebooks"),
        content: String::from("of course, as you probably already know, people"),
        reply: false,
        retweet: false,
    };
    assert_eq!(tweet.summarize(), "(Read more from @horse_ebooks...)");

    let article = NewsArticle {
        headline: String::from("Penguins win the Stanley Cup Championship!"),
        location: String::from("Pittsburgh, PA, USA"),
        author: String::from("Iceburgh"),
        content: String::from("The Pittsburgh Penguins once again are the best hockey team in the NHL."),
    };
    assert_eq!(
        article.summarize(),
        "Penguins win the Stanley Cup Championship!, by Iceburgh (Pittsburgh, PA, USA)"
    );

    let something = returns_summarizable();
    assert_eq!(something.summarize(), "(Read more from @horse_ebooks...)");
}

#[test]
fn baby_names_depend_on_who_is_asked() {
    assert_eq!(Human::baby_name(), "Junior");
    assert_eq!(<Human as Animal>::baby_name(), "kid");
    assert_eq!(Dog::baby_name(), "Spot");
    assert_eq!(<Dog as Animal>::baby_name(), "puppy");
    Human.fly();
    Wizard::fly(&Human);
    Dog.fly();
    Wizard::fly(&Dog);
}

#[test]
fn lengths_add_across_units() {
    let mm = Millimeters::new(500);
    let m = Meters::new(2);
    assert_eq!(mm.plus_meters(m), Millimeters::new(2500));
}

#[test]
fn a_fresh_wrapper_is_empty() {
    let w: Wrapper<i32> = Wrapper::new();
    assert!(w.0.is_empty());
}

#[test]
fn first_words_are_found() {
    let s = String::from("Hello, world!");
    assert_eq!(dumb_first_word(&s), 6);
    assert_eq!(first_word(&s), "Hello,");
    assert_eq!(first_word("Another test string."), "Another");
    assert_eq!(first_word("oneword"), "oneword");
}

#[test]
fn the_longest_string_wins() {
    assert_eq!(longest("abcd", "xyz"), "abcd");
    assert_eq!(longest("ab", "xyz"), "xyz");
    assert_eq!(longest("tie", "tie"), "tie");
}

#[test]
fn excerpts_keep_their_part() {
    let novel = String::from("Call me Ishmael. Some years ago...");
    let first_sentence = novel.split('.').next().expect("Could not find a '.'");
    let i = ImportantExcerpt {
        part: first_sentence,
    };
    assert_eq!(i.level(), 3);
    assert_eq!(i.announce_and_return_part("gentlemen"), "Call me Ishmael");
}

#[test]
fn ownership_round_trip_keeps_the_string() {
    let s = String::from("Test");
    let (s, l) = weird_calculate_length(s);
    assert_eq!(s, "Test");
    assert_eq!(l, 4);
}

#[test]
fn borrowing_measures_and_growing_mutates() {
    let s1 = String::from("Hello, world!");
    assert_eq!(calculate_length(&s1), 13);

    let mut s2 = String::from("Hello");
    change(&mut s2);
    assert_eq!(s2, "Hello, world!");
}

#[test]
fn doing_twice_doubles_the_answer() {
    assert_eq!(do_twice(add_one, 5), 12);
    assert_eq!(add_one(41), 42);
}

#[test]
fn the_largest_number_is_found() {
    let number_list = vec![34, 50, 25, 100, 65];
    assert_eq!(*largest(&number_list), 100);
    let number_list = vec![102, 34, 6000, 89, 54, 2, 43, 8];
    assert_eq!(*largest(&number_list), 6000);
    let pair = Pair::new(10, 20);
    assert_eq!(pair.x, 10);
    assert_eq!(pair.y, 20);
}

#[test]
fn counting_to_five_stops_there() {
    let mut counter = CountToFive::new();
    let mut seen = Vec::new();
    while let Some(n) = counter.next() {
        seen.push(n);
    }
    assert_eq!(seen, vec![1, 2, 3, 4, 5]);
    assert_eq!(counter.next(), None);
}

#[test]
fn median_and_mode_of_a_sorted_list() {
    let v = vec![1, 2, 2, 3, 9];
    assert_eq!(median(&v), 2);
    assert_eq!(mode(&v), 2);
    let single = vec![7];
    assert_eq!(median(&single), 7);
    assert_eq!(mode(&single), 7);
}

#[test]
fn data_type_demonstrations_run() {
    data_types::scalar_types();
    data_types::compound_types();
}

#[test]
fn tree_nodes_point_upwards_without_owning() {
    let leaf = Node {
        value: 3,
        parent: Some(1),
        children: Vec::new(),
    };
    let branch = Node {
        value: 5,
        parent: None,
        children: vec![0],
    };
    assert_eq!(leaf.parent, Some(1));
    assert_eq!(branch.children, vec![0]);
    assert!(branch.parent.is_none());
}
