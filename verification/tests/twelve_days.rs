use primer::twelve_days::{capitalize_first_letter, generate_gift_list, generate_verse};

#[test]
fn first_verse_is_exact() {
    assert_eq!(
        generate_verse(1),
        "On the first day of Christmas my true love sent to me\n\
         A partridge in a pear tree\n"
    );
}

#[test]
fn second_verse_adds_an_and() {
    assert_eq!(
        generate_verse(2),
        "On the second day of Christmas my true love sent to me\n\
         Two turtle doves,\n\
         And a partridge in a pear tree\n"
    );
}

#[test]
fn last_verse_has_no_trailing_blank_line() {
    let verse = generate_verse(12);
    assert!(verse.starts_with(
        "On the twelfth day of Christmas my true love sent to me\nTwelve drummers drumming,\n"
    ));
    assert!(verse.ends_with("And a partridge in a pear tree"));
}

#[test]
fn gift_list_counts_back_down() {
    assert_eq!(
        generate_gift_list(3),
        "Three French hens,\nTwo turtle doves,\nAnd a partridge in a pear tree"
    );
}

#[test]
fn capitalizing_touches_only_the_first_letter() {
    assert_eq!(capitalize_first_letter("apple pie"), "Apple pie");
    assert_eq!(capitalize_first_letter("Already"), "Already");
    assert_eq!(capitalize_first_letter("4 candles"), "4 candles");
}
