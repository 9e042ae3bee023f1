use primer::minigrep::{lines_of, search, search_case_insensitive, str_contains, Config};

#[test]
fn not_enough_arguments() {
    assert_eq!(
        Config::new(vec![String::from("dummy")]),
        Err("Didn't get a query string")
    );
    assert_eq!(
        Config::new(vec![String::from("dummy"), String::from("dummy")]),
        Err("Didn't get a file name")
    );
}

#[test]
fn case_insensitive_config() {
    let args = vec![
        String::from("program-name"),
        String::from("frog"),
        String::from("poem.txt"),
        String::from("--case-insensitive"),
    ];

    let expected_config = Config {
        query: String::from("frog"),
        filename: String::from("poem.txt"),
        case_sensitive: false,
    };

    assert_eq!(Config::new(args), Ok(expected_config));
}

#[test]
fn case_insensitive_config_short_form() {
    let args = vec![
        String::from("program-name"),
        String::from("frog"),
        String::from("poem.txt"),
        String::from("-i"),
    ];

    let expected_config = Config {
        query: String::from("frog"),
        filename: String::from("poem.txt"),
        case_sensitive: false,
    };

    assert_eq!(Config::new(args), Ok(expected_config));
}

#[test]
fn plain_config_is_case_sensitive() {
    let args = vec![
        String::from("program-name"),
        String::from("frog"),
        String::from("poem.txt"),
    ];
    let config = Config::new(args).unwrap();
    assert!(config.case_sensitive);
}

#[test]
fn one_result() {
    let query = "duct";
    let contents = "Rust:\nsafe, fast, productive.\nPick three.";

    assert_eq!(vec!["safe, fast, productive."], search(query, contents));
}

#[test]
fn search_is_case_sensitive() {
    let query = "rUsT";
    let contents = "Rust:\nsafe, fast, productive.\nTrust me.";

    assert_eq!(Vec::<&str>::new(), search(query, contents));
}

#[test]
fn search_folds_case_away() {
    let query = "rUsT";
    let contents = "Rust:\nsafe, fast, productive.\nTrust me.";

    assert_eq!(
        vec!["Rust:", "Trust me."],
        search_case_insensitive(query, contents)
    );
}

#[test]
fn lines_split_like_std() {
    assert_eq!(lines_of(""), Vec::<&str>::new());
    assert_eq!(lines_of("\n"), vec![""]);
    assert_eq!(lines_of("a\nb"), vec!["a", "b"]);
    assert_eq!(lines_of("a\r\nb\n"), vec!["a", "b"]);
    assert_eq!(lines_of("no newline"), vec!["no newline"]);
    assert_eq!(lines_of("a\r"), vec!["a\r"]);
    let text = "first\nsecond\nthird";
    assert_eq!(lines_of(text), text.lines().collect::<Vec<&str>>());
    let text = "mixed\r\nendings\rkept\n\nblank";
    assert_eq!(lines_of(text), text.lines().collect::<Vec<&str>>());
}

#[test]
fn containment_matches_std() {
    assert!(str_contains("haystack", "stack"));
    assert!(str_contains("haystack", ""));
    assert!(!str_contains("haystack", "needle"));
    assert!(!str_contains("hay", "haystack"));
}
