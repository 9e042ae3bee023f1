//! The Twelve Days of Christmas, generated rather than written out: each
//! verse names its day and counts every gift back down to the partridge.

use vstd::prelude::*;
use vstd::string::StrSliceExecFns;
use vstd::string::StringExecFns;

verus! {

/// The gift first given on `day`.
pub open spec fn gift(day: int) -> Seq<char> {
    if day == 1 {
        "a partridge in a pear tree"@
    } else if day == 2 {
        "two turtle doves"@
    } else if day == 3 {
        "three French hens"@
    } else if day == 4 {
        "four calling birds"@
    } else if day == 5 {
        "five gold rings"@
    } else if day == 6 {
        "six geese a-laying"@
    } else if day == 7 {
        "seven swans a-swimming"@
    } else if day == 8 {
        "eight maids a-milking"@
    } else if day == 9 {
        "nine ladies dancing"@
    } else if day == 10 {
        "ten lords a-leaping"@
    } else if day == 11 {
        "eleven pipers piping"@
    } else {
        "twelve drummers drumming"@
    }
}

/// The ordinal name of `day`.
pub open spec fn ordinal(day: int) -> Seq<char> {
    if day == 1 {
        "first"@
    } else if day == 2 {
        "second"@
    } else if day == 3 {
        "third"@
    } else if day == 4 {
        "fourth"@
    } else if day == 5 {
        "fifth"@
    } else if day == 6 {
        "sixth"@
    } else if day == 7 {
        "seventh"@
    } else if day == 8 {
        "eighth"@
    } else if day == 9 {
        "ninth"@
    } else if day == 10 {
        "tenth"@
    } else if day == 11 {
        "eleventh"@
    } else {
        "twelfth"@
    }
}

/// An ASCII lowercase letter raised to its uppercase; any other character
/// unchanged.
pub open spec fn upper_char(c: char) -> char {
    if 'a' <= c && c <= 'z' {
        ((c as u8) - 32) as char
    } else {
        c
    }
}

/// `s` with its first character capitalised.
pub open spec fn upper_first(s: Seq<char>) -> Seq<char> {
    if s.len() == 0 {
        s
    } else {
        seq![upper_char(s[0])] + s.drop_first()
    }
}

/// The gift list sung on `day`: the day's own gift capitalised, then every
/// earlier gift down to day one, the last line joined with an "And".
pub open spec fn gift_list(day: int) -> Seq<char>
    decreases day,
{
    if day <= 1 {
        upper_first(gift(1))
    } else if day == 2 {
        upper_first(gift(2)) + ",\nAnd "@ + gift(1)
    } else {
        upper_first(gift(day)) + ",\n"@ + gift_list(day - 1)
    }
}

/// The whole verse for `day`: the heading naming the day, the gift list,
/// and — on every day but the last — a trailing blank line.
pub open spec fn verse(day: int) -> Seq<char> {
    "On the "@ + ordinal(day) + " day of Christmas my true love sent to me\n"@ + gift_list(day) + (
    if day != 12 {
        "\n"@
    } else {
        Seq::empty()
    })
}

/// Relies on `String::push`: appends exactly the one character.
#[verifier::external_body]
fn push_char(s: &mut String, c: char)
    ensures
        final(s)@ == old(s)@.push(c),
{
    s.push(c);
}

/// The gift first given on `day`, as a string slice.
fn gift_str(day: u32) -> (r: &'static str)
    requires
        1 <= day <= 12,
    ensures
        r@ == gift(day as int),
        r@.len() > 0,
{
    proof {
        reveal_strlit("a partridge in a pear tree");
        reveal_strlit("two turtle doves");
        reveal_strlit("three French hens");
        reveal_strlit("four calling birds");
        reveal_strlit("five gold rings");
        reveal_strlit("six geese a-laying");
        reveal_strlit("seven swans a-swimming");
        reveal_strlit("eight maids a-milking");
        reveal_strlit("nine ladies dancing");
        reveal_strlit("ten lords a-leaping");
        reveal_strlit("eleven pipers piping");
        reveal_strlit("twelve drummers drumming");
    }
    match day {
        1 => "a partridge in a pear tree",
        2 => "two turtle doves",
        3 => "three French hens",
        4 => "four calling birds",
        5 => "five gold rings",
        6 => "six geese a-laying",
        7 => "seven swans a-swimming",
        8 => "eight maids a-milking",
        9 => "nine ladies dancing",
        10 => "ten lords a-leaping",
        11 => "eleven pipers piping",
        _ => "twelve drummers drumming",
    }
}

/// The ordinal name of `day`, as a string slice.
fn ordinal_str(day: u32) -> (r: &'static str)
    requires
        1 <= day <= 12,
    ensures
        r@ == ordinal(day as int),
{
    match day {
        1 => "first",
        2 => "second",
        3 => "third",
        4 => "fourth",
        5 => "fifth",
        6 => "sixth",
        7 => "seventh",
        8 => "eighth",
        9 => "ninth",
        10 => "tenth",
        11 => "eleventh",
        _ => "twelfth",
    }
}

/// `s` with its first character capitalised (ASCII fashion).
pub fn capitalize_first_letter(s: &str) -> (r: String)
    requires
        s@.len() > 0,
    ensures
        r@ == upper_first(s@),
{
    let n = s.unicode_len();
    let c = s.get_char(0);
    let up = if 'a' <= c && c <= 'z' {
        ((c as u8) - 32) as char
    } else {
        c
    };
    let mut r = String::new();
    push_char(&mut r, up);
    r.append(s.substring_char(1, n));
    proof {
        assert(r@ =~= upper_first(s@));
    }
    r
}

/// The gift list sung on `day`, as [`gift_list`] spells it out.
pub fn generate_gift_list(day: u32) -> (r: String)
    requires
        1 <= day <= 12,
    ensures
        r@ == gift_list(day as int),
    decreases day,
{
    let this_days_gift = gift_str(day);
    if day == 1 {
        capitalize_first_letter(this_days_gift)
    } else if day == 2 {
        let mut r = capitalize_first_letter(this_days_gift);
        r.append(",\nAnd ");
        r.append(gift_str(1));
        r
    } else {
        let mut r = capitalize_first_letter(this_days_gift);
        r.append(",\n");
        let rest = generate_gift_list(day - 1);
        r.append(rest.as_str());
        r
    }
}

/// The whole verse for `day`, as [`verse`] spells it out.
pub fn generate_verse(n: u32) -> (r: String)
    requires
        1 <= n <= 12,
    ensures
        r@ == verse(n as int),
{
    let mut r = String::from_str("On the ");
    r.append(ordinal_str(n));
    r.append(" day of Christmas my true love sent to me\n");
    let list = generate_gift_list(n);
    r.append(list.as_str());
    if n != 12 {
        r.append("\n");
    }
    r
}

} // verus!
