//! A very basic grep: searching the lines of a text for those containing a
//! query, either respecting case or folding it away, and the configuration
//! parsed from command-line arguments. Reading the file and consulting the
//! environment are the host's business; the searching itself is here.

use vstd::prelude::*;
use vstd::string::StrSliceExecFns;

verus! {

/// Whether `needle` occurs contiguously anywhere in `hay`. The empty
/// needle occurs in everything.
pub open spec fn contains_seq(hay: Seq<char>, needle: Seq<char>) -> bool {
    exists|i: int|
        0 <= i <= hay.len() - needle.len() && #[trigger] hay.subrange(i, i + needle.len() as int)
            == needle
}

/// The position of the first line feed in `s`, or `s.len()` if there is
/// none.
pub open spec fn first_nl(s: Seq<char>) -> nat
    decreases s.len(),
{
    if s.len() == 0 {
        0
    } else if s[0] == '\n' {
        0
    } else {
        1 + first_nl(s.drop_first())
    }
}

/// A line as delivered to the caller: the text up to a line feed, with one
/// carriage return stripped from its end if the line feed followed one.
pub open spec fn strip_cr(line: Seq<char>) -> Seq<char> {
    if line.len() > 0 && line.last() == '\r' {
        line.drop_last()
    } else {
        line
    }
}

/// The lines of `s`: pieces between line feeds, each stripped of a
/// carriage return directly before the line feed; text after the last
/// line feed forms a final line kept verbatim, and no empty final line is
/// made up when the text ends with a line feed.
pub open spec fn split_lines(s: Seq<char>) -> Seq<Seq<char>>
    decreases s.len(),
{
    if s.len() == 0 {
        Seq::empty()
    } else {
        let i = first_nl(s);
        if i >= s.len() {
            seq![s]
        } else {
            seq![strip_cr(s.subrange(0, i as int))] + split_lines(
                s.subrange(i + 1 as int, s.len() as int),
            )
        }
    }
}

proof fn lemma_first_nl_at(s: Seq<char>, k: nat)
    requires
        k <= s.len(),
        forall|m: int| 0 <= m < k ==> s[m] != '\n',
        k == s.len() || s[k as int] == '\n',
    ensures
        first_nl(s) == k,
    decreases s.len(),
{
    if s.len() > 0 && s[0] != '\n' {
        assert(k >= 1);
        assert forall|m: int| 0 <= m < k - 1 implies s.drop_first()[m] != '\n' by {
            assert(s[m + 1] != '\n');
        }
        lemma_first_nl_at(s.drop_first(), (k - 1) as nat);
    }
}

/// The characters of `s`, one by one.
fn chars_of(s: &str) -> (v: Vec<char>)
    ensures
        v@ == s@,
{
    let n = s.unicode_len();
    let mut v: Vec<char> = Vec::new();
    let mut i: usize = 0;
    while i < n
        invariant
            i <= n,
            n == s@.len(),
            v@ == s@.subrange(0, i as int),
        decreases n - i,
    {
        v.push(s.get_char(i));
        proof {
            assert(v@ =~= s@.subrange(0, i + 1));
        }
        i = i + 1;
    }
    proof {
        assert(v@ =~= s@);
    }
    v
}

/// Whether `needle@` starts at position `i` of `hay@`.
fn match_at(hay: &Vec<char>, needle: &Vec<char>, i: usize) -> (b: bool)
    requires
        i + needle@.len() <= hay@.len(),
    ensures
        b == (hay@.subrange(i as int, i + needle@.len() as int) == needle@),
{
    let hay_len = hay.len();
    let mut j: usize = 0;
    while j < needle.len()
        invariant
            hay_len == hay@.len(),
            i + needle@.len() <= hay@.len(),
            j <= needle@.len(),
            forall|k: int| 0 <= k < j ==> hay@[i + k] == needle@[k],
        decreases needle@.len() - j,
    {
        if hay[i + j] != needle[j] {
            proof {
                assert(hay@.subrange(i as int, i + needle@.len() as int)[j as int] == hay@[i + j]);
            }
            return false;
        }
        j = j + 1;
    }
    proof {
        assert(hay@.subrange(i as int, i + needle@.len() as int) =~= needle@);
    }
    true
}

/// Whether `needle` occurs anywhere in `hay`: a straightforward check of
/// every starting position.
pub fn str_contains(hay: &str, needle: &str) -> (b: bool)
    ensures
        b == contains_seq(hay@, needle@),
{
    let h = chars_of(hay);
    let n = chars_of(needle);
    if n.len() == 0 {
        proof {
            assert(contains_seq(hay@, needle@)) by {
                assert(hay@.subrange(0, 0 + needle@.len() as int) =~= needle@);
            }
        }
        return true;
    }
    if n.len() > h.len() {
        return false;
    }
    let last_start = h.len() - n.len();
    let mut i: usize = 0;
    while i <= last_start
        invariant
            1 <= n@.len() <= h@.len(),
            last_start == h@.len() - n@.len(),
            last_start < usize::MAX,
            i <= last_start + 1,
            h@ == hay@,
            n@ == needle@,
            forall|k: int|
                0 <= k < i ==> #[trigger] hay@.subrange(k, k + needle@.len() as int) != needle@,
        decreases last_start - i + 1,
    {
        if match_at(&h, &n, i) {
            return true;
        }
        i = i + 1;
    }
    false
}

/// The lines of `contents`, as [`split_lines`] describes them, each
/// borrowed from `contents` itself.
pub fn lines_of<'a>(contents: &'a str) -> (r: Vec<&'a str>)
    ensures
        r@.map_values(|x: &'a str| x@) == split_lines(contents@),
{
    let n = contents.unicode_len();
    let mut r: Vec<&'a str> = Vec::new();
    let mut p: usize = 0;
    proof {
        assert(contents@.subrange(0, n as int) =~= contents@);
        assert(r@.map_values(|x: &'a str| x@) =~= Seq::<Seq<char>>::empty());
    }
    while p < n
        invariant
            p <= n,
            n == contents@.len(),
            split_lines(contents@) == r@.map_values(|x: &'a str| x@) + split_lines(
                contents@.subrange(p as int, n as int),
            ),
        decreases n - p,
    {
        let ghost rest = contents@.subrange(p as int, n as int);
        let ghost old_r = r@;
        let mut j: usize = p;
        while j < n && contents.get_char(j) != '\n'
            invariant
                p <= j <= n,
                n == contents@.len(),
                forall|m: int| p <= m < j ==> contents@[m] != '\n',
            decreases n - j,
        {
            j = j + 1;
        }
        proof {
            assert forall|m: int| 0 <= m < j - p implies rest[m] != '\n' by {
                assert(contents@[p + m] != '\n');
            }
            if j < n {
                assert(rest[j - p] == contents@[j as int]);
            }
            lemma_first_nl_at(rest, (j - p) as nat);
        }
        if j == n {
            let line = contents.substring_char(p, n);
            r.push(line);
            proof {
                assert(rest =~= contents@.subrange(p as int, n as int));
                assert(split_lines(rest) =~= seq![line@]);
                assert(r@.map_values(|x: &'a str| x@) =~= old_r.map_values(|x: &'a str| x@).push(line@));
                assert(split_lines(contents@.subrange(n as int, n as int)) =~= Seq::<
                    Seq<char>,
                >::empty());
                assert(split_lines(contents@) =~= r@.map_values(|x: &'a str| x@) + split_lines(
                    contents@.subrange(n as int, n as int),
                ));
            }
            p = n;
        } else {
            let stripped_end = if j > p && contents.get_char(j - 1) == '\r' {
                j - 1
            } else {
                j
            };
            let line = contents.substring_char(p, stripped_end);
            r.push(line);
            proof {
                let raw = rest.subrange(0, j - p);
                assert(raw =~= contents@.subrange(p as int, j as int));
                if j > p && contents@[j - 1] == '\r' {
                    assert(raw.last() == '\r');
                    assert(line@ =~= strip_cr(raw));
                } else {
                    if raw.len() > 0 {
                        assert(raw.last() == contents@[j - 1]);
                    }
                    assert(line@ =~= strip_cr(raw));
                }
                assert(rest.subrange(j - p + 1, rest.len() as int) =~= contents@.subrange(
                    j + 1 as int,
                    n as int,
                ));
                assert(split_lines(rest) == seq![strip_cr(raw)] + split_lines(
                    contents@.subrange(j + 1 as int, n as int),
                ));
                assert(r@.map_values(|x: &'a str| x@) =~= old_r.map_values(|x: &'a str| x@).push(line@));
                assert(split_lines(contents@) =~= r@.map_values(|x: &'a str| x@) + split_lines(
                    contents@.subrange(j + 1 as int, n as int),
                ));
            }
            p = j + 1;
        }
    }
    proof {
        assert(split_lines(contents@.subrange(n as int, n as int)) =~= Seq::<Seq<char>>::empty());
        assert(r@.map_values(|x: &'a str| x@) =~= split_lines(contents@));
    }
    r
}

/// What lowercasing makes of a sequence of characters. The result is a
/// function of the characters alone, so it carries a name rather than a
/// page of case-folding tables.
pub uninterp spec fn lower_of(s: Seq<char>) -> Seq<char>;

/// Relies on `str::to_lowercase`: the lowercase equivalent of the string,
/// determined by its characters alone.
#[verifier::external_body]
fn to_lowercase(s: &str) -> (r: String)
    ensures
        r@ == lower_of(s@),
{
    s.to_lowercase()
}

/// The lines of `contents` that contain `query`, in order.
pub fn search<'a>(query: &str, contents: &'a str) -> (r: Vec<&'a str>)
    ensures
        r@.map_values(|x: &'a str| x@) == split_lines(contents@).filter(
            |l: Seq<char>| contains_seq(l, query@),
        ),
{
    let ghost all = split_lines(contents@);
    let lines = lines_of(contents);
    let mut r: Vec<&'a str> = Vec::new();
    let mut i: usize = 0;
    proof {
        assert(all.subrange(0, 0) =~= Seq::<Seq<char>>::empty());
        assert(r@.map_values(|x: &'a str| x@) =~= Seq::<Seq<char>>::empty());
        reveal_with_fuel(Seq::<_>::filter, 1);
    }
    while i < lines.len()
        invariant
            i <= lines@.len(),
            lines@.map_values(|x: &'a str| x@) == all,
            r@.map_values(|x: &'a str| x@) == all.subrange(0, i as int).filter(
                |l: Seq<char>| contains_seq(l, query@),
            ),
        decreases lines@.len() - i,
    {
        let ghost old_r = r@;
        let line = lines[i];
        if str_contains(line, query) {
            r.push(line);
        }
        proof {
            let pred = |l: Seq<char>| contains_seq(l, query@);
            assert(all.subrange(0, i + 1).drop_last() =~= all.subrange(0, i as int));
            assert(all.subrange(0, i + 1).last() == line@);
            reveal_with_fuel(Seq::<_>::filter, 2);
            if pred(line@) {
                assert(r@.map_values(|x: &'a str| x@) =~= old_r.map_values(|x: &'a str| x@).push(
                    line@,
                ));
            }
        }
        i = i + 1;
    }
    proof {
        assert(all.subrange(0, lines@.len() as int) =~= all);
    }
    r
}

/// The lines of `contents` that contain `query` once both are folded to
/// lowercase, in order.
pub fn search_case_insensitive<'a>(query: &str, contents: &'a str) -> (r: Vec<&'a str>)
    ensures
        r@.map_values(|x: &'a str| x@) == split_lines(contents@).filter(
            |l: Seq<char>| contains_seq(lower_of(l), lower_of(query@)),
        ),
{
    let ghost all = split_lines(contents@);
    let query_lower = to_lowercase(query);
    let lines = lines_of(contents);
    let mut r: Vec<&'a str> = Vec::new();
    let mut i: usize = 0;
    proof {
        assert(all.subrange(0, 0) =~= Seq::<Seq<char>>::empty());
        assert(r@.map_values(|x: &'a str| x@) =~= Seq::<Seq<char>>::empty());
        reveal_with_fuel(Seq::<_>::filter, 1);
    }
    while i < lines.len()
        invariant
            i <= lines@.len(),
            query_lower@ == lower_of(query@),
            lines@.map_values(|x: &'a str| x@) == all,
            r@.map_values(|x: &'a str| x@) == all.subrange(0, i as int).filter(
                |l: Seq<char>| contains_seq(lower_of(l), lower_of(query@)),
            ),
        decreases lines@.len() - i,
    {
        let ghost old_r = r@;
        let line = lines[i];
        let line_lower = to_lowercase(line);
        if str_contains(line_lower.as_str(), query_lower.as_str()) {
            r.push(line);
        }
        proof {
            let pred = |l: Seq<char>| contains_seq(lower_of(l), lower_of(query@));
            assert(all.subrange(0, i + 1).drop_last() =~= all.subrange(0, i as int));
            assert(all.subrange(0, i + 1).last() == line@);
            reveal_with_fuel(Seq::<_>::filter, 2);
            if pred(line@) {
                assert(r@.map_values(|x: &'a str| x@) =~= old_r.map_values(|x: &'a str| x@).push(
                    line@,
                ));
            }
        }
        i = i + 1;
    }
    proof {
        assert(all.subrange(0, lines@.len() as int) =~= all);
    }
    r
}

/// The configuration for grepping: the query, the file to search, and
/// whether matching respects case.
#[derive(Debug)]
pub struct Config {
    pub query: String,
    pub filename: String,
    pub case_sensitive: bool,
}

impl PartialEq for Config {
    fn eq(&self, other: &Config) -> (r: bool) {
        self.query == other.query && self.filename == other.filename && self.case_sensitive
            == other.case_sensitive
    }
}

impl vstd::std_specs::cmp::PartialEqSpecImpl for Config {
    open spec fn obeys_eq_spec() -> bool {
        true
    }

    open spec fn eq_spec(&self, other: &Config) -> bool {
        self.query@ == other.query@ && self.filename@ == other.filename@ && self.case_sensitive
            == other.case_sensitive
    }
}

impl Config {
    /// Builds the configuration from the command-line arguments, the
    /// program name first. The query and the file name are required, in
    /// that order; a fourth argument containing `-i` (and so also the
    /// long form `--case-insensitive`) turns case sensitivity off.
    /// Whatever the environment may add is the host's business and is
    /// combined outside this function.
    pub fn new(args: Vec<String>) -> (r: Result<Config, &'static str>)
        ensures
            match r {
                Ok(c) => {
                    &&& args@.len() >= 3
                    &&& c.query@ == args@[1]@
                    &&& c.filename@ == args@[2]@
                    &&& c.case_sensitive == if args@.len() >= 4 {
                        !(contains_seq(args@[3]@, "-i"@) || contains_seq(
                            args@[3]@,
                            "--case-insensitive"@,
                        ))
                    } else {
                        true
                    }
                },
                Err(m) => {
                    &&& args@.len() < 3
                    &&& if args@.len() < 2 {
                        m@ == "Didn't get a query string"@
                    } else {
                        m@ == "Didn't get a file name"@
                    }
                },
            },
    {
        if args.len() < 2 {
            return Err("Didn't get a query string");
        }
        if args.len() < 3 {
            return Err("Didn't get a file name");
        }
        let query = args[1].clone();
        let filename = args[2].clone();
        let case_sensitive = if args.len() >= 4 {
            !(str_contains(args[3].as_str(), "-i") || str_contains(
                args[3].as_str(),
                "--case-insensitive",
            ))
        } else {
            true
        };
        Ok(Config { query, filename, case_sensitive })
    }
}

} // verus!
