//! A trait with a required method and a default one built on top of it,
//! implemented by two kinds of publishable item.

use vstd::prelude::*;
use vstd::string::StrSliceExecFns;
use vstd::string::StringExecFns;

verus! {

/// Something that can be summarised. Implementors must at least name
/// their author; the summary itself has a serviceable default.
pub trait Summary {
    /// A one-line summary: by default, a pointer to the author.
    fn summarize(&self) -> String {
        let mut s = String::from_str("(Read more from ");
        s.append(self.summarize_author().as_str());
        s.append("...)");
        s
    }

    /// Who wrote it.
    fn summarize_author(&self) -> String;
}

/// A news article with a headline and a byline.
pub struct NewsArticle {
    pub headline: String,
    pub location: String,
    pub author: String,
    pub content: String,
}

impl Summary for NewsArticle {
    /// Overrides the default: headline, author and location.
    fn summarize(&self) -> (r: String)
        ensures
            r@ == self.headline@ + ", by "@ + self.author@ + " ("@ + self.location@ + ")"@,
    {
        let mut s = self.headline.clone();
        s.append(", by ");
        s.append(self.author.as_str());
        s.append(" (");
        s.append(self.location.as_str());
        s.append(")");
        s
    }

    fn summarize_author(&self) -> (r: String)
        ensures
            r@ == self.author@,
    {
        self.author.clone()
    }
}

/// A tweet; the default summary serves it well.
pub struct Tweet {
    pub username: String,
    pub content: String,
    pub reply: bool,
    pub retweet: bool,
}

impl Summary for Tweet {
    fn summarize_author(&self) -> (r: String)
        ensures
            r@ == "@"@ + self.username@,
    {
        let mut s = String::from_str("@");
        s.append(self.username.as_str());
        s
    }
}

/// Some summarisable value — the concrete type is the function's secret.
pub fn returns_summarizable() -> impl Summary {
    Tweet {
        username: String::from_str("horse_ebooks"),
        content: String::from_str("of course, as you probably already know, people"),
        reply: false,
        retweet: false,
    }
}

} // verus!
