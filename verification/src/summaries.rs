//! The `Summary` trait: shared behaviour for things that can be summarized.

use vstd::prelude::*;
use vstd::string::StringExecFns;

verus! {

/// Functionality applicable to any type that summarizes something.
pub trait Summary {
    /// Who wrote the item.
    spec fn spec_author(&self) -> Seq<char>;

    /// The one-line summary of the item.
    spec fn spec_summary(&self) -> Seq<char>;

    /// The author, as text.
    fn summarize_author(&self) -> (r: String)
        ensures
            r@ == self.spec_author(),
    ;

    /// The summary, as text.
    fn summarize(&self) -> (r: String)
        ensures
            r@ == self.spec_summary(),
    ;
}

/// A news article, summarized by headline, author, and location.
pub struct NewsArticle {
    pub headline: String,
    pub location: String,
    pub author: String,
    pub content: String,
}

impl Summary for NewsArticle {
    open spec fn spec_author(&self) -> Seq<char> {
        self.author@
    }

    open spec fn spec_summary(&self) -> Seq<char> {
        self.headline@ + ", by "@ + self.author@ + " ("@ + self.location@ + ")"@
    }

    fn summarize_author(&self) -> (r: String) {
        self.author.clone()
    }

    fn summarize(&self) -> (r: String) {
        let mut s = self.headline.clone();
        s.append(", by ");
        s.append(self.author.as_str());
        s.append(" (");
        s.append(self.location.as_str());
        s.append(")");
        s
    }
}

/// A tweet, summarized by its user and content.
pub struct Tweet {
    pub username: String,
    pub content: String,
    pub reply: bool,
    pub retweet: bool,
}

impl Summary for Tweet {
    open spec fn spec_author(&self) -> Seq<char> {
        "@"@ + self.username@
    }

    open spec fn spec_summary(&self) -> Seq<char> {
        self.username@ + ": "@ + self.content@
    }

    fn summarize_author(&self) -> (r: String) {
        let mut s = String::from_str("@");
        s.append(self.username.as_str());
        s
    }

    fn summarize(&self) -> (r: String) {
        let mut s = self.username.clone();
        s.append(": ");
        s.append(self.content.as_str());
        s
    }
}

/// The breaking-news banner around any summarizable item.
pub fn notify<T: Summary>(item: &T) -> (r: String)
    ensures
        r@ == "Breaking news!: "@ + item.spec_summary(),
{
    let mut s = String::from_str("Breaking news!: ");
    let body = item.summarize();
    s.append(body.as_str());
    s
}

/// Some summarizable item to hand out.
pub fn returns_summarizable() -> (r: Tweet)
    ensures
        r.spec_summary() == "horse_ebooks"@ + ": "@
            + "of course, as you probably already know, people"@,
{
    Tweet {
        username: String::from_str("horse_ebooks"),
        content: String::from_str("of course, as you probably already know, people"),
        reply: false,
        retweet: false,
    }
}

/// Two unrelated generic parameters, each with its own bounds.
pub fn some_func<T: Clone, U: Clone>(_t: &T, _u: &U) -> (r: i32)
    ensures
        r == 2,
{
    1 + 1
}

/// A pair of two values of one type.
pub struct Pair<T> {
    x: T,
    y: T,
}

impl<T> Pair<T> {
    /// The first component.
    pub closed spec fn spec_x(&self) -> T {
        self.x
    }

    /// The second component.
    pub closed spec fn spec_y(&self) -> T {
        self.y
    }

    /// A pair of the two given values, in order.
    pub fn new(x: T, y: T) -> (r: Self)
        ensures
            r.spec_x() == x,
            r.spec_y() == y,
    {
        Self { x, y }
    }
}

} // verus!
