//! Summarizable items: a trait with a default one-line summary, and two
//! kinds of item that provide it.

use vstd::prelude::*;
use vstd::string::StringExecFns;

verus! {

/// Defines summarizable behavior.
pub trait Summary {
    /// The characters that name the item's author.
    spec fn spec_author(&self) -> Seq<char>;

    /// Names the item's author.
    fn summarize_author(&self) -> (r: String)
        ensures
            r@ == self.spec_author(),
    ;

    /// One line about the item; by default a pointer to the author.
    fn summarize(&self) -> (r: String)
        default_ensures
            r@ == "(Read more from "@ + self.spec_author() + "...)"@,
    {
        let mut line = String::from_str("(Read more from ");
        let author = self.summarize_author();
        line.append(author.as_str());
        line.append("...)");
        line
    }
}

/// A published article.
pub struct NewsArticle {
    pub headline: String,
    pub location: String,
    pub author: String,
    pub content: String,
}

impl Summary for NewsArticle {
    open spec fn spec_author(&self) -> Seq<char> {
        "@"@ + self.author@
    }

    fn summarize_author(&self) -> (r: String) {
        let mut handle = String::from_str("@");
        handle.append(self.author.as_str());
        handle
    }
}

/// A short post by one user.
pub struct Tweet {
    pub username: String,
    pub content: String,
    pub reply: bool,
    pub retweet: bool,
}

impl Summary for Tweet {
    open spec fn spec_author(&self) -> Seq<char> {
        "@"@ + self.username@
    }

    fn summarize_author(&self) -> (r: String) {
        let mut handle = String::from_str("@");
        handle.append(self.username.as_str());
        handle
    }

    /// A tweet's summary is the author followed by the whole content.
    fn summarize(&self) -> (r: String)
        ensures
            r@ == self.spec_author() + ": "@ + self.content@,
    {
        let mut line = self.summarize_author();
        line.append(": ");
        line.append(self.content.as_str());
        line
    }
}

} // verus!
