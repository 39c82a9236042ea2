use vstd::prelude::*;
use vstd::string::StringExecFns;

verus! {

/// An article of a newsletter.
pub struct NewsLetter {
    pub headline: String,
    pub location: String,
    pub author: String,
    pub content: String,
}

/// A short public message.
pub struct Tweet {
    pub username: String,
    pub content: String,
    pub reply: bool,
    pub retweet: bool,
}

/// What can be summed up in a line that names its author.
pub trait Summary {
    /// How the author is named.
    spec fn author_line(&self) -> Seq<char>;

    /// The line that invites to read on, built around the author's name.
    fn summarize(&self) -> (r: String)
        ensures
            r@ == "Read more from "@ + self.author_line() + "..."@,
    {
        let mut r = String::from_str("Read more from ");
        let author = self.summarize_author();
        r.append(author.as_str());
        r.append("...");
        r
    }

    /// The author's name as it is shown.
    fn summarize_author(&self) -> (r: String)
        ensures
            r@ == self.author_line(),
    ;
}

impl Summary for Tweet {
    open spec fn author_line(&self) -> Seq<char> {
        "@"@ + self.username@
    }

    fn summarize_author(&self) -> (r: String) {
        let mut r = String::from_str("@");
        r.append(self.username.as_str());
        r
    }
}

impl Summary for NewsLetter {
    open spec fn author_line(&self) -> Seq<char> {
        "distinguised author "@ + self.author@
    }

    fn summarize_author(&self) -> (r: String) {
        let mut r = String::from_str("distinguised author ");
        r.append(self.author.as_str());
        r
    }
}

/// A ready-made value that can be summed up: a tweet by `user`.
pub fn returns_summarizable() -> (t: impl Summary)
    ensures
        t.author_line() == "@"@ + "user"@,
{
    Tweet {
        username: String::from_str("user"),
        content: String::from_str("Another Banger."),
        retweet: false,
        reply: false,
    }
}

} // verus!
