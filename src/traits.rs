//! Items that can describe themselves in one line.
use vstd::prelude::*;
use vstd::string::StringExecFns;

verus! {

/// The text of the default summary: a pointer to more from `author`.
pub open spec fn read_more_from(author: Seq<char>) -> Seq<char> {
    "(Read more from "@ + author + "...)"@
}

/// Something that can name its author and sum itself up in one line.
pub trait Summary {
    /// The author's handle, as `summarize_author` gives it.
    spec fn author_text(&self) -> Seq<char>;

    /// The one-line summary, as `summarize` gives it.
    spec fn summary_text(&self) -> Seq<char>;

    fn summarize_author(&self) -> (r: String)
        ensures
            r@ == self.author_text(),
    ;

    fn summarize(&self) -> (r: String)
        ensures
            r@ == self.summary_text(),
    ;
}

/// The default summary of an item: a pointer to more from its author.
pub fn summarize_by_author<S: Summary>(item: &S) -> (r: String)
    ensures
        r@ == read_more_from(item.author_text()),
{
    let mut r = String::from_str("(Read more from ");
    let author = item.summarize_author();
    r.append(author.as_str());
    r.append("...)");
    proof {
        reveal_strlit("(Read more from ");
        reveal_strlit("...)");
    }
    r
}

pub struct NewsArticle {
    pub headline: String,
    pub location: String,
    pub author: String,
    pub content: String,
}

impl Summary for NewsArticle {
    open spec fn author_text(&self) -> Seq<char> {
        "@"@ + self.author@
    }

    open spec fn summary_text(&self) -> Seq<char> {
        self.headline@ + ", by "@ + self.author@ + " ("@ + self.location@ + ")"@
    }

    fn summarize_author(&self) -> (r: String) {
        let mut r = String::from_str("@");
        r.append(self.author.as_str());
        r
    }

    fn summarize(&self) -> (r: String) {
        let mut r = self.headline.clone();
        r.append(", by ");
        r.append(self.author.as_str());
        r.append(" (");
        r.append(self.location.as_str());
        r.append(")");
        r
    }
}

pub struct Tweet {
    pub username: String,
    pub content: String,
    pub reply: bool,
    pub retweet: bool,
}

impl Summary for Tweet {
    open spec fn author_text(&self) -> Seq<char> {
        "@"@ + self.username@
    }

    open spec fn summary_text(&self) -> Seq<char> {
        self.username@ + ": "@ + self.content@
    }

    fn summarize_author(&self) -> (r: String) {
        let mut r = String::from_str("@");
        r.append(self.username.as_str());
        r
    }

    fn summarize(&self) -> (r: String) {
        let mut r = self.username.clone();
        r.append(": ");
        r.append(self.content.as_str());
        r
    }
}

/// A sample tweet, as something that can be summarised.
pub fn returns_summarizable() -> (t: impl Summary)
    ensures
        t.author_text() == "@horse_ebooks"@,
        t.summary_text() == "horse_ebooks: of course, as you probably already know, people"@,
{
    proof {
        reveal_strlit("@horse_ebooks");
        reveal_strlit("@");
        reveal_strlit("horse_ebooks");
        reveal_strlit("horse_ebooks: of course, as you probably already know, people");
        reveal_strlit(": ");
        reveal_strlit("of course, as you probably already know, people");
    }
    Tweet {
        username: String::from_str("horse_ebooks"),
        content: String::from_str("of course, as you probably already know, people"),
        reply: false,
        retweet: false,
    }
}

} // verus!
