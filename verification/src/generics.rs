//! Generics, traits and lifetimes.

pub mod read_more;

use vstd::prelude::*;


verus! {

/// The largest number of a non-empty list: the first of the largest, as the list is
/// scanned for a strictly larger one.
pub fn largest(list: &[i32]) -> (r: &i32)
    requires
        list.len() > 0,
    ensures
        exists|i: int| 0 <= i < list.len() && list@[i] == *r,
        forall|i: int| 0 <= i < list.len() ==> list@[i] <= *r,
{
    let mut largest = &list[0];
    let mut i: usize = 1;
    while i < list.len()
        invariant
            1 <= i <= list.len(),
            exists|j: int| 0 <= j < i && list@[j] == *largest,
            forall|j: int| 0 <= j < i ==> list@[j] <= *largest,
        decreases list.len() - i,
    {
        let item = &list[i];
        if *item > *largest {
            largest = item;
        }
        i = i + 1;
    }
    largest
}

/// The longer of two strings, by their length in bytes; `b` when they are as long.
pub fn longest<'a>(a: &'a str, b: &'a str) -> (r: &'a str)
    ensures
        r == if a.len() > b.len() {
            a
        } else {
            b
        },
{
    if a.len() > b.len() {
        a
    } else {
        b
    }
}

/// A type that can sum itself up in a line.
pub trait Summary {
    fn summarize(&self) -> String;
}

/// A news article.
pub struct NewsArticle {
    pub headline: String,
    pub location: String,
    pub author: String,
    pub content: String,
}

/// The summary of an article: its headline, author and location.
pub open spec fn article_summary(article: &NewsArticle) -> Seq<char> {
    article.headline@ + ", by "@ + article.author@ + " ("@ + article.location@ + ")"@
}

impl Summary for NewsArticle {
    fn summarize(&self) -> (r: String)
        ensures
            r@ == article_summary(self),
    {
        let mut text = self.headline.as_str().to_owned();
        text.append(", by ");
        text.append(self.author.as_str());
        text.append(" (");
        text.append(self.location.as_str());
        text.append(")");
        text
    }
}

} // verus!
