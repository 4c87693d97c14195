use vstd::prelude::*;
use vstd::string::StringExecFns;
use std::fmt::{Debug, Display};

verus! {

/// A value that can describe itself in a short line of text.
pub trait Summary {
    /// Who wrote the item.
    spec fn author(&self) -> Seq<char>;

    fn summarize_author(&self) -> (r: String)
        ensures
            r@ == self.author(),
    ;

    /// A teaser line that points at the author.
    fn summarize(&self) -> (r: String)
        ensures
            r@ == teaser(self.author()),
    {
        let author = self.summarize_author();
        let mut r = String::from_str("(Read more from ");
        r.append(author.as_str());
        r.append("...)");
        r
    }
}

/// The text of a teaser for an item by `author`.
pub open spec fn teaser(author: Seq<char>) -> Seq<char> {
    "(Read more from "@ + author + "...)"@
}

/// A short message posted under a user name.
pub struct Tweet {
    pub username: String,
    pub content: String,
    pub reply: bool,
    pub retweet: bool,
}

impl Summary for Tweet {
    open spec fn author(&self) -> Seq<char> {
        "@"@ + self.username@
    }

    fn summarize_author(&self) -> (r: String) {
        let mut r = String::from_str("@");
        r.append(self.username.as_str());
        r
    }
}

/// Accepts any two cloneable values, one printable and one debuggable, and
/// answers zero.
pub fn where_clause<T, U>(t: T, u: U) -> (r: i32)
    where
        T: Display + Clone,
        U: Clone + Debug,
    ensures
        r == 0,
{
    0
}

/// Two values of one type.
pub struct Pair<T> {
    pub x: T,
    pub y: T,
}

impl<T> Pair<T> {
    pub fn new(x: T, y: T) -> (r: Self)
        ensures
            r.x == x,
            r.y == y,
    {
        Self { x, y }
    }
}

/// The largest element of a non-empty list.
pub fn largest(list: &[i32]) -> (r: &i32)
    requires
        list@.len() > 0,
    ensures
        list@.contains(*r),
        forall|i: int| 0 <= i < list@.len() ==> list@[i] <= *r,
{
    let mut best: usize = 0;
    let mut i: usize = 1;
    while i < list.len()
        invariant
            0 < i <= list@.len(),
            best < i,
            forall|j: int| 0 <= j < i ==> list@[j] <= list@[best as int],
        decreases list@.len() - i,
    {
        if list[i] > list[best] {
            best = i;
        }
        i = i + 1;
    }
    &list[best]
}

/// Of two strings, the one with more bytes; the second on a tie.
pub fn longest<'a>(x: &'a str, y: &'a str) -> (r: &'a str)
    ensures
        r@ == (if x.len() > y.len() { x@ } else { y@ }),
{
    if x.len() > y.len() {
        x
    } else {
        y
    }
}

} // verus!
