//! Summaries of things one can read, and what to do with them.
use std::fmt::{Debug, Display};
use vstd::laws_cmp::obeys_partial_cmp_spec_properties;
use vstd::prelude::*;
use vstd::std_specs::cmp::{PartialOrdIs, PartialOrdSpec};
use vstd::string::*;

verus! {

/// Something that can be summed up in a line.
pub trait Summary {
    /// Writes the summary out.
    fn summarize(&self) -> String;
}

/// A news article.
pub struct NewsArticle {
    pub headline: String,
    pub location: String,
    pub author: String,
    pub content: String,
}

impl NewsArticle {
    /// The summary of the article: the headline, then the author, then the
    /// place in brackets.
    pub open spec fn summary(&self) -> Seq<char> {
        self.headline@ + ", by "@ + self.author@ + " ("@ + self.location@ + ")"@
    }
}

impl Summary for NewsArticle {
    fn summarize(&self) -> (line: String)
        ensures
            line@ == self.summary(),
    {
        let mut line = self.headline.clone();
        line.append(", by ");
        line.append(self.author.as_str());
        line.append(" (");
        line.append(self.location.as_str());
        line.append(")");
        line
    }
}

/// A short message by a user.
pub struct Tweet {
    pub username: String,
    pub content: String,
    pub reply: bool,
    pub retweet: bool,
}

impl Tweet {
    /// The summary of the message: the user's name, a colon, and the text.
    pub open spec fn summary(&self) -> Seq<char> {
        self.username@ + ": "@ + self.content@
    }

    /// The user's name behind an `@`.
    pub open spec fn author_line(&self) -> Seq<char> {
        "@"@ + self.username@
    }
}

impl Summary for Tweet {
    fn summarize(&self) -> (line: String)
        ensures
            line@ == self.summary(),
    {
        let mut line = self.username.clone();
        line.append(": ");
        line.append(self.content.as_str());
        line
    }
}

/// Something whose summary defaults to an invitation to read on.
pub trait Summary2 {
    /// Writes the summary out. Unless a type says otherwise, it is
    /// `(Read more...)`.
    fn summarize_default(&self) -> (line: String)
        default_ensures
            line@ == "(Read more...)"@,
    {
        String::from_str("(Read more...)")
    }
}

impl Summary2 for NewsArticle {

}

/// Something whose summary is built from the name of its author.
pub trait Summary3 {
    /// Writes the author's name out.
    fn summarize_author(&self) -> String;

    /// Writes the summary out. Unless a type says otherwise, it is an
    /// invitation to read more from the author, named as
    /// [`Self::summarize_author`] writes the name.
    fn summarize3(&self) -> (line: String)
        default_ensures
            exists|author: String| #[trigger]
                call_ensures(Self::summarize_author, (self,), author) && line@
                    == "(Read more from "@ + author@ + "...)"@,
    {
        let author = self.summarize_author();
        let mut line = String::from_str("(Read more from ");
        line.append(author.as_str());
        line.append("...)");
        line
    }
}

impl Summary3 for Tweet {
    fn summarize_author(&self) -> (author: String)
        ensures
            author@ == self.author_line(),
    {
        let mut author = String::from_str("@");
        author.append(self.username.as_str());
        author
    }
}

/// `announcement` is what [`notify`] makes of a summary that `item` can
/// write: that summary behind `Breaking news! `.
pub open spec fn announces<T: Summary>(item: &T, announcement: Seq<char>) -> bool {
    exists|line: String| #[trigger]
        call_ensures(T::summarize, (item,), line) && announcement == "Breaking news! "@ + line@
}

/// The announcement of `item`: its summary behind `Breaking news! `.
pub fn notify(item: &impl Summary) -> (announcement: String)
    ensures
        announces(item, announcement@),
{
    let line = item.summarize();
    let mut announcement = String::from_str("Breaking news! ");
    announcement.append(line.as_str());
    announcement
}

/// As [`notify`], with the bound written out.
pub fn notify2<T: Summary>(item: &T) -> (announcement: String)
    ensures
        announces(item, announcement@),
{
    let line = item.summarize();
    let mut announcement = String::from_str("Breaking news! ");
    announcement.append(line.as_str());
    announcement
}

/// Takes two items, each of a type of its own. Does nothing with them.
#[allow(unused_variables)]
pub fn notify3(item1: &impl Summary, item2: &impl Summary) {
}

/// Takes two items of one type. Does nothing with them.
#[allow(unused_variables)]
pub fn notify4<T: Summary>(item1: &T, item2: &T) {
}

/// Takes an item that can be summed up and shown. Does nothing with it.
#[allow(unused_variables)]
pub fn notify5(item: &(impl Summary + Display)) {
}

/// As [`notify5`], with the bounds written out.
#[allow(unused_variables)]
pub fn notify6<T: Summary + Display>(item: &T) {
}

/// Takes two references whose types meet two sets of bounds. Returns 3.
#[allow(unused_variables)]
pub fn some_function<T: Display + Clone, U: Clone + Debug>(t: &T, u: &U) -> (three: i32)
    ensures
        three == 3,
{
    3
}

/// As [`some_function`], with the bounds in a `where` clause.
#[allow(unused_variables)]
pub fn some_function2<T, U>(t: &T, u: &U) -> (three: i32)
    where
        T: Display + Clone,
        U: Clone + Debug,
    ensures
        three == 3,
{
    3
}

/// The summary of the message that [`returns_summarizable`] hands out.
pub open spec fn sample_summary() -> Seq<char> {
    "horse_ebooks"@ + ": "@ + "of course, as you probably already know, people"@
}

/// Whatever summary `item` writes, it is `text`.
pub open spec fn summarizes_as<T: Summary>(item: &T, text: Seq<char>) -> bool {
    forall|line: String| call_ensures(T::summarize, (item,), line) ==> line@ == text
}

/// Hands out something that can be summed up, without saying what it is.
/// Its summary is [`sample_summary`].
pub fn returns_summarizable() -> (item: impl Summary)
    ensures
        summarizes_as(&item, sample_summary()),
{
    Tweet {
        username: String::from_str("horse_ebooks"),
        content: String::from_str("of course, as you probably already know, people"),
        reply: false,
        retweet: false,
    }
}

/// What a scan of `items` from left to right keeps when it starts out with
/// `start` and replaces what it has whenever the next item is greater.
pub open spec fn scan_largest<T: PartialOrd>(start: T, items: Seq<T>) -> T
    decreases items.len(),
{
    if items.len() == 0 {
        start
    } else {
        let best = scan_largest(start, items.drop_last());
        if items.last().is_gt(&best) {
            items.last()
        } else {
            best
        }
    }
}

/// Where being greater is a strict order on `T`, the scan keeps an item that
/// none exceeds: neither the one it started out with nor any that it met.
pub proof fn lemma_scan_largest_is_not_exceeded<T: PartialOrd>(start: T, items: Seq<T>, i: int)
    requires
        obeys_partial_cmp_spec_properties::<T>(),
        0 <= i < items.len(),
    ensures
        !start.is_gt(&scan_largest(start, items)),
        !items[i].is_gt(&scan_largest(start, items)),
    decreases items.len(),
{
    reveal(obeys_partial_cmp_spec_properties);
    let front = items.drop_last();
    let last = items.last();
    let before = scan_largest(start, front);
    let kept = scan_largest(start, items);
    assert(!last.is_gt(&last));
    if front.len() == 0 {
        assert(before == start);
        assert(!start.is_gt(&start));
        assert(items[i] == last);
        if kept != before {
            assert(kept.is_gt(&before));
            if start.is_gt(&kept) {
                assert(start.is_gt(&before));
            }
        }
    } else {
        lemma_scan_largest_is_not_exceeded(start, front, 0);
        if kept != before {
            assert(kept.is_gt(&before));
            if start.is_gt(&kept) {
                assert(start.is_gt(&before));
            }
        }
        if i < front.len() {
            lemma_scan_largest_is_not_exceeded(start, front, i);
            assert(front[i] == items[i]);
            if kept != before {
                if items[i].is_gt(&kept) {
                    assert(items[i].is_gt(&before));
                }
            }
        } else {
            assert(items[i] == last);
        }
    }
}

/// The first `n` items of `items`.
spec fn first_items<T>(items: Seq<T>, n: usize) -> Seq<T> {
    items.take(n as int)
}

/// The number after `n`.
spec fn add_one(n: usize) -> usize {
    (n + 1) as usize
}

/// The largest item of a list that is not empty: the one that a scan from
/// left to right keeps. Where being greater is a strict order on `T`, no item
/// of the list is greater than it.
pub fn largest<T: PartialOrd + Copy>(list: &[T]) -> (largest: T)
    requires
        list@.len() > 0,
    ensures
        list@.contains(largest),
        T::obeys_partial_cmp_spec() ==> largest == scan_largest(list@[0], list@),
        T::obeys_partial_cmp_spec() && obeys_partial_cmp_spec_properties::<T>() ==> forall|
            i: int,
        | 0 <= i < list@.len() ==> !(#[trigger] list@[i]).is_gt(&largest),
{
    let mut largest = list[0];
    let mut i: usize = 0;
    while i < list.len()
        invariant
            i <= list@.len(),
            list@.len() > 0,
            list@.contains(largest),
            T::obeys_partial_cmp_spec() ==> largest == scan_largest(
                list@[0],
                first_items(list@, i),
            ),
        decreases list@.len() - i,
    {
        let item = list[i];
        proof {
            assert(first_items(list@, add_one(i)).drop_last() =~= first_items(list@, i));
        }
        if item > largest {
            largest = item;
        }
        i += 1;
    }
    proof {
        assert(first_items(list@, i) =~= list@);
        if T::obeys_partial_cmp_spec() && obeys_partial_cmp_spec_properties::<T>() {
            assert forall|k: int| 0 <= k < list@.len() implies !(#[trigger] list@[k]).is_gt(
                &largest,
            ) by {
                lemma_scan_largest_is_not_exceeded(list@[0], list@, k);
            }
        }
    }
    largest
}

/// Two values of one type.
pub struct Pair<T> {
    pub x: T,
    pub y: T,
}

impl<T> Pair<T> {
    /// Puts `x` and `y` together.
    pub fn new(x: T, y: T) -> (pair: Self)
        ensures
            pair.x == x,
            pair.y == y,
    {
        Self { x, y }
    }
}

impl<T: Display + PartialOrd> Pair<T> {
    /// Whether `x` is the member to show as the largest: it is when it is
    /// greater than `y` or equal to it.
    pub fn x_is_largest(&self) -> (x_first: bool)
        ensures
            T::obeys_partial_cmp_spec() ==> x_first == self.x.is_ge(&self.y),
    {
        self.x >= self.y
    }
}

} // verus!
