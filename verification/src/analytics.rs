//! Read-side aggregation over the persisted collections: totals, the sum
//! of estimated durations, and the most frequent main topic. Ratios and
//! projections derived from these integers are the presentation layer's
//! business.

use vstd::prelude::*;

use crate::model::BookView;
use crate::store::Store;

verus! {

/// The integer aggregates of the analytics read side.
#[derive(Debug)]
pub struct AnalyticsCounts {
    pub total_books: u64,
    pub total_chapters: u64,
    pub total_duration: u64,
    pub trending_topic: String,
}

/// The sum of all chapters' estimated durations.
pub open spec fn sum_durations(cs: Seq<crate::model::ChapterView>) -> int
    decreases cs.len(),
{
    if cs.len() == 0 {
        0
    } else {
        sum_durations(cs.drop_last()) + cs.last().estimated_duration
    }
}

/// How many books carry this main topic.
pub open spec fn topic_count(bs: Seq<BookView>, t: Seq<char>) -> int {
    bs.filter(|b: BookView| b.main_topic == Some(t)).len() as int
}

/// Does any book carry a main topic at all?
pub open spec fn has_topic(bs: Seq<BookView>) -> bool {
    exists|i: int| 0 <= i < bs.len() && bs[i].main_topic is Some
}

/// Appending a book raises its own topic's count by one and no other.
proof fn lemma_topic_count_push(bs: Seq<BookView>, b: BookView, t: Seq<char>)
    ensures
        topic_count(bs.push(b), t) == topic_count(bs, t) + (if b.main_topic == Some(t) {
            1int
        } else {
            0int
        }),
{
    broadcast use Seq::lemma_filter_push;

}

/// A topic's count never exceeds the number of books.
proof fn lemma_topic_count_bound(bs: Seq<BookView>, t: Seq<char>)
    ensures
        0 <= topic_count(bs, t) <= bs.len(),
{
    broadcast use Seq::lemma_filter_len;

}

/// Count the books whose main topic is `t`.
fn count_topic(store: &Store, t: &String) -> (c: usize)
    ensures
        c as int == topic_count(store@.books, t@),
{
    let n = store.books.len();
    let mut c: usize = 0;
    let mut j: usize = 0;
    proof {
        assert(store@.books.subrange(0, 0) =~= Seq::<BookView>::empty());
        assert(topic_count(store@.books.subrange(0, 0), t@) == 0);
    }
    while j < n
        invariant
            0 <= j <= n,
            n == store.books@.len(),
            0 <= c <= j,
            c as int == topic_count(store@.books.subrange(0, j as int), t@),
        decreases n - j,
    {
        assert(store@.books[j as int] == store.books@[j as int]@);
        let ghost pre = store@.books.subrange(0, j as int);
        proof {
            assert(store@.books.subrange(0, j + 1) =~= pre.push(store@.books[j as int]));
            lemma_topic_count_push(pre, store@.books[j as int], t@);
            lemma_topic_count_bound(pre, t@);
        }
        match &store.books[j].main_topic {
            Some(mt) => {
                assert(store@.books[j as int].main_topic == Some(mt@));
                if *mt == *t {
                    assert(mt@ == t@);
                    c += 1;
                } else {
                    assert(store@.books[j as int].main_topic != Some(t@));
                }
            },
            None => {
                assert(store@.books[j as int].main_topic is None);
            },
        }
        j += 1;
    }
    proof {
        assert(store@.books.subrange(0, n as int) =~= store@.books);
    }
    c
}

/// Compute the analytics aggregates: the collection sizes, the saturating
/// sum of estimated durations, and a most frequent main topic (`Unknown`
/// when no book carries one).
pub fn analytics_counts(store: &Store) -> (r: AnalyticsCounts)
    ensures
        r.total_books as int == store@.books.len(),
        r.total_chapters as int == store@.chapters.len(),
        r.total_duration as int == if sum_durations(store@.chapters) <= u64::MAX as int {
            sum_durations(store@.chapters)
        } else {
            u64::MAX as int
        },
        !has_topic(store@.books) ==> r.trending_topic@ == "Unknown"@,
        has_topic(store@.books) ==> (exists|i: int|
            0 <= i < store@.books.len() && store@.books[i].main_topic == Some(r.trending_topic@))
            && (forall|i: int|
            0 <= i < store@.books.len() && store@.books[i].main_topic is Some ==> topic_count(
                store@.books,
                store@.books[i].main_topic.unwrap(),
            ) <= topic_count(store@.books, r.trending_topic@)),
{
    let total_books = store.books.len() as u64;
    let total_chapters = store.chapters.len() as u64;
    let nc = store.chapters.len();
    let mut total_duration: u64 = 0;
    let mut j: usize = 0;
    proof {
        assert(store@.chapters.subrange(0, 0) =~= Seq::<crate::model::ChapterView>::empty());
    }
    while j < nc
        invariant
            0 <= j <= nc,
            nc == store.chapters@.len(),
            total_duration as int == if sum_durations(store@.chapters.subrange(0, j as int))
                <= u64::MAX as int {
                sum_durations(store@.chapters.subrange(0, j as int))
            } else {
                u64::MAX as int
            },
        decreases nc - j,
    {
        assert(store@.chapters[j as int] == store.chapters@[j as int]@);
        let ghost pre = store@.chapters.subrange(0, j as int);
        proof {
            assert(store@.chapters.subrange(0, j + 1) =~= pre.push(store@.chapters[j as int]));
            assert(store@.chapters.subrange(0, j + 1).drop_last() =~= pre);
        }
        let d = store.chapters[j].estimated_duration;
        if total_duration > u64::MAX - d {
            total_duration = u64::MAX;
        } else {
            total_duration = total_duration + d;
        }
        j += 1;
    }
    proof {
        assert(store@.chapters.subrange(0, nc as int) =~= store@.chapters);
    }
    let nb = store.books.len();
    let mut best: Option<String> = None;
    let mut best_count: usize = 0;
    let mut i: usize = 0;
    while i < nb
        invariant
            0 <= i <= nb,
            nb == store.books@.len(),
            best is None ==> forall|k: int|
                0 <= k < i ==> !((#[trigger] store@.books[k]).main_topic is Some),
            best is Some ==> (exists|k: int|
                0 <= k < store@.books.len() && (#[trigger] store@.books[k]).main_topic == Some(
                    best->Some_0@,
                )) && best_count as int == topic_count(store@.books, best->Some_0@) && forall|
                k: int,
            |
                0 <= k < i && (#[trigger] store@.books[k]).main_topic is Some ==> topic_count(
                    store@.books,
                    store@.books[k].main_topic.unwrap(),
                ) <= best_count as int,
        decreases nb - i,
    {
        assert(store@.books[i as int] == store.books@[i as int]@);
        match &store.books[i].main_topic {
            Some(mt) => {
                let c = count_topic(store, mt);
                if best.is_none() || c > best_count {
                    best = Some(mt.clone());
                    best_count = c;
                }
            },
            None => {},
        }
        i += 1;
    }
    let trending_topic = match best {
        Some(t) => t,
        None => {
            proof {
                assert(!has_topic(store@.books));
            }
            "Unknown".to_owned()
        },
    };
    AnalyticsCounts { total_books, total_chapters, total_duration, trending_topic }
}

} // verus!
