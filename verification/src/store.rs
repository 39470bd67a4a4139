//! The document store the pipeline persists into, modeled as one record
//! sequence per collection. Each collection rejects a duplicate identity at
//! insertion, so ids are unique within a collection; batch insertion is
//! all-or-nothing. Lookups and updates go by id.

use vstd::prelude::*;

use crate::error::{Error, ErrorKind};
use crate::model::{
    book_views, chapter_views, conversation_views, lemma_book_views_push,
    lemma_chapter_views_push, lemma_conversation_views_push, lemma_message_views_push,
    message_views, Book, BookView, Chapter, ChapterView, Conversation, ConversationView, Message,
    MessageView,
};
use crate::oid::ObjectId;

verus! {

/// Does the collection hold a book with this id?
pub open spec fn spec_has_book(bs: Seq<BookView>, id: ObjectId) -> bool {
    exists|i: int| 0 <= i < bs.len() && bs[i].id == id
}

/// Does the collection hold a chapter with this id?
pub open spec fn spec_has_chapter(cs: Seq<ChapterView>, id: ObjectId) -> bool {
    exists|i: int| 0 <= i < cs.len() && cs[i].id == id
}

/// Does the collection hold a conversation with this id?
pub open spec fn spec_has_conversation(cs: Seq<ConversationView>, id: ObjectId) -> bool {
    exists|i: int| 0 <= i < cs.len() && cs[i].id == id
}

/// Does the collection hold a message with this id?
pub open spec fn spec_has_message(ms: Seq<MessageView>, id: ObjectId) -> bool {
    exists|i: int| 0 <= i < ms.len() && ms[i].id == id
}

/// The book with this id and owner, if any.
pub open spec fn spec_find_book(bs: Seq<BookView>, id: ObjectId, user: ObjectId) -> Option<
    BookView,
> {
    if exists|i: int| 0 <= i < bs.len() && bs[i].id == id && bs[i].user == user {
        Some(bs[choose|i: int| 0 <= i < bs.len() && bs[i].id == id && bs[i].user == user])
    } else {
        None
    }
}

/// The chapter with this id, if any.
pub open spec fn spec_find_chapter(cs: Seq<ChapterView>, id: ObjectId) -> Option<ChapterView> {
    if spec_has_chapter(cs, id) {
        Some(cs[choose|i: int| 0 <= i < cs.len() && cs[i].id == id])
    } else {
        None
    }
}

/// The books a user owns, in insertion order.
pub open spec fn user_books(bs: Seq<BookView>, user: ObjectId) -> Seq<BookView> {
    bs.filter(|b: BookView| b.user == user)
}

/// The chapters of a book, in insertion order.
pub open spec fn book_chapters(cs: Seq<ChapterView>, book: ObjectId) -> Seq<ChapterView> {
    cs.filter(|c: ChapterView| c.book_id == book)
}

/// The conversations of a user about a book, in insertion order.
pub open spec fn user_book_conversations(
    cs: Seq<ConversationView>,
    user: ObjectId,
    book: ObjectId,
) -> Seq<ConversationView> {
    cs.filter(|c: ConversationView| c.user == user && c.book == book)
}

/// The messages of a conversation, in insertion order.
pub open spec fn conversation_messages(ms: Seq<MessageView>, conversation: ObjectId) -> Seq<
    MessageView,
> {
    ms.filter(|m: MessageView| m.conversation == conversation)
}

/// A batch of chapters may be inserted: its ids collide neither with the
/// collection nor with one another.
pub open spec fn fresh_chapter_batch(cs: Seq<ChapterView>, batch: Seq<ChapterView>) -> bool {
    &&& forall|i: int| 0 <= i < batch.len() ==> !spec_has_chapter(cs, #[trigger] batch[i].id)
    &&& forall|i: int, j: int| 0 <= i < j < batch.len() ==> batch[i].id != batch[j].id
}

/// The chapter collection after one chapter's content is filled in: the
/// record with the given id gets the markdown, the html, `completed`, and a
/// fresh `updated_at`, written together.
pub open spec fn fill_chapter_views(
    cs: Seq<ChapterView>,
    id: ObjectId,
    md: Seq<char>,
    html: Seq<char>,
    now: i64,
) -> Seq<ChapterView> {
    Seq::new(
        cs.len(),
        |i: int|
            if cs[i].id == id {
                ChapterView { markdown: md, html: html, completed: true, updated_at: now, ..cs[i] }
            } else {
                cs[i]
            },
    )
}

/// The book collection after a book is marked completed.
pub open spec fn complete_book_views(bs: Seq<BookView>, id: ObjectId, now: i64) -> Seq<BookView> {
    Seq::new(
        bs.len(),
        |i: int|
            if bs[i].id == id {
                BookView { completed: true, updated_at: now, ..bs[i] }
            } else {
                bs[i]
            },
    )
}

/// The book collection after a book's `updated_at` is refreshed.
pub open spec fn touch_book_views(bs: Seq<BookView>, id: ObjectId, now: i64) -> Seq<BookView> {
    Seq::new(
        bs.len(),
        |i: int|
            if bs[i].id == id {
                BookView { updated_at: now, ..bs[i] }
            } else {
                bs[i]
            },
    )
}

/// Appending a book keeps it in the user's list exactly when the user owns
/// it.
pub proof fn lemma_user_books_push(bs: Seq<BookView>, b: BookView, user: ObjectId)
    ensures
        user_books(bs.push(b), user) == if b.user == user {
            user_books(bs, user).push(b)
        } else {
            user_books(bs, user)
        },
{
    broadcast use Seq::lemma_filter_push;

}

/// Appending a chapter keeps it in the book's list exactly when it belongs
/// to the book.
pub proof fn lemma_book_chapters_push(cs: Seq<ChapterView>, c: ChapterView, book: ObjectId)
    ensures
        book_chapters(cs.push(c), book) == if c.book_id == book {
            book_chapters(cs, book).push(c)
        } else {
            book_chapters(cs, book)
        },
{
    broadcast use Seq::lemma_filter_push;

}

/// Appending a conversation keeps it in the scope's list exactly when the
/// user and book match.
pub proof fn lemma_user_book_conversations_push(
    cs: Seq<ConversationView>,
    c: ConversationView,
    user: ObjectId,
    book: ObjectId,
)
    ensures
        user_book_conversations(cs.push(c), user, book) == if c.user == user && c.book == book {
            user_book_conversations(cs, user, book).push(c)
        } else {
            user_book_conversations(cs, user, book)
        },
{
    broadcast use Seq::lemma_filter_push;

}

/// Appending a message keeps it in the conversation's list exactly when
/// the conversation matches.
pub proof fn lemma_conversation_messages_push(
    ms: Seq<MessageView>,
    m: MessageView,
    conversation: ObjectId,
)
    ensures
        conversation_messages(ms.push(m), conversation) == if m.conversation == conversation {
            conversation_messages(ms, conversation).push(m)
        } else {
            conversation_messages(ms, conversation)
        },
{
    broadcast use Seq::lemma_filter_push;

}

/// The store: one collection per record kind.
#[derive(Debug)]
pub struct Store {
    pub books: Vec<Book>,
    pub chapters: Vec<Chapter>,
    pub conversations: Vec<Conversation>,
    pub messages: Vec<Message>,
}

/// The mathematical value of the store.
#[verifier::ext_equal]
pub ghost struct StoreView {
    pub books: Seq<BookView>,
    pub chapters: Seq<ChapterView>,
    pub conversations: Seq<ConversationView>,
    pub messages: Seq<MessageView>,
}

impl View for Store {
    type V = StoreView;

    open spec fn view(&self) -> StoreView {
        StoreView {
            books: book_views(self.books@),
            chapters: chapter_views(self.chapters@),
            conversations: conversation_views(self.conversations@),
            messages: message_views(self.messages@),
        }
    }
}

impl Store {
    /// Ids are unique within each collection; every insertion keeps this.
    pub open spec fn wf(&self) -> bool {
        &&& forall|i: int, j: int|
            0 <= i < j < self@.books.len() ==> self@.books[i].id != self@.books[j].id
        &&& forall|i: int, j: int|
            0 <= i < j < self@.chapters.len() ==> self@.chapters[i].id != self@.chapters[j].id
        &&& forall|i: int, j: int|
            0 <= i < j < self@.conversations.len() ==> self@.conversations[i].id
                != self@.conversations[j].id
        &&& forall|i: int, j: int|
            0 <= i < j < self@.messages.len() ==> self@.messages[i].id != self@.messages[j].id
    }

    /// An empty store.
    pub fn new() -> (s: Store)
        ensures
            s@.books.len() == 0,
            s@.chapters.len() == 0,
            s@.conversations.len() == 0,
            s@.messages.len() == 0,
            s.wf(),
    {
        Store {
            books: Vec::new(),
            chapters: Vec::new(),
            conversations: Vec::new(),
            messages: Vec::new(),
        }
    }

    /// Insert one book; a duplicate id is rejected and changes nothing.
    pub fn insert_book(&mut self, b: Book) -> (r: Result<(), Error>)
        requires
            old(self).wf(),
        ensures
            final(self).wf(),
            r is Ok <==> !spec_has_book(old(self)@.books, b.id),
            r is Ok ==> final(self)@ == (StoreView { books: old(self)@.books.push(b@), ..old(self)@ }),
            r is Err ==> final(self)@ == old(self)@ && r->Err_0.kind == ErrorKind::PersistenceFailure,
    {
        let n = self.books.len();
        let mut i: usize = 0;
        while i < n
            invariant
                0 <= i <= n,
                n == self.books@.len(),
                *self == *old(self),
                self.wf(),
                forall|j: int| 0 <= j < i ==> self@.books[j].id != b.id,
            decreases n - i,
        {
            assert(self@.books[i as int] == self.books@[i as int]@);
            if self.books[i].id == b.id {
                return Err(Error::new(ErrorKind::PersistenceFailure, "duplicate book id"));
            }
            i += 1;
        }
        proof {
            lemma_book_views_push(self.books@, b);
        }
        self.books.push(b);
        proof {
            assert(final(self)@ =~= (StoreView { books: old(self)@.books.push(b@), ..old(self)@ }));
        }
        Ok(())
    }

    /// Insert a batch of chapters, all or nothing; a batch whose ids
    /// collide with the collection or with one another is rejected whole.
    pub fn insert_chapters(&mut self, cs: Vec<Chapter>) -> (r: Result<(), Error>)
        requires
            old(self).wf(),
        ensures
            final(self).wf(),
            r is Ok <==> fresh_chapter_batch(old(self)@.chapters, chapter_views(cs@)),
            r is Ok ==> final(self)@ == (StoreView {
                chapters: old(self)@.chapters + chapter_views(cs@),
                ..old(self)@
            }),
            r is Err ==> final(self)@ == old(self)@ && r->Err_0.kind
                == ErrorKind::PersistenceFailure,
    {
        let ghost batch = chapter_views(cs@);
        let n = self.chapters.len();
        let m = cs.len();
        let mut i: usize = 0;
        while i < m
            invariant
                0 <= i <= m,
                m == cs@.len(),
                n == self.chapters@.len(),
                *self == *old(self),
                self.wf(),
                batch == chapter_views(cs@),
                forall|x: int| 0 <= x < i ==> !spec_has_chapter(self@.chapters, #[trigger] batch[x].id),
                forall|x: int, y: int| 0 <= x < y < i ==> batch[x].id != batch[y].id,
            decreases m - i,
        {
            assert(batch[i as int] == cs@[i as int]@);
            let mut j: usize = 0;
            while j < n
                invariant
                    0 <= j <= n,
                    i < m,
                    m == cs@.len(),
                    n == self.chapters@.len(),
                    *self == *old(self),
                    self.wf(),
                    batch == chapter_views(cs@),
                    batch[i as int] == cs@[i as int]@,
                    forall|y: int| 0 <= y < j ==> self@.chapters[y].id != batch[i as int].id,
                decreases n - j,
            {
                assert(self@.chapters[j as int] == self.chapters@[j as int]@);
                if self.chapters[j].id == cs[i].id {
                    assert(self@.chapters[j as int].id == batch[i as int].id);
                    assert(spec_has_chapter(self@.chapters, batch[i as int].id));
                    assert(!fresh_chapter_batch(old(self)@.chapters, batch));
                    return Err(Error::new(ErrorKind::PersistenceFailure, "duplicate chapter id"));
                }
                j += 1;
            }
            let mut k: usize = 0;
            while k < i
                invariant
                    0 <= k <= i < m,
                    m == cs@.len(),
                    n == self.chapters@.len(),
                    *self == *old(self),
                    self.wf(),
                    batch == chapter_views(cs@),
                    batch[i as int] == cs@[i as int]@,
                    forall|y: int| 0 <= y < k ==> batch[y].id != batch[i as int].id,
                decreases i - k,
            {
                assert(batch[k as int] == cs@[k as int]@);
                if cs[k].id == cs[i].id {
                    assert(batch[k as int].id == batch[i as int].id);
                    assert(!fresh_chapter_batch(old(self)@.chapters, batch));
                    return Err(Error::new(ErrorKind::PersistenceFailure, "duplicate chapter id"));
                }
                k += 1;
            }
            i += 1;
        }
        let mut incoming = cs;
        self.chapters.append(&mut incoming);
        proof {
            assert(chapter_views(old(self).chapters@ + cs@) =~= chapter_views(old(self).chapters@)
                + chapter_views(cs@));
            assert(final(self)@ =~= (StoreView {
                chapters: old(self)@.chapters + chapter_views(cs@),
                ..old(self)@
            }));
            let all = final(self)@.chapters;
            let oldn = old(self)@.chapters.len() as int;
            assert forall|x: int, y: int| 0 <= x < y < all.len() implies all[x].id != all[y].id by {
                if y < oldn {
                } else if x < oldn {
                    assert(all[y] == batch[y - oldn]);
                    assert(!spec_has_chapter(old(self)@.chapters, batch[y - oldn].id));
                } else {
                    assert(all[x] == batch[x - oldn] && all[y] == batch[y - oldn]);
                }
            }
        }
        Ok(())
    }

    /// The book with this id that this user owns, if any.
    pub fn find_book(&self, id: ObjectId, user: ObjectId) -> (r: Option<Book>)
        requires
            self.wf(),
        ensures
            match r {
                Some(b) => spec_find_book(self@.books, id, user) == Some(b@),
                None => spec_find_book(self@.books, id, user) is None,
            },
    {
        let n = self.books.len();
        let mut i: usize = 0;
        while i < n
            invariant
                0 <= i <= n,
                n == self.books@.len(),
                self.wf(),
                forall|j: int|
                    0 <= j < i ==> !(self@.books[j].id == id && #[trigger] self@.books[j].user
                        == user),
            decreases n - i,
        {
            assert(self@.books[i as int] == self.books@[i as int]@);
            if self.books[i].id == id && self.books[i].user == user {
                let found = self.books[i].clone();
                proof {
                    let bs = self@.books;
                    assert(0 <= i < bs.len() && bs[i as int].id == id && bs[i as int].user == user);
                    let j = choose|j: int|
                        0 <= j < bs.len() && bs[j].id == id && bs[j].user == user;
                    if j != i {
                        assert(bs[j].id != bs[i as int].id);
                    }
                }
                return Some(found);
            }
            i += 1;
        }
        None
    }

    /// The chapter with this id, if any.
    pub fn find_chapter(&self, id: ObjectId) -> (r: Option<Chapter>)
        requires
            self.wf(),
        ensures
            match r {
                Some(c) => spec_find_chapter(self@.chapters, id) == Some(c@),
                None => spec_find_chapter(self@.chapters, id) is None,
            },
    {
        let n = self.chapters.len();
        let mut i: usize = 0;
        while i < n
            invariant
                0 <= i <= n,
                n == self.chapters@.len(),
                self.wf(),
                forall|j: int| 0 <= j < i ==> #[trigger] self@.chapters[j].id != id,
            decreases n - i,
        {
            assert(self@.chapters[i as int] == self.chapters@[i as int]@);
            if self.chapters[i].id == id {
                let found = self.chapters[i].clone();
                proof {
                    let cs = self@.chapters;
                    assert(0 <= i < cs.len() && cs[i as int].id == id);
                    let j = choose|j: int| 0 <= j < cs.len() && cs[j].id == id;
                    if j != i {
                        assert(cs[j].id != cs[i as int].id);
                    }
                }
                return Some(found);
            }
            i += 1;
        }
        None
    }

    /// Fill one chapter's content: the markdown, the html, the completion
    /// flag and the timestamp are written together, or nothing is.
    pub fn fill_chapter_record(
        &mut self,
        id: ObjectId,
        markdown: String,
        html: String,
        now: i64,
    ) -> (r: Result<(), Error>)
        requires
            old(self).wf(),
        ensures
            final(self).wf(),
            r is Ok <==> spec_has_chapter(old(self)@.chapters, id),
            r is Ok ==> final(self)@ == (StoreView {
                chapters: fill_chapter_views(old(self)@.chapters, id, markdown@, html@, now),
                ..old(self)@
            }),
            r is Err ==> final(self)@ == old(self)@ && r->Err_0.kind == ErrorKind::NotFound,
    {
        let n = self.chapters.len();
        let mut i: usize = 0;
        while i < n
            invariant
                0 <= i <= n,
                n == self.chapters@.len(),
                *self == *old(self),
                self.wf(),
                forall|j: int| 0 <= j < i ==> #[trigger] self@.chapters[j].id != id,
            decreases n - i,
        {
            assert(self@.chapters[i as int] == self.chapters@[i as int]@);
            if self.chapters[i].id == id {
                let c = &self.chapters[i];
                let updated = Chapter {
                    id: c.id,
                    book_id: c.book_id,
                    title: c.title.clone(),
                    estimated_duration: c.estimated_duration,
                    markdown,
                    language: c.language.clone(),
                    html,
                    completed: true,
                    created_at: c.created_at,
                    updated_at: now,
                };
                self.chapters[i] = updated;
                proof {
                    let oldcs = old(self)@.chapters;
                    let newcs = final(self)@.chapters;
                    let want = fill_chapter_views(oldcs, id, markdown@, html@, now);
                    assert forall|j: int| 0 <= j < newcs.len() implies newcs[j] == want[j] by {
                        assert(newcs[j] == self.chapters@[j]@);
                        if j != i {
                            assert(oldcs[j].id != oldcs[i as int].id);
                        }
                    }
                    assert(newcs =~= want);
                    assert(final(self)@ =~= (StoreView { chapters: want, ..old(self)@ }));
                }
                return Ok(());
            }
            i += 1;
        }
        Err(Error::new(ErrorKind::NotFound, "chapter not found"))
    }

    /// Insert one book together with its chapters, all or nothing: a
    /// duplicate book id, or a chapter batch whose ids collide with the
    /// collection or with one another, rejects the whole write.
    pub fn insert_book_with_chapters(&mut self, b: Book, cs: Vec<Chapter>) -> (r: Result<
        (),
        Error,
    >)
        requires
            old(self).wf(),
        ensures
            final(self).wf(),
            r is Ok <==> !spec_has_book(old(self)@.books, b.id) && fresh_chapter_batch(
                old(self)@.chapters,
                chapter_views(cs@),
            ),
            r is Ok ==> final(self)@ == (StoreView {
                books: old(self)@.books.push(b@),
                chapters: old(self)@.chapters + chapter_views(cs@),
                ..old(self)@
            }),
            r is Err ==> final(self)@ == old(self)@ && r->Err_0.kind
                == ErrorKind::PersistenceFailure,
    {
        let nb = self.books.len();
        let mut i: usize = 0;
        while i < nb
            invariant
                0 <= i <= nb,
                nb == self.books@.len(),
                *self == *old(self),
                self.wf(),
                forall|j: int| 0 <= j < i ==> self@.books[j].id != b.id,
            decreases nb - i,
        {
            assert(self@.books[i as int] == self.books@[i as int]@);
            if self.books[i].id == b.id {
                return Err(Error::new(ErrorKind::PersistenceFailure, "duplicate book id"));
            }
            i += 1;
        }
        proof {
            lemma_book_views_push(self.books@, b);
        }
        self.books.push(b);
        let r = self.insert_chapters(cs);
        match r {
            Ok(()) => {
                proof {
                    assert(final(self)@ =~= (StoreView {
                        books: old(self)@.books.push(b@),
                        chapters: old(self)@.chapters + chapter_views(cs@),
                        ..old(self)@
                    }));
                }
                Ok(())
            },
            Err(e) => {
                let ghost at_err = self.books@;
                let popped = self.books.pop();
                proof {
                    assert(self.books@ == at_err.drop_last());
                    assert(book_views(at_err) == old(self)@.books.push(b@));
                    assert(book_views(at_err.drop_last()) =~= book_views(at_err).drop_last());
                    assert(book_views(self.books@) =~= old(self)@.books);
                    assert(final(self)@ =~= old(self)@);
                }
                Err(e)
            },
        }
    }

    /// Insert one conversation; a duplicate id is rejected and changes
    /// nothing.
    pub fn insert_conversation(&mut self, c: Conversation) -> (r: Result<(), Error>)
        requires
            old(self).wf(),
        ensures
            final(self).wf(),
            r is Ok <==> !spec_has_conversation(old(self)@.conversations, c.id),
            r is Ok ==> final(self)@ == (StoreView {
                conversations: old(self)@.conversations.push(c@),
                ..old(self)@
            }),
            r is Err ==> final(self)@ == old(self)@ && r->Err_0.kind
                == ErrorKind::PersistenceFailure,
    {
        let n = self.conversations.len();
        let mut i: usize = 0;
        while i < n
            invariant
                0 <= i <= n,
                n == self.conversations@.len(),
                *self == *old(self),
                self.wf(),
                forall|j: int| 0 <= j < i ==> self@.conversations[j].id != c.id,
            decreases n - i,
        {
            assert(self@.conversations[i as int] == self.conversations@[i as int]@);
            if self.conversations[i].id == c.id {
                return Err(Error::new(ErrorKind::PersistenceFailure, "duplicate conversation id"));
            }
            i += 1;
        }
        proof {
            lemma_conversation_views_push(self.conversations@, c);
        }
        self.conversations.push(c);
        proof {
            assert(final(self)@ =~= (StoreView {
                conversations: old(self)@.conversations.push(c@),
                ..old(self)@
            }));
        }
        Ok(())
    }

    /// Insert one message; a duplicate id is rejected and changes nothing.
    pub fn insert_message(&mut self, m: Message) -> (r: Result<(), Error>)
        requires
            old(self).wf(),
        ensures
            final(self).wf(),
            r is Ok <==> !spec_has_message(old(self)@.messages, m.id),
            r is Ok ==> final(self)@ == (StoreView {
                messages: old(self)@.messages.push(m@),
                ..old(self)@
            }),
            r is Err ==> final(self)@ == old(self)@ && r->Err_0.kind
                == ErrorKind::PersistenceFailure,
    {
        let n = self.messages.len();
        let mut i: usize = 0;
        while i < n
            invariant
                0 <= i <= n,
                n == self.messages@.len(),
                *self == *old(self),
                self.wf(),
                forall|j: int| 0 <= j < i ==> self@.messages[j].id != m.id,
            decreases n - i,
        {
            assert(self@.messages[i as int] == self.messages@[i as int]@);
            if self.messages[i].id == m.id {
                return Err(Error::new(ErrorKind::PersistenceFailure, "duplicate message id"));
            }
            i += 1;
        }
        proof {
            lemma_message_views_push(self.messages@, m);
        }
        self.messages.push(m);
        proof {
            assert(final(self)@ =~= (StoreView {
                messages: old(self)@.messages.push(m@),
                ..old(self)@
            }));
        }
        Ok(())
    }

    /// All books this user owns, in insertion order.
    pub fn books_of_user(&self, user: ObjectId) -> (r: Vec<Book>)
        ensures
            book_views(r@) == user_books(self@.books, user),
    {
        let n = self.books.len();
        let mut r: Vec<Book> = Vec::new();
        let mut i: usize = 0;
        proof {
            assert(self@.books.subrange(0, 0) =~= Seq::<BookView>::empty());
            assert(book_views(r@) =~= user_books(self@.books.subrange(0, 0), user));
        }
        while i < n
            invariant
                0 <= i <= n,
                n == self.books@.len(),
                book_views(r@) == user_books(self@.books.subrange(0, i as int), user),
            decreases n - i,
        {
            assert(self@.books[i as int] == self.books@[i as int]@);
            let ghost pre = self@.books.subrange(0, i as int);
            proof {
                assert(self@.books.subrange(0, i + 1) =~= pre.push(self@.books[i as int]));
                lemma_user_books_push(pre, self@.books[i as int], user);
            }
            if self.books[i].user == user {
                let ghost racc = r@;
                let b = self.books[i].clone();
                proof {
                    lemma_book_views_push(racc, b);
                }
                r.push(b);
            }
            i += 1;
        }
        proof {
            assert(self@.books.subrange(0, n as int) =~= self@.books);
        }
        r
    }

    /// All chapters of this book, in insertion order.
    pub fn chapters_of_book(&self, book: ObjectId) -> (r: Vec<Chapter>)
        ensures
            chapter_views(r@) == book_chapters(self@.chapters, book),
    {
        let n = self.chapters.len();
        let mut r: Vec<Chapter> = Vec::new();
        let mut i: usize = 0;
        proof {
            assert(self@.chapters.subrange(0, 0) =~= Seq::<ChapterView>::empty());
            assert(chapter_views(r@) =~= book_chapters(self@.chapters.subrange(0, 0), book));
        }
        while i < n
            invariant
                0 <= i <= n,
                n == self.chapters@.len(),
                chapter_views(r@) == book_chapters(self@.chapters.subrange(0, i as int), book),
            decreases n - i,
        {
            assert(self@.chapters[i as int] == self.chapters@[i as int]@);
            let ghost pre = self@.chapters.subrange(0, i as int);
            proof {
                assert(self@.chapters.subrange(0, i + 1) =~= pre.push(self@.chapters[i as int]));
                lemma_book_chapters_push(pre, self@.chapters[i as int], book);
            }
            if self.chapters[i].book_id == book {
                let ghost racc = r@;
                let c = self.chapters[i].clone();
                proof {
                    lemma_chapter_views_push(racc, c);
                }
                r.push(c);
            }
            i += 1;
        }
        proof {
            assert(self@.chapters.subrange(0, n as int) =~= self@.chapters);
        }
        r
    }

    /// All conversations this user holds about this book, in insertion
    /// order.
    pub fn conversations_of(&self, user: ObjectId, book: ObjectId) -> (r: Vec<Conversation>)
        ensures
            conversation_views(r@) == user_book_conversations(self@.conversations, user, book),
    {
        let n = self.conversations.len();
        let mut r: Vec<Conversation> = Vec::new();
        let mut i: usize = 0;
        proof {
            assert(self@.conversations.subrange(0, 0) =~= Seq::<ConversationView>::empty());
            assert(conversation_views(r@) =~= user_book_conversations(
                self@.conversations.subrange(0, 0),
                user,
                book,
            ));
        }
        while i < n
            invariant
                0 <= i <= n,
                n == self.conversations@.len(),
                conversation_views(r@) == user_book_conversations(
                    self@.conversations.subrange(0, i as int),
                    user,
                    book,
                ),
            decreases n - i,
        {
            assert(self@.conversations[i as int] == self.conversations@[i as int]@);
            let ghost pre = self@.conversations.subrange(0, i as int);
            proof {
                assert(self@.conversations.subrange(0, i + 1) =~= pre.push(
                    self@.conversations[i as int],
                ));
                lemma_user_book_conversations_push(pre, self@.conversations[i as int], user, book);
            }
            if self.conversations[i].user == user && self.conversations[i].book == book {
                let ghost racc = r@;
                let c = self.conversations[i].clone();
                proof {
                    lemma_conversation_views_push(racc, c);
                }
                r.push(c);
            }
            i += 1;
        }
        proof {
            assert(self@.conversations.subrange(0, n as int) =~= self@.conversations);
        }
        r
    }

    /// All messages of this conversation, in insertion order.
    pub fn messages_of(&self, conversation: ObjectId) -> (r: Vec<Message>)
        ensures
            message_views(r@) == conversation_messages(self@.messages, conversation),
    {
        let n = self.messages.len();
        let mut r: Vec<Message> = Vec::new();
        let mut i: usize = 0;
        proof {
            assert(self@.messages.subrange(0, 0) =~= Seq::<MessageView>::empty());
            assert(message_views(r@) =~= conversation_messages(
                self@.messages.subrange(0, 0),
                conversation,
            ));
        }
        while i < n
            invariant
                0 <= i <= n,
                n == self.messages@.len(),
                message_views(r@) == conversation_messages(
                    self@.messages.subrange(0, i as int),
                    conversation,
                ),
            decreases n - i,
        {
            assert(self@.messages[i as int] == self.messages@[i as int]@);
            let ghost pre = self@.messages.subrange(0, i as int);
            proof {
                assert(self@.messages.subrange(0, i + 1) =~= pre.push(self@.messages[i as int]));
                lemma_conversation_messages_push(pre, self@.messages[i as int], conversation);
            }
            if self.messages[i].conversation == conversation {
                let ghost racc = r@;
                let m = self.messages[i].clone();
                proof {
                    lemma_message_views_push(racc, m);
                }
                r.push(m);
            }
            i += 1;
        }
        proof {
            assert(self@.messages.subrange(0, n as int) =~= self@.messages);
        }
        r
    }

    /// Mark one book completed and refresh its timestamp; a missing id
    /// changes nothing.
    pub fn complete_book_record(&mut self, id: ObjectId, now: i64) -> (found: bool)
        requires
            old(self).wf(),
        ensures
            final(self).wf(),
            found == spec_has_book(old(self)@.books, id),
            final(self)@ == (StoreView {
                books: complete_book_views(old(self)@.books, id, now),
                ..old(self)@
            }),
    {
        let n = self.books.len();
        let mut i: usize = 0;
        while i < n
            invariant
                0 <= i <= n,
                n == self.books@.len(),
                *self == *old(self),
                self.wf(),
                forall|j: int| 0 <= j < i ==> #[trigger] self@.books[j].id != id,
            decreases n - i,
        {
            assert(self@.books[i as int] == self.books@[i as int]@);
            if self.books[i].id == id {
                let b = &self.books[i];
                let updated = Book {
                    id: b.id,
                    user: b.user,
                    title: b.title.clone(),
                    subtitle: crate::model::clone_opt_string(&b.subtitle),
                    book_type: crate::model::clone_opt_string(&b.book_type),
                    main_topic: crate::model::clone_opt_string(&b.main_topic),
                    completed: true,
                    cover: crate::model::clone_opt_string(&b.cover),
                    created_at: b.created_at,
                    updated_at: now,
                };
                self.books[i] = updated;
                proof {
                    let oldbs = old(self)@.books;
                    let newbs = final(self)@.books;
                    let want = complete_book_views(oldbs, id, now);
                    assert forall|j: int| 0 <= j < newbs.len() implies newbs[j] == want[j] by {
                        assert(newbs[j] == self.books@[j]@);
                        if j != i {
                            assert(oldbs[j].id != oldbs[i as int].id);
                        }
                    }
                    assert(newbs =~= want);
                    assert(final(self)@ =~= (StoreView { books: want, ..old(self)@ }));
                }
                return true;
            }
            i += 1;
        }
        proof {
            assert(final(self)@.books =~= complete_book_views(old(self)@.books, id, now));
            assert(final(self)@ =~= (StoreView {
                books: complete_book_views(old(self)@.books, id, now),
                ..old(self)@
            }));
        }
        false
    }

    /// Refresh one book's `updated_at`; a missing id changes nothing. The
    /// stored document also carries the free-form edited content, which the
    /// model does not track.
    pub fn touch_book_record(&mut self, id: ObjectId, now: i64) -> (found: bool)
        requires
            old(self).wf(),
        ensures
            final(self).wf(),
            found == spec_has_book(old(self)@.books, id),
            final(self)@ == (StoreView {
                books: touch_book_views(old(self)@.books, id, now),
                ..old(self)@
            }),
    {
        let n = self.books.len();
        let mut i: usize = 0;
        while i < n
            invariant
                0 <= i <= n,
                n == self.books@.len(),
                *self == *old(self),
                self.wf(),
                forall|j: int| 0 <= j < i ==> #[trigger] self@.books[j].id != id,
            decreases n - i,
        {
            assert(self@.books[i as int] == self.books@[i as int]@);
            if self.books[i].id == id {
                let b = &self.books[i];
                let updated = Book {
                    id: b.id,
                    user: b.user,
                    title: b.title.clone(),
                    subtitle: crate::model::clone_opt_string(&b.subtitle),
                    book_type: crate::model::clone_opt_string(&b.book_type),
                    main_topic: crate::model::clone_opt_string(&b.main_topic),
                    completed: b.completed,
                    cover: crate::model::clone_opt_string(&b.cover),
                    created_at: b.created_at,
                    updated_at: now,
                };
                self.books[i] = updated;
                proof {
                    let oldbs = old(self)@.books;
                    let newbs = final(self)@.books;
                    let want = touch_book_views(oldbs, id, now);
                    assert forall|j: int| 0 <= j < newbs.len() implies newbs[j] == want[j] by {
                        assert(newbs[j] == self.books@[j]@);
                        if j != i {
                            assert(oldbs[j].id != oldbs[i as int].id);
                        }
                    }
                    assert(newbs =~= want);
                    assert(final(self)@ =~= (StoreView { books: want, ..old(self)@ }));
                }
                return true;
            }
            i += 1;
        }
        proof {
            assert(final(self)@.books =~= touch_book_views(old(self)@.books, id, now));
            assert(final(self)@ =~= (StoreView {
                books: touch_book_views(old(self)@.books, id, now),
                ..old(self)@
            }));
        }
        false
    }
}

} // verus!
