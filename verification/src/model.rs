//! The records the pipeline reads and writes: a book, its chapters, and the
//! conversations and messages of the chat. Timestamps are seconds since the
//! Unix epoch. A chapter always belongs to exactly one book, looked up by
//! book id; its `html` is empty until content is filled in, and once filled
//! `completed` is set in the same write.

use vstd::prelude::*;

use crate::oid::ObjectId;

verus! {

/// The view of an optional string.
pub open spec fn opt_view(o: Option<String>) -> Option<Seq<char>> {
    match o {
        Some(s) => Some(s@),
        None => None,
    }
}

/// A book record: identity, owner, naming, completion flag, optional cover
/// image URL, and timestamps.
#[derive(Debug)]
pub struct Book {
    pub id: ObjectId,
    pub user: ObjectId,
    pub title: String,
    pub subtitle: Option<String>,
    pub book_type: Option<String>,
    pub main_topic: Option<String>,
    pub completed: bool,
    pub cover: Option<String>,
    pub created_at: i64,
    pub updated_at: i64,
}

/// The mathematical value of a book record.
#[verifier::ext_equal]
pub ghost struct BookView {
    pub id: ObjectId,
    pub user: ObjectId,
    pub title: Seq<char>,
    pub subtitle: Option<Seq<char>>,
    pub book_type: Option<Seq<char>>,
    pub main_topic: Option<Seq<char>>,
    pub completed: bool,
    pub cover: Option<Seq<char>>,
    pub created_at: i64,
    pub updated_at: i64,
}

impl View for Book {
    type V = BookView;

    open spec fn view(&self) -> BookView {
        BookView {
            id: self.id,
            user: self.user,
            title: self.title@,
            subtitle: opt_view(self.subtitle),
            book_type: opt_view(self.book_type),
            main_topic: opt_view(self.main_topic),
            completed: self.completed,
            cover: opt_view(self.cover),
            created_at: self.created_at,
            updated_at: self.updated_at,
        }
    }
}

/// Clone an optional string, keeping its value.
pub fn clone_opt_string(o: &Option<String>) -> (r: Option<String>)
    ensures
        opt_view(r) == opt_view(*o),
{
    match o {
        Some(s) => Some(s.clone()),
        None => None,
    }
}

impl Clone for Book {
    fn clone(&self) -> (r: Book)
        ensures
            r@ == self@,
    {
        Book {
            id: self.id,
            user: self.user,
            title: self.title.clone(),
            subtitle: clone_opt_string(&self.subtitle),
            book_type: clone_opt_string(&self.book_type),
            main_topic: clone_opt_string(&self.main_topic),
            completed: self.completed,
            cover: clone_opt_string(&self.cover),
            created_at: self.created_at,
            updated_at: self.updated_at,
        }
    }
}

/// A chapter record: identity, the owning book's id, title, estimated
/// duration in minutes, markdown and html content, completion flag,
/// language, and timestamps.
#[derive(Debug)]
pub struct Chapter {
    pub id: ObjectId,
    pub book_id: ObjectId,
    pub title: String,
    pub estimated_duration: u64,
    pub markdown: String,
    pub language: String,
    pub html: String,
    pub completed: bool,
    pub created_at: i64,
    pub updated_at: i64,
}

/// The mathematical value of a chapter record.
#[verifier::ext_equal]
pub ghost struct ChapterView {
    pub id: ObjectId,
    pub book_id: ObjectId,
    pub title: Seq<char>,
    pub estimated_duration: u64,
    pub markdown: Seq<char>,
    pub language: Seq<char>,
    pub html: Seq<char>,
    pub completed: bool,
    pub created_at: i64,
    pub updated_at: i64,
}

impl View for Chapter {
    type V = ChapterView;

    open spec fn view(&self) -> ChapterView {
        ChapterView {
            id: self.id,
            book_id: self.book_id,
            title: self.title@,
            estimated_duration: self.estimated_duration,
            markdown: self.markdown@,
            language: self.language@,
            html: self.html@,
            completed: self.completed,
            created_at: self.created_at,
            updated_at: self.updated_at,
        }
    }
}

impl Clone for Chapter {
    fn clone(&self) -> (r: Chapter)
        ensures
            r@ == self@,
    {
        Chapter {
            id: self.id,
            book_id: self.book_id,
            title: self.title.clone(),
            estimated_duration: self.estimated_duration,
            markdown: self.markdown.clone(),
            language: self.language.clone(),
            html: self.html.clone(),
            completed: self.completed,
            created_at: self.created_at,
            updated_at: self.updated_at,
        }
    }
}

/// A conversation: scoped to one user and one book, optionally pinned to a
/// chapter.
#[derive(Debug)]
pub struct Conversation {
    pub id: ObjectId,
    pub user: ObjectId,
    pub book: ObjectId,
    pub chapter: Option<ObjectId>,
    pub title: String,
    pub created_at: i64,
    pub updated_at: i64,
}

/// The mathematical value of a conversation record.
#[verifier::ext_equal]
pub ghost struct ConversationView {
    pub id: ObjectId,
    pub user: ObjectId,
    pub book: ObjectId,
    pub chapter: Option<ObjectId>,
    pub title: Seq<char>,
    pub created_at: i64,
    pub updated_at: i64,
}

impl View for Conversation {
    type V = ConversationView;

    open spec fn view(&self) -> ConversationView {
        ConversationView {
            id: self.id,
            user: self.user,
            book: self.book,
            chapter: self.chapter,
            title: self.title@,
            created_at: self.created_at,
            updated_at: self.updated_at,
        }
    }
}

impl Clone for Conversation {
    fn clone(&self) -> (r: Conversation)
        ensures
            r@ == self@,
    {
        Conversation {
            id: self.id,
            user: self.user,
            book: self.book,
            chapter: self.chapter,
            title: self.title.clone(),
            created_at: self.created_at,
            updated_at: self.updated_at,
        }
    }
}

/// A chat message: it belongs to exactly one conversation and carries a
/// sender tag, the content, and a timestamp.
#[derive(Debug)]
pub struct Message {
    pub id: ObjectId,
    pub conversation: ObjectId,
    pub sender: String,
    pub content: String,
    pub timestamp: i64,
}

/// The mathematical value of a message record.
#[verifier::ext_equal]
pub ghost struct MessageView {
    pub id: ObjectId,
    pub conversation: ObjectId,
    pub sender: Seq<char>,
    pub content: Seq<char>,
    pub timestamp: i64,
}

impl View for Message {
    type V = MessageView;

    open spec fn view(&self) -> MessageView {
        MessageView {
            id: self.id,
            conversation: self.conversation,
            sender: self.sender@,
            content: self.content@,
            timestamp: self.timestamp,
        }
    }
}

impl Clone for Message {
    fn clone(&self) -> (r: Message)
        ensures
            r@ == self@,
    {
        Message {
            id: self.id,
            conversation: self.conversation,
            sender: self.sender.clone(),
            content: self.content.clone(),
            timestamp: self.timestamp,
        }
    }
}

/// The views of a sequence of books.
pub open spec fn book_views(bs: Seq<Book>) -> Seq<BookView> {
    bs.map_values(|b: Book| b@)
}

/// The views of a sequence of chapters.
pub open spec fn chapter_views(cs: Seq<Chapter>) -> Seq<ChapterView> {
    cs.map_values(|c: Chapter| c@)
}

/// The views of a sequence of conversations.
pub open spec fn conversation_views(cs: Seq<Conversation>) -> Seq<ConversationView> {
    cs.map_values(|c: Conversation| c@)
}

/// The views of a sequence of messages.
pub open spec fn message_views(ms: Seq<Message>) -> Seq<MessageView> {
    ms.map_values(|m: Message| m@)
}

/// Appending a book appends its view.
pub proof fn lemma_book_views_push(pre: Seq<Book>, b: Book)
    ensures
        book_views(pre.push(b)) == book_views(pre).push(b@),
{
    assert(book_views(pre.push(b)) =~= book_views(pre).push(b@));
}

/// Appending a chapter appends its view.
pub proof fn lemma_chapter_views_push(pre: Seq<Chapter>, c: Chapter)
    ensures
        chapter_views(pre.push(c)) == chapter_views(pre).push(c@),
{
    assert(chapter_views(pre.push(c)) =~= chapter_views(pre).push(c@));
}

/// Appending a conversation appends its view.
pub proof fn lemma_conversation_views_push(pre: Seq<Conversation>, c: Conversation)
    ensures
        conversation_views(pre.push(c)) == conversation_views(pre).push(c@),
{
    assert(conversation_views(pre.push(c)) =~= conversation_views(pre).push(c@));
}

/// Appending a message appends its view.
pub proof fn lemma_message_views_push(pre: Seq<Message>, m: Message)
    ensures
        message_views(pre.push(m)) == message_views(pre).push(m@),
{
    assert(message_views(pre.push(m)) =~= message_views(pre).push(m@));
}

} // verus!
