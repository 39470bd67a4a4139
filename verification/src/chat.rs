//! Chat over persisted chapters: conversations, their messages, and the
//! responder that answers a user's question about one chapter of one book.
//! The completion call is made by the surrounding driver; the responder
//! takes its outcome as an argument, so ownership checks, prompt
//! construction and persistence are verified for every outcome.

use vstd::prelude::*;

use crate::api::{
    ConversationResponse, ConversationsListResponse, CreateConversationRequest,
    GetConversationsRequest, GetMessagesRequest, MessageResponse, MessagesListResponse,
    SendQueryRequest,
};
use crate::error::{Error, ErrorKind};
use crate::model::{conversation_views, message_views, Conversation, Message};
use crate::oid::{is_oid_hex, oid_of_hex, parse_object_id, ObjectId};
use crate::prompts::{chat_prompt, chat_prompt_text};
use crate::store::{
    conversation_messages, spec_find_book, spec_find_chapter, user_book_conversations, Store,
    StoreView,
};
use crate::text::{spec_strip_fences, strip_code_fences};

verus! {

/// Open a conversation scoped to the requester and a book.
pub fn create_conversation(
    store: &mut Store,
    req: &CreateConversationRequest,
    requester: Option<ObjectId>,
    now: i64,
) -> (r: Result<ConversationResponse, Error>)
    requires
        old(store).wf(),
    ensures
        final(store).wf(),
        requester is None ==> r is Err && r->Err_0.kind == ErrorKind::NotAuthenticated && final(store)@ == old(store)@,
        requester is Some && !is_oid_hex(req.book_id@) ==> r is Err && r->Err_0.kind
            == ErrorKind::NotFound && final(store)@ == old(store)@,
        requester is Some && is_oid_hex(req.book_id@) ==> match r {
            Ok(resp) => {
                &&& resp.status@ == "success"@
                &&& resp.data@.user == requester->Some_0
                &&& resp.data@.book == oid_of_hex(req.book_id@)
                &&& resp.data@.chapter is None
                &&& resp.data@.title == req.title@
                &&& resp.data@.created_at == now
                &&& resp.data@.updated_at == now
                &&& final(store)@ == (StoreView {
                    conversations: old(store)@.conversations.push(resp.data@),
                    ..old(store)@
                })
            },
            Err(e) => e.kind == ErrorKind::PersistenceFailure && final(store)@ == old(store)@,
        },
{
    let user = match requester {
        Some(u) => u,
        None => {
            return Err(Error::new(ErrorKind::NotAuthenticated, "Not Authenticated"));
        },
    };
    let book = match parse_object_id(req.book_id.as_str()) {
        Some(id) => id,
        None => {
            return Err(Error::new(ErrorKind::NotFound, "Invalid book ID"));
        },
    };
    let conversation = Conversation {
        id: ObjectId::fresh(),
        user,
        book,
        chapter: None,
        title: req.title.clone(),
        created_at: now,
        updated_at: now,
    };
    let echo = conversation.clone();
    match store.insert_conversation(conversation) {
        Ok(()) => Ok(ConversationResponse { status: "success".to_owned(), data: echo }),
        Err(e) => Err(e),
    }
}

/// All conversations the requester holds about one book.
pub fn get_conversations(
    store: &Store,
    req: &GetConversationsRequest,
    requester: Option<ObjectId>,
) -> (r: Result<ConversationsListResponse, Error>)
    ensures
        requester is None ==> r is Err && r->Err_0.kind == ErrorKind::NotAuthenticated,
        requester is Some && !is_oid_hex(req.book_id@) ==> r is Err && r->Err_0.kind
            == ErrorKind::NotFound,
        requester is Some && is_oid_hex(req.book_id@) ==> r is Ok && r->Ok_0.status@ == "success"@
            && conversation_views(r->Ok_0.data@) == user_book_conversations(
            store@.conversations,
            requester->Some_0,
            oid_of_hex(req.book_id@),
        ),
{
    let user = match requester {
        Some(u) => u,
        None => {
            return Err(Error::new(ErrorKind::NotAuthenticated, "Not Authenticated"));
        },
    };
    let book = match parse_object_id(req.book_id.as_str()) {
        Some(id) => id,
        None => {
            return Err(Error::new(ErrorKind::NotFound, "Invalid book ID"));
        },
    };
    Ok(ConversationsListResponse {
        status: "success".to_owned(),
        data: store.conversations_of(user, book),
    })
}

/// Persist one message as it stands; it is stored exactly when no stored
/// message already carries its id.
pub fn save_message_to_db(store: &mut Store, message: Message) -> (r: Result<(), Error>)
    requires
        old(store).wf(),
    ensures
        final(store).wf(),
        r is Ok <==> !crate::store::spec_has_message(old(store)@.messages, message.id),
        r is Ok ==> final(store)@ == (StoreView {
            messages: old(store)@.messages.push(message@),
            ..old(store)@
        }),
        r is Err ==> r->Err_0.kind == ErrorKind::PersistenceFailure && final(store)@ == old(store)@,
{
    store.insert_message(message)
}

/// All messages of one conversation.
pub fn get_messages(store: &Store, req: &GetMessagesRequest, requester: Option<ObjectId>) -> (r:
    Result<MessagesListResponse, Error>)
    ensures
        requester is None ==> r is Err && r->Err_0.kind == ErrorKind::NotAuthenticated,
        requester is Some ==> r is Ok && r->Ok_0.status@ == "success"@ && message_views(
            r->Ok_0.data@,
        ) == conversation_messages(store@.messages, req.conversation_id),
{
    match requester {
        Some(_) => Ok(MessagesListResponse {
            status: "success".to_owned(),
            data: store.messages_of(req.conversation_id),
        }),
        None => Err(Error::new(ErrorKind::NotAuthenticated, "Not Authenticated")),
    }
}

/// Does the responder's lookup succeed: the book id is well formed and the
/// requester owns that book, and the chapter id is well formed and exists?
pub open spec fn respond_lookup_ok(
    sv: StoreView,
    user: ObjectId,
    book_hex: Seq<char>,
    chapter_hex: Seq<char>,
) -> bool {
    &&& is_oid_hex(book_hex)
    &&& spec_find_book(sv.books, oid_of_hex(book_hex), user) is Some
    &&& is_oid_hex(chapter_hex)
    &&& spec_find_chapter(sv.chapters, oid_of_hex(chapter_hex)) is Some
}

/// The prompt the responder sends for a successful lookup: it embeds the
/// book's title, the chapter's html content and the user's query.
pub open spec fn respond_prompt(
    sv: StoreView,
    user: ObjectId,
    book_hex: Seq<char>,
    chapter_hex: Seq<char>,
    query: Seq<char>,
) -> Seq<char> {
    chat_prompt_text(
        spec_find_book(sv.books, oid_of_hex(book_hex), user).unwrap().title,
        spec_find_chapter(sv.chapters, oid_of_hex(chapter_hex)).unwrap().html,
        query,
    )
}

/// Authenticate and look up the book and chapter of a chat query, and
/// build the context-injected prompt. Reads only; a book the requester
/// does not own, or a missing chapter, is not found.
pub fn respond_prepare(
    store: &Store,
    req: &SendQueryRequest,
    requester: Option<ObjectId>,
) -> (r: Result<String, Error>)
    requires
        store.wf(),
    ensures
        requester is None ==> r is Err && r->Err_0.kind == ErrorKind::NotAuthenticated,
        requester is Some && !respond_lookup_ok(store@, requester->Some_0, req.book@, req.chapter@)
            ==> r is Err && r->Err_0.kind == ErrorKind::NotFound,
        requester is Some && respond_lookup_ok(store@, requester->Some_0, req.book@, req.chapter@)
            ==> r is Ok && r->Ok_0@ == respond_prompt(
            store@,
            requester->Some_0,
            req.book@,
            req.chapter@,
            req.query@,
        ),
{
    let user = match requester {
        Some(u) => u,
        None => {
            return Err(Error::new(ErrorKind::NotAuthenticated, "Not Authenticated"));
        },
    };
    let book_id = match parse_object_id(req.book.as_str()) {
        Some(id) => id,
        None => {
            return Err(Error::new(ErrorKind::NotFound, "Invalid book ID"));
        },
    };
    let book = match store.find_book(book_id, user) {
        Some(b) => b,
        None => {
            return Err(Error::new(ErrorKind::NotFound, "Book not found"));
        },
    };
    let chapter_id = match parse_object_id(req.chapter.as_str()) {
        Some(id) => id,
        None => {
            return Err(Error::new(ErrorKind::NotFound, "Invalid chapter ID"));
        },
    };
    let chapter = match store.find_chapter(chapter_id) {
        Some(c) => c,
        None => {
            return Err(Error::new(ErrorKind::NotFound, "Chapter not found"));
        },
    };
    Ok(chat_prompt(book.title.as_str(), chapter.html.as_str(), req.query.as_str()))
}

/// Persist the backend's answer to a chat query as the conversation's new
/// message from the model, with code fences stripped; a failed call
/// persists nothing.
pub fn respond_finish(
    store: &mut Store,
    conversation_id: ObjectId,
    answer: Result<String, String>,
    now: i64,
) -> (r: Result<MessageResponse, Error>)
    requires
        old(store).wf(),
    ensures
        final(store).wf(),
        answer is Err ==> r is Err && r->Err_0.kind == ErrorKind::UpstreamGenerationFailure
            && r->Err_0.message@ == answer->Err_0@ && final(store)@ == old(store)@,
        answer is Ok ==> match r {
            Ok(resp) => {
                &&& resp.status@ == "success"@
                &&& resp.data@.conversation == conversation_id
                &&& resp.data@.sender == "gemini"@
                &&& resp.data@.content == spec_strip_fences(answer->Ok_0@)
                &&& resp.data@.timestamp == now
                &&& final(store)@ == (StoreView {
                    messages: old(store)@.messages.push(resp.data@),
                    ..old(store)@
                })
            },
            Err(e) => e.kind == ErrorKind::PersistenceFailure && final(store)@ == old(store)@,
        },
{
    let raw = match answer {
        Ok(a) => a,
        Err(msg) => {
            return Err(Error { kind: ErrorKind::UpstreamGenerationFailure, message: msg });
        },
    };
    let message = Message {
        id: ObjectId::fresh(),
        conversation: conversation_id,
        sender: "gemini".to_owned(),
        content: strip_code_fences(raw.as_str()),
        timestamp: now,
    };
    let echo = message.clone();
    match store.insert_message(message) {
        Ok(()) => Ok(MessageResponse { status: "success".to_owned(), data: echo }),
        Err(e) => Err(e),
    }
}

/// Answer a chat query about one chapter of one book: authenticate, check
/// ownership, and persist the backend's answer for the conversation.
///
/// `answer` is the completion outcome for the prompt that
/// [`respond_prepare`] builds. A request whose book the requester does not
/// own, or whose chapter does not exist, is rejected and writes no
/// message, whatever the backend returned.
pub fn respond_to_query(
    store: &mut Store,
    req: &SendQueryRequest,
    requester: Option<ObjectId>,
    answer: Result<String, String>,
    now: i64,
) -> (r: Result<MessageResponse, Error>)
    requires
        old(store).wf(),
    ensures
        final(store).wf(),
        requester is None ==> r is Err && r->Err_0.kind == ErrorKind::NotAuthenticated && final(store)@ == old(store)@,
        requester is Some && !respond_lookup_ok(
            old(store)@,
            requester->Some_0,
            req.book@,
            req.chapter@,
        ) ==> r is Err && r->Err_0.kind == ErrorKind::NotFound && final(store)@ == old(store)@,
        requester is Some && respond_lookup_ok(
            old(store)@,
            requester->Some_0,
            req.book@,
            req.chapter@,
        ) && answer is Err ==> r is Err && r->Err_0.kind == ErrorKind::UpstreamGenerationFailure
            && final(store)@ == old(store)@,
        requester is Some && respond_lookup_ok(
            old(store)@,
            requester->Some_0,
            req.book@,
            req.chapter@,
        ) && answer is Ok ==> match r {
            Ok(resp) => {
                &&& resp.status@ == "success"@
                &&& resp.data@.conversation == req.conversation_id
                &&& resp.data@.sender == "gemini"@
                &&& resp.data@.content == spec_strip_fences(answer->Ok_0@)
                &&& resp.data@.timestamp == now
                &&& final(store)@ == (StoreView {
                    messages: old(store)@.messages.push(resp.data@),
                    ..old(store)@
                })
            },
            Err(e) => e.kind == ErrorKind::PersistenceFailure && final(store)@ == old(store)@,
        },
{
    match respond_prepare(store, req, requester) {
        Ok(_prompt) => respond_finish(store, req.conversation_id, answer, now),
        Err(e) => Err(e),
    }
}

/// The original entry point for the chat responder.
pub fn send_query_to_gemini(
    store: &mut Store,
    req: &SendQueryRequest,
    requester: Option<ObjectId>,
    answer: Result<String, String>,
    now: i64,
) -> (r: Result<MessageResponse, Error>)
    requires
        old(store).wf(),
    ensures
        final(store).wf(),
        requester is None ==> r is Err && r->Err_0.kind == ErrorKind::NotAuthenticated && final(store)@ == old(store)@,
        requester is Some && !respond_lookup_ok(
            old(store)@,
            requester->Some_0,
            req.book@,
            req.chapter@,
        ) ==> r is Err && r->Err_0.kind == ErrorKind::NotFound && final(store)@ == old(store)@,
        requester is Some && respond_lookup_ok(
            old(store)@,
            requester->Some_0,
            req.book@,
            req.chapter@,
        ) && answer is Err ==> r is Err && r->Err_0.kind == ErrorKind::UpstreamGenerationFailure
            && final(store)@ == old(store)@,
        requester is Some && respond_lookup_ok(
            old(store)@,
            requester->Some_0,
            req.book@,
            req.chapter@,
        ) && answer is Ok ==> match r {
            Ok(resp) => {
                &&& resp.status@ == "success"@
                &&& resp.data@.conversation == req.conversation_id
                &&& resp.data@.sender == "gemini"@
                &&& resp.data@.content == spec_strip_fences(answer->Ok_0@)
                &&& resp.data@.timestamp == now
                &&& final(store)@ == (StoreView {
                    messages: old(store)@.messages.push(resp.data@),
                    ..old(store)@
                })
            },
            Err(e) => e.kind == ErrorKind::PersistenceFailure && final(store)@ == old(store)@,
        },
{
    respond_to_query(store, req, requester, answer, now)
}

} // verus!
