use aibook::api::{
    CreateConversationRequest, GetConversationsRequest, GetMessagesRequest, SendQueryRequest,
};
use aibook::chat::{
    create_conversation, get_conversations, get_messages, respond_prepare, respond_to_query,
    save_message_to_db, send_query_to_gemini,
};
use aibook::error::ErrorKind;
use aibook::model::{Book, Chapter, Message};
use aibook::oid::ObjectId;
use aibook::store::Store;
use aibook::stream::StreamDecoder;

const BOOK_HEX: &str = "0102030405060708090a0b0c";
const CHAPTER_HEX: &str = "000000000000000300000004";

fn owner() -> ObjectId {
    ObjectId { hi: 1, lo: 0 }
}

fn seeded_store() -> Store {
    let mut store = Store::new();
    store
        .insert_book(Book {
            id: ObjectId { hi: 0x0102030405060708, lo: 0x090a0b0c },
            user: owner(),
            title: "Go Basics".to_string(),
            subtitle: Some("A primer".to_string()),
            book_type: None,
            main_topic: None,
            completed: false,
            cover: None,
            created_at: 1,
            updated_at: 1,
        })
        .unwrap();
    store
        .insert_chapters(vec![Chapter {
            id: ObjectId { hi: 3, lo: 4 },
            book_id: ObjectId { hi: 0x0102030405060708, lo: 0x090a0b0c },
            title: "Getting Started".to_string(),
            estimated_duration: 10,
            markdown: "* Install the toolchain".to_string(),
            language: "English".to_string(),
            html: "<p>Intro</p>".to_string(),
            completed: true,
            created_at: 1,
            updated_at: 1,
        }])
        .unwrap();
    store
}

fn query_request() -> SendQueryRequest {
    SendQueryRequest {
        conversation_id: ObjectId { hi: 9, lo: 9 },
        query: "What does the chapter cover?".to_string(),
        book: BOOK_HEX.to_string(),
        chapter: CHAPTER_HEX.to_string(),
        model: "gemini-2.0-flash".to_string(),
        token: "t".to_string(),
    }
}

#[test]
fn query_for_anothers_book_is_not_found_and_writes_no_message() {
    let mut store = seeded_store();
    let stranger = ObjectId { hi: 2, lo: 0 };
    let r = respond_to_query(
        &mut store,
        &query_request(),
        Some(stranger),
        Ok("<p>an answer</p>".to_string()),
        50,
    );
    assert_eq!(r.unwrap_err().kind, ErrorKind::NotFound);
    assert_eq!(store.messages.len(), 0);
}

#[test]
fn query_answer_is_persisted_with_fences_stripped() {
    let mut store = seeded_store();
    let r = respond_to_query(
        &mut store,
        &query_request(),
        Some(owner()),
        Ok("```html<p>It covers setup.</p>```".to_string()),
        50,
    );
    let resp = r.unwrap();
    assert_eq!(resp.data.content, "<p>It covers setup.</p>");
    assert_eq!(resp.data.sender, "gemini");
    assert_eq!(resp.data.conversation, ObjectId { hi: 9, lo: 9 });
    assert_eq!(store.messages.len(), 1);
    assert_eq!(store.messages[0].content, "<p>It covers setup.</p>");
}

#[test]
fn failed_answer_call_writes_no_message() {
    let mut store = seeded_store();
    let r = respond_to_query(
        &mut store,
        &query_request(),
        Some(owner()),
        Err("upstream timeout".to_string()),
        50,
    );
    assert_eq!(r.unwrap_err().kind, ErrorKind::UpstreamGenerationFailure);
    assert_eq!(store.messages.len(), 0);
}

#[test]
fn send_query_to_gemini_is_the_original_entry_point() {
    let mut store = seeded_store();
    let r = send_query_to_gemini(
        &mut store,
        &query_request(),
        Some(owner()),
        Ok("```html<p>plain</p>```".to_string()),
        50,
    );
    let resp = r.unwrap();
    assert_eq!(resp.status, "success");
    assert_eq!(resp.data.content, "<p>plain</p>");
    assert_eq!(resp.data.sender, "gemini");
    assert_eq!(resp.data.conversation, ObjectId { hi: 9, lo: 9 });
    assert_eq!(resp.data.timestamp, 50);
    assert_eq!(store.messages.len(), 1);
    // A failed completion through the same entry point writes nothing.
    let failed = send_query_to_gemini(
        &mut store,
        &query_request(),
        Some(owner()),
        Err("timeout".to_string()),
        51,
    );
    assert_eq!(failed.unwrap_err().kind, ErrorKind::UpstreamGenerationFailure);
    assert_eq!(store.messages.len(), 1);
}

#[test]
fn prepared_prompt_embeds_title_chapter_html_and_query() {
    let store = seeded_store();
    let prompt = respond_prepare(&store, &query_request(), Some(owner())).unwrap();
    assert!(prompt.contains("Go Basics"));
    assert!(prompt.contains("<p>Intro</p>"));
    assert!(prompt.contains("What does the chapter cover?"));
}

#[test]
fn prepare_rejects_unknown_chapter() {
    let store = seeded_store();
    let mut req = query_request();
    req.chapter = "ffffffffffffffffffffffff".to_string();
    let r = respond_prepare(&store, &req, Some(owner()));
    assert_eq!(r.unwrap_err().kind, ErrorKind::NotFound);
}

#[test]
fn conversations_are_scoped_to_user_and_book() {
    let mut store = seeded_store();
    let created = create_conversation(
        &mut store,
        &CreateConversationRequest {
            token: "t".to_string(),
            book_id: BOOK_HEX.to_string(),
            title: "Questions".to_string(),
        },
        Some(owner()),
        10,
    )
    .unwrap();
    assert_eq!(created.data.title, "Questions");
    let listed = get_conversations(
        &store,
        &GetConversationsRequest { token: "t".to_string(), book_id: BOOK_HEX.to_string() },
        Some(owner()),
    )
    .unwrap();
    assert_eq!(listed.data.len(), 1);
    let other = get_conversations(
        &store,
        &GetConversationsRequest { token: "t".to_string(), book_id: BOOK_HEX.to_string() },
        Some(ObjectId { hi: 5, lo: 5 }),
    )
    .unwrap();
    assert_eq!(other.data.len(), 0);
}

#[test]
fn messages_are_listed_per_conversation_in_order() {
    let mut store = seeded_store();
    let conversation = ObjectId { hi: 9, lo: 9 };
    save_message_to_db(
        &mut store,
        Message {
            id: ObjectId { hi: 100, lo: 1 },
            conversation,
            sender: "user".to_string(),
            content: "first".to_string(),
            timestamp: 1,
        },
    )
    .unwrap();
    save_message_to_db(
        &mut store,
        Message {
            id: ObjectId { hi: 100, lo: 2 },
            conversation,
            sender: "gemini".to_string(),
            content: "second".to_string(),
            timestamp: 2,
        },
    )
    .unwrap();
    let listed = get_messages(
        &store,
        &GetMessagesRequest { token: "t".to_string(), conversation_id: conversation },
        Some(owner()),
    )
    .unwrap();
    assert_eq!(listed.data.len(), 2);
    assert_eq!(listed.data[0].content, "first");
    assert_eq!(listed.data[1].content, "second");
}

#[test]
fn duplicate_message_id_is_a_persistence_failure() {
    let mut store = seeded_store();
    let message = Message {
        id: ObjectId { hi: 100, lo: 1 },
        conversation: ObjectId { hi: 9, lo: 9 },
        sender: "user".to_string(),
        content: "hello".to_string(),
        timestamp: 1,
    };
    save_message_to_db(&mut store, message.clone()).unwrap();
    let again = save_message_to_db(&mut store, message);
    assert_eq!(again.unwrap_err().kind, ErrorKind::PersistenceFailure);
    assert_eq!(store.messages.len(), 1);
}

#[test]
fn decoder_extracts_and_unescapes_text_fields() {
    let mut decoder = StreamDecoder::new();
    let got = decoder.feed("data: {\"text\": \"Hello\\nWorld\"}");
    assert_eq!(got.as_deref(), Some("Hello\nWorld"));
    assert_eq!(decoder.accumulated(), "Hello\nWorld");
}

#[test]
fn decoder_ignores_chunks_without_a_text_field() {
    let mut decoder = StreamDecoder::new();
    assert!(decoder.feed("data: {\"status\": \"thinking\"}").is_none());
    assert_eq!(decoder.accumulated(), "");
}

#[test]
fn decoder_accumulates_fragments_in_order() {
    let mut decoder = StreamDecoder::new();
    decoder.feed("{\"text\": \"One \"}");
    decoder.feed("keepalive");
    decoder.feed("{\"text\": \"two\"}");
    assert_eq!(decoder.accumulated(), "One two");
}

#[test]
fn decoder_handles_escaped_quotes_and_backslashes() {
    let mut decoder = StreamDecoder::new();
    let got = decoder.feed("{\"text\": \"a \\\"quoted\\\" part and a \\\\ slash\"}");
    assert_eq!(got.as_deref(), Some("a \"quoted\" part and a \\ slash"));
}

#[test]
fn decoder_takes_a_truncated_value_to_the_chunk_end() {
    let mut decoder = StreamDecoder::new();
    let got = decoder.feed("{\"text\": \"cut off");
    assert_eq!(got.as_deref(), Some("cut off"));
}
