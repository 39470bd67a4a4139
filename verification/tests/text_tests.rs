use aibook::analytics::analytics_counts;
use aibook::api::AIRequest;
use aibook::error::ErrorKind;
use aibook::model::Book;
use aibook::oid::{parse_object_id, ObjectId};
use aibook::pipeline::{
    ai_action_prompt, current_timestamp, extend_text, regenerate_text, summarize_text,
};
use aibook::prompts::{
    chapter_html_prompt, chapter_markdown_prompt, chat_prompt, extend_prompt, outline_prompt,
    rephrase_prompt, summarize_prompt,
};
use aibook::store::Store;
use aibook::text::{strip_code_fences, trim, u64_to_string};
use aibook::validate::{validate_email, validate_input, validate_name, validate_password};

#[test]
fn html_prompt_embeds_the_markdown_verbatim() {
    let markdown = "# Intro\n\nSome *markdown* with 'quotes' and <tags>.";
    let prompt = chapter_html_prompt(markdown, "English");
    assert!(prompt.contains(markdown));
    assert!(prompt.contains("' in English."));
}

#[test]
fn outline_prompt_embeds_every_request_field() {
    let prompt = outline_prompt("Go Basics", "A primer", 3, 2, "English");
    assert!(prompt.contains("'Go Basics'"));
    assert!(prompt.contains("'A primer'"));
    assert!(prompt.contains("3 chapters covering 2 subtopics"));
    assert!(prompt.contains("in English"));
    assert!(prompt.contains("### Chapter [number]: [Chapter Title]"));
}

#[test]
fn markdown_prompt_embeds_chapter_and_book() {
    let prompt = chapter_markdown_prompt("Getting Started", "Go Basics", "* setup", "English");
    assert!(prompt.contains("'Getting Started'"));
    assert!(prompt.contains("'Go Basics'"));
    assert!(prompt.contains("'* setup'"));
}

#[test]
fn chat_prompt_embeds_title_chapter_and_query_twice() {
    let prompt = chat_prompt("Go Basics", "<p>Intro</p>", "what is this?");
    assert!(prompt.contains("Go Basics"));
    assert!(prompt.contains("<p>Intro</p>"));
    assert_eq!(prompt.matches("what is this?").count(), 2);
}

#[test]
fn editing_prompts_wrap_the_selection() {
    assert_eq!(summarize_prompt("abc"), "Summarize the following text: 'abc'");
    assert_eq!(rephrase_prompt("abc"), "Rephrase the following text: 'abc'");
    assert_eq!(
        extend_prompt("abc"),
        "Expand on the following text with additional details: 'abc'"
    );
}

#[test]
fn numbers_are_written_in_decimal() {
    assert_eq!(u64_to_string(0), "0");
    assert_eq!(u64_to_string(7), "7");
    assert_eq!(u64_to_string(42), "42");
    assert_eq!(u64_to_string(18446744073709551615), "18446744073709551615");
}

#[test]
fn fences_are_stripped_and_content_trimmed() {
    assert_eq!(strip_code_fences("```html<p>x</p>```"), "<p>x</p>");
    assert_eq!(strip_code_fences("```html\n<p>x</p>\n```"), "<p>x</p>");
    assert_eq!(strip_code_fences("```html```html<p>x</p>``````"), "<p>x</p>");
    assert_eq!(strip_code_fences("<p>x</p>"), "<p>x</p>");
    assert_eq!(strip_code_fences("  <p>x</p>  "), "<p>x</p>");
    assert_eq!(strip_code_fences(""), "");
}

#[test]
fn trim_removes_whitespace_at_both_ends_only() {
    assert_eq!(trim(" \t a b \n"), "a b");
    assert_eq!(trim(""), "");
    assert_eq!(trim("   "), "");
}

#[test]
fn object_ids_parse_exactly_the_24_hex_strings() {
    assert_eq!(
        parse_object_id("000000000000000100000002"),
        Some(ObjectId { hi: 1, lo: 2 })
    );
    assert_eq!(
        parse_object_id("0102030405060708090a0b0c"),
        Some(ObjectId { hi: 0x0102030405060708, lo: 0x090a0b0c })
    );
    // Both letter cases are accepted.
    assert_eq!(
        parse_object_id("00000000000000010000000A"),
        Some(ObjectId { hi: 1, lo: 10 })
    );
    assert!(parse_object_id("").is_none());
    assert!(parse_object_id("0102030405060708090a0b").is_none());
    assert!(parse_object_id("0102030405060708090a0b0c0d").is_none());
    assert!(parse_object_id("0102030405060708090a0bzz").is_none());
}

#[test]
fn fresh_object_ids_differ_within_a_process() {
    let a = ObjectId::fresh();
    let b = ObjectId::fresh();
    assert_ne!(a, b);
}

#[test]
fn timestamps_are_after_the_unix_epoch() {
    assert!(current_timestamp() > 0);
}

#[test]
fn required_fields_reject_only_the_empty_string() {
    assert!(!validate_input("".to_string()));
    assert!(validate_input("x".to_string()));
    assert!(!validate_name("".to_string()));
    assert!(validate_name("Ada".to_string()));
    assert!(!validate_password("".to_string()));
    assert!(validate_password("secret".to_string()));
}

#[test]
fn emails_must_have_an_at_a_dot_and_a_short_lowercase_ending() {
    assert!(validate_email("a@b.co".to_string()));
    assert!(validate_email("oss@wiseai.dev".to_string()));
    assert!(validate_email("first.last@sub.example.org".to_string()));
    assert!(!validate_email("".to_string()));
    assert!(!validate_email("a@b.c".to_string()));
    assert!(!validate_email("a@b.info".to_string()));
    assert!(!validate_email("a b@c.de".to_string()));
    assert!(!validate_email("@b.co".to_string()));
    assert!(!validate_email("a@.co".to_string()));
    assert!(!validate_email("a@b.CO".to_string()));
    assert!(!validate_email("no-at-sign.example.com@".to_string()));
}

#[test]
fn analytics_count_books_chapters_and_durations() {
    let mut store = Store::new();
    let counts = analytics_counts(&store);
    assert_eq!(counts.total_books, 0);
    assert_eq!(counts.total_chapters, 0);
    assert_eq!(counts.total_duration, 0);
    assert_eq!(counts.trending_topic, "Unknown");
    store
        .insert_book(sample_book(1, Some("rust"), ObjectId { hi: 1, lo: 1 }))
        .unwrap();
    store
        .insert_book(sample_book(2, Some("go"), ObjectId { hi: 1, lo: 2 }))
        .unwrap();
    store
        .insert_book(sample_book(3, Some("rust"), ObjectId { hi: 1, lo: 3 }))
        .unwrap();
    store
        .insert_book(sample_book(4, None, ObjectId { hi: 1, lo: 4 }))
        .unwrap();
    let counts = analytics_counts(&store);
    assert_eq!(counts.total_books, 4);
    assert_eq!(counts.trending_topic, "rust");
}

fn sample_book(n: i64, topic: Option<&str>, id: ObjectId) -> Book {
    Book {
        id,
        user: ObjectId { hi: 0, lo: 1 },
        title: format!("Book {}", n),
        subtitle: None,
        book_type: None,
        main_topic: topic.map(|t| t.to_string()),
        completed: false,
        cover: None,
        created_at: n,
        updated_at: n,
    }
}

#[test]
fn assistant_actions_wrap_the_backend_outcome() {
    let req = AIRequest { token: "t".to_string(), text: "a draft".to_string() };
    let ok = summarize_text(&req, Ok("a summary".to_string())).unwrap();
    assert_eq!(ok.data, "a summary");
    let err = regenerate_text(&req, Err("quota".to_string()));
    assert_eq!(err.unwrap_err().kind, ErrorKind::UpstreamGenerationFailure);
    let ok2 = extend_text(&req, Ok("a longer draft".to_string())).unwrap();
    assert_eq!(ok2.data, "a longer draft");
    assert_eq!(
        ai_action_prompt("summarize", "abc").as_deref(),
        Some("Summarize the following text: 'abc'")
    );
    assert_eq!(
        ai_action_prompt("regenerate", "abc").as_deref(),
        Some("Rephrase the following text: 'abc'")
    );
    assert_eq!(
        ai_action_prompt("extend", "abc").as_deref(),
        Some("Expand on the following text with additional details: 'abc'")
    );
    assert!(ai_action_prompt("translate", "abc").is_none());
}
