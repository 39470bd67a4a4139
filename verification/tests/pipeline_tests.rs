use aibook::api::{
    CompleteBookRequest, GenerateBookRequest, GenerateChapterContentRequest,
    GetBookForUserRequest, GetBooksForUserRequest, GetChaptersContentRequest, StoreBookRequest,
    UpdateBookContentRequest,
};
use aibook::error::ErrorKind;
use aibook::model::Book;
use aibook::oid::ObjectId;
use aibook::pipeline::{
    choose_cover, complete_book, fill_chapter, fill_if_missing, generate_chapter_content,
    generate_outline, get_book_for_user, get_books_for_user, list_chapters_for_book, store_book,
    update_book_content, FillDecision,
};
use aibook::store::Store;

const THREE_CHAPTER_OUTLINE: &str = "### Chapter 1: Getting Started\n\
**Estimated Duration:** 10 minutes\n\
* Install the toolchain\n\
### Chapter 2: Syntax\n\
**Estimated Duration:** 15 minutes\n\
* Variables\n\
### Chapter 3: Functions\n\
**Estimated Duration:** 20 minutes\n\
* Definitions\n";

fn go_basics_request() -> GenerateBookRequest {
    GenerateBookRequest {
        title: "Go Basics".to_string(),
        subtitle: "A primer".to_string(),
        token: "token".to_string(),
        model: "gemini-2.0-flash".to_string(),
        subtopics: 2,
        chapters: 3,
        language: "English".to_string(),
        max_length: 1000,
    }
}

fn some_user() -> ObjectId {
    ObjectId { hi: 7, lo: 9 }
}

#[test]
fn failed_outline_call_persists_nothing() {
    let mut store = Store::new();
    let r = generate_outline(
        &mut store,
        &go_basics_request(),
        Some(some_user()),
        Err("quota exceeded".to_string()),
        None,
        1000,
    );
    assert!(r.is_err());
    assert_eq!(r.unwrap_err().kind, ErrorKind::UpstreamGenerationFailure);
    assert_eq!(store.books.len(), 0);
    assert_eq!(store.chapters.len(), 0);
}

#[test]
fn unauthenticated_outline_request_is_rejected_before_anything() {
    let mut store = Store::new();
    let r = generate_outline(
        &mut store,
        &go_basics_request(),
        None,
        Ok(THREE_CHAPTER_OUTLINE.to_string()),
        None,
        1000,
    );
    assert_eq!(r.unwrap_err().kind, ErrorKind::NotAuthenticated);
    assert_eq!(store.books.len(), 0);
    assert_eq!(store.chapters.len(), 0);
}

#[test]
fn generated_outline_persists_book_and_empty_chapters() {
    let mut store = Store::new();
    let r = generate_outline(
        &mut store,
        &go_basics_request(),
        Some(some_user()),
        Ok(THREE_CHAPTER_OUTLINE.to_string()),
        None,
        1000,
    );
    let resp = r.unwrap();
    assert_eq!(resp.status, "success");
    let book = &resp.data.book;
    assert_eq!(book.title, "Go Basics");
    assert_eq!(book.subtitle.as_deref(), Some("A primer"));
    assert!(!book.completed);
    assert_eq!(resp.data.chapters.len(), 3);
    for c in &resp.data.chapters {
        assert_eq!(c.html, "");
        assert!(!c.completed);
        assert_eq!(c.language, "English");
        assert_eq!(c.book_id, book.id);
    }
    assert_eq!(resp.data.chapters[0].title, "Getting Started");
    assert_eq!(resp.data.chapters[0].estimated_duration, 10);
    assert_eq!(resp.data.chapters[0].markdown, "* Install the toolchain");
    assert_eq!(store.books.len(), 1);
    assert_eq!(store.chapters.len(), 3);
    assert!(!store.books[0].completed);
}

#[test]
fn fill_chapter_strips_fences_and_completes_the_row() {
    let mut store = Store::new();
    let resp = generate_outline(
        &mut store,
        &go_basics_request(),
        Some(some_user()),
        Ok(THREE_CHAPTER_OUTLINE.to_string()),
        None,
        1000,
    )
    .unwrap();
    let chapter_id = resp.data.chapters[0].id;
    let r = fill_chapter(
        &mut store,
        chapter_id,
        Ok("# Intro".to_string()),
        Ok("```html<p>Intro</p>```".to_string()),
        2000,
    );
    let filled = r.unwrap();
    assert_eq!(filled.data, "<p>Intro</p>");
    let row = store.find_chapter(chapter_id).unwrap();
    assert_eq!(row.html, "<p>Intro</p>");
    assert_eq!(row.markdown, "# Intro");
    assert!(row.completed);
    assert_eq!(row.updated_at, 2000);
    // The other chapters are untouched.
    let other = store.find_chapter(resp.data.chapters[1].id).unwrap();
    assert_eq!(other.html, "");
    assert!(!other.completed);
}

#[test]
fn failed_markdown_call_leaves_chapter_unfilled() {
    let mut store = Store::new();
    let resp = generate_outline(
        &mut store,
        &go_basics_request(),
        Some(some_user()),
        Ok(THREE_CHAPTER_OUTLINE.to_string()),
        None,
        1000,
    )
    .unwrap();
    let chapter_id = resp.data.chapters[0].id;
    let r = fill_chapter(
        &mut store,
        chapter_id,
        Err("timeout".to_string()),
        Ok("<p>ignored</p>".to_string()),
        2000,
    );
    assert_eq!(r.unwrap_err().kind, ErrorKind::UpstreamGenerationFailure);
    let row = store.find_chapter(chapter_id).unwrap();
    assert_eq!(row.html, "");
    assert!(!row.completed);
}

#[test]
fn failed_html_call_leaves_chapter_unfilled() {
    let mut store = Store::new();
    let resp = generate_outline(
        &mut store,
        &go_basics_request(),
        Some(some_user()),
        Ok(THREE_CHAPTER_OUTLINE.to_string()),
        None,
        1000,
    )
    .unwrap();
    let chapter_id = resp.data.chapters[0].id;
    let r = fill_chapter(
        &mut store,
        chapter_id,
        Ok("# Intro".to_string()),
        Err("quota".to_string()),
        2000,
    );
    assert_eq!(r.unwrap_err().kind, ErrorKind::UpstreamGenerationFailure);
    let row = store.find_chapter(chapter_id).unwrap();
    assert_eq!(row.html, "");
    assert_eq!(row.markdown, "* Install the toolchain");
}

#[test]
fn fill_of_unknown_chapter_is_not_found() {
    let mut store = Store::new();
    let r = fill_chapter(
        &mut store,
        ObjectId { hi: 1, lo: 1 },
        Ok("# Intro".to_string()),
        Ok("<p>Intro</p>".to_string()),
        2000,
    );
    assert_eq!(r.unwrap_err().kind, ErrorKind::NotFound);
}

#[test]
fn second_fill_if_missing_is_a_no_op_after_one_fill() {
    let mut store = Store::new();
    let resp = generate_outline(
        &mut store,
        &go_basics_request(),
        Some(some_user()),
        Ok(THREE_CHAPTER_OUTLINE.to_string()),
        None,
        1000,
    )
    .unwrap();
    let chapter_id = resp.data.chapters[0].id;
    let before = store.find_chapter(chapter_id).unwrap();
    // First read: the chapter is empty, so the driver is asked to generate
    // (the one pair of backend calls).
    match fill_if_missing(&before, "Go Basics") {
        FillDecision::NeedsFill(prompt) => {
            assert!(prompt.contains("Getting Started"));
            assert!(prompt.contains("Go Basics"));
        },
        FillDecision::AlreadyFilled(_) => panic!("an empty chapter must ask for a fill"),
    }
    fill_chapter(
        &mut store,
        chapter_id,
        Ok("# Intro".to_string()),
        Ok("<p>Intro</p>".to_string()),
        2000,
    )
    .unwrap();
    // Second read: the persisted content is returned, no generation call.
    let after = store.find_chapter(chapter_id).unwrap();
    match fill_if_missing(&after, "Go Basics") {
        FillDecision::AlreadyFilled(html) => assert_eq!(html, "<p>Intro</p>"),
        FillDecision::NeedsFill(_) => panic!("a filled chapter must not be regenerated"),
    }
}

#[test]
fn list_chapters_keeps_order_and_rejects_bad_ids() {
    let mut store = Store::new();
    let resp = generate_outline(
        &mut store,
        &go_basics_request(),
        Some(some_user()),
        Ok(THREE_CHAPTER_OUTLINE.to_string()),
        None,
        1000,
    )
    .unwrap();
    let hex = format!(
        "{:016x}{:08x}",
        resp.data.book.id.hi, resp.data.book.id.lo
    );
    let listed = list_chapters_for_book(
        &store,
        &GetChaptersContentRequest { book_id: hex },
    )
    .unwrap();
    assert_eq!(listed.len(), 3);
    assert_eq!(listed[0].title, "Getting Started");
    assert_eq!(listed[2].title, "Functions");
    let bad = list_chapters_for_book(
        &store,
        &GetChaptersContentRequest { book_id: "not-hex".to_string() },
    );
    assert_eq!(bad.unwrap_err().kind, ErrorKind::NotFound);
}

#[test]
fn store_book_persists_for_the_requester_only() {
    let mut store = Store::new();
    let req = StoreBookRequest {
        token: "token".to_string(),
        title: "Handwritten".to_string(),
        subtitle: "Notes".to_string(),
        content: "body".to_string(),
        book_type: Some("notes".to_string()),
        main_topic: Some("writing".to_string()),
    };
    let denied = store_book(&mut store, &req, None, None, 5);
    assert_eq!(denied.unwrap_err().kind, ErrorKind::NotAuthenticated);
    assert_eq!(store.books.len(), 0);
    let resp = store_book(
        &mut store,
        &req,
        Some(some_user()),
        Some("https://images.example/cover.png".to_string()),
        5,
    )
    .unwrap();
    assert_eq!(store.books.len(), 1);
    assert_eq!(store.books[0].id, resp.data.id);
    assert_eq!(store.books[0].title, "Handwritten");
    assert_eq!(
        store.books[0].cover.as_deref(),
        Some("https://images.example/cover.png")
    );
}

#[test]
fn complete_book_flips_the_flag_and_touches_the_timestamp() {
    let mut store = Store::new();
    let resp = generate_outline(
        &mut store,
        &go_basics_request(),
        Some(some_user()),
        Ok(THREE_CHAPTER_OUTLINE.to_string()),
        None,
        1000,
    )
    .unwrap();
    let r = complete_book(&mut store, &CompleteBookRequest { book_id: resp.data.book.id }, 4000);
    assert_eq!(r.unwrap().status, "success");
    assert!(store.books[0].completed);
    assert_eq!(store.books[0].updated_at, 4000);
}

#[test]
fn update_book_content_touches_only_valid_ids() {
    let mut store = Store::new();
    let bad = update_book_content(
        &mut store,
        &UpdateBookContentRequest {
            token: "t".to_string(),
            book_id: "zz".to_string(),
            new_content: "edited".to_string(),
        },
        9,
    );
    assert_eq!(bad.unwrap_err().kind, ErrorKind::NotFound);
    let resp = generate_outline(
        &mut store,
        &go_basics_request(),
        Some(some_user()),
        Ok(THREE_CHAPTER_OUTLINE.to_string()),
        None,
        1000,
    )
    .unwrap();
    let hex = format!("{:016x}{:08x}", resp.data.book.id.hi, resp.data.book.id.lo);
    let ok = update_book_content(
        &mut store,
        &UpdateBookContentRequest {
            token: "t".to_string(),
            book_id: hex,
            new_content: "edited".to_string(),
        },
        9000,
    );
    assert_eq!(ok.unwrap().status, "success");
    assert_eq!(store.books[0].updated_at, 9000);
}

#[test]
fn books_are_listed_per_user() {
    let mut store = Store::new();
    let user_a = ObjectId { hi: 1, lo: 0 };
    let user_b = ObjectId { hi: 2, lo: 0 };
    generate_outline(
        &mut store,
        &go_basics_request(),
        Some(user_a),
        Ok(THREE_CHAPTER_OUTLINE.to_string()),
        None,
        1000,
    )
    .unwrap();
    let for_a = get_books_for_user(&store, &GetBooksForUserRequest { token: "t".to_string() }, Some(user_a))
        .unwrap();
    assert_eq!(for_a.data.len(), 1);
    let for_b = get_books_for_user(&store, &GetBooksForUserRequest { token: "t".to_string() }, Some(user_b))
        .unwrap();
    assert_eq!(for_b.data.len(), 0);
    let anon = get_books_for_user(&store, &GetBooksForUserRequest { token: "t".to_string() }, None);
    assert_eq!(anon.unwrap_err().kind, ErrorKind::NotAuthenticated);
}

#[test]
fn a_book_of_another_user_is_not_found() {
    let mut store = Store::new();
    let owner = ObjectId { hi: 1, lo: 0 };
    let stranger = ObjectId { hi: 2, lo: 0 };
    let book = Book {
        id: ObjectId { hi: 0x0102030405060708, lo: 0x090a0b0c },
        user: owner,
        title: "Private".to_string(),
        subtitle: None,
        book_type: None,
        main_topic: None,
        completed: false,
        cover: None,
        created_at: 1,
        updated_at: 1,
    };
    store.insert_book(book).unwrap();
    let req = GetBookForUserRequest {
        token: "t".to_string(),
        book_id: "0102030405060708090a0b0c".to_string(),
    };
    let mine = get_book_for_user(&store, &req, Some(owner)).unwrap();
    assert_eq!(mine.data.title, "Private");
    let theirs = get_book_for_user(&store, &req, Some(stranger));
    assert_eq!(theirs.unwrap_err().kind, ErrorKind::NotFound);
}

#[test]
fn cover_choice_picks_from_the_results() {
    let empty: Vec<String> = Vec::new();
    assert!(choose_cover(&empty).is_none());
    let one = vec!["https://images.example/a.png".to_string()];
    assert_eq!(choose_cover(&one).as_deref(), Some("https://images.example/a.png"));
    let many = vec!["u1".to_string(), "u2".to_string(), "u3".to_string()];
    let picked = choose_cover(&many).unwrap();
    assert!(many.contains(&picked));
}

#[test]
fn outline_without_markers_persists_a_book_with_no_chapters() {
    // A reportable anomaly, not an error: the caller gets an empty chapter
    // list and can decide to retry the outline call.
    let mut store = Store::new();
    let r = generate_outline(
        &mut store,
        &go_basics_request(),
        Some(some_user()),
        Ok("The model ignored the expected format entirely.".to_string()),
        None,
        1000,
    );
    let resp = r.unwrap();
    assert_eq!(resp.data.chapters.len(), 0);
    assert_eq!(store.books.len(), 1);
    assert_eq!(store.chapters.len(), 0);
}

#[test]
fn chapter_generation_for_unknown_chapter_is_not_found() {
    let mut store = Store::new();
    let req = GenerateChapterContentRequest {
        chapter_title: "Getting Started".to_string(),
        chapter_id: ObjectId { hi: 42, lo: 42 },
        book_title: "Go Basics".to_string(),
        main_topic: "* setup".to_string(),
        language: "English".to_string(),
        model: "gemini-2.0-flash".to_string(),
    };
    let r = generate_chapter_content(
        &mut store,
        &req,
        Ok("# Intro".to_string()),
        Ok("<p>Intro</p>".to_string()),
        2000,
    );
    assert_eq!(r.unwrap_err().kind, ErrorKind::NotFound);
    assert_eq!(store.chapters.len(), 0);
}
