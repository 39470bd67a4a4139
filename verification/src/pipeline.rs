//! The book-generation pipeline: turn a generation request into a
//! persisted book skeleton, then fill each chapter in two sequential
//! stages. The calls into the text-completion backend, the cover lookup
//! and the authentication check are performed by the surrounding driver;
//! each function here takes their outcomes as arguments and states exactly
//! what is returned and persisted for every outcome, so the pipeline's
//! decisions are verified for every behavior of the collaborators.

use vstd::prelude::*;

use crate::api::{
    AIRequest, BookResponse, CompleteBookRequest, GenerateBookOutlineResponse,
    GenerateBookRequest, GenerateChapterContentRequest, GetBookForUserRequest,
    GetBooksForUserRequest, GetChaptersContentRequest, StoreBookRequest, SuccessResponse,
    UpdateBookContentRequest,
};
use crate::error::{Error, ErrorKind};
use crate::model::{
    book_views, chapter_views, lemma_chapter_views_push, opt_view, Book, Chapter, ChapterView,
};
use crate::oid::{is_oid_hex, oid_of_hex, parse_object_id, ObjectId};
use crate::outline::{entry_views, outline_view, ChapterOutline, ChapterOutlineView, OutlineParser};
use crate::prompts::{
    chapter_markdown_prompt, chapter_markdown_prompt_text, extend_prompt, extend_prompt_text,
    rephrase_prompt, rephrase_prompt_text, summarize_prompt, summarize_prompt_text,
};
use crate::store::{
    book_chapters, complete_book_views, fill_chapter_views, spec_find_book, spec_has_chapter,
    touch_book_views, Store, StoreView,
};
use crate::text::{spec_strip_fences, str_eq, strip_code_fences};

verus! {

/// Relies on `chrono::Utc::now`: the current time as seconds since the
/// Unix epoch. Nothing can be promised of the value, which depends on the
/// machine's clock.
#[verifier::external_body]
fn current_time_raw() -> i64 {
    chrono::Utc::now().timestamp()
}

/// The current time in seconds since the Unix epoch, for stamping records.
pub fn current_timestamp() -> i64 {
    current_time_raw()
}

/// Relies on `rand::random_range`: a uniformly random index below `n`. It
/// panics only on an empty range, which the precondition rules out.
#[verifier::external_body]
fn random_below(n: usize) -> (r: usize)
    requires
        n >= 1,
    ensures
        r < n,
{
    rand::random_range(0..n)
}

/// Pick a cover image at random from the lookup's results; no result, no
/// cover (which is not fatal to generation).
pub fn choose_cover(urls: &Vec<String>) -> (r: Option<String>)
    ensures
        r is None <==> urls@.len() == 0,
        r is Some ==> exists|i: int| 0 <= i < urls@.len() && r->Some_0@ == urls@[i]@,
{
    if urls.len() == 0 {
        None
    } else {
        let i = random_below(urls.len());
        let picked = urls[i].clone();
        assert(picked@ == urls@[i as int]@);
        Some(picked)
    }
}

/// Do these chapter records realize these outline entries for this book:
/// same order, titles, durations and summaries, empty html, not completed,
/// the book's id and language, and fresh timestamps?
pub open spec fn chapters_match_outline(
    cs: Seq<ChapterView>,
    entries: Seq<ChapterOutlineView>,
    book: ObjectId,
    language: Seq<char>,
    now: i64,
) -> bool {
    &&& cs.len() == entries.len()
    &&& forall|k: int|
        0 <= k < cs.len() ==> {
            &&& (#[trigger] cs[k]).book_id == book
            &&& cs[k].title == entries[k].title
            &&& cs[k].estimated_duration == entries[k].estimated_duration
            &&& cs[k].markdown == entries[k].summary
            &&& cs[k].html.len() == 0
            &&& !cs[k].completed
            &&& cs[k].language == language
            &&& cs[k].created_at == now
            &&& cs[k].updated_at == now
        }
}

/// Build the chapter records for parsed outline entries, each with a fresh
/// id, empty html, and `completed` false.
fn chapters_from_outline(
    entries: &Vec<ChapterOutline>,
    book: ObjectId,
    language: &String,
    now: i64,
) -> (r: (Vec<Chapter>, Vec<Chapter>))
    ensures
        chapters_match_outline(chapter_views(r.0@), entry_views(entries@), book, language@, now),
        chapter_views(r.1@) == chapter_views(r.0@),
{
    let n = entries.len();
    let mut cs: Vec<Chapter> = Vec::new();
    let mut copies: Vec<Chapter> = Vec::new();
    let mut k: usize = 0;
    while k < n
        invariant
            0 <= k <= n,
            n == entries@.len(),
            chapter_views(cs@).len() == k,
            chapters_match_outline(
                chapter_views(cs@),
                entry_views(entries@).subrange(0, k as int),
                book,
                language@,
                now,
            ),
            chapter_views(copies@) == chapter_views(cs@),
        decreases n - k,
    {
        assert(entry_views(entries@)[k as int] == entries@[k as int]@);
        let entry = &entries[k];
        let c = Chapter {
            id: ObjectId::fresh(),
            book_id: book,
            title: entry.title.clone(),
            estimated_duration: entry.estimated_duration,
            markdown: entry.summary.clone(),
            language: language.clone(),
            html: String::new(),
            completed: false,
            created_at: now,
            updated_at: now,
        };
        let copy = c.clone();
        let ghost pre = cs@;
        let ghost prec = copies@;
        proof {
            lemma_chapter_views_push(pre, c);
            lemma_chapter_views_push(prec, copy);
            assert(entry_views(entries@).subrange(0, k + 1) =~= entry_views(entries@).subrange(
                0,
                k as int,
            ).push(entries@[k as int]@));
        }
        cs.push(c);
        copies.push(copy);
        k += 1;
    }
    proof {
        assert(entry_views(entries@).subrange(0, n as int) =~= entry_views(entries@));
    }
    (cs, copies)
}

/// Orchestrate one outline generation: authenticate, take the backend's
/// outline text, parse it, and persist one book and its chapter skeletons
/// together.
///
/// `requester` is the authentication collaborator's outcome, `outline` the
/// text-completion outcome for the outline prompt, and `cover` the cover
/// lookup's outcome (a failed lookup arrives as `None` and is not fatal).
/// If the requester is unknown, or the outline call failed, or the minted
/// ids collide with the store, nothing is persisted.
pub fn generate_outline(
    store: &mut Store,
    req: &GenerateBookRequest,
    requester: Option<ObjectId>,
    outline: Result<String, String>,
    cover: Option<String>,
    now: i64,
) -> (r: Result<SuccessResponse<GenerateBookOutlineResponse>, Error>)
    requires
        old(store).wf(),
    ensures
        final(store).wf(),
        requester is None ==> r is Err && r->Err_0.kind == ErrorKind::NotAuthenticated && final(store)@ == old(store)@,
        requester is Some && outline is Err ==> r is Err && r->Err_0.kind
            == ErrorKind::UpstreamGenerationFailure && r->Err_0.message@ == outline->Err_0@
            && final(store)@ == old(store)@,
        requester is Some && outline is Ok ==> match r {
            Ok(resp) => {
                &&& resp.status@ == "success"@
                &&& resp.data.book@.user == requester->Some_0
                &&& resp.data.book@.title == req.title@
                &&& resp.data.book@.subtitle == Some(req.subtitle@)
                &&& resp.data.book@.book_type == Some(req.title@)
                &&& resp.data.book@.main_topic == Some(req.title@)
                &&& !resp.data.book@.completed
                &&& resp.data.book@.cover == opt_view(cover)
                &&& resp.data.book@.created_at == now
                &&& resp.data.book@.updated_at == now
                &&& chapters_match_outline(
                    chapter_views(resp.data.chapters@),
                    outline_view(outline->Ok_0@),
                    resp.data.book@.id,
                    req.language@,
                    now,
                )
                &&& final(store)@ == (StoreView {
                    books: old(store)@.books.push(resp.data.book@),
                    chapters: old(store)@.chapters + chapter_views(resp.data.chapters@),
                    ..old(store)@
                })
            },
            Err(e) => e.kind == ErrorKind::PersistenceFailure && final(store)@ == old(store)@,
        },
{
    let user = match requester {
        Some(u) => u,
        None => {
            return Err(Error::new(ErrorKind::NotAuthenticated, "Not Authenticated"));
        },
    };
    let text = match outline {
        Ok(t) => t,
        Err(m) => {
            return Err(Error { kind: ErrorKind::UpstreamGenerationFailure, message: m });
        },
    };
    let entries = OutlineParser::parse(text.as_str());
    let book_id = ObjectId::fresh();
    let book = Book {
        id: book_id,
        user,
        title: req.title.clone(),
        subtitle: Some(req.subtitle.clone()),
        book_type: Some(req.title.clone()),
        main_topic: Some(req.title.clone()),
        completed: false,
        cover,
        created_at: now,
        updated_at: now,
    };
    let resp_book = book.clone();
    let (chapters, resp_chapters) = chapters_from_outline(&entries, book_id, &req.language, now);
    match store.insert_book_with_chapters(book, chapters) {
        Ok(()) => Ok(
            SuccessResponse {
                status: "success".to_owned(),
                data: GenerateBookOutlineResponse { chapters: resp_chapters, book: resp_book },
            },
        ),
        Err(e) => Err(e),
    }
}

/// The read-path decision for one chapter: already-filled content is
/// returned as it stands and triggers no generation; an empty `html` asks
/// the driver to run the two-stage fill, starting from this prompt.
pub enum FillDecision {
    /// The chapter's html, exactly as persisted.
    AlreadyFilled(String),
    /// The markdown-generation prompt for the chapter's fill.
    NeedsFill(String),
}

/// Decide whether a chapter needs its content filled in. Once a chapter is
/// filled, re-reading it never triggers regeneration.
pub fn fill_if_missing(chapter: &Chapter, book_title: &str) -> (r: FillDecision)
    ensures
        chapter@.html.len() > 0 ==> (r matches FillDecision::AlreadyFilled(h) && h@
            == chapter@.html),
        chapter@.html.len() == 0 ==> (r matches FillDecision::NeedsFill(p) && p@
            == chapter_markdown_prompt_text(
            chapter@.title,
            book_title@,
            chapter@.markdown,
            chapter@.language,
        )),
{
    if chapter.html.as_str().unicode_len() > 0 {
        FillDecision::AlreadyFilled(chapter.html.clone())
    } else {
        FillDecision::NeedsFill(
            chapter_markdown_prompt(
                chapter.title.as_str(),
                book_title,
                chapter.markdown.as_str(),
                chapter.language.as_str(),
            ),
        )
    }
}

/// Persist one chapter's two-stage fill. `markdown` is the outcome of the
/// markdown-generation call and `html` the outcome of the HTML-conversion
/// call issued after it; if either failed, the chapter stays as it was.
/// The stored html has its code fences stripped, and markdown, html,
/// `completed` and the timestamp are written together, or nothing is.
pub fn fill_chapter(
    store: &mut Store,
    chapter_id: ObjectId,
    markdown: Result<String, String>,
    html: Result<String, String>,
    now: i64,
) -> (r: Result<SuccessResponse<String>, Error>)
    requires
        old(store).wf(),
    ensures
        final(store).wf(),
        markdown is Err ==> r is Err && r->Err_0.kind == ErrorKind::UpstreamGenerationFailure
            && final(store)@ == old(store)@,
        markdown is Ok && html is Err ==> r is Err && r->Err_0.kind
            == ErrorKind::UpstreamGenerationFailure && final(store)@ == old(store)@,
        markdown is Ok && html is Ok ==> if spec_has_chapter(old(store)@.chapters, chapter_id) {
            match r {
                Ok(resp) => {
                    &&& resp.status@ == "success"@
                    &&& resp.data@ == spec_strip_fences(html->Ok_0@)
                    &&& final(store)@ == (StoreView {
                        chapters: fill_chapter_views(
                            old(store)@.chapters,
                            chapter_id,
                            markdown->Ok_0@,
                            spec_strip_fences(html->Ok_0@),
                            now,
                        ),
                        ..old(store)@
                    })
                },
                Err(e) => false,
            }
        } else {
            r is Err && r->Err_0.kind == ErrorKind::NotFound && final(store)@ == old(store)@
        },
{
    let md = match markdown {
        Ok(m) => m,
        Err(msg) => {
            return Err(Error { kind: ErrorKind::UpstreamGenerationFailure, message: msg });
        },
    };
    let raw = match html {
        Ok(h) => h,
        Err(msg) => {
            return Err(Error { kind: ErrorKind::UpstreamGenerationFailure, message: msg });
        },
    };
    let stripped = strip_code_fences(raw.as_str());
    let echo = stripped.clone();
    match store.fill_chapter_record(chapter_id, md, stripped, now) {
        Ok(()) => Ok(SuccessResponse { status: "success".to_owned(), data: echo }),
        Err(e) => Err(e),
    }
}

/// The original entry point for one chapter's generation: the two
/// completion outcomes for the chapter named by the request.
pub fn generate_chapter_content(
    store: &mut Store,
    req: &GenerateChapterContentRequest,
    markdown: Result<String, String>,
    html: Result<String, String>,
    now: i64,
) -> (r: Result<SuccessResponse<String>, Error>)
    requires
        old(store).wf(),
    ensures
        final(store).wf(),
        markdown is Err ==> r is Err && r->Err_0.kind == ErrorKind::UpstreamGenerationFailure
            && final(store)@ == old(store)@,
        markdown is Ok && html is Err ==> r is Err && r->Err_0.kind
            == ErrorKind::UpstreamGenerationFailure && final(store)@ == old(store)@,
        markdown is Ok && html is Ok && spec_has_chapter(old(store)@.chapters, req.chapter_id)
            ==> r is Ok && r->Ok_0.status@ == "success"@ && r->Ok_0.data@ == spec_strip_fences(
            html->Ok_0@,
        ) && final(store)@ == (StoreView {
            chapters: fill_chapter_views(
                old(store)@.chapters,
                req.chapter_id,
                markdown->Ok_0@,
                spec_strip_fences(html->Ok_0@),
                now,
            ),
            ..old(store)@
        }),
        markdown is Ok && html is Ok && !spec_has_chapter(old(store)@.chapters, req.chapter_id)
            ==> r is Err && r->Err_0.kind == ErrorKind::NotFound && final(store)@ == old(store)@,
{
    fill_chapter(store, req.chapter_id, markdown, html, now)
}

/// All chapters of one book, in insertion order; the driver runs
/// [`fill_if_missing`] over them to fill any that are still empty.
pub fn list_chapters_for_book(store: &Store, req: &GetChaptersContentRequest) -> (r: Result<
    Vec<Chapter>,
    Error,
>)
    ensures
        is_oid_hex(req.book_id@) ==> r is Ok && chapter_views(r->Ok_0@) == book_chapters(
            store@.chapters,
            oid_of_hex(req.book_id@),
        ),
        !is_oid_hex(req.book_id@) ==> r is Err && r->Err_0.kind == ErrorKind::NotFound,
{
    let book_id = match parse_object_id(req.book_id.as_str()) {
        Some(id) => id,
        None => {
            return Err(Error::new(ErrorKind::NotFound, "Invalid book ID"));
        },
    };
    Ok(store.chapters_of_book(book_id))
}

/// Store one already-written book for the requester, with the cover the
/// lookup returned (a failed lookup arrives as `None`).
pub fn store_book(
    store: &mut Store,
    req: &StoreBookRequest,
    requester: Option<ObjectId>,
    cover: Option<String>,
    now: i64,
) -> (r: Result<SuccessResponse<BookResponse>, Error>)
    requires
        old(store).wf(),
    ensures
        final(store).wf(),
        requester is None ==> r is Err && r->Err_0.kind == ErrorKind::NotAuthenticated && final(store)@ == old(store)@,
        requester is Some ==> match r {
            Ok(resp) => {
                &&& resp.status@ == "success"@
                &&& final(store)@.books.len() == old(store)@.books.len() + 1
                &&& final(store)@ == (StoreView {
                    books: old(store)@.books.push(final(store)@.books.last()),
                    ..old(store)@
                })
                &&& final(store)@.books.last().id == resp.data.id
                &&& final(store)@.books.last().user == requester->Some_0
                &&& final(store)@.books.last().title == req.title@
                &&& final(store)@.books.last().subtitle == Some(req.subtitle@)
                &&& final(store)@.books.last().book_type == opt_view(req.book_type)
                &&& final(store)@.books.last().main_topic == opt_view(req.main_topic)
                &&& !final(store)@.books.last().completed
                &&& final(store)@.books.last().cover == opt_view(cover)
                &&& final(store)@.books.last().created_at == now
                &&& final(store)@.books.last().updated_at == now
            },
            Err(e) => e.kind == ErrorKind::PersistenceFailure && final(store)@ == old(store)@,
        },
{
    let user = match requester {
        Some(u) => u,
        None => {
            return Err(Error::new(ErrorKind::NotAuthenticated, "Not Authenticated"));
        },
    };
    let book = Book {
        id: ObjectId::fresh(),
        user,
        title: req.title.clone(),
        subtitle: Some(req.subtitle.clone()),
        book_type: crate::model::clone_opt_string(&req.book_type),
        main_topic: crate::model::clone_opt_string(&req.main_topic),
        completed: false,
        cover,
        created_at: now,
        updated_at: now,
    };
    let id = book.id;
    match store.insert_book(book) {
        Ok(()) => Ok(
            SuccessResponse { status: "success".to_owned(), data: BookResponse { id } },
        ),
        Err(e) => Err(e),
    }
}

/// Mark one book completed; a missing id changes nothing and still
/// reports success, as the underlying update does.
pub fn complete_book(store: &mut Store, req: &CompleteBookRequest, now: i64) -> (r: Result<
    SuccessResponse<String>,
    Error,
>)
    requires
        old(store).wf(),
    ensures
        final(store).wf(),
        r is Ok && r->Ok_0.status@ == "success"@,
        final(store)@ == (StoreView {
            books: complete_book_views(old(store)@.books, req.book_id, now),
            ..old(store)@
        }),
{
    let _found = store.complete_book_record(req.book_id, now);
    Ok(SuccessResponse { status: "success".to_owned(), data: "Book marked as completed".to_owned() })
}

/// Refresh one book's `updated_at` after its content was edited; an
/// invalid id is rejected before any write.
pub fn update_book_content(store: &mut Store, req: &UpdateBookContentRequest, now: i64) -> (r:
    Result<SuccessResponse<String>, Error>)
    requires
        old(store).wf(),
    ensures
        final(store).wf(),
        !is_oid_hex(req.book_id@) ==> r is Err && r->Err_0.kind == ErrorKind::NotFound && final(store)@ == old(store)@,
        is_oid_hex(req.book_id@) ==> r is Ok && r->Ok_0.status@ == "success"@ && final(store)@ == (StoreView {
            books: touch_book_views(old(store)@.books, oid_of_hex(req.book_id@), now),
            ..old(store)@
        }),
{
    let book_id = match parse_object_id(req.book_id.as_str()) {
        Some(id) => id,
        None => {
            return Err(Error::new(ErrorKind::NotFound, "Invalid book ID"));
        },
    };
    let _found = store.touch_book_record(book_id, now);
    Ok(SuccessResponse { status: "success".to_owned(), data: "Book updated successfully".to_owned() })
}

/// All books the requester owns.
pub fn get_books_for_user(
    store: &Store,
    _req: &GetBooksForUserRequest,
    requester: Option<ObjectId>,
) -> (r: Result<SuccessResponse<Vec<Book>>, Error>)
    ensures
        requester is None ==> r is Err && r->Err_0.kind == ErrorKind::NotAuthenticated,
        requester is Some ==> r is Ok && r->Ok_0.status@ == "success"@
            && book_views(r->Ok_0.data@) == crate::store::user_books(
            store@.books,
            requester->Some_0,
        ),
{
    let user = match requester {
        Some(u) => u,
        None => {
            return Err(Error::new(ErrorKind::NotAuthenticated, "Not Authenticated"));
        },
    };
    Ok(SuccessResponse { status: "success".to_owned(), data: store.books_of_user(user) })
}

/// One book the requester owns; a book of another user is not found.
pub fn get_book_for_user(
    store: &Store,
    req: &GetBookForUserRequest,
    requester: Option<ObjectId>,
) -> (r: Result<SuccessResponse<Book>, Error>)
    requires
        store.wf(),
    ensures
        requester is None ==> r is Err && r->Err_0.kind == ErrorKind::NotAuthenticated,
        requester is Some ==> {
            if !is_oid_hex(req.book_id@) {
                r is Err && r->Err_0.kind == ErrorKind::NotFound
            } else {
                match spec_find_book(store@.books, oid_of_hex(req.book_id@), requester->Some_0) {
                    Some(b) => r is Ok && r->Ok_0.status@ == "success"@ && r->Ok_0.data@ == b,
                    None => r is Err && r->Err_0.kind == ErrorKind::NotFound,
                }
            }
        },
{
    let user = match requester {
        Some(u) => u,
        None => {
            return Err(Error::new(ErrorKind::NotAuthenticated, "Not Authenticated"));
        },
    };
    let book_id = match parse_object_id(req.book_id.as_str()) {
        Some(id) => id,
        None => {
            return Err(Error::new(ErrorKind::NotFound, "Invalid book ID"));
        },
    };
    match store.find_book(book_id, user) {
        Some(b) => Ok(SuccessResponse { status: "success".to_owned(), data: b }),
        None => Err(Error::new(ErrorKind::NotFound, "Book not found")),
    }
}

/// Once a chapter's fill has persisted non-empty html, the read path's
/// decision for it is `AlreadyFilled`: a second pass over the same chapter
/// issues no further generation calls, so one fill costs exactly one pair
/// of backend calls. (Generated html so empty that stripping its fences
/// leaves nothing would be regenerated on the next read; such an outcome
/// is excluded here.)
pub proof fn lemma_fill_idempotent(
    cs: Seq<ChapterView>,
    id: ObjectId,
    md: Seq<char>,
    html: Seq<char>,
    now: i64,
)
    requires
        html.len() > 0,
    ensures
        forall|k: int|
            0 <= k < fill_chapter_views(cs, id, md, html, now).len() && (#[trigger] fill_chapter_views(
                cs,
                id,
                md,
                html,
                now,
            )[k]).id == id ==> fill_chapter_views(cs, id, md, html, now)[k].html.len() > 0,
{
    let filled = fill_chapter_views(cs, id, md, html, now);
    assert forall|k: int| 0 <= k < filled.len() && (#[trigger] filled[k]).id == id implies
        filled[k].html.len() > 0 by {
        if cs[k].id == id {
        } else {
            assert(filled[k] == cs[k]);
        }
    }
}

/// Wrap one editing-assistant outcome: the backend's text on success, its
/// failure as an upstream error.
fn wrap_assist(completion: Result<String, String>) -> (r: Result<SuccessResponse<String>, Error>)
    ensures
        completion is Ok ==> r is Ok && r->Ok_0.status@ == "success"@ && r->Ok_0.data@
            == completion->Ok_0@,
        completion is Err ==> r is Err && r->Err_0.kind == ErrorKind::UpstreamGenerationFailure
            && r->Err_0.message@ == completion->Err_0@,
{
    match completion {
        Ok(text) => Ok(SuccessResponse { status: "success".to_owned(), data: text }),
        Err(msg) => Err(Error { kind: ErrorKind::UpstreamGenerationFailure, message: msg }),
    }
}

/// Summarize a selection: `completion` is the backend's outcome for the
/// summarize prompt over the request's text.
pub fn summarize_text(_req: &AIRequest, completion: Result<String, String>) -> (r: Result<
    SuccessResponse<String>,
    Error,
>)
    ensures
        completion is Ok ==> r is Ok && r->Ok_0.status@ == "success"@ && r->Ok_0.data@
            == completion->Ok_0@,
        completion is Err ==> r is Err && r->Err_0.kind == ErrorKind::UpstreamGenerationFailure,
{
    wrap_assist(completion)
}

/// Rephrase a selection: `completion` is the backend's outcome for the
/// rephrase prompt over the request's text.
pub fn regenerate_text(_req: &AIRequest, completion: Result<String, String>) -> (r: Result<
    SuccessResponse<String>,
    Error,
>)
    ensures
        completion is Ok ==> r is Ok && r->Ok_0.status@ == "success"@ && r->Ok_0.data@
            == completion->Ok_0@,
        completion is Err ==> r is Err && r->Err_0.kind == ErrorKind::UpstreamGenerationFailure,
{
    wrap_assist(completion)
}

/// Expand a selection: `completion` is the backend's outcome for the
/// extend prompt over the request's text.
pub fn extend_text(_req: &AIRequest, completion: Result<String, String>) -> (r: Result<
    SuccessResponse<String>,
    Error,
>)
    ensures
        completion is Ok ==> r is Ok && r->Ok_0.status@ == "success"@ && r->Ok_0.data@
            == completion->Ok_0@,
        completion is Err ==> r is Err && r->Err_0.kind == ErrorKind::UpstreamGenerationFailure,
{
    wrap_assist(completion)
}

/// The editing assistant's dispatch: the prompt for one named action over a
/// selection, or nothing for an unknown action.
pub fn ai_action_prompt(action: &str, text: &str) -> (r: Option<String>)
    ensures
        action@ == "summarize"@ ==> r is Some && r->Some_0@ == summarize_prompt_text(text@),
        action@ == "regenerate"@ ==> r is Some && r->Some_0@ == rephrase_prompt_text(text@),
        action@ == "extend"@ ==> r is Some && r->Some_0@ == extend_prompt_text(text@),
        action@ != "summarize"@ && action@ != "regenerate"@ && action@ != "extend"@ ==> r is None,
{
    proof {
        reveal_strlit("summarize");
        reveal_strlit("regenerate");
        reveal_strlit("extend");
        assert("summarize"@.len() == 9);
        assert("regenerate"@.len() == 10);
        assert("extend"@.len() == 6);
        assert("summarize"@ != "regenerate"@);
        assert("summarize"@ != "extend"@);
        assert("regenerate"@ != "extend"@);
    }
    if str_eq(action, "summarize") {
        Some(summarize_prompt(text))
    } else if str_eq(action, "regenerate") {
        Some(rephrase_prompt(text))
    } else if str_eq(action, "extend") {
        Some(extend_prompt(text))
    } else {
        None
    }
}

} // verus!
