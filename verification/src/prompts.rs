//! The prompts the pipeline sends to the text-completion backend. Each
//! builder's contract pins the exact text, so callers can reason about what
//! the backend was asked; in particular, the HTML-conversion prompt embeds
//! the markdown produced by the preceding call, verbatim.

use vstd::prelude::*;

use crate::text::{contains_seq, dec_str, starts_with_at, u64_to_string};

verus! {

/// The outline-request prompt for a book.
pub open spec fn outline_prompt_text(
    title: Seq<char>,
    subtitle: Seq<char>,
    chapters: u64,
    subtopics: u64,
    language: Seq<char>,
) -> Seq<char> {
    "**System Prompt (SP):** You are an expert in book creation, generating a structured outline.\n\n**Prompt (P):** Generate an outline for a book titled '"@
        + title
        + "', with subtitle '"@
        + subtitle
        + "'. Main topic is '"@
        + title
        + "' in "@
        + language
        + ". The book should contain "@
        + dec_str(chapters as nat)
        + " chapters covering "@
        + dec_str(subtopics as nat)
        + " subtopics. Provide an estimated duration for each chapter.\n\n**Expected Format (EF):**\n### Chapter [number]: [Chapter Title]\n**Estimated Duration:** [Duration] minutes\n\n**Roleplay (RP):** As a book editor, create an engaging outline.\n"@
}

/// Build the outline-request prompt.
pub fn outline_prompt(
    title: &str,
    subtitle: &str,
    chapters: u64,
    subtopics: u64,
    language: &str,
) -> (r: String)
    ensures
        r@ == outline_prompt_text(title@, subtitle@, chapters, subtopics, language@),
{
    let mut s = String::from_str(
        "**System Prompt (SP):** You are an expert in book creation, generating a structured outline.\n\n**Prompt (P):** Generate an outline for a book titled '",
    );
    s.append(title);
    s.append("', with subtitle '");
    s.append(subtitle);
    s.append("'. Main topic is '");
    s.append(title);
    s.append("' in ");
    s.append(language);
    s.append(". The book should contain ");
    let c = u64_to_string(chapters);
    s.append(c.as_str());
    s.append(" chapters covering ");
    let t = u64_to_string(subtopics);
    s.append(t.as_str());
    s.append(
        " subtopics. Provide an estimated duration for each chapter.\n\n**Expected Format (EF):**\n### Chapter [number]: [Chapter Title]\n**Estimated Duration:** [Duration] minutes\n\n**Roleplay (RP):** As a book editor, create an engaging outline.\n",
    );
    proof {
        assert(s@ =~= outline_prompt_text(title@, subtitle@, chapters, subtopics, language@));
    }
    s
}

/// The markdown-generation prompt for one chapter.
pub open spec fn chapter_markdown_prompt_text(
    chapter_title: Seq<char>,
    book_title: Seq<char>,
    main_topic: Seq<char>,
    language: Seq<char>,
) -> Seq<char> {
    "**System Prompt (SP):** You are writing detailed content for a book chapter.\n\n**Prompt (P):** Write content for chapter '"@
        + chapter_title
        + "' of the book '"@
        + book_title
        + "' on the main topics '"@
        + main_topic
        + "' in "@
        + language
        + ". Ensure clarity, detailed explanations, and structured markdown.\n\n**Expected Format (EF):**\n- detailed markdown format for this chapter.\n\n**Roleplay (RP):** Provide as much educational content as possible.\n"@
}

/// Build the markdown-generation prompt.
pub fn chapter_markdown_prompt(
    chapter_title: &str,
    book_title: &str,
    main_topic: &str,
    language: &str,
) -> (r: String)
    ensures
        r@ == chapter_markdown_prompt_text(chapter_title@, book_title@, main_topic@, language@),
{
    let mut s = String::from_str(
        "**System Prompt (SP):** You are writing detailed content for a book chapter.\n\n**Prompt (P):** Write content for chapter '",
    );
    s.append(chapter_title);
    s.append("' of the book '");
    s.append(book_title);
    s.append("' on the main topics '");
    s.append(main_topic);
    s.append("' in ");
    s.append(language);
    s.append(
        ". Ensure clarity, detailed explanations, and structured markdown.\n\n**Expected Format (EF):**\n- detailed markdown format for this chapter.\n\n**Roleplay (RP):** Provide as much educational content as possible.\n",
    );
    proof {
        assert(s@ =~= chapter_markdown_prompt_text(
            chapter_title@,
            book_title@,
            main_topic@,
            language@,
        ));
    }
    s
}

/// The HTML-conversion prompt: it embeds the markdown to convert,
/// verbatim.
pub open spec fn chapter_html_prompt_text(markdown: Seq<char>, language: Seq<char>) -> Seq<char> {
    "Generate a comprehensive HTML-formatted book chapter with examples, links and images, based on the outline: '"@
        + markdown
        + "' in "@
        + language
        + ". Each section should be structured with appropriate HTML tags, including <h1> for the main title, <h2> for chapter titles, <h3> for subheadings, and <p> for paragraphs. Include well-organized, readable content that aligns with the book's outline, ensuring each section is clear and logically flows from one to the next. Avoid markdown format entirely, and provide inline HTML styling if necessary to enhance readability. The HTML content should be well-formatted, semantically correct, and cover all relevant subtopics in depth to create an engaging reading experience. Make sure to always return back with html formmatted text and not empty response."@
}

/// Build the HTML-conversion prompt from the markdown of the preceding
/// call.
pub fn chapter_html_prompt(markdown: &str, language: &str) -> (r: String)
    ensures
        r@ == chapter_html_prompt_text(markdown@, language@),
{
    let mut s = String::from_str(
        "Generate a comprehensive HTML-formatted book chapter with examples, links and images, based on the outline: '",
    );
    s.append(markdown);
    s.append("' in ");
    s.append(language);
    s.append(
        ". Each section should be structured with appropriate HTML tags, including <h1> for the main title, <h2> for chapter titles, <h3> for subheadings, and <p> for paragraphs. Include well-organized, readable content that aligns with the book's outline, ensuring each section is clear and logically flows from one to the next. Avoid markdown format entirely, and provide inline HTML styling if necessary to enhance readability. The HTML content should be well-formatted, semantically correct, and cover all relevant subtopics in depth to create an engaging reading experience. Make sure to always return back with html formmatted text and not empty response.",
    );
    proof {
        assert(s@ =~= chapter_html_prompt_text(markdown@, language@));
    }
    s
}

/// The chat prompt: it embeds the book title, the chapter's HTML content,
/// and the user's query.
pub open spec fn chat_prompt_text(
    book_title: Seq<char>,
    chapter_html: Seq<char>,
    query: Seq<char>,
) -> Seq<char> {
    "**System Prompt (SP):** You are a knowledgeable assistant specializing in providing in-depth responses based on specific book chapters. Generate your response as HTML-formatted response with examples, links and images, based on the query: '"@
        + query
        + "'. Include well-organized, readable content that aligns with the book's title "@
        + book_title
        + ".\n\n**Context Information:**\n- Book Title: '"@
        + book_title
        + "'\n- Chapter: '"@
        + chapter_html
        + "'\n\n**Prompt (P):** Answer the user's question in detail, focusing on information specific to the chapter content from the book. Make sure to always return back with html formmatted text and not empty response.\n\n**User Query:** '"@
        + query
        + "'\n"@
}

/// Build the chat prompt.
pub fn chat_prompt(book_title: &str, chapter_html: &str, query: &str) -> (r: String)
    ensures
        r@ == chat_prompt_text(book_title@, chapter_html@, query@),
{
    let mut s = String::from_str(
        "**System Prompt (SP):** You are a knowledgeable assistant specializing in providing in-depth responses based on specific book chapters. Generate your response as HTML-formatted response with examples, links and images, based on the query: '",
    );
    s.append(query);
    s.append("'. Include well-organized, readable content that aligns with the book's title ");
    s.append(book_title);
    s.append(".\n\n**Context Information:**\n- Book Title: '");
    s.append(book_title);
    s.append("'\n- Chapter: '");
    s.append(chapter_html);
    s.append(
        "'\n\n**Prompt (P):** Answer the user's question in detail, focusing on information specific to the chapter content from the book. Make sure to always return back with html formmatted text and not empty response.\n\n**User Query:** '",
    );
    s.append(query);
    s.append("'\n");
    proof {
        assert(s@ =~= chat_prompt_text(book_title@, chapter_html@, query@));
    }
    s
}

/// The summarize prompt for the editing assistant.
pub open spec fn summarize_prompt_text(text: Seq<char>) -> Seq<char> {
    "Summarize the following text: '"@ + text + "'"@
}

/// Build the summarize prompt.
pub fn summarize_prompt(text: &str) -> (r: String)
    ensures
        r@ == summarize_prompt_text(text@),
{
    let mut s = String::from_str("Summarize the following text: '");
    s.append(text);
    s.append("'");
    proof {
        assert(s@ =~= summarize_prompt_text(text@));
    }
    s
}

/// The rephrase prompt for the editing assistant.
pub open spec fn rephrase_prompt_text(text: Seq<char>) -> Seq<char> {
    "Rephrase the following text: '"@ + text + "'"@
}

/// Build the rephrase prompt.
pub fn rephrase_prompt(text: &str) -> (r: String)
    ensures
        r@ == rephrase_prompt_text(text@),
{
    let mut s = String::from_str("Rephrase the following text: '");
    s.append(text);
    s.append("'");
    proof {
        assert(s@ =~= rephrase_prompt_text(text@));
    }
    s
}

/// The extend prompt for the editing assistant.
pub open spec fn extend_prompt_text(text: Seq<char>) -> Seq<char> {
    "Expand on the following text with additional details: '"@ + text + "'"@
}

/// Build the extend prompt.
pub fn extend_prompt(text: &str) -> (r: String)
    ensures
        r@ == extend_prompt_text(text@),
{
    let mut s = String::from_str("Expand on the following text with additional details: '");
    s.append(text);
    s.append("'");
    proof {
        assert(s@ =~= extend_prompt_text(text@));
    }
    s
}

/// Sequential dependency of the two generation stages: the HTML-conversion
/// prompt contains, verbatim and contiguously, the markdown text that the
/// markdown-generation call returned.
pub proof fn lemma_html_prompt_embeds_markdown(markdown: Seq<char>, language: Seq<char>)
    ensures
        contains_seq(chapter_html_prompt_text(markdown, language), markdown),
{
    let prefix =
        "Generate a comprehensive HTML-formatted book chapter with examples, links and images, based on the outline: '"@;
    let text = chapter_html_prompt_text(markdown, language);
    let p = prefix.len() as int;
    assert(text.subrange(p, p + markdown.len()) =~= markdown);
    assert(starts_with_at(text, markdown, p));
}

} // verus!
