use aibook::outline::OutlineParser;

const THREE_CHAPTERS: &str = "### Chapter 1: Getting Started\n\
**Estimated Duration:** 10 minutes\n\
* Install the toolchain\n\
* Hello world\n\
### Chapter 2: Syntax\n\
**Estimated Duration:** 15 minutes\n\
* Variables\n\
### Chapter 3: Functions\n\
**Estimated Duration:** 20 minutes\n\
* Definitions\n";

#[test]
fn parse_returns_one_entry_per_marker_in_source_order() {
    let entries = OutlineParser::parse(THREE_CHAPTERS);
    assert_eq!(entries.len(), 3);
    assert_eq!(entries[0].title, "Getting Started");
    assert_eq!(entries[1].title, "Syntax");
    assert_eq!(entries[2].title, "Functions");
    for e in &entries {
        assert!(!e.title.is_empty());
    }
}

#[test]
fn parse_reads_durations_and_summaries() {
    let entries = OutlineParser::parse(THREE_CHAPTERS);
    assert_eq!(entries[0].estimated_duration, 10);
    assert_eq!(entries[1].estimated_duration, 15);
    assert_eq!(entries[2].estimated_duration, 20);
    assert_eq!(entries[0].summary, "* Install the toolchain\n* Hello world");
    assert_eq!(entries[1].summary, "* Variables");
    assert_eq!(entries[2].summary, "* Definitions");
}

#[test]
fn parse_of_text_without_markers_is_empty_not_an_error() {
    assert_eq!(OutlineParser::parse("").len(), 0);
    assert_eq!(OutlineParser::parse("An outline without any chapter lines.").len(), 0);
    assert_eq!(OutlineParser::parse("## Chapter 1: wrong heading level\n").len(), 0);
}

#[test]
fn parse_defaults_missing_duration_to_zero() {
    let entries = OutlineParser::parse("### Chapter 1: Alone\n* One point\n");
    assert_eq!(entries.len(), 1);
    assert_eq!(entries[0].estimated_duration, 0);
    assert_eq!(entries[0].summary, "* One point");
}

#[test]
fn parse_defaults_non_numeric_duration_to_zero() {
    let entries =
        OutlineParser::parse("### Chapter 1: Vague\n**Estimated Duration:** soon minutes\n");
    assert_eq!(entries.len(), 1);
    assert_eq!(entries[0].estimated_duration, 0);
}

#[test]
fn parse_defaults_overlong_duration_to_zero() {
    let entries = OutlineParser::parse(
        "### Chapter 1: Long\n**Estimated Duration:** 99999999999999999999 minutes\n",
    );
    assert_eq!(entries.len(), 1);
    assert_eq!(entries[0].estimated_duration, 0);
}

#[test]
fn parse_keeps_appearance_order_for_out_of_order_numbers() {
    let entries = OutlineParser::parse(
        "### Chapter 2: Second In Name\n**Estimated Duration:** 5 minutes\n\
         ### Chapter 1: First In Name\n**Estimated Duration:** 7 minutes\n",
    );
    assert_eq!(entries.len(), 2);
    assert_eq!(entries[0].title, "Second In Name");
    assert_eq!(entries[1].title, "First In Name");
}

#[test]
fn parse_completes_trailing_partial_chapter_with_defaults() {
    let entries = OutlineParser::parse(
        "### Chapter 1: Whole\n**Estimated Duration:** 5 minutes\n* A point\n### Chapter 2: Stub",
    );
    assert_eq!(entries.len(), 2);
    assert_eq!(entries[1].title, "Stub");
    assert_eq!(entries[1].estimated_duration, 0);
    assert_eq!(entries[1].summary, "");
}

#[test]
fn parse_requires_number_and_colon_in_marker() {
    assert_eq!(OutlineParser::parse("### Chapter one: No Digits\n").len(), 0);
    assert_eq!(OutlineParser::parse("### Chapter 1 No Colon\n").len(), 0);
    assert_eq!(OutlineParser::parse("### Chapter 12: Both\n").len(), 1);
}

#[test]
fn parse_ignores_bullets_before_first_marker() {
    let entries = OutlineParser::parse("* stray point\n### Chapter 1: Real\n* kept point\n");
    assert_eq!(entries.len(), 1);
    assert_eq!(entries[0].summary, "* kept point");
}
