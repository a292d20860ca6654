use bible_api::models::{SearchParameters, TranslationSelector, VerseFilter};
use bible_api::queries::{
    chapter_count_query, query_verses, random_verse, random_verse_query, search_pattern_for,
    search_query, verses_request, CHAPTER_COUNT_SELECT, MISSING_BOOK_MESSAGE,
    RANDOM_VERSE_SELECT, SEARCH_SELECT,
};

const SELECT: &str =
    "SELECT translation, book, abbreviation, book_name, chapter, verse_number, verse FROM fulltable";

fn no_filter() -> VerseFilter {
    VerseFilter {
        translation: None,
        tr: None,
        book: None,
        b: None,
        abbreviation: None,
        ab: None,
        chapter: None,
        ch: None,
        startchapter: None,
        sch: None,
        endchapter: None,
        ech: None,
        verse: None,
        v: None,
        startverse: None,
        sv: None,
        endverse: None,
        ev: None,
    }
}

fn s(x: &str) -> Option<String> {
    Some(x.to_string())
}

#[test]
fn verses_of_a_chapter() {
    let mut f = no_filter();
    f.book = s("Genesis");
    f.chapter = Some(1);
    let q = query_verses(&f);
    assert_eq!(
        q.builder.sql(),
        format!("{} WHERE book=$1 AND chapter=$2 ORDER BY id", SELECT)
    );
}

#[test]
fn verse_range_by_abbreviation_and_translation() {
    let mut f = no_filter();
    f.ab = s("gen");
    f.sv = Some(3);
    f.ev = Some(5);
    f.tr = s("kjv");
    let q = query_verses(&f);
    assert_eq!(
        q.builder.sql(),
        format!(
            "{} WHERE abbreviation=$1 AND verse_number>=$2 AND verse_number<=$3 AND translation=$4 ORDER BY id",
            SELECT
        )
    );
}

#[test]
fn every_field_in_order() {
    let mut f = no_filter();
    f.translation = s("web");
    f.tr = s("kjv");
    f.book = s("Genesis");
    f.b = s("Exodus");
    f.abbreviation = s("gen");
    f.ab = s("exo");
    f.chapter = Some(1);
    f.ch = Some(2);
    f.startchapter = Some(3);
    f.sch = Some(4);
    f.endchapter = Some(5);
    f.ech = Some(6);
    f.verse = Some(7);
    f.v = Some(8);
    f.startverse = Some(9);
    f.sv = Some(10);
    f.endverse = Some(11);
    f.ev = Some(12);
    let q = query_verses(&f);
    assert_eq!(
        q.builder.sql(),
        format!(
            "{} WHERE abbreviation=$1 AND abbreviation=$2 AND book=$3 AND book=$4 \
AND chapter=$5 AND chapter=$6 AND chapter>=$7 AND chapter>=$8 AND chapter<=$9 AND chapter<=$10 \
AND verse_number=$11 AND verse_number=$12 AND verse_number>=$13 AND verse_number>=$14 \
AND verse_number<=$15 AND verse_number<=$16 AND translation=$17 AND translation=$18 ORDER BY id",
            SELECT
        )
    );
}

#[test]
fn values_never_enter_the_sql_text() {
    let mut f1 = no_filter();
    f1.book = s("Genesis' OR 1=1 --");
    f1.v = Some(3);
    let mut f2 = no_filter();
    f2.book = s("Ruth");
    f2.v = Some(99);
    assert_eq!(query_verses(&f1).builder.sql(), query_verses(&f2).builder.sql());
}

#[test]
fn filter_without_book_keeps_and() {
    let mut f = no_filter();
    f.chapter = Some(3);
    let q = query_verses(&f);
    assert_eq!(q.builder.sql(), format!("{} AND chapter=$1 ORDER BY id", SELECT));
}

#[test]
fn verses_request_needs_a_book() {
    let mut f = no_filter();
    f.chapter = Some(3);
    f.tr = s("kjv");
    match verses_request(&f) {
        Err(m) => assert_eq!(m, "Either one of book or abbreviation parameters is required"),
        Ok(_) => panic!("a request without a book must be refused"),
    }
    assert_eq!(MISSING_BOOK_MESSAGE, "Either one of book or abbreviation parameters is required");
    f.b = s("Ruth");
    let q = verses_request(&f).ok().unwrap();
    assert_eq!(
        q.builder.sql(),
        format!("{} WHERE book=$1 AND chapter=$2 AND translation=$3 ORDER BY id", SELECT)
    );
}

#[test]
fn random_verse_queries() {
    let sel = TranslationSelector { translation: s("kjv"), tr: s("web") };
    let q = random_verse_query(42, &sel);
    assert_eq!(q.builder.sql(), format!("{}$1 and t.name=$2", RANDOM_VERSE_SELECT));
    let none = TranslationSelector { translation: None, tr: None };
    assert_eq!(random_verse_query(7, &none).builder.sql(), format!("{}$1", RANDOM_VERSE_SELECT));
    let short = TranslationSelector { translation: None, tr: s("web") };
    assert_eq!(
        random_verse(&short).builder.sql(),
        format!("{}$1 and t.name=$2", RANDOM_VERSE_SELECT)
    );
    assert!(RANDOM_VERSE_SELECT.starts_with("select t.name as translation"));
    assert!(RANDOM_VERSE_SELECT.ends_with("\n        where vv.verse_id="));
}

#[test]
fn chapter_count_of_a_book() {
    let q = chapter_count_query("Genesis".to_string());
    assert_eq!(
        q.builder.sql(),
        "SELECT COUNT(*) AS count FROM \"Chapter\" WHERE book_id=(SELECT id FROM \"Book\" WHERE name=$1)"
    );
    assert!(q.builder.sql().starts_with(CHAPTER_COUNT_SELECT));
}

fn search(text: &str, match_case: Option<bool>, whole_words: Option<bool>) -> SearchParameters {
    SearchParameters {
        search_text: text.to_string(),
        match_case,
        whole_words,
        translation: "kjv".to_string(),
        book: None,
        abbreviation: None,
    }
}

#[test]
fn short_searches_find_nothing() {
    assert!(search_query(&search("", None, None)).is_none());
    assert!(search_query(&search("ab", None, None)).is_none());
    // two characters, but three bytes
    assert!(search_query(&search("aé", None, None)).is_some());
    assert!(search_query(&search("abc", None, None)).is_some());
}

#[test]
fn search_operators() {
    let q = search_query(&search("love", None, None)).unwrap();
    assert_eq!(q.builder.sql(), format!("{}ilike $1 and translation=$2", SEARCH_SELECT));
    let q = search_query(&search("love", Some(true), Some(false))).unwrap();
    assert_eq!(q.builder.sql(), format!("{}like $1 and translation=$2", SEARCH_SELECT));
    let q = search_query(&search("love", None, Some(true))).unwrap();
    assert_eq!(q.builder.sql(), format!("{}~* $1 and translation=$2", SEARCH_SELECT));
    let q = search_query(&search("love", Some(true), Some(true))).unwrap();
    assert_eq!(q.builder.sql(), format!("{}~ $1 and translation=$2", SEARCH_SELECT));
}

#[test]
fn search_within_a_book() {
    let mut p = search("love", None, None);
    p.book = s("John");
    p.abbreviation = s("jhn");
    let q = search_query(&p).unwrap();
    assert_eq!(
        q.builder.sql(),
        format!("{}ilike $1 and translation=$2 and book=$3 and abbreviation=$4", SEARCH_SELECT)
    );
    let mut p = search("love", None, None);
    p.abbreviation = s("jhn");
    let q = search_query(&p).unwrap();
    assert_eq!(q.builder.sql(), format!("{}ilike $1 and translation=$2 and abbreviation=$3", SEARCH_SELECT));
}

#[test]
fn search_patterns() {
    assert_eq!(search_pattern_for("  love one another \n", false), "%love one another%");
    assert_eq!(search_pattern_for("\tlove ", true), "\\mlove\\M");
    assert_eq!(search_pattern_for("\u{3000}light\u{a0}", false), "%light%");
    assert_eq!(SEARCH_SELECT, "\n    SELECT translation, book, abbreviation, book_name, chapter, verse_number, verse from fulltable where verse ");
}

#[test]
fn short_names_are_synonyms() {
    let mut long = no_filter();
    long.book = s("Genesis");
    long.chapter = Some(2);
    long.startverse = Some(4);
    long.translation = s("kjv");
    let mut short = no_filter();
    short.b = s("Genesis");
    short.ch = Some(2);
    short.sv = Some(4);
    short.tr = s("kjv");
    assert_eq!(query_verses(&long).builder.sql(), query_verses(&short).builder.sql());
}

#[test]
fn more_fields_add_conditions() {
    let mut f1 = no_filter();
    f1.book = s("Genesis");
    let mut f2 = no_filter();
    f2.book = s("Genesis");
    f2.v = Some(1);
    assert_eq!(query_verses(&f1).builder.sql(), format!("{} WHERE book=$1 ORDER BY id", SELECT));
    assert_eq!(
        query_verses(&f2).builder.sql(),
        format!("{} WHERE book=$1 AND verse_number=$2 ORDER BY id", SELECT)
    );
}

#[test]
fn surrounding_white_space_ignored() {
    assert_eq!(search_pattern_for("  love ", false), search_pattern_for("love", false));
    assert_eq!(search_pattern_for("\u{2003}love\r\n", true), search_pattern_for("love", true));
    assert_eq!(
        search_query(&search("  love ", None, None)).unwrap().builder.sql(),
        search_query(&search("love", None, None)).unwrap().builder.sql()
    );
}
