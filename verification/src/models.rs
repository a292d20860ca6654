//! The data that the service reads from its database, takes from its clients
//! and answers with.

use vstd::prelude::*;

use crate::constants::{
    abbreviation, book_name, chapter_count, spec_abbreviation, spec_book_name,
    spec_chapter_count, spec_verse_count, verse_count, TOTAL,
};

verus! {

/// The two parts of the canon.
#[derive(Debug, Clone, Copy, PartialEq, Eq, Structural)]
pub enum Testament {
    OldTestament,
    NewTestament,
}

/// How a testament is written out for readers.
pub open spec fn spec_testament_name(t: Testament) -> Seq<char> {
    match t {
        Testament::OldTestament => "Old Testament"@,
        Testament::NewTestament => "New Testament"@,
    }
}

impl Testament {
    /// The testament written out for readers: "Old Testament" or
    /// "New Testament".
    pub fn name(&self) -> (s: &'static str)
        ensures
            s@ == spec_testament_name(*self),
    {
        match self {
            Testament::OldTestament => "Old Testament",
            Testament::NewTestament => "New Testament",
        }
    }
}

/// What the service says about itself at its root.
#[derive(Debug)]
pub struct Hello {
    pub greeting: String,
    pub name: String,
    pub about: String,
    pub docs: String,
    pub repository: String,
    pub database: String,
    pub text_encoding: String,
    pub author: String,
}

impl Hello {
    /// The greeting of the service, given where its source is kept and who
    /// wrote it.
    pub fn default(repository: String, author: String) -> (h: Hello)
        ensures
            h.greeting@ == "Hello there"@,
            h.name@ == "Bible API"@,
            h.about@ == "REST API to serve bible verses"@,
            h.docs@ == "/docs"@,
            h.repository@ == repository@,
            h.database@ == "Postgresql"@,
            h.text_encoding@ == "UTF-8"@,
            h.author@ == author@,
    {
        Hello {
            greeting: String::from_str("Hello there"),
            name: String::from_str("Bible API"),
            about: String::from_str("REST API to serve bible verses"),
            docs: String::from_str("/docs"),
            repository,
            database: String::from_str("Postgresql"),
            text_encoding: String::from_str("UTF-8"),
            author,
        }
    }
}

/// One verse of one translation.
#[derive(Debug, Clone)]
pub struct Verse {
    pub translation: String,
    pub book: String,
    pub abbreviation: String,
    pub book_name: String,
    pub chapter: i32,
    pub verse_number: i32,
    pub verse: String,
}

/// A translation of the Bible that the service holds.
#[derive(Debug)]
pub struct TranslationInfo {
    pub name: String,
    pub language: String,
    pub full_name: Option<String>,
    pub year: Option<String>,
    pub license: Option<String>,
    pub description: Option<String>,
}

/// The name of a book.
#[derive(Debug)]
pub struct BookName {
    pub name: String,
}

/// A book as a translation names it.
#[derive(Debug)]
pub struct TranslationBook {
    pub book_number: i32,
    pub book_name: String,
}

/// A number of rows.
#[derive(Debug)]
pub struct Count {
    pub count: i64,
}

/// A book with its name in a translation and the testament it belongs to.
#[derive(Debug)]
pub struct Book {
    pub book_id: i32,
    pub book: String,
    pub book_name: String,
    pub abbreviation: String,
    pub testament: Testament,
    pub testament_name: String,
}

/// The filters of a request for verses; each field has a long and a short
/// name.
#[derive(Debug)]
pub struct VerseFilter {
    pub translation: Option<String>,
    pub tr: Option<String>,
    pub book: Option<String>,
    pub b: Option<String>,
    pub abbreviation: Option<String>,
    pub ab: Option<String>,
    pub chapter: Option<i32>,
    pub ch: Option<i32>,
    pub startchapter: Option<i32>,
    pub sch: Option<i32>,
    pub endchapter: Option<i32>,
    pub ech: Option<i32>,
    pub verse: Option<i32>,
    pub v: Option<i32>,
    pub startverse: Option<i32>,
    pub sv: Option<i32>,
    pub endverse: Option<i32>,
    pub ev: Option<i32>,
}

/// The choice of a translation, under its long or its short name.
#[derive(Debug)]
pub struct TranslationSelector {
    pub translation: Option<String>,
    pub tr: Option<String>,
}

/// A full-text search request.
#[derive(Debug)]
pub struct SearchParameters {
    pub search_text: String,
    pub match_case: Option<bool>,
    pub whole_words: Option<bool>,
    pub translation: String,
    pub book: Option<String>,
    pub abbreviation: Option<String>,
}

/// The page (book and chapter) that a reader is on; chapter 0 is the page
/// of the book itself.
#[derive(Debug)]
pub struct PageIn {
    pub book: Option<String>,
    pub abbreviation: Option<String>,
    pub chapter: i64,
}

/// A page to navigate to.
#[derive(Debug)]
pub struct PageOut {
    pub book: String,
    pub abbreviation: String,
    pub chapter: i64,
}

/// The pages before and after the current one, where there are any.
#[derive(Debug)]
pub struct PrevNext {
    pub previous: Option<PageOut>,
    pub next: Option<PageOut>,
}

/// The number of chapters and verses of a book.
#[derive(Debug)]
pub struct BooksChapterCount {
    pub book: String,
    pub abbreviation: String,
    pub chapters: u8,
    pub verses: u16,
}

/// Whether `c` describes the book at position `i` of the canon.
pub open spec fn describes_book(c: BooksChapterCount, i: int) -> bool {
    &&& c.book@ == spec_book_name(i)
    &&& c.abbreviation@ == spec_abbreviation(i)
    &&& c.chapters == spec_chapter_count(i)
    &&& c.verses == spec_verse_count(i)
}

impl BooksChapterCount {
    /// The chapter and verse counts of every book of the canon, in canonical
    /// order.
    pub fn default() -> (ans: Vec<BooksChapterCount>)
        ensures
            ans.len() == TOTAL,
            forall|i: int| 0 <= i < TOTAL ==> describes_book(#[trigger] ans[i], i),
    {
        let total = TOTAL as usize;
        let mut ans: Vec<BooksChapterCount> = Vec::with_capacity(total);
        for i in 0..total
            invariant
                total == TOTAL,
                ans.len() == i,
                forall|j: int| 0 <= j < i ==> describes_book(#[trigger] ans[j], j),
        {
            let temp = BooksChapterCount {
                book: String::from_str(book_name(i)),
                abbreviation: String::from_str(abbreviation(i)),
                chapters: chapter_count(i),
                verses: verse_count(i),
            };
            ans.push(temp);
        }
        ans
    }
}

} // verus!
