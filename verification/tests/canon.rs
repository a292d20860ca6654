use bible_api::constants::{abbreviation, book_name, chapter_count, verse_count, TOTAL};
use bible_api::models::{BooksChapterCount, Hello, Testament};

#[test]
fn canon_has_sixty_six_books() {
    assert_eq!(TOTAL, 66);
    assert_eq!(book_name(0), "Genesis");
    assert_eq!(abbreviation(0), "GEN");
    assert_eq!(chapter_count(0), 50);
    assert_eq!(verse_count(0), 1533);
    assert_eq!(book_name(18), "Psalms");
    assert_eq!(chapter_count(18), 150);
    assert_eq!(verse_count(18), 2461);
    assert_eq!(book_name(38), "Malachi");
    assert_eq!(book_name(39), "Matthew");
    assert_eq!(book_name(65), "Revelation");
    assert_eq!(abbreviation(65), "REV");
    assert_eq!(chapter_count(65), 22);
    assert_eq!(verse_count(65), 404);
}

#[test]
fn books_chapter_count_default_lists_the_canon() {
    let all = BooksChapterCount::default();
    assert_eq!(all.len(), 66);
    assert_eq!(all[0].book, "Genesis");
    assert_eq!(all[0].abbreviation, "GEN");
    assert_eq!(all[0].chapters, 50);
    assert_eq!(all[0].verses, 1533);
    assert_eq!(all[42].book, "John");
    assert_eq!(all[42].abbreviation, "JHN");
    assert_eq!(all[42].chapters, 21);
    assert_eq!(all[42].verses, 879);
    assert_eq!(all[65].book, "Revelation");
    assert_eq!(all[65].chapters, 22);
}

#[test]
fn canon_totals() {
    let all = BooksChapterCount::default();
    let chapters: u32 = all.iter().map(|b| b.chapters as u32).sum();
    let verses: u32 = all.iter().map(|b| b.verses as u32).sum();
    assert_eq!(chapters, 1189);
    assert_eq!(verses, 31102);
    let ot_chapters: u32 = all[..39].iter().map(|b| b.chapters as u32).sum();
    let ot_verses: u32 = all[..39].iter().map(|b| b.verses as u32).sum();
    assert_eq!(ot_chapters, 929);
    assert_eq!(ot_verses, 23145);
    assert!(all.iter().all(|b| b.chapters >= 1 && b.verses >= 1));
}

#[test]
fn testament_names() {
    assert_eq!(Testament::OldTestament.name(), "Old Testament");
    assert_eq!(Testament::NewTestament.name(), "New Testament");
}

#[test]
fn hello_default() {
    let h = Hello::default("https://example.org/repo".to_string(), "Someone".to_string());
    assert_eq!(h.greeting, "Hello there");
    assert_eq!(h.name, "Bible API");
    assert_eq!(h.about, "REST API to serve bible verses");
    assert_eq!(h.docs, "/docs");
    assert_eq!(h.repository, "https://example.org/repo");
    assert_eq!(h.database, "Postgresql");
    assert_eq!(h.text_encoding, "UTF-8");
    assert_eq!(h.author, "Someone");
}
