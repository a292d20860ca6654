use bible_api::books::{
    books_translation, split_testaments, translation_books, translation_key,
    INCOMPLETE_BOOKS_MESSAGE,
};
use bible_api::models::{Book, BookName, Testament, TranslationSelector};

fn selector(translation: Option<&str>, tr: Option<&str>) -> TranslationSelector {
    TranslationSelector {
        translation: translation.map(|s| s.to_string()),
        tr: tr.map(|s| s.to_string()),
    }
}

#[test]
fn translation_of_books_request() {
    assert_eq!(books_translation(&selector(Some("kjv"), Some("web"))), Some("KJV".to_string()));
    assert_eq!(books_translation(&selector(None, Some("web"))), Some("WEB".to_string()));
    assert_eq!(books_translation(&selector(None, None)), None);
    // the long field wins even when it is empty
    assert_eq!(books_translation(&selector(Some(""), Some("web"))), None);
}

#[test]
fn testaments_split() {
    let names: Vec<BookName> = (0..66).map(|i| BookName { name: format!("book {}", i) }).collect();
    let (ot, nt) = split_testaments(&names).unwrap();
    assert_eq!(ot.len(), 39);
    assert_eq!(nt.len(), 27);
    assert_eq!(ot[0], "book 0");
    assert_eq!(ot[38], "book 38");
    assert_eq!(nt[0], "book 39");
    assert_eq!(nt[26], "book 65");
}

#[test]
fn incomplete_book_list_refused() {
    let names: Vec<BookName> = (0..65).map(|i| BookName { name: format!("book {}", i) }).collect();
    assert_eq!(split_testaments(&names), Err(INCOMPLETE_BOOKS_MESSAGE));
    assert_eq!(
        INCOMPLETE_BOOKS_MESSAGE,
        "Not all books were fetched, check if the translation name is correct"
    );
    assert!(split_testaments(&Vec::new()).is_err());
}

#[test]
fn translation_keys_are_upper_case() {
    assert_eq!(translation_key("kjv"), "KJV");
    assert_eq!(translation_key("Kjv"), "KJV");
    assert_eq!(translation_key("straße"), "STRASSE");
}

#[test]
fn unknown_translation_refused() {
    let r = translation_books("XYZ", Vec::new());
    assert_eq!(r.unwrap_err(), "The requested translation XYZ is not found on the server");
    let book = Book {
        book_id: 1,
        book: "Genesis".to_string(),
        book_name: "Genesis".to_string(),
        abbreviation: "GEN".to_string(),
        testament: Testament::OldTestament,
        testament_name: "Old Testament".to_string(),
    };
    let r = translation_books("KJV", vec![book]).unwrap();
    assert_eq!(r.len(), 1);
    assert_eq!(r[0].book, "Genesis");
}
