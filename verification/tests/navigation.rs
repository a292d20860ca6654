use bible_api::error::AppError;
use bible_api::models::{BooksChapterCount, PageIn, PrevNext};
use bible_api::navigation::{NavAction, NavEvent, NavState, NAV_MISSING_BOOK_MESSAGE};

/// Runs a navigation request against the canon, with book ids from 1.
fn navigate(book: Option<&str>, abbreviation: Option<&str>, chapter: i64) -> NavAction {
    let canon = BooksChapterCount::default();
    let page = PageIn {
        book: book.map(|s| s.to_string()),
        abbreviation: abbreviation.map(|s| s.to_string()),
        chapter,
    };
    let (mut state, mut action) = NavState::start(&page);
    loop {
        let event = match &action {
            NavAction::FindBookByName(n) => match canon.iter().position(|b| &b.book == n) {
                Some(i) => NavEvent::BookId(i as i32 + 1),
                None => NavEvent::Failed(AppError::NotFound),
            },
            NavAction::FindBookByAbbreviation(a) => {
                match canon.iter().position(|b| &b.abbreviation == a) {
                    Some(i) => NavEvent::BookId(i as i32 + 1),
                    None => NavEvent::Failed(AppError::NotFound),
                }
            }
            NavAction::FetchBook(id) => {
                if *id >= 1 && *id <= 66 {
                    let b = &canon[(*id - 1) as usize];
                    NavEvent::BookFound { name: b.book.clone(), abbreviation: b.abbreviation.clone() }
                } else {
                    NavEvent::Failed(AppError::NotFound)
                }
            }
            NavAction::CountChapters(id) => {
                if *id >= 1 && *id <= 66 {
                    NavEvent::ChapterCount(canon[(*id - 1) as usize].chapters as i64)
                } else {
                    NavEvent::ChapterCount(0)
                }
            }
            _ => return action,
        };
        let (s, a) = state.step(event);
        state = s;
        action = a;
    }
}

fn pages(a: NavAction) -> PrevNext {
    match a {
        NavAction::Respond(p) => p,
        _ => panic!("expected pages"),
    }
}

fn at(p: &Option<bible_api::models::PageOut>) -> Option<(String, String, i64)> {
    p.as_ref().map(|p| (p.book.clone(), p.abbreviation.clone(), p.chapter))
}

fn pg(book: &str, abbreviation: &str, chapter: i64) -> Option<(String, String, i64)> {
    Some((book.to_string(), abbreviation.to_string(), chapter))
}

#[test]
fn first_chapter_of_the_bible() {
    let p = pages(navigate(Some("Genesis"), None, 1));
    assert_eq!(at(&p.previous), None);
    assert_eq!(at(&p.next), pg("Genesis", "GEN", 2));
}

#[test]
fn last_chapter_of_a_book() {
    let p = pages(navigate(Some("Genesis"), None, 50));
    assert_eq!(at(&p.previous), pg("Genesis", "GEN", 49));
    assert_eq!(at(&p.next), pg("Exodus", "EXO", 1));
}

#[test]
fn first_chapter_of_a_book() {
    let p = pages(navigate(None, Some("exo"), 1));
    assert_eq!(at(&p.previous), pg("Genesis", "GEN", 50));
    assert_eq!(at(&p.next), pg("Exodus", "EXO", 2));
}

#[test]
fn last_chapter_of_the_bible() {
    let p = pages(navigate(Some("Revelation"), None, 22));
    assert_eq!(at(&p.previous), pg("Revelation", "REV", 21));
    assert_eq!(at(&p.next), None);
}

#[test]
fn book_pages() {
    let p = pages(navigate(Some("Genesis"), None, 0));
    assert_eq!(at(&p.previous), None);
    assert_eq!(at(&p.next), pg("Exodus", "EXO", 0));
    let p = pages(navigate(Some("Revelation"), None, 0));
    assert_eq!(at(&p.previous), pg("Jude", "JUD", 0));
    assert_eq!(at(&p.next), None);
    let p = pages(navigate(Some("Ruth"), None, 0));
    assert_eq!(at(&p.previous), pg("Judges", "JDG", 0));
    assert_eq!(at(&p.next), pg("1 Samuel", "1SA", 0));
}

#[test]
fn round_trip_through_every_chapter() {
    let canon = BooksChapterCount::default();
    for (i, b) in canon.iter().enumerate() {
        for ch in 0..=b.chapters as i64 {
            let p = pages(navigate(Some(&b.book), None, ch));
            if let Some(next) = &p.next {
                let back = pages(navigate(Some(&next.book), None, next.chapter));
                assert_eq!(at(&back.previous), pg(&b.book, &b.abbreviation, ch));
            } else {
                assert!(i == 65 && (ch == 0 || ch == 22));
            }
            if let Some(prev) = &p.previous {
                let fwd = pages(navigate(Some(&prev.book), None, prev.chapter));
                assert_eq!(at(&fwd.next), pg(&b.book, &b.abbreviation, ch));
            } else {
                assert!(i == 0 && ch <= 1);
            }
        }
    }
}

#[test]
fn unknown_book_not_found() {
    match navigate(Some("Hezekiah"), None, 1) {
        NavAction::Fail(e) => assert_eq!(e, AppError::NotFound),
        _ => panic!("expected an error"),
    }
    match navigate(None, Some("xyz"), 0) {
        NavAction::Fail(e) => assert_eq!(e, AppError::NotFound),
        _ => panic!("expected an error"),
    }
}

#[test]
fn chapter_past_the_end_of_revelation() {
    // Revelation has 22 chapters; the pages around a 23rd are still computed
    let p = pages(navigate(Some("Revelation"), None, 21));
    assert_eq!(at(&p.next), pg("Revelation", "REV", 22));
    match navigate(Some("Revelation"), None, 0 + 22 + 1) {
        NavAction::Respond(p) => {
            assert_eq!(at(&p.previous), pg("Revelation", "REV", 22));
            assert_eq!(at(&p.next), pg("Revelation", "REV", 24));
        }
        _ => panic!("expected pages"),
    }
}

#[test]
fn request_without_book_refused() {
    match navigate(None, None, 1) {
        NavAction::RejectMissingBook => {}
        _ => panic!("expected a refusal"),
    }
    assert_eq!(NAV_MISSING_BOOK_MESSAGE, "Either one of book or abbreviation is required");
}

#[test]
fn failed_lookup_ends_the_request() {
    let page = PageIn { book: Some("Genesis".to_string()), abbreviation: None, chapter: 3 };
    let (state, action) = NavState::start(&page);
    match action {
        NavAction::FindBookByName(n) => assert_eq!(n, "Genesis"),
        _ => panic!("expected a lookup by name"),
    }
    let (_, action) = state.step(NavEvent::Failed(AppError::InternalServerError));
    match action {
        NavAction::Fail(e) => assert_eq!(e, AppError::InternalServerError),
        _ => panic!("expected an error"),
    }
}
