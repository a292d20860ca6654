//! Navigation between pages: given the page a reader is on (a book, by name
//! or abbreviation, and a chapter, where chapter 0 is the page of the book
//! itself), the pages just before and just after it.
//!
//! Finding them takes several database lookups, each decided by the answers
//! to the ones before. The decisions are a state machine: `NavState::start`
//! and `NavState::step` say, from the state and the last answer, which
//! lookup comes next or what the request is answered with; the caller
//! performs the lookups and hands back their answers as events.

use vstd::prelude::*;

use crate::constants::{lemma_books_not_empty, spec_chapter_count, TOTAL};
use crate::error::AppError;
use crate::models::{PageIn, PageOut, PrevNext};
use crate::text::{to_uppercase, uppercase};

verus! {

/// The id of the first book of the canon.
pub const FIRST_BOOK_ID: i32 = 1i32;

/// The id of the last book of the canon.
pub const LAST_BOOK_ID: i32 = 66i32;

/// The last chapter of the last book of the canon.
pub const LAST_CHAPTER: i64 = 22i64;

/// What a navigation request that names no book is answered with.
pub const NAV_MISSING_BOOK_MESSAGE: &'static str = "Either one of book or abbreviation is required";

/// What is to be done next.
pub enum NavAction {
    /// Look up the id of the book of this name.
    FindBookByName(String),
    /// Look up the id of the book of this abbreviation.
    FindBookByAbbreviation(String),
    /// Fetch the name and abbreviation of the book of this id.
    FetchBook(i32),
    /// Count the chapters of the book of this id.
    CountChapters(i32),
    /// Answer with these pages.
    Respond(PrevNext),
    /// Refuse the request: it names no book (`NAV_MISSING_BOOK_MESSAGE`).
    RejectMissingBook,
    /// Answer with this error.
    Fail(AppError),
}

/// The answer to a lookup.
pub enum NavEvent {
    /// The id of the book looked up.
    BookId(i32),
    /// The name and abbreviation of the book fetched.
    BookFound { name: String, abbreviation: String },
    /// The number of chapters counted.
    ChapterCount(i64),
    /// The lookup failed with this error.
    Failed(AppError),
}

/// Where a navigation request stands.
pub enum NavState {
    /// Waiting for the id of the current book.
    AwaitBookId { chapter: i64 },
    /// On a book's own page, waiting for the book before it.
    AwaitPreviousIntro { book_id: i32 },
    /// On a book's own page, waiting for the book after it.
    AwaitNextIntro { book_id: i32, previous: Option<PageOut> },
    /// On the first chapter, waiting for the chapter count of the book before.
    AwaitPreviousCount { book_id: i32, chapter: i64 },
    /// Waiting for the book of the previous page, whose chapter is `target`.
    AwaitPreviousBook { book_id: i32, chapter: i64, target: i64 },
    /// Waiting for the chapter count of the current book.
    AwaitCurrentCount { book_id: i32, chapter: i64, previous: Option<PageOut> },
    /// Waiting for the book of the next page, whose chapter is `target`.
    AwaitNextBook { book_id: i32, chapter: i64, previous: Option<PageOut>, target: i64 },
    /// The request is answered.
    Done,
}

/// Whether an action answers the request (no further lookup follows).
pub open spec fn is_final(a: NavAction) -> bool {
    ||| a is Respond
    ||| a is RejectMissingBook
    ||| a is Fail
}

/// Whether `e` is an answer to the lookup that state `s` waits for.
pub open spec fn expects(s: NavState, e: NavEvent) -> bool {
    match s {
        NavState::AwaitBookId { .. } => e is BookId || e is Failed,
        NavState::AwaitPreviousCount { .. } | NavState::AwaitCurrentCount { .. } => e is ChapterCount
            || e is Failed,
        NavState::Done => false,
        _ => e is BookFound || e is Failed,
    }
}

/// Where the pages after the current one are looked for, once the previous
/// page is settled.
pub open spec fn begin_next(id: i32, ch: i64, previous: Option<PageOut>) -> (NavState, NavAction) {
    if ch == 0 {
        if id == LAST_BOOK_ID {
            (NavState::Done, NavAction::Respond(PrevNext { previous, next: None }))
        } else {
            (NavState::AwaitNextIntro { book_id: id, previous }, NavAction::FetchBook((id + 1) as i32))
        }
    } else if id == LAST_BOOK_ID && ch == LAST_CHAPTER {
        (NavState::Done, NavAction::Respond(PrevNext { previous, next: None }))
    } else {
        (NavState::AwaitCurrentCount { book_id: id, chapter: ch, previous }, NavAction::CountChapters(id))
    }
}

/// Where the previous page is looked for, once the current book is known.
pub open spec fn begin(id: i32, ch: i64) -> (NavState, NavAction) {
    if ch == 0 {
        if id == FIRST_BOOK_ID {
            begin_next(id, ch, None)
        } else {
            (NavState::AwaitPreviousIntro { book_id: id }, NavAction::FetchBook((id - 1) as i32))
        }
    } else if id == FIRST_BOOK_ID && ch == 1 {
        begin_next(id, ch, None)
    } else if ch == 1 {
        (NavState::AwaitPreviousCount { book_id: id, chapter: ch }, NavAction::CountChapters((id - 1) as i32))
    } else {
        (
            NavState::AwaitPreviousBook { book_id: id, chapter: ch, target: (ch - 1) as i64 },
            NavAction::FetchBook(id),
        )
    }
}

/// A page of the given book and chapter.
pub open spec fn page(name: String, abbreviation: String, chapter: i64) -> PageOut {
    PageOut { book: name, abbreviation, chapter }
}

/// The next state and action after state `s` gets the answer `e`.
pub open spec fn spec_step(s: NavState, e: NavEvent) -> (NavState, NavAction) {
    match e {
        NavEvent::Failed(err) => (NavState::Done, NavAction::Fail(err)),
        NavEvent::BookId(id) => match s {
            NavState::AwaitBookId { chapter } => begin(id, chapter),
            _ => (NavState::Done, NavAction::Fail(AppError::InternalServerError)),
        },
        NavEvent::BookFound { name, abbreviation } => match s {
            NavState::AwaitPreviousIntro { book_id } => begin_next(
                book_id,
                0,
                Some(page(name, abbreviation, 0)),
            ),
            NavState::AwaitNextIntro { book_id, previous } => (
                NavState::Done,
                NavAction::Respond(PrevNext { previous, next: Some(page(name, abbreviation, 0)) }),
            ),
            NavState::AwaitPreviousBook { book_id, chapter, target } => begin_next(
                book_id,
                chapter,
                Some(page(name, abbreviation, target)),
            ),
            NavState::AwaitNextBook { book_id, chapter, previous, target } => (
                NavState::Done,
                NavAction::Respond(
                    PrevNext { previous, next: Some(page(name, abbreviation, target)) },
                ),
            ),
            _ => (NavState::Done, NavAction::Fail(AppError::InternalServerError)),
        },
        NavEvent::ChapterCount(count) => match s {
            NavState::AwaitPreviousCount { book_id, chapter } => (
                NavState::AwaitPreviousBook { book_id, chapter, target: count },
                NavAction::FetchBook((book_id - 1) as i32),
            ),
            NavState::AwaitCurrentCount { book_id, chapter, previous } => if chapter == count {
                (
                    NavState::AwaitNextBook { book_id, chapter, previous, target: 1 },
                    NavAction::FetchBook((book_id + 1) as i32),
                )
            } else {
                (
                    NavState::AwaitNextBook {
                        book_id,
                        chapter,
                        previous,
                        target: (chapter + 1) as i64,
                    },
                    NavAction::FetchBook(book_id),
                )
            },
            _ => (NavState::Done, NavAction::Fail(AppError::InternalServerError)),
        },
    }
}

/// Whether settling the next page from book `id`, chapter `ch`, stays within
/// the integer types.
pub open spec fn next_in_range(id: i32, ch: i64) -> bool {
    ch == 0 && id != LAST_BOOK_ID ==> id < i32::MAX
}

/// Whether the arithmetic of the step from `s` on `e` stays within the
/// integer types (the ids and chapters next to the current one).
pub open spec fn step_in_range(s: NavState, e: NavEvent) -> bool {
    match e {
        NavEvent::BookId(id) => match s {
            NavState::AwaitBookId { chapter } => {
                &&& chapter == 0 && id != FIRST_BOOK_ID ==> id > i32::MIN
                &&& chapter == 0 && id == FIRST_BOOK_ID ==> next_in_range(id, chapter)
                &&& chapter != 0 && chapter == 1 && id != FIRST_BOOK_ID ==> id > i32::MIN
                &&& chapter != 0 && chapter != 1 ==> chapter > i64::MIN
            },
            _ => true,
        },
        NavEvent::BookFound { .. } => match s {
            NavState::AwaitPreviousIntro { book_id } => next_in_range(book_id, 0),
            NavState::AwaitPreviousBook { book_id, chapter, .. } => next_in_range(book_id, chapter),
            _ => true,
        },
        NavEvent::ChapterCount(count) => match s {
            NavState::AwaitPreviousCount { book_id, .. } => book_id > i32::MIN,
            NavState::AwaitCurrentCount { book_id, chapter, .. } => if chapter == count {
                book_id < i32::MAX
            } else {
                chapter < i64::MAX
            },
            _ => true,
        },
        _ => true,
    }
}

impl NavState {
    /// How a navigation request begins: refused when it names no book; else
    /// the lookup of the current book, by its name where it is given, else
    /// by its abbreviation in upper case.
    pub fn start(current: &PageIn) -> (r: (NavState, NavAction))
        ensures
            current.book is None && current.abbreviation is None ==> r.0 is Done
                && r.1 is RejectMissingBook,
            current.book matches Some(b) ==> {
                &&& r.0 == (NavState::AwaitBookId { chapter: current.chapter })
                &&& r.1 matches NavAction::FindBookByName(n) && n@ == b@
            },
            current.book is None ==> (current.abbreviation matches Some(a) ==> {
                &&& r.0 == (NavState::AwaitBookId { chapter: current.chapter })
                &&& r.1 matches NavAction::FindBookByAbbreviation(n) && n@ == uppercase(a@)
            }),
    {
        match &current.book {
            Some(b) => (
                NavState::AwaitBookId { chapter: current.chapter },
                NavAction::FindBookByName(b.clone()),
            ),
            None => match &current.abbreviation {
                Some(a) => (
                    NavState::AwaitBookId { chapter: current.chapter },
                    NavAction::FindBookByAbbreviation(to_uppercase(a.as_str())),
                ),
                None => (NavState::Done, NavAction::RejectMissingBook),
            },
        }
    }

    /// Whether `e` answers the lookup that this state waits for, and the step
    /// on it stays within the integer types (as `step` requires).
    pub fn can_step(&self, e: &NavEvent) -> (b: bool)
        ensures
            b == (expects(*self, *e) && step_in_range(*self, *e)),
    {
        match e {
            NavEvent::Failed(_) => match self {
                NavState::Done => false,
                _ => true,
            },
            NavEvent::BookId(id) => match self {
                NavState::AwaitBookId { chapter } => {
                    let chapter = *chapter;
                    let id = *id;
                    if chapter == 0 {
                        if id != FIRST_BOOK_ID {
                            id > i32::MIN
                        } else {
                            Self::next_in_range_of(id, chapter)
                        }
                    } else if chapter == 1 {
                        id == FIRST_BOOK_ID || id > i32::MIN
                    } else {
                        chapter > i64::MIN
                    }
                },
                _ => false,
            },
            NavEvent::BookFound { .. } => match self {
                NavState::AwaitPreviousIntro { book_id } => Self::next_in_range_of(*book_id, 0),
                NavState::AwaitPreviousBook { book_id, chapter, .. } => Self::next_in_range_of(
                    *book_id,
                    *chapter,
                ),
                NavState::AwaitNextIntro { .. } | NavState::AwaitNextBook { .. } => true,
                _ => false,
            },
            NavEvent::ChapterCount(count) => match self {
                NavState::AwaitPreviousCount { book_id, .. } => *book_id > i32::MIN,
                NavState::AwaitCurrentCount { book_id, chapter, .. } => if *chapter == *count {
                    *book_id < i32::MAX
                } else {
                    *chapter < i64::MAX
                },
                _ => false,
            },
        }
    }

    fn next_in_range_of(id: i32, ch: i64) -> (b: bool)
        ensures
            b == next_in_range(id, ch),
    {
        !(ch == 0 && id != LAST_BOOK_ID) || id < i32::MAX
    }

    /// The next state and action once the lookup that this state waits for
    /// is answered with `e`. A failed lookup ends the request with its error.
    pub fn step(self, e: NavEvent) -> (r: (NavState, NavAction))
        requires
            expects(self, e),
            step_in_range(self, e),
        ensures
            r == spec_step(self, e),
    {
        match e {
            NavEvent::Failed(err) => (NavState::Done, NavAction::Fail(err)),
            NavEvent::BookId(id) => match self {
                NavState::AwaitBookId { chapter } => Self::begin(id, chapter),
                _ => (NavState::Done, NavAction::Fail(AppError::InternalServerError)),
            },
            NavEvent::BookFound { name, abbreviation } => match self {
                NavState::AwaitPreviousIntro { book_id } => Self::begin_next(
                    book_id,
                    0,
                    Some(PageOut { book: name, abbreviation, chapter: 0 }),
                ),
                NavState::AwaitNextIntro { book_id, previous } => (
                    NavState::Done,
                    NavAction::Respond(
                        PrevNext {
                            previous,
                            next: Some(PageOut { book: name, abbreviation, chapter: 0 }),
                        },
                    ),
                ),
                NavState::AwaitPreviousBook { book_id, chapter, target } => Self::begin_next(
                    book_id,
                    chapter,
                    Some(PageOut { book: name, abbreviation, chapter: target }),
                ),
                NavState::AwaitNextBook { book_id, chapter, previous, target } => (
                    NavState::Done,
                    NavAction::Respond(
                        PrevNext {
                            previous,
                            next: Some(PageOut { book: name, abbreviation, chapter: target }),
                        },
                    ),
                ),
                _ => (NavState::Done, NavAction::Fail(AppError::InternalServerError)),
            },
            NavEvent::ChapterCount(count) => match self {
                NavState::AwaitPreviousCount { book_id, chapter } => (
                    NavState::AwaitPreviousBook { book_id, chapter, target: count },
                    NavAction::FetchBook(book_id - 1),
                ),
                NavState::AwaitCurrentCount { book_id, chapter, previous } => {
                    if chapter == count {
                        (
                            NavState::AwaitNextBook { book_id, chapter, previous, target: 1 },
                            NavAction::FetchBook(book_id + 1),
                        )
                    } else {
                        (
                            NavState::AwaitNextBook {
                                book_id,
                                chapter,
                                previous,
                                target: chapter + 1,
                            },
                            NavAction::FetchBook(book_id),
                        )
                    }
                },
                _ => (NavState::Done, NavAction::Fail(AppError::InternalServerError)),
            },
        }
    }

    fn begin(id: i32, ch: i64) -> (r: (NavState, NavAction))
        requires
            ch == 0 && id != FIRST_BOOK_ID ==> id > i32::MIN,
            ch == 0 && id == FIRST_BOOK_ID ==> next_in_range(id, ch),
            ch != 0 && ch == 1 && id != FIRST_BOOK_ID ==> id > i32::MIN,
            ch != 0 && ch != 1 ==> ch > i64::MIN,
        ensures
            r == begin(id, ch),
    {
        if ch == 0 {
            if id == FIRST_BOOK_ID {
                Self::begin_next(id, ch, None)
            } else {
                (NavState::AwaitPreviousIntro { book_id: id }, NavAction::FetchBook(id - 1))
            }
        } else if id == FIRST_BOOK_ID && ch == 1 {
            Self::begin_next(id, ch, None)
        } else if ch == 1 {
            (NavState::AwaitPreviousCount { book_id: id, chapter: ch }, NavAction::CountChapters(id - 1))
        } else {
            (
                NavState::AwaitPreviousBook { book_id: id, chapter: ch, target: ch - 1 },
                NavAction::FetchBook(id),
            )
        }
    }

    fn begin_next(id: i32, ch: i64, previous: Option<PageOut>) -> (r: (NavState, NavAction))
        requires
            next_in_range(id, ch),
        ensures
            r == begin_next(id, ch, previous),
    {
        if ch == 0 {
            if id == LAST_BOOK_ID {
                (NavState::Done, NavAction::Respond(PrevNext { previous, next: None }))
            } else {
                (NavState::AwaitNextIntro { book_id: id, previous }, NavAction::FetchBook(id + 1))
            }
        } else if id == LAST_BOOK_ID && ch == LAST_CHAPTER {
            (NavState::Done, NavAction::Respond(PrevNext { previous, next: None }))
        } else {
            (
                NavState::AwaitCurrentCount { book_id: id, chapter: ch, previous },
                NavAction::CountChapters(id),
            )
        }
    }
}


/// A model of what the database holds for navigation: the ids of the books
/// by name and by abbreviation, the name and abbreviation of each book by
/// id, and the number of chapters of each book by id.
pub struct Catalog {
    pub ids_by_name: Map<Seq<char>, i32>,
    pub ids_by_abbreviation: Map<Seq<char>, i32>,
    pub books: Map<i32, (String, String)>,
    pub chapters: Map<i32, i64>,
}

/// The number of chapters that counting the chapters of book `id` finds:
/// none for a book that is not there.
pub open spec fn chapter_total(cat: Catalog, id: i32) -> i64 {
    if cat.chapters.dom().contains(id) {
        cat.chapters[id]
    } else {
        0
    }
}

/// The answer that the catalog gives to a lookup; a book that is not there
/// is not found.
pub open spec fn answer(cat: Catalog, a: NavAction) -> NavEvent {
    match a {
        NavAction::FindBookByName(n) => if cat.ids_by_name.dom().contains(n@) {
            NavEvent::BookId(cat.ids_by_name[n@])
        } else {
            NavEvent::Failed(AppError::NotFound)
        },
        NavAction::FindBookByAbbreviation(n) => if cat.ids_by_abbreviation.dom().contains(n@) {
            NavEvent::BookId(cat.ids_by_abbreviation[n@])
        } else {
            NavEvent::Failed(AppError::NotFound)
        },
        NavAction::FetchBook(id) => if cat.books.dom().contains(id) {
            NavEvent::BookFound { name: cat.books[id].0, abbreviation: cat.books[id].1 }
        } else {
            NavEvent::Failed(AppError::NotFound)
        },
        NavAction::CountChapters(id) => NavEvent::ChapterCount(chapter_total(cat, id)),
        _ => NavEvent::Failed(AppError::InternalServerError),
    }
}

/// The final action that the machine reaches from state `s` and action `a`
/// when the catalog answers its lookups, within `fuel` steps.
pub open spec fn run(cat: Catalog, s: NavState, a: NavAction, fuel: nat) -> NavAction
    decreases fuel,
{
    if fuel == 0 || is_final(a) {
        a
    } else {
        let (s2, a2) = spec_step(s, answer(cat, a));
        run(cat, s2, a2, (fuel - 1) as nat)
    }
}

/// The page (book id and chapter) before page `ch` of book `id`: none
/// before the first book's own page and its first chapter; the page of the
/// book before for a book's own page; the last chapter of the book before
/// for a first chapter; else the chapter before.
pub open spec fn previous_target(cat: Catalog, id: i32, ch: i64) -> Option<(i32, i64)> {
    if ch == 0 {
        if id == FIRST_BOOK_ID {
            None
        } else {
            Some(((id - 1) as i32, 0i64))
        }
    } else if id == FIRST_BOOK_ID && ch == 1 {
        None
    } else if ch == 1 {
        Some(((id - 1) as i32, chapter_total(cat, (id - 1) as i32)))
    } else {
        Some((id, (ch - 1) as i64))
    }
}

/// The page after page `ch` of book `id`: none after the last book's own
/// page and its last chapter; the page of the book after for a book's own
/// page; the first chapter of the book after for a last chapter; else the
/// chapter after.
pub open spec fn next_target(cat: Catalog, id: i32, ch: i64) -> Option<(i32, i64)> {
    if ch == 0 {
        if id == LAST_BOOK_ID {
            None
        } else {
            Some(((id + 1) as i32, 0i64))
        }
    } else if id == LAST_BOOK_ID && ch == LAST_CHAPTER {
        None
    } else if ch == chapter_total(cat, id) {
        Some(((id + 1) as i32, 1i64))
    } else {
        Some((id, (ch + 1) as i64))
    }
}

/// Whether the book of a target is in the catalog (trivially, for no target).
pub open spec fn known(cat: Catalog, t: Option<(i32, i64)>) -> bool {
    t matches Some((b, _)) ==> cat.books.dom().contains(b)
}

/// The page out of a target, named as the catalog names its book.
pub open spec fn page_of(cat: Catalog, t: Option<(i32, i64)>) -> Option<PageOut> {
    match t {
        Some((b, c)) => Some(page(cat.books[b].0, cat.books[b].1, c)),
        None => None,
    }
}

/// What a navigation request on chapter `ch` is answered with, once the
/// lookup of its book is answered with `found`: the pages before and after,
/// when the books of both are in the catalog; "not found" otherwise.
pub open spec fn navigation(cat: Catalog, found: NavEvent, ch: i64) -> NavAction {
    match found {
        NavEvent::BookId(id) => {
            let prev = previous_target(cat, id, ch);
            let next = next_target(cat, id, ch);
            if known(cat, prev) && known(cat, next) {
                NavAction::Respond(PrevNext { previous: page_of(cat, prev), next: page_of(cat, next) })
            } else {
                NavAction::Fail(AppError::NotFound)
            }
        },
        NavEvent::Failed(e) => NavAction::Fail(e),
        _ => NavAction::Fail(AppError::InternalServerError),
    }
}

/// Whether, driven by the catalog from state `s` and action `a`, every step
/// of the machine (within `fuel` steps) gets an answer it expects and stays
/// within the integer types.
pub open spec fn run_in_range(cat: Catalog, s: NavState, a: NavAction, fuel: nat) -> bool
    decreases fuel,
{
    if fuel == 0 || is_final(a) {
        true
    } else {
        let e = answer(cat, a);
        let (s2, a2) = spec_step(s, e);
        expects(s, e) && step_in_range(s, e) && run_in_range(cat, s2, a2, (fuel - 1) as nat)
    }
}

/// Navigating by the machine is navigating by the catalog: started on the
/// lookup of the current book by name or abbreviation, and with each lookup
/// answered by the catalog, the machine ends in `navigation`: the pages
/// before and after the current one, or "not found" when a book that they
/// need is missing.
pub proof fn lemma_machine_navigates(cat: Catalog, first: NavAction, ch: i64)
    requires
        first is FindBookByName || first is FindBookByAbbreviation,
    ensures
        run(cat, NavState::AwaitBookId { chapter: ch }, first, 6) == navigation(
            cat,
            answer(cat, first),
            ch,
        ),
{
    reveal_with_fuel(run, 7);
}

/// Whether the ids and chapters next to chapter `ch` of book `id` that
/// navigation may compute fit their integer types: the chapter before when
/// it stays in the book, the chapter after when it stays in the book, and
/// the books before and after when it moves to them.
pub open spec fn navigation_in_range(cat: Catalog, id: i32, ch: i64) -> bool {
    &&& ch != 0 && ch != 1 ==> ch > i64::MIN
    &&& ch != 0 && !(id == LAST_BOOK_ID && ch == LAST_CHAPTER) && ch != chapter_total(cat, id)
        ==> ch < i64::MAX
    &&& (ch == 0 || ch == 1) && id != FIRST_BOOK_ID ==> id > i32::MIN
    &&& (ch == 0 && id != LAST_BOOK_ID) || (ch != 0 && !(id == LAST_BOOK_ID && ch == LAST_CHAPTER)
        && ch == chapter_total(cat, id)) ==> id < i32::MAX
}

/// Driven by the catalog, every step of the machine gets an answer it
/// expects and stays within the integer types, whenever the neighbours of the
/// current page fit them.
pub proof fn lemma_machine_in_range(cat: Catalog, first: NavAction, ch: i64)
    requires
        first is FindBookByName || first is FindBookByAbbreviation,
        answer(cat, first) matches NavEvent::BookId(id) ==> navigation_in_range(cat, id, ch),
    ensures
        run_in_range(cat, NavState::AwaitBookId { chapter: ch }, first, 6),
{
    reveal_with_fuel(run_in_range, 7);
}

/// Whether the catalog counts the chapters of the canon as navigation
/// assumes: every book from the first to the last has at least one chapter,
/// and the last book has `LAST_CHAPTER` of them.
pub open spec fn canonical_chapters(cat: Catalog) -> bool {
    &&& forall|b: i32|
        FIRST_BOOK_ID <= b <= LAST_BOOK_ID ==> #[trigger] chapter_total(cat, b) >= 1
    &&& chapter_total(cat, LAST_BOOK_ID) == LAST_CHAPTER
}

/// Whether chapter `ch` of book `id` is a page: a book of the canon, and
/// its own page (chapter 0) or one of its chapters.
pub open spec fn is_page(cat: Catalog, id: i32, ch: i64) -> bool {
    FIRST_BOOK_ID <= id <= LAST_BOOK_ID && 0 <= ch <= chapter_total(cat, id)
}

/// Going back then forward returns to the same page: the page before a page
/// is a page, and the page after it is the page itself.
pub proof fn lemma_previous_then_next(cat: Catalog, id: i32, ch: i64)
    requires
        canonical_chapters(cat),
        is_page(cat, id, ch),
    ensures
        previous_target(cat, id, ch) matches Some((b, c)) ==> is_page(cat, b, c) && next_target(
            cat,
            b,
            c,
        ) == Some((id, ch)),
{
    if ch == 1 && id != FIRST_BOOK_ID {
        assert(chapter_total(cat, (id - 1) as i32) >= 1);
    }
}

/// Going forward then back returns to the same page: the page after a page
/// is a page, and the page before it is the page itself.
pub proof fn lemma_next_then_previous(cat: Catalog, id: i32, ch: i64)
    requires
        canonical_chapters(cat),
        is_page(cat, id, ch),
    ensures
        next_target(cat, id, ch) matches Some((b, c)) ==> is_page(cat, b, c) && previous_target(
            cat,
            b,
            c,
        ) == Some((id, ch)),
{
    assert(chapter_total(cat, id) >= 1);
    if id != LAST_BOOK_ID {
        assert(chapter_total(cat, (id + 1) as i32) >= 1);
    }
}

/// The ends of the canon: there is no page before exactly the first book's
/// own page and its first chapter, and no page after exactly the last
/// book's own page and its last chapter.
pub proof fn lemma_navigation_ends(cat: Catalog, id: i32, ch: i64)
    requires
        canonical_chapters(cat),
        is_page(cat, id, ch),
    ensures
        previous_target(cat, id, ch) is None <==> (id == FIRST_BOOK_ID && ch <= 1),
        next_target(cat, id, ch) is None <==> (id == LAST_BOOK_ID && (ch == 0 || ch
            == LAST_CHAPTER)),
{
    assert(chapter_total(cat, id) >= 1);
}


/// The chapter counts of the canon are what navigation assumes: a catalog
/// that counts, for each book id from the first to the last, the chapters of
/// the book at that position of the canon, is canonical (the last book,
/// Revelation, has `LAST_CHAPTER` chapters).
pub proof fn lemma_canon_chapters_canonical(cat: Catalog)
    requires
        forall|b: i32|
            FIRST_BOOK_ID <= b <= LAST_BOOK_ID ==> #[trigger] chapter_total(cat, b)
                == spec_chapter_count(b - FIRST_BOOK_ID),
    ensures
        canonical_chapters(cat),
{
    assert(LAST_BOOK_ID - FIRST_BOOK_ID + 1 == TOTAL);
    assert forall|b: i32| FIRST_BOOK_ID <= b <= LAST_BOOK_ID implies #[trigger] chapter_total(cat, b) >= 1 by {
        lemma_books_not_empty(b - FIRST_BOOK_ID);
    }
    assert(chapter_total(cat, LAST_BOOK_ID) == spec_chapter_count(65));
}


/// On a page of the canon, navigation computes no id or chapter outside its
/// integer type.
pub proof fn lemma_pages_in_range(cat: Catalog, id: i32, ch: i64)
    requires
        is_page(cat, id, ch),
    ensures
        navigation_in_range(cat, id, ch),
{
}

} // verus!
