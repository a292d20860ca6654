//! The book and translation endpoints: which translation a request names,
//! how the list of book names splits into the two testaments, and what a
//! request for an unknown translation is answered with.

use vstd::prelude::*;

use crate::constants::{OLD_TESTAMENT_BOOKS, TOTAL};
use crate::models::{Book, BookName, TranslationSelector};
use crate::text::{to_uppercase, uppercase};

verus! {

/// The translation name that a selector gives: the long field where it is
/// given (even empty), else the short one, else the empty text.
pub open spec fn requested_translation(sel: TranslationSelector) -> Seq<char> {
    match sel.translation {
        Some(t) => t@,
        None => match sel.tr {
            Some(t) => t@,
            None => Seq::empty(),
        },
    }
}

/// The translation whose book names a request for the list of books asks
/// for, in upper case; none when the request names none (or an empty one),
/// in which case the books' own names are listed.
pub fn books_translation(sel: &TranslationSelector) -> (r: Option<String>)
    ensures
        r is None <==> requested_translation(*sel).len() == 0,
        r matches Some(t) ==> t@ == uppercase(requested_translation(*sel)),
        sel.translation matches Some(t) ==> (r is None <==> t@.len() == 0) && (r matches Some(n)
            ==> n@ == uppercase(t@)),
        sel.translation is None ==> (sel.tr matches Some(t) ==> (r is None <==> t@.len() == 0) && (
        r matches Some(n) ==> n@ == uppercase(t@))),
        sel.translation is None && sel.tr is None ==> r is None,
{
    let name: &str = match &sel.translation {
        Some(t) => t.as_str(),
        None => match &sel.tr {
            Some(t) => t.as_str(),
            None => "",
        },
    };
    proof {
        reveal_strlit("");
    }
    if name.is_empty() {
        None
    } else {
        Some(to_uppercase(name))
    }
}

/// What a list of book names that is not the whole canon is answered with.
pub const INCOMPLETE_BOOKS_MESSAGE: &'static str =
    "Not all books were fetched, check if the translation name is correct";

/// The names of the books of the Old and of the New Testament: the first
/// `OLD_TESTAMENT_BOOKS` names and the rest, when there is one name for each
/// book of the canon; refused with `INCOMPLETE_BOOKS_MESSAGE` otherwise.
pub fn split_testaments(names: &Vec<BookName>) -> (r: Result<(Vec<String>, Vec<String>), &'static str>)
    ensures
        r is Ok <==> names.len() == TOTAL,
        r matches Err(m) ==> m@ == INCOMPLETE_BOOKS_MESSAGE@,
        r matches Ok((ot, nt)) ==> {
            &&& ot.len() == OLD_TESTAMENT_BOOKS
            &&& nt.len() == TOTAL - OLD_TESTAMENT_BOOKS
            &&& forall|i: int| 0 <= i < OLD_TESTAMENT_BOOKS ==> #[trigger] ot[i]@ == names[i].name@
            &&& forall|i: int|
                0 <= i < TOTAL - OLD_TESTAMENT_BOOKS ==> #[trigger] nt[i]@ == names[i
                    + OLD_TESTAMENT_BOOKS].name@
        },
{
    if names.len() != TOTAL as usize {
        return Err(INCOMPLETE_BOOKS_MESSAGE);
    }
    let mut ot: Vec<String> = Vec::new();
    let mut nt: Vec<String> = Vec::new();
    for i in 0..OLD_TESTAMENT_BOOKS
        invariant
            names.len() == TOTAL,
            ot.len() == i,
            forall|j: int| 0 <= j < i ==> #[trigger] ot[j]@ == names[j].name@,
    {
        ot.push(names[i].name.clone());
    }
    for i in OLD_TESTAMENT_BOOKS..TOTAL as usize
        invariant
            names.len() == TOTAL,
            nt.len() == i - OLD_TESTAMENT_BOOKS,
            forall|j: int|
                0 <= j < i - OLD_TESTAMENT_BOOKS ==> #[trigger] nt[j]@ == names[j
                    + OLD_TESTAMENT_BOOKS].name@,
    {
        nt.push(names[i].name.clone());
    }
    Ok((ot, nt))
}

/// The key under which a translation is looked up: its name in upper case.
pub fn translation_key(name: &str) -> (key: String)
    ensures
        key@ == uppercase(name@),
{
    to_uppercase(name)
}

/// What a request for the books of an unknown translation is answered with.
pub open spec fn missing_translation_message(translation: Seq<char>) -> Seq<char> {
    "The requested translation "@ + translation + " is not found on the server"@
}

/// The books of a translation as the database returned them: refused with a
/// message that names the translation when there are none.
pub fn translation_books(translation: &str, books: Vec<Book>) -> (r: Result<Vec<Book>, String>)
    ensures
        r is Err <==> books.len() == 0,
        r matches Err(m) ==> m@ == missing_translation_message(translation@),
        r matches Ok(b) ==> b == books,
{
    if books.len() == 0 {
        let message = String::from_str("The requested translation ").concat(translation).concat(
            " is not found on the server",
        );
        Err(message)
    } else {
        Ok(books)
    }
}


/// The translation a book-list request asks for: the long field
/// `translation` wherever it is given, whatever the short field `tr` holds;
/// else the short field; else none.
pub proof fn lemma_requested_translation(sel: TranslationSelector)
    ensures
        sel.translation matches Some(t) ==> requested_translation(sel) == t@,
        sel.translation is None ==> (sel.tr matches Some(t) ==> requested_translation(sel) == t@),
        sel.translation is None && sel.tr is None ==> requested_translation(sel).len() == 0,
{
}

} // verus!
