//! The canon of the Bible as this service serves it: the 66 books in order,
//! with the name and the abbreviation of each, and how many chapters and
//! verses it has.

use vstd::prelude::*;

verus! {

/// Number of books in the canon.
pub const TOTAL: u8 = 66u8;

/// Number of books of the Old Testament; they come first in the canon.
pub const OLD_TESTAMENT_BOOKS: usize = 39usize;

/// The name of the book at position `i` (from 0) of the canon.
pub open spec fn spec_book_name(i: int) -> Seq<char> {
    if i == 0 {
        "Genesis"@
    } else if i == 1 {
        "Exodus"@
    } else if i == 2 {
        "Leviticus"@
    } else if i == 3 {
        "Numbers"@
    } else if i == 4 {
        "Deuteronomy"@
    } else if i == 5 {
        "Joshua"@
    } else if i == 6 {
        "Judges"@
    } else if i == 7 {
        "Ruth"@
    } else if i == 8 {
        "1 Samuel"@
    } else if i == 9 {
        "2 Samuel"@
    } else if i == 10 {
        "1 Kings"@
    } else if i == 11 {
        "2 Kings"@
    } else if i == 12 {
        "1 Chronicles"@
    } else if i == 13 {
        "2 Chronicles"@
    } else if i == 14 {
        "Ezra"@
    } else if i == 15 {
        "Nehemiah"@
    } else if i == 16 {
        "Esther"@
    } else if i == 17 {
        "Job"@
    } else if i == 18 {
        "Psalms"@
    } else if i == 19 {
        "Proverbs"@
    } else if i == 20 {
        "Ecclesiastes"@
    } else if i == 21 {
        "Song of Solomon"@
    } else if i == 22 {
        "Isaiah"@
    } else if i == 23 {
        "Jeremiah"@
    } else if i == 24 {
        "Lamentations"@
    } else if i == 25 {
        "Ezekiel"@
    } else if i == 26 {
        "Daniel"@
    } else if i == 27 {
        "Hosea"@
    } else if i == 28 {
        "Joel"@
    } else if i == 29 {
        "Amos"@
    } else if i == 30 {
        "Obadiah"@
    } else if i == 31 {
        "Jonah"@
    } else if i == 32 {
        "Micah"@
    } else if i == 33 {
        "Nahum"@
    } else if i == 34 {
        "Habakkuk"@
    } else if i == 35 {
        "Zephaniah"@
    } else if i == 36 {
        "Haggai"@
    } else if i == 37 {
        "Zechariah"@
    } else if i == 38 {
        "Malachi"@
    } else if i == 39 {
        "Matthew"@
    } else if i == 40 {
        "Mark"@
    } else if i == 41 {
        "Luke"@
    } else if i == 42 {
        "John"@
    } else if i == 43 {
        "Acts"@
    } else if i == 44 {
        "Romans"@
    } else if i == 45 {
        "1 Corinthians"@
    } else if i == 46 {
        "2 Corinthians"@
    } else if i == 47 {
        "Galatians"@
    } else if i == 48 {
        "Ephesians"@
    } else if i == 49 {
        "Philippians"@
    } else if i == 50 {
        "Colossians"@
    } else if i == 51 {
        "1 Thessalonians"@
    } else if i == 52 {
        "2 Thessalonians"@
    } else if i == 53 {
        "1 Timothy"@
    } else if i == 54 {
        "2 Timothy"@
    } else if i == 55 {
        "Titus"@
    } else if i == 56 {
        "Philemon"@
    } else if i == 57 {
        "Hebrews"@
    } else if i == 58 {
        "James"@
    } else if i == 59 {
        "1 Peter"@
    } else if i == 60 {
        "2 Peter"@
    } else if i == 61 {
        "1 John"@
    } else if i == 62 {
        "2 John"@
    } else if i == 63 {
        "3 John"@
    } else if i == 64 {
        "Jude"@
    } else {
        "Revelation"@
    }
}

/// The abbreviation of the book at position `i` (from 0) of the canon.
pub open spec fn spec_abbreviation(i: int) -> Seq<char> {
    if i == 0 {
        "GEN"@
    } else if i == 1 {
        "EXO"@
    } else if i == 2 {
        "LEV"@
    } else if i == 3 {
        "NUM"@
    } else if i == 4 {
        "DEU"@
    } else if i == 5 {
        "JOS"@
    } else if i == 6 {
        "JDG"@
    } else if i == 7 {
        "RUT"@
    } else if i == 8 {
        "1SA"@
    } else if i == 9 {
        "2SA"@
    } else if i == 10 {
        "1KI"@
    } else if i == 11 {
        "2KI"@
    } else if i == 12 {
        "1CH"@
    } else if i == 13 {
        "2CH"@
    } else if i == 14 {
        "EZR"@
    } else if i == 15 {
        "NEH"@
    } else if i == 16 {
        "EST"@
    } else if i == 17 {
        "JOB"@
    } else if i == 18 {
        "PSA"@
    } else if i == 19 {
        "PRO"@
    } else if i == 20 {
        "ECC"@
    } else if i == 21 {
        "SNG"@
    } else if i == 22 {
        "ISA"@
    } else if i == 23 {
        "JER"@
    } else if i == 24 {
        "LAM"@
    } else if i == 25 {
        "EZK"@
    } else if i == 26 {
        "DAN"@
    } else if i == 27 {
        "HOS"@
    } else if i == 28 {
        "JOL"@
    } else if i == 29 {
        "AMO"@
    } else if i == 30 {
        "OBA"@
    } else if i == 31 {
        "JON"@
    } else if i == 32 {
        "MIC"@
    } else if i == 33 {
        "NAM"@
    } else if i == 34 {
        "HAB"@
    } else if i == 35 {
        "ZEP"@
    } else if i == 36 {
        "HAG"@
    } else if i == 37 {
        "ZEC"@
    } else if i == 38 {
        "MAL"@
    } else if i == 39 {
        "MAT"@
    } else if i == 40 {
        "MRK"@
    } else if i == 41 {
        "LUK"@
    } else if i == 42 {
        "JHN"@
    } else if i == 43 {
        "ACT"@
    } else if i == 44 {
        "ROM"@
    } else if i == 45 {
        "1CO"@
    } else if i == 46 {
        "2CO"@
    } else if i == 47 {
        "GAL"@
    } else if i == 48 {
        "EPH"@
    } else if i == 49 {
        "PHP"@
    } else if i == 50 {
        "COL"@
    } else if i == 51 {
        "1TH"@
    } else if i == 52 {
        "2TH"@
    } else if i == 53 {
        "1TI"@
    } else if i == 54 {
        "2TI"@
    } else if i == 55 {
        "TIT"@
    } else if i == 56 {
        "PHM"@
    } else if i == 57 {
        "HEB"@
    } else if i == 58 {
        "JAS"@
    } else if i == 59 {
        "1PE"@
    } else if i == 60 {
        "2PE"@
    } else if i == 61 {
        "1JN"@
    } else if i == 62 {
        "2JN"@
    } else if i == 63 {
        "3JN"@
    } else if i == 64 {
        "JUD"@
    } else {
        "REV"@
    }
}

/// How many chapters the book at position `i` (from 0) of the canon has.
pub open spec fn spec_chapter_count(i: int) -> int {
    if i == 0 {
        50
    } else if i == 1 {
        40
    } else if i == 2 {
        27
    } else if i == 3 {
        36
    } else if i == 4 {
        34
    } else if i == 5 {
        24
    } else if i == 6 {
        21
    } else if i == 7 {
        4
    } else if i == 8 {
        31
    } else if i == 9 {
        24
    } else if i == 10 {
        22
    } else if i == 11 {
        25
    } else if i == 12 {
        29
    } else if i == 13 {
        36
    } else if i == 14 {
        10
    } else if i == 15 {
        13
    } else if i == 16 {
        10
    } else if i == 17 {
        42
    } else if i == 18 {
        150
    } else if i == 19 {
        31
    } else if i == 20 {
        12
    } else if i == 21 {
        8
    } else if i == 22 {
        66
    } else if i == 23 {
        52
    } else if i == 24 {
        5
    } else if i == 25 {
        48
    } else if i == 26 {
        12
    } else if i == 27 {
        14
    } else if i == 28 {
        3
    } else if i == 29 {
        9
    } else if i == 30 {
        1
    } else if i == 31 {
        4
    } else if i == 32 {
        7
    } else if i == 33 {
        3
    } else if i == 34 {
        3
    } else if i == 35 {
        3
    } else if i == 36 {
        2
    } else if i == 37 {
        14
    } else if i == 38 {
        4
    } else if i == 39 {
        28
    } else if i == 40 {
        16
    } else if i == 41 {
        24
    } else if i == 42 {
        21
    } else if i == 43 {
        28
    } else if i == 44 {
        16
    } else if i == 45 {
        16
    } else if i == 46 {
        13
    } else if i == 47 {
        6
    } else if i == 48 {
        6
    } else if i == 49 {
        4
    } else if i == 50 {
        4
    } else if i == 51 {
        5
    } else if i == 52 {
        3
    } else if i == 53 {
        6
    } else if i == 54 {
        4
    } else if i == 55 {
        3
    } else if i == 56 {
        1
    } else if i == 57 {
        13
    } else if i == 58 {
        5
    } else if i == 59 {
        5
    } else if i == 60 {
        3
    } else if i == 61 {
        5
    } else if i == 62 {
        1
    } else if i == 63 {
        1
    } else if i == 64 {
        1
    } else {
        22
    }
}

/// How many verses the book at position `i` (from 0) of the canon has.
pub open spec fn spec_verse_count(i: int) -> int {
    if i == 0 {
        1533
    } else if i == 1 {
        1213
    } else if i == 2 {
        859
    } else if i == 3 {
        1288
    } else if i == 4 {
        959
    } else if i == 5 {
        658
    } else if i == 6 {
        618
    } else if i == 7 {
        85
    } else if i == 8 {
        810
    } else if i == 9 {
        695
    } else if i == 10 {
        816
    } else if i == 11 {
        719
    } else if i == 12 {
        942
    } else if i == 13 {
        822
    } else if i == 14 {
        280
    } else if i == 15 {
        406
    } else if i == 16 {
        167
    } else if i == 17 {
        1070
    } else if i == 18 {
        2461
    } else if i == 19 {
        915
    } else if i == 20 {
        222
    } else if i == 21 {
        117
    } else if i == 22 {
        1292
    } else if i == 23 {
        1364
    } else if i == 24 {
        154
    } else if i == 25 {
        1273
    } else if i == 26 {
        357
    } else if i == 27 {
        197
    } else if i == 28 {
        73
    } else if i == 29 {
        146
    } else if i == 30 {
        21
    } else if i == 31 {
        48
    } else if i == 32 {
        105
    } else if i == 33 {
        47
    } else if i == 34 {
        56
    } else if i == 35 {
        53
    } else if i == 36 {
        38
    } else if i == 37 {
        211
    } else if i == 38 {
        55
    } else if i == 39 {
        1071
    } else if i == 40 {
        678
    } else if i == 41 {
        1151
    } else if i == 42 {
        879
    } else if i == 43 {
        1007
    } else if i == 44 {
        433
    } else if i == 45 {
        437
    } else if i == 46 {
        257
    } else if i == 47 {
        149
    } else if i == 48 {
        155
    } else if i == 49 {
        104
    } else if i == 50 {
        95
    } else if i == 51 {
        89
    } else if i == 52 {
        47
    } else if i == 53 {
        113
    } else if i == 54 {
        83
    } else if i == 55 {
        46
    } else if i == 56 {
        25
    } else if i == 57 {
        303
    } else if i == 58 {
        108
    } else if i == 59 {
        105
    } else if i == 60 {
        61
    } else if i == 61 {
        105
    } else if i == 62 {
        13
    } else if i == 63 {
        14
    } else if i == 64 {
        25
    } else {
        404
    }
}

/// The name of the book at position `i` of the canon.
pub fn book_name(i: usize) -> (r: &'static str)
    requires
        i < TOTAL,
    ensures
        r@ == spec_book_name(i as int),
{
    match i {
        0 => "Genesis",
        1 => "Exodus",
        2 => "Leviticus",
        3 => "Numbers",
        4 => "Deuteronomy",
        5 => "Joshua",
        6 => "Judges",
        7 => "Ruth",
        8 => "1 Samuel",
        9 => "2 Samuel",
        10 => "1 Kings",
        11 => "2 Kings",
        12 => "1 Chronicles",
        13 => "2 Chronicles",
        14 => "Ezra",
        15 => "Nehemiah",
        16 => "Esther",
        17 => "Job",
        18 => "Psalms",
        19 => "Proverbs",
        20 => "Ecclesiastes",
        21 => "Song of Solomon",
        22 => "Isaiah",
        23 => "Jeremiah",
        24 => "Lamentations",
        25 => "Ezekiel",
        26 => "Daniel",
        27 => "Hosea",
        28 => "Joel",
        29 => "Amos",
        30 => "Obadiah",
        31 => "Jonah",
        32 => "Micah",
        33 => "Nahum",
        34 => "Habakkuk",
        35 => "Zephaniah",
        36 => "Haggai",
        37 => "Zechariah",
        38 => "Malachi",
        39 => "Matthew",
        40 => "Mark",
        41 => "Luke",
        42 => "John",
        43 => "Acts",
        44 => "Romans",
        45 => "1 Corinthians",
        46 => "2 Corinthians",
        47 => "Galatians",
        48 => "Ephesians",
        49 => "Philippians",
        50 => "Colossians",
        51 => "1 Thessalonians",
        52 => "2 Thessalonians",
        53 => "1 Timothy",
        54 => "2 Timothy",
        55 => "Titus",
        56 => "Philemon",
        57 => "Hebrews",
        58 => "James",
        59 => "1 Peter",
        60 => "2 Peter",
        61 => "1 John",
        62 => "2 John",
        63 => "3 John",
        64 => "Jude",
        _ => "Revelation",
    }
}

/// The abbreviation of the book at position `i` of the canon.
pub fn abbreviation(i: usize) -> (r: &'static str)
    requires
        i < TOTAL,
    ensures
        r@ == spec_abbreviation(i as int),
{
    match i {
        0 => "GEN",
        1 => "EXO",
        2 => "LEV",
        3 => "NUM",
        4 => "DEU",
        5 => "JOS",
        6 => "JDG",
        7 => "RUT",
        8 => "1SA",
        9 => "2SA",
        10 => "1KI",
        11 => "2KI",
        12 => "1CH",
        13 => "2CH",
        14 => "EZR",
        15 => "NEH",
        16 => "EST",
        17 => "JOB",
        18 => "PSA",
        19 => "PRO",
        20 => "ECC",
        21 => "SNG",
        22 => "ISA",
        23 => "JER",
        24 => "LAM",
        25 => "EZK",
        26 => "DAN",
        27 => "HOS",
        28 => "JOL",
        29 => "AMO",
        30 => "OBA",
        31 => "JON",
        32 => "MIC",
        33 => "NAM",
        34 => "HAB",
        35 => "ZEP",
        36 => "HAG",
        37 => "ZEC",
        38 => "MAL",
        39 => "MAT",
        40 => "MRK",
        41 => "LUK",
        42 => "JHN",
        43 => "ACT",
        44 => "ROM",
        45 => "1CO",
        46 => "2CO",
        47 => "GAL",
        48 => "EPH",
        49 => "PHP",
        50 => "COL",
        51 => "1TH",
        52 => "2TH",
        53 => "1TI",
        54 => "2TI",
        55 => "TIT",
        56 => "PHM",
        57 => "HEB",
        58 => "JAS",
        59 => "1PE",
        60 => "2PE",
        61 => "1JN",
        62 => "2JN",
        63 => "3JN",
        64 => "JUD",
        _ => "REV",
    }
}

/// How many chapters the book at position `i` of the canon has.
pub fn chapter_count(i: usize) -> (r: u8)
    requires
        i < TOTAL,
    ensures
        r == spec_chapter_count(i as int),
{
    match i {
        0 => 50,
        1 => 40,
        2 => 27,
        3 => 36,
        4 => 34,
        5 => 24,
        6 => 21,
        7 => 4,
        8 => 31,
        9 => 24,
        10 => 22,
        11 => 25,
        12 => 29,
        13 => 36,
        14 => 10,
        15 => 13,
        16 => 10,
        17 => 42,
        18 => 150,
        19 => 31,
        20 => 12,
        21 => 8,
        22 => 66,
        23 => 52,
        24 => 5,
        25 => 48,
        26 => 12,
        27 => 14,
        28 => 3,
        29 => 9,
        30 => 1,
        31 => 4,
        32 => 7,
        33 => 3,
        34 => 3,
        35 => 3,
        36 => 2,
        37 => 14,
        38 => 4,
        39 => 28,
        40 => 16,
        41 => 24,
        42 => 21,
        43 => 28,
        44 => 16,
        45 => 16,
        46 => 13,
        47 => 6,
        48 => 6,
        49 => 4,
        50 => 4,
        51 => 5,
        52 => 3,
        53 => 6,
        54 => 4,
        55 => 3,
        56 => 1,
        57 => 13,
        58 => 5,
        59 => 5,
        60 => 3,
        61 => 5,
        62 => 1,
        63 => 1,
        64 => 1,
        _ => 22,
    }
}

/// How many verses the book at position `i` of the canon has.
pub fn verse_count(i: usize) -> (r: u16)
    requires
        i < TOTAL,
    ensures
        r == spec_verse_count(i as int),
{
    match i {
        0 => 1533,
        1 => 1213,
        2 => 859,
        3 => 1288,
        4 => 959,
        5 => 658,
        6 => 618,
        7 => 85,
        8 => 810,
        9 => 695,
        10 => 816,
        11 => 719,
        12 => 942,
        13 => 822,
        14 => 280,
        15 => 406,
        16 => 167,
        17 => 1070,
        18 => 2461,
        19 => 915,
        20 => 222,
        21 => 117,
        22 => 1292,
        23 => 1364,
        24 => 154,
        25 => 1273,
        26 => 357,
        27 => 197,
        28 => 73,
        29 => 146,
        30 => 21,
        31 => 48,
        32 => 105,
        33 => 47,
        34 => 56,
        35 => 53,
        36 => 38,
        37 => 211,
        38 => 55,
        39 => 1071,
        40 => 678,
        41 => 1151,
        42 => 879,
        43 => 1007,
        44 => 433,
        45 => 437,
        46 => 257,
        47 => 149,
        48 => 155,
        49 => 104,
        50 => 95,
        51 => 89,
        52 => 47,
        53 => 113,
        54 => 83,
        55 => 46,
        56 => 25,
        57 => 303,
        58 => 108,
        59 => 105,
        60 => 61,
        61 => 105,
        62 => 13,
        63 => 14,
        64 => 25,
        _ => 404,
    }
}

/// The number of chapters of the first `n` books of the canon.
pub open spec fn total_chapters(n: int) -> int
    decreases n,
{
    if n <= 0 {
        0
    } else {
        total_chapters(n - 1) + spec_chapter_count(n - 1)
    }
}

/// The number of verses of the first `n` books of the canon.
pub open spec fn total_verses(n: int) -> int
    decreases n,
{
    if n <= 0 {
        0
    } else {
        total_verses(n - 1) + spec_verse_count(n - 1)
    }
}

/// Every book of the canon has at least one chapter and one verse.
pub proof fn lemma_books_not_empty(i: int)
    requires
        0 <= i < TOTAL,
    ensures
        spec_chapter_count(i) >= 1,
        spec_verse_count(i) >= 1,
{
}

/// The canon has 1189 chapters and 31102 verses, 929 chapters and 23145
/// verses of them in the Old Testament.
pub proof fn lemma_canon_totals()
    ensures
        total_chapters(OLD_TESTAMENT_BOOKS as int) == 929,
        total_verses(OLD_TESTAMENT_BOOKS as int) == 23145,
        total_chapters(TOTAL as int) == 1189,
        total_verses(TOTAL as int) == 31102,
{
    reveal_with_fuel(total_chapters, 67);
    reveal_with_fuel(total_verses, 67);
}

/// The books of the Old Testament, in canonical order: each one's name,
/// abbreviation, number of chapters and number of verses.
pub proof fn lemma_old_testament_table()
    ensures
        spec_book_name(0) == "Genesis"@ && spec_abbreviation(0) == "GEN"@
            && spec_chapter_count(0) == 50 && spec_verse_count(0) == 1533,
        spec_book_name(1) == "Exodus"@ && spec_abbreviation(1) == "EXO"@
            && spec_chapter_count(1) == 40 && spec_verse_count(1) == 1213,
        spec_book_name(2) == "Leviticus"@ && spec_abbreviation(2) == "LEV"@
            && spec_chapter_count(2) == 27 && spec_verse_count(2) == 859,
        spec_book_name(3) == "Numbers"@ && spec_abbreviation(3) == "NUM"@
            && spec_chapter_count(3) == 36 && spec_verse_count(3) == 1288,
        spec_book_name(4) == "Deuteronomy"@ && spec_abbreviation(4) == "DEU"@
            && spec_chapter_count(4) == 34 && spec_verse_count(4) == 959,
        spec_book_name(5) == "Joshua"@ && spec_abbreviation(5) == "JOS"@
            && spec_chapter_count(5) == 24 && spec_verse_count(5) == 658,
        spec_book_name(6) == "Judges"@ && spec_abbreviation(6) == "JDG"@
            && spec_chapter_count(6) == 21 && spec_verse_count(6) == 618,
        spec_book_name(7) == "Ruth"@ && spec_abbreviation(7) == "RUT"@
            && spec_chapter_count(7) == 4 && spec_verse_count(7) == 85,
        spec_book_name(8) == "1 Samuel"@ && spec_abbreviation(8) == "1SA"@
            && spec_chapter_count(8) == 31 && spec_verse_count(8) == 810,
        spec_book_name(9) == "2 Samuel"@ && spec_abbreviation(9) == "2SA"@
            && spec_chapter_count(9) == 24 && spec_verse_count(9) == 695,
        spec_book_name(10) == "1 Kings"@ && spec_abbreviation(10) == "1KI"@
            && spec_chapter_count(10) == 22 && spec_verse_count(10) == 816,
        spec_book_name(11) == "2 Kings"@ && spec_abbreviation(11) == "2KI"@
            && spec_chapter_count(11) == 25 && spec_verse_count(11) == 719,
        spec_book_name(12) == "1 Chronicles"@ && spec_abbreviation(12) == "1CH"@
            && spec_chapter_count(12) == 29 && spec_verse_count(12) == 942,
        spec_book_name(13) == "2 Chronicles"@ && spec_abbreviation(13) == "2CH"@
            && spec_chapter_count(13) == 36 && spec_verse_count(13) == 822,
        spec_book_name(14) == "Ezra"@ && spec_abbreviation(14) == "EZR"@
            && spec_chapter_count(14) == 10 && spec_verse_count(14) == 280,
        spec_book_name(15) == "Nehemiah"@ && spec_abbreviation(15) == "NEH"@
            && spec_chapter_count(15) == 13 && spec_verse_count(15) == 406,
        spec_book_name(16) == "Esther"@ && spec_abbreviation(16) == "EST"@
            && spec_chapter_count(16) == 10 && spec_verse_count(16) == 167,
        spec_book_name(17) == "Job"@ && spec_abbreviation(17) == "JOB"@
            && spec_chapter_count(17) == 42 && spec_verse_count(17) == 1070,
        spec_book_name(18) == "Psalms"@ && spec_abbreviation(18) == "PSA"@
            && spec_chapter_count(18) == 150 && spec_verse_count(18) == 2461,
        spec_book_name(19) == "Proverbs"@ && spec_abbreviation(19) == "PRO"@
            && spec_chapter_count(19) == 31 && spec_verse_count(19) == 915,
        spec_book_name(20) == "Ecclesiastes"@ && spec_abbreviation(20) == "ECC"@
            && spec_chapter_count(20) == 12 && spec_verse_count(20) == 222,
        spec_book_name(21) == "Song of Solomon"@ && spec_abbreviation(21) == "SNG"@
            && spec_chapter_count(21) == 8 && spec_verse_count(21) == 117,
        spec_book_name(22) == "Isaiah"@ && spec_abbreviation(22) == "ISA"@
            && spec_chapter_count(22) == 66 && spec_verse_count(22) == 1292,
        spec_book_name(23) == "Jeremiah"@ && spec_abbreviation(23) == "JER"@
            && spec_chapter_count(23) == 52 && spec_verse_count(23) == 1364,
        spec_book_name(24) == "Lamentations"@ && spec_abbreviation(24) == "LAM"@
            && spec_chapter_count(24) == 5 && spec_verse_count(24) == 154,
        spec_book_name(25) == "Ezekiel"@ && spec_abbreviation(25) == "EZK"@
            && spec_chapter_count(25) == 48 && spec_verse_count(25) == 1273,
        spec_book_name(26) == "Daniel"@ && spec_abbreviation(26) == "DAN"@
            && spec_chapter_count(26) == 12 && spec_verse_count(26) == 357,
        spec_book_name(27) == "Hosea"@ && spec_abbreviation(27) == "HOS"@
            && spec_chapter_count(27) == 14 && spec_verse_count(27) == 197,
        spec_book_name(28) == "Joel"@ && spec_abbreviation(28) == "JOL"@
            && spec_chapter_count(28) == 3 && spec_verse_count(28) == 73,
        spec_book_name(29) == "Amos"@ && spec_abbreviation(29) == "AMO"@
            && spec_chapter_count(29) == 9 && spec_verse_count(29) == 146,
        spec_book_name(30) == "Obadiah"@ && spec_abbreviation(30) == "OBA"@
            && spec_chapter_count(30) == 1 && spec_verse_count(30) == 21,
        spec_book_name(31) == "Jonah"@ && spec_abbreviation(31) == "JON"@
            && spec_chapter_count(31) == 4 && spec_verse_count(31) == 48,
        spec_book_name(32) == "Micah"@ && spec_abbreviation(32) == "MIC"@
            && spec_chapter_count(32) == 7 && spec_verse_count(32) == 105,
        spec_book_name(33) == "Nahum"@ && spec_abbreviation(33) == "NAM"@
            && spec_chapter_count(33) == 3 && spec_verse_count(33) == 47,
        spec_book_name(34) == "Habakkuk"@ && spec_abbreviation(34) == "HAB"@
            && spec_chapter_count(34) == 3 && spec_verse_count(34) == 56,
        spec_book_name(35) == "Zephaniah"@ && spec_abbreviation(35) == "ZEP"@
            && spec_chapter_count(35) == 3 && spec_verse_count(35) == 53,
        spec_book_name(36) == "Haggai"@ && spec_abbreviation(36) == "HAG"@
            && spec_chapter_count(36) == 2 && spec_verse_count(36) == 38,
        spec_book_name(37) == "Zechariah"@ && spec_abbreviation(37) == "ZEC"@
            && spec_chapter_count(37) == 14 && spec_verse_count(37) == 211,
        spec_book_name(38) == "Malachi"@ && spec_abbreviation(38) == "MAL"@
            && spec_chapter_count(38) == 4 && spec_verse_count(38) == 55,
{
}

/// The books of the New Testament, in canonical order (after the 39 of the
/// Old Testament): each one's name, abbreviation, number of chapters and
/// number of verses.
pub proof fn lemma_new_testament_table()
    ensures
        spec_book_name(39) == "Matthew"@ && spec_abbreviation(39) == "MAT"@
            && spec_chapter_count(39) == 28 && spec_verse_count(39) == 1071,
        spec_book_name(40) == "Mark"@ && spec_abbreviation(40) == "MRK"@
            && spec_chapter_count(40) == 16 && spec_verse_count(40) == 678,
        spec_book_name(41) == "Luke"@ && spec_abbreviation(41) == "LUK"@
            && spec_chapter_count(41) == 24 && spec_verse_count(41) == 1151,
        spec_book_name(42) == "John"@ && spec_abbreviation(42) == "JHN"@
            && spec_chapter_count(42) == 21 && spec_verse_count(42) == 879,
        spec_book_name(43) == "Acts"@ && spec_abbreviation(43) == "ACT"@
            && spec_chapter_count(43) == 28 && spec_verse_count(43) == 1007,
        spec_book_name(44) == "Romans"@ && spec_abbreviation(44) == "ROM"@
            && spec_chapter_count(44) == 16 && spec_verse_count(44) == 433,
        spec_book_name(45) == "1 Corinthians"@ && spec_abbreviation(45) == "1CO"@
            && spec_chapter_count(45) == 16 && spec_verse_count(45) == 437,
        spec_book_name(46) == "2 Corinthians"@ && spec_abbreviation(46) == "2CO"@
            && spec_chapter_count(46) == 13 && spec_verse_count(46) == 257,
        spec_book_name(47) == "Galatians"@ && spec_abbreviation(47) == "GAL"@
            && spec_chapter_count(47) == 6 && spec_verse_count(47) == 149,
        spec_book_name(48) == "Ephesians"@ && spec_abbreviation(48) == "EPH"@
            && spec_chapter_count(48) == 6 && spec_verse_count(48) == 155,
        spec_book_name(49) == "Philippians"@ && spec_abbreviation(49) == "PHP"@
            && spec_chapter_count(49) == 4 && spec_verse_count(49) == 104,
        spec_book_name(50) == "Colossians"@ && spec_abbreviation(50) == "COL"@
            && spec_chapter_count(50) == 4 && spec_verse_count(50) == 95,
        spec_book_name(51) == "1 Thessalonians"@ && spec_abbreviation(51) == "1TH"@
            && spec_chapter_count(51) == 5 && spec_verse_count(51) == 89,
        spec_book_name(52) == "2 Thessalonians"@ && spec_abbreviation(52) == "2TH"@
            && spec_chapter_count(52) == 3 && spec_verse_count(52) == 47,
        spec_book_name(53) == "1 Timothy"@ && spec_abbreviation(53) == "1TI"@
            && spec_chapter_count(53) == 6 && spec_verse_count(53) == 113,
        spec_book_name(54) == "2 Timothy"@ && spec_abbreviation(54) == "2TI"@
            && spec_chapter_count(54) == 4 && spec_verse_count(54) == 83,
        spec_book_name(55) == "Titus"@ && spec_abbreviation(55) == "TIT"@
            && spec_chapter_count(55) == 3 && spec_verse_count(55) == 46,
        spec_book_name(56) == "Philemon"@ && spec_abbreviation(56) == "PHM"@
            && spec_chapter_count(56) == 1 && spec_verse_count(56) == 25,
        spec_book_name(57) == "Hebrews"@ && spec_abbreviation(57) == "HEB"@
            && spec_chapter_count(57) == 13 && spec_verse_count(57) == 303,
        spec_book_name(58) == "James"@ && spec_abbreviation(58) == "JAS"@
            && spec_chapter_count(58) == 5 && spec_verse_count(58) == 108,
        spec_book_name(59) == "1 Peter"@ && spec_abbreviation(59) == "1PE"@
            && spec_chapter_count(59) == 5 && spec_verse_count(59) == 105,
        spec_book_name(60) == "2 Peter"@ && spec_abbreviation(60) == "2PE"@
            && spec_chapter_count(60) == 3 && spec_verse_count(60) == 61,
        spec_book_name(61) == "1 John"@ && spec_abbreviation(61) == "1JN"@
            && spec_chapter_count(61) == 5 && spec_verse_count(61) == 105,
        spec_book_name(62) == "2 John"@ && spec_abbreviation(62) == "2JN"@
            && spec_chapter_count(62) == 1 && spec_verse_count(62) == 13,
        spec_book_name(63) == "3 John"@ && spec_abbreviation(63) == "3JN"@
            && spec_chapter_count(63) == 1 && spec_verse_count(63) == 14,
        spec_book_name(64) == "Jude"@ && spec_abbreviation(64) == "JUD"@
            && spec_chapter_count(64) == 1 && spec_verse_count(64) == 25,
        spec_book_name(65) == "Revelation"@ && spec_abbreviation(65) == "REV"@
            && spec_chapter_count(65) == 22 && spec_verse_count(65) == 404,
{
}

} // verus!
