use vstd::prelude::*;
use crate::error::{DecodeError, Error};
use crate::reply::{Scalar, ScalarModel};
use vstd::string::StrSliceExecFns;

verus! {

/// The code of `c` once lower-cased in the ASCII sense.
pub open spec fn folded(c: char) -> int {
    if 'A' <= c && c <= 'Z' {
        c as u32 + 32
    } else {
        c as int
    }
}

/// `a`, lower-cased in the ASCII sense, is `l`.
pub open spec fn lowers_to(a: char, l: char) -> bool {
    folded(a) == l as u32
}

/// The ASCII lower-casing of `s` is `lit`.
pub open spec fn lowercase_is(s: Seq<char>, lit: Seq<char>) -> bool {
    s.len() == lit.len() && forall|i: int| 0 <= i < s.len() ==> lowers_to(#[trigger] s[i], lit[i])
}

/// Whether `s`, lower-cased in the ASCII sense, reads `lit`.
pub fn lowercase_matches(s: &str, lit: &str) -> (r: bool)
    ensures
        r == lowercase_is(s@, lit@),
{
    let n = s.unicode_len();
    if n != lit.unicode_len() {
        return false;
    }
    let mut i: usize = 0;
    while i < n
        invariant
            n == s@.len(),
            n == lit@.len(),
            i <= n,
            forall|j: int| 0 <= j < i ==> lowers_to(#[trigger] s@[j], lit@[j]),
        decreases n - i,
    {
        let a = s.get_char(i);
        let l = lit.get_char(i);
        let ok = if 'A' <= a && a <= 'Z' {
            a as u32 + 32 == l as u32
        } else {
            a as u32 == l as u32
        };
        if !ok {
            assert(!lowers_to(s@[i as int], lit@[i as int]));
            return false;
        }
        i = i + 1;
    }
    true
}

/// `s` and `t` differ at most in the ASCII case of their letters.
pub open spec fn same_ignoring_case(s: Seq<char>, t: Seq<char>) -> bool {
    s.len() == t.len() && forall|i: int| 0 <= i < s.len() ==> folded(#[trigger] s[i]) == folded(
        t[i],
    )
}

proof fn lemma_lowercase_is_ignores_case(s: Seq<char>, t: Seq<char>, lit: Seq<char>)
    requires
        same_ignoring_case(s, t),
    ensures
        lowercase_is(s, lit) == lowercase_is(t, lit),
{
    if lowercase_is(s, lit) {
        assert forall|i: int| 0 <= i < t.len() implies lowers_to(#[trigger] t[i], lit[i]) by {
            assert(lowers_to(s[i], lit[i]));
        }
    }
    if lowercase_is(t, lit) {
        assert forall|i: int| 0 <= i < s.len() implies lowers_to(#[trigger] s[i], lit[i]) by {
            assert(lowers_to(t[i], lit[i]));
        }
    }
}

#[derive(Debug, Clone, Copy, PartialEq, Eq, Structural)]
pub enum Edition {
    English,
    Spanish,
    French,
}

/// The edition a text names, ignoring ASCII case.
pub open spec fn edition_named(s: Seq<char>) -> Option<Edition> {
    if lowercase_is(s, "english"@) {
        Some(Edition::English)
    } else if lowercase_is(s, "spanish"@) {
        Some(Edition::Spanish)
    } else if lowercase_is(s, "french"@) {
        Some(Edition::French)
    } else {
        None
    }
}

impl Edition {
    /// Parses an edition name, ignoring ASCII case; any other text is
    /// refused, and the error holds the text as given.
    pub fn parse(s: &str) -> (r: Result<Edition, Error>)
        ensures
            edition_named(s@) matches Some(e) ==> r == Ok::<Edition, Error>(e),
            edition_named(s@) is None ==> (r matches Err(Error::UnknownVariant(t)) && t@ == s@),
    {
        proof {
            reveal_strlit("english");
            reveal_strlit("spanish");
            reveal_strlit("french");
        }
        if lowercase_matches(s, "english") {
            Ok(Edition::English)
        } else if lowercase_matches(s, "spanish") {
            Ok(Edition::Spanish)
        } else if lowercase_matches(s, "french") {
            Ok(Edition::French)
        } else {
            Err(Error::UnknownVariant(s.to_owned()))
        }
    }
}

impl std::str::FromStr for Edition {
    type Err = Error;

    fn from_str(s: &str) -> (r: Result<Edition, Error>)
        ensures
            edition_named(s@) matches Some(e) ==> r == Ok::<Edition, Error>(e),
            edition_named(s@) is None ==> (r matches Err(Error::UnknownVariant(t)) && t@ == s@),
    {
        Edition::parse(s)
    }
}

#[derive(Debug, Clone, Copy, PartialEq, Eq, Structural)]
pub enum InventoryStatus {
    OnLoan,
    Available,
    Maintenance,
}

/// The status a text names, ignoring ASCII case; `on_loan` and `onloan` both
/// name `OnLoan`.
pub open spec fn status_named(s: Seq<char>) -> Option<InventoryStatus> {
    if lowercase_is(s, "on_loan"@) || lowercase_is(s, "onloan"@) {
        Some(InventoryStatus::OnLoan)
    } else if lowercase_is(s, "available"@) {
        Some(InventoryStatus::Available)
    } else if lowercase_is(s, "maintenance"@) {
        Some(InventoryStatus::Maintenance)
    } else {
        None
    }
}

impl InventoryStatus {
    /// Parses an inventory status, ignoring ASCII case and accepting both
    /// spellings of `OnLoan`; any other text is refused, and the error holds
    /// the text as given.
    pub fn parse(s: &str) -> (r: Result<InventoryStatus, Error>)
        ensures
            status_named(s@) matches Some(v) ==> r == Ok::<InventoryStatus, Error>(v),
            status_named(s@) is None ==> (r matches Err(Error::UnknownVariant(t)) && t@ == s@),
    {
        proof {
            reveal_strlit("on_loan");
            reveal_strlit("onloan");
            reveal_strlit("available");
            reveal_strlit("maintenance");
        }
        if lowercase_matches(s, "on_loan") || lowercase_matches(s, "onloan") {
            Ok(InventoryStatus::OnLoan)
        } else if lowercase_matches(s, "available") {
            Ok(InventoryStatus::Available)
        } else if lowercase_matches(s, "maintenance") {
            Ok(InventoryStatus::Maintenance)
        } else {
            Err(Error::UnknownVariant(s.to_owned()))
        }
    }
}

impl std::str::FromStr for InventoryStatus {
    type Err = Error;

    fn from_str(s: &str) -> (r: Result<InventoryStatus, Error>)
        ensures
            status_named(s@) matches Some(v) ==> r == Ok::<InventoryStatus, Error>(v),
            status_named(s@) is None ==> (r matches Err(Error::UnknownVariant(t)) && t@ == s@),
    {
        InventoryStatus::parse(s)
    }
}

/// Edition and inventory-status names are read without regard to ASCII case:
/// two texts that differ only in it name the same variant, or both name none.
pub proof fn lemma_names_ignore_case(s: Seq<char>, t: Seq<char>)
    requires
        same_ignoring_case(s, t),
    ensures
        edition_named(s) == edition_named(t),
        status_named(s) == status_named(t),
{
    lemma_lowercase_is_ignores_case(s, t, "english"@);
    lemma_lowercase_is_ignores_case(s, t, "spanish"@);
    lemma_lowercase_is_ignores_case(s, t, "french"@);
    lemma_lowercase_is_ignores_case(s, t, "on_loan"@);
    lemma_lowercase_is_ignores_case(s, t, "onloan"@);
    lemma_lowercase_is_ignores_case(s, t, "available"@);
    lemma_lowercase_is_ignores_case(s, t, "maintenance"@);
}

#[derive(Debug, Clone, PartialEq)]
pub struct Inventory {
    pub status: InventoryStatus,
    pub stock_id: String,
}

/// Ratings of a book; `score` is the bit pattern of a single-precision float.
#[derive(Debug, Clone, Copy, PartialEq, Eq, Structural)]
pub struct Metrics {
    pub rating_votes: u32,
    pub score: u32,
}

/// A stored book. The embedding, where present, holds the bit patterns of
/// single-precision floats.
#[derive(Debug, Clone, PartialEq)]
pub struct Book {
    pub author: String,
    pub id: String,
    pub description: String,
    pub embedding: Option<Vec<u32>>,
    pub editions: Vec<Edition>,
    pub genres: Vec<String>,
    pub inventory: Vec<Inventory>,
    pub metrics: Metrics,
    pub pages: u32,
    pub title: String,
    pub url: String,
    pub year_published: u16,
}

/// A stored record as a lookup returns it: the record itself, or a sequence
/// that should hold exactly that record.
pub enum StoredRecord {
    One(Book),
    Many(Vec<Book>),
}

/// The book a stored record yields.
pub open spec fn stored_book(r: StoredRecord) -> Result<Book, DecodeError> {
    match r {
        StoredRecord::One(b) => Ok(b),
        StoredRecord::Many(v) => if v@.len() == 0 {
            Err(DecodeError::RecordNotFound)
        } else if v@.len() > 1 {
            Err(DecodeError::AmbiguousRecord)
        } else {
            Ok(v@[0])
        },
    }
}

impl Book {
    /// Takes the one book out of a stored record: a sequence must hold
    /// exactly one.
    pub fn from_redis_value(r: StoredRecord) -> (b: Result<Book, DecodeError>)
        ensures
            b == stored_book(r),
    {
        match r {
            StoredRecord::One(b) => Ok(b),
            StoredRecord::Many(mut v) => {
                if v.len() == 0 {
                    Err(DecodeError::RecordNotFound)
                } else if v.len() > 1 {
                    Err(DecodeError::AmbiguousRecord)
                } else {
                    match v.pop() {
                        Some(b) => Ok(b),
                        None => Err(DecodeError::RecordNotFound),
                    }
                }
            },
        }
    }
}

/// A record and the sequence holding just that record yield the same book;
/// an empty sequence, or one of two or more records, yields an error.
pub proof fn lemma_stored_shapes_agree(b: Book, v: Vec<Book>)
    ensures
        v@ == seq![b] ==> stored_book(StoredRecord::Many(v)) == stored_book(StoredRecord::One(b)),
        stored_book(StoredRecord::One(b)) == Ok::<Book, DecodeError>(b),
        v@.len() == 0 ==> stored_book(StoredRecord::Many(v)) == Err::<Book, DecodeError>(
            DecodeError::RecordNotFound,
        ),
        v@.len() > 1 ==> stored_book(StoredRecord::Many(v)) == Err::<Book, DecodeError>(
            DecodeError::AmbiguousRecord,
        ),
{
}

/// One search result: the record's identifier, its title, and its score as
/// the engine sent it (`None` where the engine returned no score).
#[derive(Debug, Clone, PartialEq)]
pub struct Recommendation {
    pub id: String,
    pub title: String,
    pub score: Option<Scalar>,
}

/// A search result as plain values.
pub ghost struct RecommendationModel {
    pub id: Seq<char>,
    pub title: Seq<char>,
    pub score: Option<ScalarModel>,
}

/// The score an optional scalar holds.
pub open spec fn score_view(s: Option<Scalar>) -> Option<ScalarModel> {
    match s {
        Some(x) => Some(x@),
        None => None,
    }
}

impl View for Recommendation {
    type V = RecommendationModel;

    open spec fn view(&self) -> RecommendationModel {
        RecommendationModel { id: self.id@, title: self.title@, score: score_view(self.score) }
    }
}

/// The outcome of a search: the number of matches the engine reports (which
/// may exceed the returned window) and the returned records, in the engine's
/// order.
#[derive(Debug, Clone, PartialEq)]
pub struct Recommendations {
    pub count: u64,
    pub recommendations: Vec<Recommendation>,
}

/// A search outcome as plain values.
pub ghost struct RecommendationsModel {
    pub count: u64,
    pub recommendations: Seq<RecommendationModel>,
}

impl View for Recommendations {
    type V = RecommendationsModel;

    open spec fn view(&self) -> RecommendationsModel {
        RecommendationsModel {
            count: self.count,
            recommendations: self.recommendations@.map_values(|r: Recommendation| r@),
        }
    }
}

} // verus!
