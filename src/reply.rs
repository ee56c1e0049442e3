use vstd::prelude::*;
use crate::book::{Recommendation, RecommendationModel, Recommendations, RecommendationsModel, score_view};
use crate::error::DecodeError;

verus! {

/// A reply of the search engine: a scalar, or a sequence of replies.
#[derive(Debug, PartialEq, Eq)]
pub enum Reply {
    Nil,
    Int(i64),
    Data(Vec<u8>),
    Bulk(Vec<Reply>),
    Status(String),
    Okay,
}

/// A reply that is not a sequence, kept as it came.
#[derive(Debug, Clone, PartialEq, Eq)]
pub enum Scalar {
    Nil,
    Int(i64),
    Data(Vec<u8>),
    Status(String),
    Okay,
}

/// What a scalar holds, as plain values.
pub ghost enum ScalarModel {
    Nil,
    Int(i64),
    Data(Seq<u8>),
    Status(Seq<char>),
    Okay,
}

impl View for Scalar {
    type V = ScalarModel;

    open spec fn view(&self) -> ScalarModel {
        match self {
            Scalar::Nil => ScalarModel::Nil,
            Scalar::Int(i) => ScalarModel::Int(*i),
            Scalar::Data(b) => ScalarModel::Data(b@),
            Scalar::Status(s) => ScalarModel::Status(s@),
            Scalar::Okay => ScalarModel::Okay,
        }
    }
}

/// The scalar a reply is, if it is not a sequence.
pub open spec fn scalar_of(r: Reply) -> Option<ScalarModel> {
    match r {
        Reply::Nil => Some(ScalarModel::Nil),
        Reply::Int(i) => Some(ScalarModel::Int(i)),
        Reply::Data(b) => Some(ScalarModel::Data(b@)),
        Reply::Status(s) => Some(ScalarModel::Status(s@)),
        Reply::Okay => Some(ScalarModel::Okay),
        Reply::Bulk(_) => None,
    }
}

/// The text that UTF-8 decoding makes of bytes (none where they are not
/// UTF-8).
pub uninterp spec fn utf8_text(b: Seq<u8>) -> Option<Seq<char>>;

/// Every byte is ASCII.
pub open spec fn is_ascii_bytes(b: Seq<u8>) -> bool {
    forall|i: int| 0 <= i < b.len() ==> #[trigger] b[i] < 128
}

/// ASCII bytes read as the characters they encode.
pub open spec fn ascii_chars(b: Seq<u8>) -> Seq<char> {
    b.map_values(|x: u8| x as char)
}

/// `c` is an ASCII decimal digit.
pub open spec fn is_digit(c: char) -> bool {
    '0' <= c && c <= '9'
}

/// The value of a sequence of decimal digits, most significant first.
pub open spec fn digits_value(d: Seq<char>) -> nat
    decreases d.len(),
{
    if d.len() == 0 {
        0
    } else {
        digits_value(d.drop_last()) * 10 + (d.last() as u32 - '0' as u32) as nat
    }
}

/// The unsigned 64-bit integer a text writes in decimal: an optional `+`,
/// then one or more ASCII digits, of value at most `u64::MAX`; none for any
/// other text.
pub open spec fn u64_of_text(t: Seq<char>) -> Option<u64> {
    let d = if t.len() > 0 && t[0] == '+' {
        t.drop_first()
    } else {
        t
    };
    if d.len() > 0 && (forall|i: int| 0 <= i < d.len() ==> is_digit(#[trigger] d[i]))
        && digits_value(d) <= u64::MAX {
        Some(digits_value(d) as u64)
    } else {
        None
    }
}

/// The text an optional string holds.
pub open spec fn text_view(t: Option<String>) -> Option<Seq<char>> {
    match t {
        Some(s) => Some(s@),
        None => None,
    }
}

/// Relies on redis's `FromRedisValue` for `String`: a data reply as UTF-8
/// text (ASCII bytes give the characters they encode), a status reply as its text, `Okay` as "OK", anything else refused.
#[verifier::external_body]
fn scalar_text(s: &Scalar) -> (r: Option<String>)
    ensures
        s@ matches ScalarModel::Data(b) ==> text_view(r) == utf8_text(b),
        s@ matches ScalarModel::Data(b) ==> is_ascii_bytes(b) ==> text_view(r) == Some(
            ascii_chars(b),
        ),
        s@ matches ScalarModel::Status(t) ==> text_view(r) == Some(t),
        s@ is Okay ==> text_view(r) == Some("OK"@),
        s@ is Nil || s@ is Int ==> r is None,
{
    let v = match s {
        Scalar::Nil => redis::Value::Nil,
        Scalar::Int(i) => redis::Value::Int(*i),
        Scalar::Data(b) => redis::Value::Data(b.clone()),
        Scalar::Status(t) => redis::Value::Status(t.clone()),
        Scalar::Okay => redis::Value::Okay,
    };
    redis::from_redis_value::<String>(&v).ok()
}

/// Relies on redis's `FromRedisValue` for `u64`: a non-negative integer
/// reply as it is, a status reply or a UTF-8 data reply parsed by
/// `<u64 as FromStr>::from_str` (an optional `+`, then decimal digits), anything
/// else refused.
#[verifier::external_body]
fn scalar_u64(s: &Scalar) -> (r: Option<u64>)
    ensures
        s@ matches ScalarModel::Int(i) ==> i >= 0 ==> r == Some(i as u64),
        s@ matches ScalarModel::Status(t) ==> r == u64_of_text(t),
        s@ matches ScalarModel::Data(b) ==> r == match utf8_text(b) {
            Some(t) => u64_of_text(t),
            None => None,
        },
        s@ matches ScalarModel::Data(b) ==> is_ascii_bytes(b) ==> r == u64_of_text(ascii_chars(b)),
        s@ is Nil || s@ is Okay ==> r is None,
{
    let v = match s {
        Scalar::Nil => redis::Value::Nil,
        Scalar::Int(i) => redis::Value::Int(*i),
        Scalar::Data(b) => redis::Value::Data(b.clone()),
        Scalar::Status(t) => redis::Value::Status(t.clone()),
        Scalar::Okay => redis::Value::Okay,
    };
    redis::from_redis_value::<u64>(&v).ok()
}

/// The text a scalar reply stands for, if any.
pub open spec fn text_of(r: Reply) -> Option<Seq<char>> {
    match r {
        Reply::Data(b) => utf8_text(b@),
        Reply::Status(s) => Some(s@),
        Reply::Okay => Some("OK"@),
        _ => None,
    }
}

/// The unsigned count a scalar reply stands for, if any.
pub open spec fn count_of(r: Reply) -> Option<u64> {
    match r {
        Reply::Int(i) => if i >= 0 {
            Some(i as u64)
        } else {
            None
        },
        Reply::Data(b) => match utf8_text(b@) {
            Some(t) => u64_of_text(t),
            None => None,
        },
        Reply::Status(s) => u64_of_text(s@),
        _ => None,
    }
}

/// Reads a scalar reply as text.
pub fn reply_text(r: &Reply) -> (t: Option<String>)
    ensures
        text_view(t) == text_of(*r),
{
    match reply_scalar(r) {
        Some(s) => {
            proof {
                reveal_strlit("OK");
            }
            scalar_text(&s)
        },
        None => None,
    }
}

/// Reads a scalar reply as an unsigned count; a negative integer is none.
pub fn reply_count(r: &Reply) -> (n: Option<u64>)
    ensures
        n == count_of(*r),
{
    if let Reply::Int(i) = r {
        if *i < 0 {
            return None;
        }
    }
    match reply_scalar(r) {
        Some(s) => scalar_u64(&s),
        None => None,
    }
}

/// Copies a reply that is not a sequence.
pub fn reply_scalar(r: &Reply) -> (s: Option<Scalar>)
    ensures
        s matches Some(x) ==> scalar_of(*r) == Some(x@),
        s is None ==> scalar_of(*r) is None,
{
    match r {
        Reply::Nil => Some(Scalar::Nil),
        Reply::Int(i) => Some(Scalar::Int(*i)),
        Reply::Data(b) => {
            let c = b.clone();
            assert(c@ =~= b@);
            Some(Scalar::Data(c))
        },
        Reply::Status(t) => Some(Scalar::Status(t.clone())),
        Reply::Okay => Some(Scalar::Okay),
        Reply::Bulk(_) => None,
    }
}

/// Walks a field list as key/value pairs, keeping the last `title` (as text)
/// and the last `score` (as a scalar) on top of those already seen; other
/// keys are skipped.
pub open spec fn fields_from(fs: Seq<Reply>, title: Seq<char>, score: Option<ScalarModel>) -> Result<
    (Seq<char>, Option<ScalarModel>),
    DecodeError,
>
    decreases fs.len(),
{
    if fs.len() == 0 {
        Ok((title, score))
    } else if fs.len() == 1 {
        Err(DecodeError::OddFieldList)
    } else {
        let rest = fs.subrange(2, fs.len() as int);
        match text_of(fs[0]) {
            None => Err(DecodeError::KeyNotText),
            Some(k) => if k == "title"@ {
                match text_of(fs[1]) {
                    None => Err(DecodeError::TitleNotText),
                    Some(t) => fields_from(rest, t, score),
                }
            } else if k == "score"@ {
                match scalar_of(fs[1]) {
                    None => Err(DecodeError::ScoreNotScalar),
                    Some(x) => fields_from(rest, title, Some(x)),
                }
            } else {
                fields_from(rest, title, score)
            },
        }
    }
}

/// Walks the (identifier, field list) pairs after the count, appending one
/// record per pair to `acc`.
pub open spec fn entries_from(items: Seq<Reply>, acc: Seq<RecommendationModel>) -> Result<
    Seq<RecommendationModel>,
    DecodeError,
>
    decreases items.len(),
{
    if items.len() == 0 {
        Ok(acc)
    } else if items.len() == 1 {
        Err(DecodeError::MissingFieldList)
    } else {
        let rest = items.subrange(2, items.len() as int);
        match text_of(items[0]) {
            None => Err(DecodeError::IdNotText),
            Some(id) => match items[1] {
                Reply::Bulk(fs) => match fields_from(fs@, Seq::empty(), None) {
                    Err(e) => Err(e),
                    Ok((title, score)) => entries_from(
                        rest,
                        acc.push(RecommendationModel { id, title, score }),
                    ),
                },
                _ => Err(DecodeError::FieldListNotSequence),
            },
        }
    }
}

/// What a search reply `[count, id_1, fields_1, id_2, fields_2, ...]` decodes to.
pub open spec fn decoded(r: Reply) -> Result<RecommendationsModel, DecodeError> {
    match r {
        Reply::Bulk(items) => if items@.len() == 0 {
            Err(DecodeError::MissingCount)
        } else {
            match count_of(items@[0]) {
                None => Err(DecodeError::CountNotNumeric),
                Some(count) => match entries_from(
                    items@.subrange(1, items@.len() as int),
                    Seq::empty(),
                ) {
                    Err(e) => Err(e),
                    Ok(recs) => Ok(RecommendationsModel { count, recommendations: recs }),
                },
            }
        },
        _ => Err(DecodeError::NotASequence),
    }
}

/// A field list with an odd number of elements never decodes, whatever was
/// read before it.
pub proof fn lemma_odd_field_list_fails(
    fs: Seq<Reply>,
    title: Seq<char>,
    score: Option<ScalarModel>,
)
    requires
        fs.len() % 2 == 1,
    ensures
        fields_from(fs, title, score) is Err,
    decreases fs.len(),
{
    if fs.len() > 1 {
        let rest = fs.subrange(2, fs.len() as int);
        lemma_odd_field_list_fails(rest, title, score);
        if let Some(t) = text_of(fs[1]) {
            lemma_odd_field_list_fails(rest, t, score);
        }
        if let Some(x) = scalar_of(fs[1]) {
            lemma_odd_field_list_fails(rest, title, Some(x));
        }
    }
}

proof fn lemma_entries_in_order(items: Seq<Reply>, acc: Seq<RecommendationModel>)
    requires
        entries_from(items, acc) is Ok,
    ensures
        items.len() % 2 == 0,
        entries_from(items, acc)->Ok_0.len() == acc.len() + items.len() / 2,
        forall|j: int| 0 <= j < acc.len() ==> #[trigger] entries_from(items, acc)->Ok_0[j] == acc[j],
        forall|j: int|
            0 <= j < items.len() / 2 ==> Some(#[trigger] entries_from(items, acc)->Ok_0[acc.len()
                + j].id) == text_of(items[2 * j]),
    decreases items.len(),
{
    if items.len() >= 2 {
        let rest = items.subrange(2, items.len() as int);
        let fs = items[1]->Bulk_0;
        let (title, score) = fields_from(fs@, Seq::empty(), None)->Ok_0;
        let m = RecommendationModel { id: text_of(items[0])->Some_0, title, score };
        let acc2 = acc.push(m);
        lemma_entries_in_order(rest, acc2);
        let rs = entries_from(items, acc)->Ok_0;
        assert(rs == entries_from(rest, acc2)->Ok_0);
        assert forall|j: int| 0 <= j < items.len() / 2 implies Some(
            #[trigger] rs[acc.len() + j].id,
        ) == text_of(items[2 * j]) by {
            if j > 0 {
                assert(rest[2 * (j - 1)] == items[2 * j]);
                assert(rs[acc2.len() + (j - 1)] == rs[acc.len() + j]);
            } else {
                assert(rs[acc.len() as int] == acc2[acc.len() as int]);
            }
        }
        assert forall|j: int| 0 <= j < acc.len() implies #[trigger] rs[j] == acc[j] by {
            assert(rs[j] == acc2[j]);
        }
    }
}

/// A decoded search reply holds one record per (identifier, field list) pair,
/// in the order the pairs came: the `j`-th record carries the identifier of
/// the `j`-th pair.
pub proof fn lemma_decoded_in_reply_order(items: Vec<Reply>)
    requires
        decoded(Reply::Bulk(items)) is Ok,
    ensures
        ({
            let recs = decoded(Reply::Bulk(items))->Ok_0.recommendations;
            &&& items@.len() % 2 == 1
            &&& recs.len() == (items@.len() - 1) / 2
            &&& forall|j: int|
                0 <= j < recs.len() ==> Some(#[trigger] recs[j].id) == text_of(items@[1 + 2 * j])
        }),
{
    let tail = items@.subrange(1, items@.len() as int);
    lemma_entries_in_order(tail, Seq::empty());
    let recs = decoded(Reply::Bulk(items))->Ok_0.recommendations;
    assert forall|j: int| 0 <= j < recs.len() implies Some(#[trigger] recs[j].id) == text_of(
        items@[1 + 2 * j],
    ) by {
        assert(tail[2 * j] == items@[1 + 2 * j]);
        assert(recs[0 + j] == recs[j]);
    }
}

/// Whether a string reads the same as a literal.
fn text_equals(s: &String, lit: &str) -> (r: bool)
    ensures
        r == (s@ == lit@),
{
    let t = String::from_str(lit);
    *s == t
}

/// Reads one field list into a title (empty where absent) and a score
/// (`None` where absent).
fn decode_fields(fs: &Vec<Reply>) -> (r: Result<(String, Option<Scalar>), DecodeError>)
    ensures
        r matches Ok((t, s)) ==> fields_from(fs@, Seq::empty(), None) == Ok::<
            (Seq<char>, Option<ScalarModel>),
            DecodeError,
        >((t@, score_view(s))),
        r matches Err(e) ==> fields_from(fs@, Seq::empty(), None) == Err::<
            (Seq<char>, Option<ScalarModel>),
            DecodeError,
        >(e),
{
    let mut title = String::new();
    let mut score: Option<Scalar> = None;
    let mut i: usize = 0;
    let ghost whole = fs@;
    assert(fs@.subrange(0, fs@.len() as int) =~= fs@);
    while i < fs.len()
        invariant
            i <= fs@.len(),
            fields_from(whole, Seq::empty(), None) == fields_from(
                fs@.subrange(i as int, fs@.len() as int),
                title@,
                score_view(score),
            ),
            whole == fs@,
        decreases fs@.len() - i,
    {
        let ghost cur = fs@.subrange(i as int, fs@.len() as int);
        assert(cur.len() >= 1);
        assert(cur[0] == fs@[i as int]);
        if i + 1 == fs.len() {
            return Err(DecodeError::OddFieldList);
        }
        assert(cur[1] == fs@[i + 1]);
        assert(cur.subrange(2, cur.len() as int) =~= fs@.subrange(i + 2, fs@.len() as int));
        let key = match reply_text(&fs[i]) {
            Some(k) => k,
            None => {
                return Err(DecodeError::KeyNotText);
            },
        };
        proof {
            reveal_strlit("title");
            reveal_strlit("score");
        }
        if text_equals(&key, "title") {
            match reply_text(&fs[i + 1]) {
                Some(t) => {
                    title = t;
                },
                None => {
                    return Err(DecodeError::TitleNotText);
                },
            }
        } else if text_equals(&key, "score") {
            match reply_scalar(&fs[i + 1]) {
                Some(x) => {
                    score = Some(x);
                },
                None => {
                    return Err(DecodeError::ScoreNotScalar);
                },
            }
        }
        i = i + 2;
    }
    Ok((title, score))
}

impl Recommendations {
    /// Decodes a search reply `[count, id_1, fields_1, id_2, fields_2, ...]`:
    /// the count first, then one record per (identifier, field list) pair, in
    /// the order received. Field names other than `title` and `score` are
    /// ignored.
    pub fn from_redis_value(r: &Reply) -> (res: Result<Recommendations, DecodeError>)
        ensures
            res matches Ok(x) ==> decoded(*r) == Ok::<RecommendationsModel, DecodeError>(x@),
            res matches Err(e) ==> decoded(*r) == Err::<RecommendationsModel, DecodeError>(e),
    {
        let items = match r {
            Reply::Bulk(items) => items,
            _ => {
                return Err(DecodeError::NotASequence);
            },
        };
        if items.len() == 0 {
            return Err(DecodeError::MissingCount);
        }
        let count = match reply_count(&items[0]) {
            Some(c) => c,
            None => {
                return Err(DecodeError::CountNotNumeric);
            },
        };
        let mut recs: Vec<Recommendation> = Vec::new();
        let mut i: usize = 1;
        let ghost tail = items@.subrange(1, items@.len() as int);
        assert(recs@.map_values(|x: Recommendation| x@) =~= Seq::<RecommendationModel>::empty());
        while i < items.len()
            invariant
                1 <= i <= items@.len(),
                *r == Reply::Bulk(*items),
                count_of(items@[0]) == Some(count),
                tail == items@.subrange(1, items@.len() as int),
                entries_from(tail, Seq::empty()) == entries_from(
                    items@.subrange(i as int, items@.len() as int),
                    recs@.map_values(|x: Recommendation| x@),
                ),
            decreases items@.len() - i,
        {
            let ghost cur = items@.subrange(i as int, items@.len() as int);
            assert(cur[0] == items@[i as int]);
            if i + 1 == items.len() {
                return Err(DecodeError::MissingFieldList);
            }
            assert(cur[1] == items@[i + 1]);
            assert(cur.subrange(2, cur.len() as int) =~= items@.subrange(i + 2, items@.len() as int));
            let id = match reply_text(&items[i]) {
                Some(t) => t,
                None => {
                    return Err(DecodeError::IdNotText);
                },
            };
            let fs = match &items[i + 1] {
                Reply::Bulk(fs) => fs,
                _ => {
                    return Err(DecodeError::FieldListNotSequence);
                },
            };
            let (title, score) = match decode_fields(fs) {
                Ok(p) => p,
                Err(e) => {
                    return Err(e);
                },
            };
            let ghost before = recs@;
            recs.push(Recommendation { id, title, score });
            assert(recs@.map_values(|x: Recommendation| x@) =~= before.map_values(
                |x: Recommendation| x@,
            ).push(RecommendationModel { id: id@, title: title@, score: score_view(score) }));
            i = i + 2;
        }
        assert(items@.subrange(i as int, items@.len() as int) =~= Seq::<Reply>::empty());
        Ok(Recommendations { count, recommendations: recs })
    }
}

} // verus!
