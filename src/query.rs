use vstd::prelude::*;
use vstd::string::{StrSliceExecFns, StringExecFns};
use crate::book::Book;
use crate::error::Error;
use crate::reply::Reply;
use crate::vector::{encode, le_bytes};

verus! {

/// The neighbour count used where the caller names none.
pub const DEFAULT_K: u64 = 5;

/// The search radius used where the caller names none.
pub const DEFAULT_RADIUS: u64 = 3;

/// One argument of an engine command.
#[derive(Debug, Clone, PartialEq, Eq)]
pub enum Arg {
    Text(String),
    Int(u64),
    Bytes(Vec<u8>),
}

/// A command argument as plain values.
pub ghost enum ArgModel {
    Text(Seq<char>),
    Int(u64),
    Bytes(Seq<u8>),
}

impl View for Arg {
    type V = ArgModel;

    open spec fn view(&self) -> ArgModel {
        match self {
            Arg::Text(s) => ArgModel::Text(s@),
            Arg::Int(n) => ArgModel::Int(*n),
            Arg::Bytes(b) => ArgModel::Bytes(b@),
        }
    }
}

/// A command for the search engine: its name and its arguments in order.
#[derive(Debug, Clone, PartialEq, Eq)]
pub struct Command {
    pub name: String,
    pub args: Vec<Arg>,
}

/// The plain values of a sequence of arguments.
pub open spec fn args_view(a: Seq<Arg>) -> Seq<ArgModel> {
    a.map_values(|x: Arg| x@)
}

/// The decimal digit `d` (below ten).
pub open spec fn digit_char(d: nat) -> char {
    if d == 0 {
        '0'
    } else if d == 1 {
        '1'
    } else if d == 2 {
        '2'
    } else if d == 3 {
        '3'
    } else if d == 4 {
        '4'
    } else if d == 5 {
        '5'
    } else if d == 6 {
        '6'
    } else if d == 7 {
        '7'
    } else if d == 8 {
        '8'
    } else {
        '9'
    }
}

/// The decimal form of `n`, without leading zeros.
pub open spec fn decimal(n: nat) -> Seq<char>
    decreases n,
{
    if n < 10 {
        seq![digit_char(n)]
    } else {
        decimal(n / 10).push(digit_char(n % 10))
    }
}

/// The one-character text of a decimal digit.
fn digit_str(d: u64) -> (s: &'static str)
    requires
        d < 10,
    ensures
        s@ == seq![digit_char(d as nat)],
{
    proof {
        reveal_strlit("0");
        reveal_strlit("1");
        reveal_strlit("2");
        reveal_strlit("3");
        reveal_strlit("4");
        reveal_strlit("5");
        reveal_strlit("6");
        reveal_strlit("7");
        reveal_strlit("8");
        reveal_strlit("9");
    }
    if d == 0 {
        "0"
    } else if d == 1 {
        "1"
    } else if d == 2 {
        "2"
    } else if d == 3 {
        "3"
    } else if d == 4 {
        "4"
    } else if d == 5 {
        "5"
    } else if d == 6 {
        "6"
    } else if d == 7 {
        "7"
    } else if d == 8 {
        "8"
    } else {
        "9"
    }
}

/// Writes `n` in decimal.
pub fn to_decimal(n: u64) -> (s: String)
    ensures
        s@ == decimal(n as nat),
    decreases n,
{
    if n < 10 {
        String::from_str(digit_str(n))
    } else {
        let head = to_decimal(n / 10);
        let r = head.concat(digit_str(n % 10));
        assert(r@ =~= decimal(n as nat));
        r
    }
}

/// The query text of a top-K search.
pub open spec fn knn_query(k: u64) -> Seq<char> {
    "*=>[KNN "@ + decimal(k as nat) + " @embedding $vec AS score]"@
}

/// The query text of a range search.
pub open spec fn range_query_text() -> Seq<char> {
    "@embedding:[VECTOR_RANGE $radius $vec]=>{$YIELD_DISTANCE_AS: score}"@
}

/// The arguments that both search forms end with: return `title` and
/// `score`, sort by `score`, take the window from 0 of 5, dialect 2.
pub open spec fn window_args() -> Seq<ArgModel> {
    seq![
        ArgModel::Text("RETURN"@),
        ArgModel::Int(2),
        ArgModel::Text("title"@),
        ArgModel::Text("score"@),
        ArgModel::Text("SORTBY"@),
        ArgModel::Text("score"@),
        ArgModel::Text("LIMIT"@),
        ArgModel::Int(0),
        ArgModel::Int(5),
        ArgModel::Text("DIALECT"@),
        ArgModel::Int(2),
    ]
}

/// The arguments of a top-K search: one bound parameter, `vec`.
pub open spec fn top_k_args(index: Seq<char>, vector: Seq<u8>, k: u64) -> Seq<ArgModel> {
    seq![
        ArgModel::Text(index),
        ArgModel::Text(knn_query(k)),
        ArgModel::Text("PARAMS"@),
        ArgModel::Int(2),
        ArgModel::Text("vec"@),
        ArgModel::Bytes(vector),
    ] + window_args()
}

/// The arguments of a range search: two bound parameters, `radius` and `vec`.
pub open spec fn range_args(index: Seq<char>, vector: Seq<u8>, radius: u64) -> Seq<ArgModel> {
    seq![
        ArgModel::Text(index),
        ArgModel::Text(range_query_text()),
        ArgModel::Text("PARAMS"@),
        ArgModel::Int(4),
        ArgModel::Text("radius"@),
        ArgModel::Int(radius),
        ArgModel::Text("vec"@),
        ArgModel::Bytes(vector),
    ] + window_args()
}

fn text(s: &str) -> (a: Arg)
    ensures
        a@ == ArgModel::Text(s@),
{
    Arg::Text(String::from_str(s))
}

fn push_window(args: &mut Vec<Arg>)
    ensures
        args_view(final(args)@) == args_view(old(args)@) + window_args(),
{
    proof {
        reveal_strlit("RETURN");
        reveal_strlit("title");
        reveal_strlit("score");
        reveal_strlit("SORTBY");
        reveal_strlit("LIMIT");
        reveal_strlit("DIALECT");
    }
    args.push(text("RETURN"));
    args.push(Arg::Int(2));
    args.push(text("title"));
    args.push(text("score"));
    args.push(text("SORTBY"));
    args.push(text("score"));
    args.push(text("LIMIT"));
    args.push(Arg::Int(0));
    args.push(Arg::Int(5));
    args.push(text("DIALECT"));
    args.push(Arg::Int(2));
    assert(args_view(args@) =~= args_view(old(args)@) + window_args());
}

fn search_name() -> (s: String)
    ensures
        s@ == "FT.SEARCH"@,
{
    String::from_str("FT.SEARCH")
}

/// Builds the top-K search over `index` for an encoded vector; an empty
/// vector is refused.
pub fn top_k_command(index: &str, vector: &Vec<u8>, k: u64) -> (r: Result<Command, Error>)
    ensures
        vector@.len() == 0 ==> r == Err::<Command, Error>(Error::EmptyVector),
        vector@.len() > 0 ==> (r matches Ok(c) && c.name@ == "FT.SEARCH"@ && args_view(c.args@)
            == top_k_args(index@, vector@, k)),
{
    if vector.len() == 0 {
        return Err(Error::EmptyVector);
    }
    let mut args: Vec<Arg> = Vec::new();
    let digits = to_decimal(k);
    let q = String::from_str("*=>[KNN ").concat(digits.as_str()).concat(
        " @embedding $vec AS score]",
    );
    args.push(text(index));
    args.push(Arg::Text(q));
    args.push(text("PARAMS"));
    args.push(Arg::Int(2));
    args.push(text("vec"));
    args.push(Arg::Bytes(vector.clone()));
    proof {
        reveal_strlit("*=>[KNN ");
        reveal_strlit(" @embedding $vec AS score]");
        reveal_strlit("PARAMS");
        reveal_strlit("vec");
    }
    push_window(&mut args);
    assert(args_view(args@) =~= top_k_args(index@, vector@, k));
    Ok(Command { name: search_name(), args })
}

/// Builds the range search over `index` for an encoded vector; an empty
/// vector is refused.
pub fn range_command(index: &str, vector: &Vec<u8>, radius: u64) -> (r: Result<Command, Error>)
    ensures
        vector@.len() == 0 ==> r == Err::<Command, Error>(Error::EmptyVector),
        vector@.len() > 0 ==> (r matches Ok(c) && c.name@ == "FT.SEARCH"@ && args_view(c.args@)
            == range_args(index@, vector@, radius)),
{
    if vector.len() == 0 {
        return Err(Error::EmptyVector);
    }
    let mut args: Vec<Arg> = Vec::new();
    args.push(text(index));
    args.push(text("@embedding:[VECTOR_RANGE $radius $vec]=>{$YIELD_DISTANCE_AS: score}"));
    args.push(text("PARAMS"));
    args.push(Arg::Int(4));
    args.push(text("radius"));
    args.push(Arg::Int(radius));
    args.push(text("vec"));
    args.push(Arg::Bytes(vector.clone()));
    proof {
        reveal_strlit("PARAMS");
        reveal_strlit("radius");
        reveal_strlit("vec");
    }
    push_window(&mut args);
    assert(args_view(args@) =~= range_args(index@, vector@, radius));
    Ok(Command { name: search_name(), args })
}

/// The arguments that declare a search index over JSON records whose keys
/// start with `prefix`: three text fields and one vector field of 384
/// single-precision floats under cosine distance.
pub open spec fn create_index_args(index: Seq<char>, prefix: Seq<char>) -> Seq<ArgModel> {
    seq![
        ArgModel::Text(index),
        ArgModel::Text("ON"@),
        ArgModel::Text("JSON"@),
        ArgModel::Text("PREFIX"@),
        ArgModel::Int(1),
        ArgModel::Text(prefix),
        ArgModel::Text("SCHEMA"@),
        ArgModel::Text("$.author"@),
        ArgModel::Text("AS"@),
        ArgModel::Text("author"@),
        ArgModel::Text("TEXT"@),
        ArgModel::Text("$.title"@),
        ArgModel::Text("AS"@),
        ArgModel::Text("title"@),
        ArgModel::Text("TEXT"@),
        ArgModel::Text("$.description"@),
        ArgModel::Text("AS"@),
        ArgModel::Text("description"@),
        ArgModel::Text("TEXT"@),
        ArgModel::Text("$.embedding"@),
        ArgModel::Text("AS"@),
        ArgModel::Text("embedding"@),
        ArgModel::Text("VECTOR"@),
        ArgModel::Text("HNSW"@),
        ArgModel::Int(6),
        ArgModel::Text("TYPE"@),
        ArgModel::Text("FLOAT32"@),
        ArgModel::Text("DIM"@),
        ArgModel::Int(384),
        ArgModel::Text("DISTANCE_METRIC"@),
        ArgModel::Text("COSINE"@),
    ]
}

fn push_text_field(args: &mut Vec<Arg>, path: &str, name: &str, kind: &str)
    ensures
        args_view(final(args)@) == args_view(old(args)@) + seq![
            ArgModel::Text(path@),
            ArgModel::Text("AS"@),
            ArgModel::Text(name@),
            ArgModel::Text(kind@),
        ],
{
    proof {
        reveal_strlit("AS");
    }
    args.push(text(path));
    args.push(text("AS"));
    args.push(text(name));
    args.push(text(kind));
    assert(args_view(args@) =~= args_view(old(args)@) + seq![
        ArgModel::Text(path@),
        ArgModel::Text("AS"@),
        ArgModel::Text(name@),
        ArgModel::Text(kind@),
    ]);
}

/// Builds the command that declares the search index.
pub fn create_index_command(index: &str, prefix: &str) -> (c: Command)
    ensures
        c.name@ == "FT.CREATE"@,
        args_view(c.args@) == create_index_args(index@, prefix@),
{
    proof {
        reveal_strlit("ON");
        reveal_strlit("JSON");
        reveal_strlit("PREFIX");
        reveal_strlit("SCHEMA");
        reveal_strlit("$.author");
        reveal_strlit("author");
        reveal_strlit("TEXT");
        reveal_strlit("$.title");
        reveal_strlit("title");
        reveal_strlit("$.description");
        reveal_strlit("description");
        reveal_strlit("$.embedding");
        reveal_strlit("embedding");
        reveal_strlit("VECTOR");
        reveal_strlit("HNSW");
        reveal_strlit("TYPE");
        reveal_strlit("FLOAT32");
        reveal_strlit("DIM");
        reveal_strlit("DISTANCE_METRIC");
        reveal_strlit("COSINE");
        reveal_strlit("FT.CREATE");
    }
    let mut args: Vec<Arg> = Vec::new();
    args.push(text(index));
    args.push(text("ON"));
    args.push(text("JSON"));
    args.push(text("PREFIX"));
    args.push(Arg::Int(1));
    args.push(text(prefix));
    args.push(text("SCHEMA"));
    let ghost head = args_view(args@);
    assert(head =~= create_index_args(index@, prefix@).subrange(0, 7));
    push_text_field(&mut args, "$.author", "author", "TEXT");
    push_text_field(&mut args, "$.title", "title", "TEXT");
    push_text_field(&mut args, "$.description", "description", "TEXT");
    push_text_field(&mut args, "$.embedding", "embedding", "VECTOR");
    assert(args_view(args@) =~= create_index_args(index@, prefix@).subrange(0, 23));
    let ghost mid = args_view(args@);
    args.push(text("HNSW"));
    args.push(Arg::Int(6));
    args.push(text("TYPE"));
    args.push(text("FLOAT32"));
    args.push(text("DIM"));
    args.push(Arg::Int(384));
    args.push(text("DISTANCE_METRIC"));
    args.push(text("COSINE"));
    assert(args_view(args@) =~= mid + seq![
        ArgModel::Text("HNSW"@),
        ArgModel::Int(6),
        ArgModel::Text("TYPE"@),
        ArgModel::Text("FLOAT32"@),
        ArgModel::Text("DIM"@),
        ArgModel::Int(384),
        ArgModel::Text("DISTANCE_METRIC"@),
        ArgModel::Text("COSINE"@),
    ]);
    assert(args_view(args@) =~= create_index_args(index@, prefix@));
    Command { name: String::from_str("FT.CREATE"), args }
}

/// `r` is a status reply reading `index`.
pub open spec fn is_status(r: Reply, index: Seq<char>) -> bool {
    r matches Reply::Status(s) && s@ == index
}

/// The index listing holds `index` as one of its status entries.
pub open spec fn listed(listing: Reply, index: Seq<char>) -> bool {
    &&& listing is Bulk
    &&& exists|i: int|
        0 <= i < listing->Bulk_0@.len() && is_status(#[trigger] listing->Bulk_0@[i], index)
}

/// Whether an index listing already names `index`, so that it need not be
/// created again.
pub fn index_listed(listing: &Reply, index: &str) -> (r: bool)
    ensures
        r == listed(*listing, index@),
{
    match listing {
        Reply::Bulk(v) => {
            let mut i: usize = 0;
            while i < v.len()
                invariant
                    i <= v@.len(),
                    *listing == Reply::Bulk(*v),
                    forall|j: int| 0 <= j < i ==> !is_status(#[trigger] v@[j], index@),
                decreases v@.len() - i,
            {
                let item = &v[i];
                assert(*item == v@[i as int]);
                if let Reply::Status(s) = item {
                    let name = String::from_str(index);
                    if *s == name {
                        assert(is_status(listing->Bulk_0@[i as int], index@));
                        return true;
                    }
                }
                i = i + 1;
            }
            false
        },
        _ => false,
    }
}

/// The storage key of a record: the prefix followed by the record's id.
pub fn record_key(prefix: &str, id: &str) -> (k: String)
    ensures
        k@ == prefix@ + id@,
{
    String::from_str(prefix).concat(id)
}

/// The top-K search for the books nearest to `book`, by its stored vector.
/// A book with no stored vector is refused before any command is built.
pub fn top_k_for_book(index: &str, book: &Book, k: u64) -> (r: Result<Command, Error>)
    ensures
        book.embedding is None ==> r == Err::<Command, Error>(Error::MissingEmbedding),
        book.embedding matches Some(v) ==> v@.len() == 0 ==> r == Err::<Command, Error>(
            Error::EmptyVector,
        ),
        book.embedding matches Some(v) ==> v@.len() > 0 ==> (r matches Ok(c) && c.name@
            == "FT.SEARCH"@ && args_view(c.args@) == top_k_args(index@, le_bytes(v@), k)),
{
    match &book.embedding {
        None => Err(Error::MissingEmbedding),
        Some(v) => {
            let bytes = encode(v);
            top_k_command(index, &bytes, k)
        },
    }
}

/// The range search for the books within `radius` of `book`, by its stored
/// vector. A book with no stored vector is refused before any command is
/// built.
pub fn range_for_book(index: &str, book: &Book, radius: u64) -> (r: Result<Command, Error>)
    ensures
        book.embedding is None ==> r == Err::<Command, Error>(Error::MissingEmbedding),
        book.embedding matches Some(v) ==> v@.len() == 0 ==> r == Err::<Command, Error>(
            Error::EmptyVector,
        ),
        book.embedding matches Some(v) ==> v@.len() > 0 ==> (r matches Ok(c) && c.name@
            == "FT.SEARCH"@ && args_view(c.args@) == range_args(index@, le_bytes(v@), radius)),
{
    match &book.embedding {
        None => Err(Error::MissingEmbedding),
        Some(v) => {
            let bytes = encode(v);
            range_command(index, &bytes, radius)
        },
    }
}

/// Both search forms end with the same return, sort, window and dialect
/// arguments; a top-K search binds exactly one parameter (`vec`) and a range
/// search exactly two (`radius`, then `vec`).
pub proof fn lemma_search_shapes(index: Seq<char>, vector: Seq<u8>, k: u64, radius: u64)
    ensures
        top_k_args(index, vector, k).subrange(6, 17) == window_args(),
        range_args(index, vector, radius).subrange(8, 19) == window_args(),
        top_k_args(index, vector, k).subrange(2, 6) == seq![
            ArgModel::Text("PARAMS"@),
            ArgModel::Int(2),
            ArgModel::Text("vec"@),
            ArgModel::Bytes(vector),
        ],
        range_args(index, vector, radius).subrange(2, 8) == seq![
            ArgModel::Text("PARAMS"@),
            ArgModel::Int(4),
            ArgModel::Text("radius"@),
            ArgModel::Int(radius),
            ArgModel::Text("vec"@),
            ArgModel::Bytes(vector),
        ],
        window_args().subrange(6, 9) == seq![
            ArgModel::Text("LIMIT"@),
            ArgModel::Int(0),
            ArgModel::Int(5),
        ],
        window_args().subrange(9, 11) == seq![ArgModel::Text("DIALECT"@), ArgModel::Int(2)],
{
    assert(top_k_args(index, vector, k).subrange(6, 17) =~= window_args());
    assert(range_args(index, vector, radius).subrange(8, 19) =~= window_args());
    assert(top_k_args(index, vector, k).subrange(2, 6) =~= seq![
        ArgModel::Text("PARAMS"@),
        ArgModel::Int(2),
        ArgModel::Text("vec"@),
        ArgModel::Bytes(vector),
    ]);
    assert(range_args(index, vector, radius).subrange(2, 8) =~= seq![
        ArgModel::Text("PARAMS"@),
        ArgModel::Int(4),
        ArgModel::Text("radius"@),
        ArgModel::Int(radius),
        ArgModel::Text("vec"@),
        ArgModel::Bytes(vector),
    ]);
    assert(window_args().subrange(6, 9) =~= seq![
        ArgModel::Text("LIMIT"@),
        ArgModel::Int(0),
        ArgModel::Int(5),
    ]);
    assert(window_args().subrange(9, 11) =~= seq![ArgModel::Text("DIALECT"@), ArgModel::Int(2)]);
}

} // verus!
