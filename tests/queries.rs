use ru402::book::{Book, Edition, Metrics};
use ru402::error::Error;
use ru402::query::{
    create_index_command, index_listed, range_command, range_for_book, record_key, to_decimal,
    top_k_command, top_k_for_book, Arg, DEFAULT_K, DEFAULT_RADIUS,
};
use ru402::reply::Reply;
use ru402::vector::encode;

fn t(s: &str) -> Arg {
    Arg::Text(s.to_string())
}

fn window() -> Vec<Arg> {
    vec![
        t("RETURN"),
        Arg::Int(2),
        t("title"),
        t("score"),
        t("SORTBY"),
        t("score"),
        t("LIMIT"),
        Arg::Int(0),
        Arg::Int(5),
        t("DIALECT"),
        Arg::Int(2),
    ]
}

fn book(embedding: Option<Vec<u32>>) -> Book {
    Book {
        author: String::new(),
        id: "9".to_string(),
        description: String::new(),
        embedding,
        editions: vec![Edition::Spanish],
        genres: Vec::new(),
        inventory: Vec::new(),
        metrics: Metrics { rating_votes: 0, score: 0 },
        pages: 1,
        title: String::new(),
        url: String::new(),
        year_published: 2000,
    }
}

#[test]
fn top_k_command_shape() {
    let v: Vec<u8> = encode(&vec![0.5f32.to_bits(); 384]);
    let c = top_k_command("idx:books", &v, DEFAULT_K).unwrap();
    assert_eq!(c.name, "FT.SEARCH");
    let mut want = vec![
        t("idx:books"),
        t("*=>[KNN 5 @embedding $vec AS score]"),
        t("PARAMS"),
        Arg::Int(2),
        t("vec"),
        Arg::Bytes(v.clone()),
    ];
    want.extend(window());
    assert_eq!(c.args, want);
    assert_eq!(c.args.iter().filter(|a| matches!(a, Arg::Bytes(_))).count(), 1);
}

#[test]
fn range_command_shape() {
    let v: Vec<u8> = encode(&vec![0.5f32.to_bits(); 384]);
    let c = range_command("idx:books", &v, DEFAULT_RADIUS).unwrap();
    assert_eq!(c.name, "FT.SEARCH");
    let mut want = vec![
        t("idx:books"),
        t("@embedding:[VECTOR_RANGE $radius $vec]=>{$YIELD_DISTANCE_AS: score}"),
        t("PARAMS"),
        Arg::Int(4),
        t("radius"),
        Arg::Int(3),
        t("vec"),
        Arg::Bytes(v.clone()),
    ];
    want.extend(window());
    assert_eq!(c.args, want);
}

#[test]
fn knn_count_written_in_decimal() {
    let c = top_k_command("i", &vec![1u8], 120).unwrap();
    assert_eq!(c.args[1], t("*=>[KNN 120 @embedding $vec AS score]"));
    assert_eq!(to_decimal(0), "0");
    assert_eq!(to_decimal(18446744073709551615), "18446744073709551615");
}

#[test]
fn empty_vector_refused() {
    assert_eq!(top_k_command("i", &Vec::new(), 5), Err(Error::EmptyVector));
    assert_eq!(range_command("i", &Vec::new(), 3), Err(Error::EmptyVector));
}

#[test]
fn missing_embedding_refused() {
    assert_eq!(top_k_for_book("i", &book(None), 5), Err(Error::MissingEmbedding));
    assert_eq!(range_for_book("i", &book(None), 3), Err(Error::MissingEmbedding));
    assert_eq!(top_k_for_book("i", &book(Some(Vec::new())), 5), Err(Error::EmptyVector));
}

#[test]
fn book_query_binds_encoded_vector() {
    let b = book(Some(vec![1.0f32.to_bits()]));
    let c = top_k_for_book("i", &b, 5).unwrap();
    assert_eq!(c.args[5], Arg::Bytes(vec![0x00, 0x00, 0x80, 0x3f]));
    let r = range_for_book("i", &b, 3).unwrap();
    assert_eq!(r.args[7], Arg::Bytes(vec![0x00, 0x00, 0x80, 0x3f]));
}

#[test]
fn create_index_declares_vector_field() {
    let c = create_index_command("idx:books", "book:");
    assert_eq!(c.name, "FT.CREATE");
    assert_eq!(c.args.len(), 31);
    assert_eq!(c.args[0], t("idx:books"));
    assert_eq!(c.args[5], t("book:"));
    assert_eq!(&c.args[19..23], &[t("$.embedding"), t("AS"), t("embedding"), t("VECTOR")]);
    assert_eq!(&c.args[27..], &[t("DIM"), Arg::Int(384), t("DISTANCE_METRIC"), t("COSINE")]);
}

#[test]
fn listing_finds_index() {
    let listing = Reply::Bulk(vec![Reply::Status("other".to_string()), Reply::Status("idx:books".to_string())]);
    assert!(index_listed(&listing, "idx:books"));
    assert!(!index_listed(&listing, "idx:films"));
    assert!(!index_listed(&Reply::Nil, "idx:books"));
}

#[test]
fn key_is_prefix_and_id() {
    assert_eq!(record_key("book:", "26415"), "book:26415");
}
