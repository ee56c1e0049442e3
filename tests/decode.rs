use ru402::book::{Recommendation, Recommendations};
use ru402::error::DecodeError;
use ru402::reply::{reply_count, reply_text, Reply, Scalar};

fn data(s: &str) -> Reply {
    Reply::Data(s.as_bytes().to_vec())
}

fn fields(items: &[&str]) -> Reply {
    Reply::Bulk(items.iter().map(|s| data(s)).collect())
}

fn score_of(r: &Recommendation) -> f32 {
    match &r.score {
        Some(Scalar::Data(b)) => std::str::from_utf8(b).unwrap().parse().unwrap(),
        _ => panic!("no score"),
    }
}

#[test]
fn decodes_two_records_in_order() {
    let reply = Reply::Bulk(vec![
        Reply::Int(2),
        data("book:9"),
        fields(&["title", "T", "score", "0.10"]),
        data("book:5"),
        fields(&["title", "U", "score", "0.20"]),
    ]);
    let r = Recommendations::from_redis_value(&reply).unwrap();
    assert_eq!(r.count, 2);
    assert_eq!(r.recommendations.len(), 2);
    assert_eq!(r.recommendations[0].id, "book:9");
    assert_eq!(r.recommendations[0].title, "T");
    assert_eq!(score_of(&r.recommendations[0]), 0.10);
    assert_eq!(r.recommendations[1].id, "book:5");
    assert_eq!(r.recommendations[1].title, "U");
    assert_eq!(score_of(&r.recommendations[1]), 0.20);
    assert_eq!(
        r.recommendations[0],
        Recommendation {
            id: "book:9".to_string(),
            title: "T".to_string(),
            score: Some(Scalar::Data(b"0.10".to_vec())),
        }
    );
}

#[test]
fn odd_field_list_fails() {
    let reply = Reply::Bulk(vec![Reply::Int(1), data("book:1"), fields(&["title"])]);
    assert_eq!(Recommendations::from_redis_value(&reply), Err(DecodeError::OddFieldList));
}

#[test]
fn count_independent_of_window() {
    let reply = Reply::Bulk(vec![Reply::Int(40), data("book:1"), fields(&["title", "A"])]);
    let r = Recommendations::from_redis_value(&reply).unwrap();
    assert_eq!(r.count, 40);
    assert_eq!(r.recommendations.len(), 1);
    assert_eq!(r.recommendations[0].score, None);
}

#[test]
fn count_only_reply_is_empty() {
    let r = Recommendations::from_redis_value(&Reply::Bulk(vec![Reply::Int(0)])).unwrap();
    assert_eq!(r, Recommendations { count: 0, recommendations: Vec::new() });
}

#[test]
fn count_read_from_text() {
    let r = Recommendations::from_redis_value(&Reply::Bulk(vec![data("17")])).unwrap();
    assert_eq!(r.count, 17);
    assert_eq!(reply_count(&Reply::Status("5".to_string())), Some(5));
    assert_eq!(reply_count(&data("x")), None);
    assert_eq!(reply_count(&Reply::Int(-1)), None);
}

#[test]
fn count_text_follows_decimal_rule() {
    assert_eq!(reply_count(&data("+5")), Some(5));
    assert_eq!(reply_count(&data("+")), None);
    assert_eq!(reply_count(&data("")), None);
    assert_eq!(reply_count(&data("-0")), None);
    assert_eq!(reply_count(&data("18446744073709551615")), Some(u64::MAX));
    assert_eq!(reply_count(&data("18446744073709551616")), None);
}

#[test]
fn unknown_keys_ignored_and_last_wins() {
    let reply = Reply::Bulk(vec![
        Reply::Int(1),
        data("book:3"),
        fields(&["author", "Z", "title", "first", "title", "second", "score", "0.5"]),
    ]);
    let r = Recommendations::from_redis_value(&reply).unwrap();
    assert_eq!(r.recommendations[0].title, "second");
    assert_eq!(r.recommendations[0].score, Some(Scalar::Data(b"0.5".to_vec())));
}

#[test]
fn integer_score_kept() {
    let reply = Reply::Bulk(vec![
        Reply::Int(1),
        data("book:3"),
        Reply::Bulk(vec![data("score"), Reply::Int(1)]),
    ]);
    let r = Recommendations::from_redis_value(&reply).unwrap();
    assert_eq!(r.recommendations[0].score, Some(Scalar::Int(1)));
    assert_eq!(r.recommendations[0].title, "");
}

#[test]
fn text_of_replies() {
    assert_eq!(reply_text(&data("abc")), Some("abc".to_string()));
    assert_eq!(reply_text(&Reply::Okay), Some("OK".to_string()));
    assert_eq!(reply_text(&Reply::Status("s".to_string())), Some("s".to_string()));
    assert_eq!(reply_text(&Reply::Data(vec![0xff, 0xfe])), None);
    assert_eq!(reply_text(&Reply::Int(3)), None);
}

#[test]
fn decode_error_variants() {
    assert_eq!(Recommendations::from_redis_value(&Reply::Int(1)), Err(DecodeError::NotASequence));
    assert_eq!(Recommendations::from_redis_value(&Reply::Bulk(vec![])), Err(DecodeError::MissingCount));
    assert_eq!(
        Recommendations::from_redis_value(&Reply::Bulk(vec![Reply::Nil])),
        Err(DecodeError::CountNotNumeric)
    );
    assert_eq!(
        Recommendations::from_redis_value(&Reply::Bulk(vec![Reply::Int(1), Reply::Int(4), fields(&[])])),
        Err(DecodeError::IdNotText)
    );
    assert_eq!(
        Recommendations::from_redis_value(&Reply::Bulk(vec![Reply::Int(1), data("book:1")])),
        Err(DecodeError::MissingFieldList)
    );
    assert_eq!(
        Recommendations::from_redis_value(&Reply::Bulk(vec![Reply::Int(1), data("book:1"), data("x")])),
        Err(DecodeError::FieldListNotSequence)
    );
    assert_eq!(
        Recommendations::from_redis_value(&Reply::Bulk(vec![
            Reply::Int(1),
            data("book:1"),
            Reply::Bulk(vec![Reply::Int(1), data("x")]),
        ])),
        Err(DecodeError::KeyNotText)
    );
    assert_eq!(
        Recommendations::from_redis_value(&Reply::Bulk(vec![
            Reply::Int(1),
            data("book:1"),
            Reply::Bulk(vec![data("title"), Reply::Data(vec![0xff])]),
        ])),
        Err(DecodeError::TitleNotText)
    );
    assert_eq!(
        Recommendations::from_redis_value(&Reply::Bulk(vec![
            Reply::Int(1),
            data("book:1"),
            Reply::Bulk(vec![data("score"), Reply::Bulk(vec![])]),
        ])),
        Err(DecodeError::ScoreNotScalar)
    );
}
