use ru402::book::{Book, Edition, Inventory, InventoryStatus, Metrics, StoredRecord};
use ru402::error::{DecodeError, Error};

fn sample_book(id: &str) -> Book {
    Book {
        author: "Author".to_string(),
        id: id.to_string(),
        description: "A book".to_string(),
        embedding: Some(vec![1.0f32.to_bits(), 0.5f32.to_bits()]),
        editions: vec![Edition::English],
        genres: vec!["fiction".to_string()],
        inventory: vec![Inventory { status: InventoryStatus::Available, stock_id: "s1".to_string() }],
        metrics: Metrics { rating_votes: 10, score: 4.5f32.to_bits() },
        pages: 300,
        title: "Title".to_string(),
        url: "http://example.org".to_string(),
        year_published: 1999,
    }
}

#[test]
fn edition_ignores_case() {
    assert_eq!(Edition::parse("English"), Ok(Edition::English));
    assert_eq!(Edition::parse("english"), Ok(Edition::English));
    assert_eq!(Edition::parse("ENGLISH"), Ok(Edition::English));
    assert_eq!(Edition::parse("Spanish"), Ok(Edition::Spanish));
    assert_eq!(Edition::parse("fReNcH"), Ok(Edition::French));
}

#[test]
fn edition_unknown_keeps_text() {
    assert_eq!(Edition::parse("italian"), Err(Error::UnknownVariant("italian".to_string())));
    assert_eq!(Edition::parse("Italian"), Err(Error::UnknownVariant("Italian".to_string())));
    assert_eq!(Edition::parse(""), Err(Error::UnknownVariant(String::new())));
}

#[test]
fn edition_from_str() {
    let e: Edition = "FRENCH".parse().unwrap();
    assert_eq!(e, Edition::French);
}

#[test]
fn status_accepts_both_on_loan_spellings() {
    assert_eq!(InventoryStatus::parse("on_loan"), Ok(InventoryStatus::OnLoan));
    assert_eq!(InventoryStatus::parse("onloan"), Ok(InventoryStatus::OnLoan));
    assert_eq!(InventoryStatus::parse("OnLoan"), Ok(InventoryStatus::OnLoan));
    assert_eq!(InventoryStatus::parse("AVAILABLE"), Ok(InventoryStatus::Available));
    assert_eq!(InventoryStatus::parse("Maintenance"), Ok(InventoryStatus::Maintenance));
}

#[test]
fn status_unknown_fails() {
    assert_eq!(InventoryStatus::parse("lost"), Err(Error::UnknownVariant("lost".to_string())));
    let r: Result<InventoryStatus, Error> = "on loan".parse();
    assert_eq!(r, Err(Error::UnknownVariant("on loan".to_string())));
    let l: Result<InventoryStatus, Error> = "Lost".parse();
    assert_eq!(l, Err(Error::UnknownVariant("Lost".to_string())));
    let o: InventoryStatus = "ON_LOAN".parse().unwrap();
    assert_eq!(o, InventoryStatus::OnLoan);
}

#[test]
fn stored_record_shapes_agree() {
    let one = Book::from_redis_value(StoredRecord::One(sample_book("1")));
    let many = Book::from_redis_value(StoredRecord::Many(vec![sample_book("1")]));
    assert_eq!(one, Ok(sample_book("1")));
    assert_eq!(one, many);
}

#[test]
fn stored_record_empty_fails() {
    assert_eq!(Book::from_redis_value(StoredRecord::Many(Vec::new())), Err(DecodeError::RecordNotFound));
}

#[test]
fn stored_record_ambiguous_fails() {
    let r = Book::from_redis_value(StoredRecord::Many(vec![sample_book("1"), sample_book("2")]));
    assert_eq!(r, Err(DecodeError::AmbiguousRecord));
}
