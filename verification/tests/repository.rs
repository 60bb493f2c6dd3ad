use std::collections::HashMap;

use time::{Duration, OffsetDateTime};
use url_shortener::repository::{
    is_expired, retrieve_found, retrieve_found_at, save_begin, save_finish, save_finish_at,
    save_on_existing, save_on_existing_at, InternalError, SaveAction, SaveUrlError,
};
use url_shortener::short_url::{ShortUrl, ShortUrlConversionError, StoredUrl};
use url_shortener::timestamp::Timestamp;

fn timestamp(t: OffsetDateTime) -> Timestamp {
    Timestamp::from_unix_nanos(t.unix_timestamp_nanos())
}

fn new_model(id: &str, url: &str, expires_in: Duration) -> StoredUrl {
    let expiration_time = (OffsetDateTime::now_utc() + expires_in)
        .replace_nanosecond(0)
        .unwrap();
    StoredUrl {
        id: id.to_owned(),
        long_url: url.to_owned(),
        expiration_time: timestamp(expiration_time),
    }
}

fn at(n: i128) -> Timestamp {
    Timestamp::from_unix_nanos(n)
}

fn fixed_row(id: &str, url: &str, exp: i128) -> StoredUrl {
    StoredUrl { id: id.to_owned(), long_url: url.to_owned(), expiration_time: at(exp) }
}

/// The row as a table that keeps whole Unix seconds holds it.
fn as_written(row: StoredUrl) -> StoredUrl {
    let n = row.expiration_time.unix_nanos();
    StoredUrl { expiration_time: at(n - n.rem_euclid(1_000_000_000)), ..row }
}

/// Runs a whole save against an in-memory table at the given instants.
fn save_in(
    table: &mut HashMap<String, StoredUrl>,
    short_url: ShortUrl,
    now: Timestamp,
) -> Result<ShortUrl, SaveUrlError> {
    let row = save_begin(short_url);
    let existing = table.get(&row.id).cloned();
    match save_on_existing_at(row, existing, now, now) {
        SaveAction::Abort(e) => Err(e),
        SaveAction::Insert(row) => {
            let row = as_written(row);
            table.insert(row.id.clone(), row.clone());
            save_finish_at(row, now)
        }
        SaveAction::ReplaceExpired { expired_id, row } => {
            table.remove(&expired_id);
            let row = as_written(row);
            table.insert(row.id.clone(), row.clone());
            save_finish_at(row, now)
        }
    }
}

fn retrieve_in(
    table: &HashMap<String, StoredUrl>,
    id: &str,
    now: Timestamp,
) -> Result<Option<ShortUrl>, ShortUrlConversionError> {
    retrieve_found_at(table.get(id).cloned(), now, now)
}

#[test]
fn test_retrieve_url_non_existent() {
    let result = retrieve_found(None).unwrap();
    assert!(result.is_none());
}

#[test]
fn test_retrieve_url_expired() {
    let model = new_model("expired", "https://example.com", Duration::seconds(-1));
    let result = retrieve_found(Some(model)).unwrap();
    assert!(result.is_none());
}

#[test]
fn test_retrieve_url_nonexpired() {
    let model = new_model("nonexpired", "https://example.com", Duration::days(1));
    let expected: ShortUrl = ShortUrl::try_from(model.clone()).unwrap();
    let result = retrieve_found(Some(model)).unwrap();
    assert_eq!(result, Some(expected));
}

#[test]
fn test_save_url_newly_created() {
    let model = new_model("valid123", "https://example.com", Duration::days(1));
    let short_url: ShortUrl = ShortUrl::try_from(model.clone()).unwrap();
    let row = save_begin(short_url.clone());
    let inserted = match save_on_existing(row, None) {
        SaveAction::Insert(row) => row,
        other => panic!("unexpected {:?}", other),
    };
    assert_eq!(inserted.id, "valid123");
    let actual = save_finish(inserted).unwrap();
    assert_eq!(actual, short_url);
}

#[test]
fn test_save_url_conflict_nonexpired() {
    let model = new_model("valid123", "https://example.com", Duration::days(1));
    let short_url: ShortUrl = ShortUrl::try_from(model.clone()).unwrap();
    let row = save_begin(short_url.clone());
    let result = save_on_existing(row, Some(model));
    assert!(matches!(
        result,
        SaveAction::Abort(SaveUrlError::ItemAlreadyExists(existing)) if *existing == short_url
    ));
}

#[test]
fn test_save_url_conflict_expired() {
    let conflict = new_model("valid123", "https://gsconrad.com", -Duration::seconds(1));
    let model = new_model("valid123", "https://example.com", Duration::days(1));
    let short_url: ShortUrl = ShortUrl::try_from(model.clone()).unwrap();
    let row = save_begin(short_url.clone());
    let to_insert = match save_on_existing(row, Some(conflict)) {
        SaveAction::ReplaceExpired { expired_id, row } => {
            assert_eq!(expired_id, "valid123");
            row
        }
        other => panic!("unexpected {:?}", other),
    };
    assert_eq!(to_insert.id, model.id);
    assert_eq!(to_insert.long_url, "https://example.com/");
    assert_eq!(to_insert.expiration_time, model.expiration_time);
    let actual = save_finish(model).unwrap();
    assert_eq!(actual, short_url);
}

#[test]
fn expiry_is_judged_strictly() {
    assert!(!is_expired(at(10), at(10)));
    assert!(is_expired(at(9), at(10)));
    assert!(!is_expired(at(11), at(10)));
}

#[test]
fn retrieve_keeps_entry_live_at_its_expiration() {
    let row = fixed_row("valid123", "https://example.com", 100);
    let got = retrieve_found_at(Some(row.clone()), at(100), at(100)).unwrap().unwrap();
    assert_eq!(got.url().as_str(), "https://example.com/");
    assert!(retrieve_found_at(Some(row), at(101), at(101)).unwrap().is_none());
}

#[test]
fn retrieve_reports_unconvertible_live_row() {
    let row = fixed_row("bad", "https://example.com", 100);
    assert!(matches!(
        retrieve_found_at(Some(row), at(0), at(0)),
        Err(ShortUrlConversionError::InvalidShortId(_))
    ));
}

#[test]
fn save_reports_unconvertible_live_row() {
    let short_url = ShortUrl::try_from_at(fixed_row("valid123", "https://a.example", 50), at(0)).unwrap();
    let row = save_begin(short_url);
    let existing = fixed_row("valid123", "::", 100);
    assert!(matches!(
        save_on_existing_at(row, Some(existing), at(0), at(0)),
        SaveAction::Abort(SaveUrlError::Internal(InternalError::ConvertExisting(
            ShortUrlConversionError::InvalidUrl(_)
        )))
    ));
}

#[test]
fn save_finish_reports_unconvertible_row() {
    let row = fixed_row("valid123", "https://example.com", 5);
    assert!(matches!(
        save_finish_at(row, at(6)),
        Err(SaveUrlError::Internal(InternalError::ConvertInserted(_)))
    ));
}

const SEC: i128 = 1_000_000_000;

#[test]
fn read_after_save_gives_back_the_saved_url() {
    let mut table = HashMap::new();
    let short_url =
        ShortUrl::try_from_at(fixed_row("abcdef12", "https://example.com", 1_000 * SEC), at(0)).unwrap();
    let saved = save_in(&mut table, short_url, at(10 * SEC)).unwrap();
    assert_eq!(retrieve_in(&table, "abcdef12", at(20 * SEC)).unwrap(), Some(saved.clone()));
    assert_eq!(retrieve_in(&table, "abcdef12", at(1_000 * SEC)).unwrap(), Some(saved));
    assert_eq!(retrieve_in(&table, "abcdef12", at(1_000 * SEC + 1)).unwrap(), None);
}

#[test]
fn saving_twice_reports_the_first_entry() {
    let mut table = HashMap::new();
    let short_url =
        ShortUrl::try_from_at(fixed_row("abcdef12", "https://example.com", 1_000 * SEC), at(0)).unwrap();
    let saved = save_in(&mut table, short_url.clone(), at(10 * SEC)).unwrap();
    let before = table.clone();
    match save_in(&mut table, short_url, at(20 * SEC)) {
        Err(SaveUrlError::ItemAlreadyExists(existing)) => assert_eq!(*existing, saved),
        other => panic!("unexpected {:?}", other),
    }
    assert_eq!(table, before);
}

#[test]
fn expired_entry_is_replaced_and_others_untouched() {
    let mut table = HashMap::new();
    table.insert("abcdef12".to_string(), fixed_row("abcdef12", "https://old.example", 5 * SEC));
    table.insert("other123".to_string(), fixed_row("other123", "https://keep.example", 5 * SEC));
    let short_url =
        ShortUrl::try_from_at(fixed_row("abcdef12", "https://new.example", 1_000 * SEC), at(0)).unwrap();
    let saved = save_in(&mut table, short_url, at(10 * SEC)).unwrap();
    assert_eq!(saved.url().as_str(), "https://new.example/");
    assert_eq!(table["abcdef12"].long_url, "https://new.example/");
    assert_eq!(table["other123"], fixed_row("other123", "https://keep.example", 5 * SEC));
}

#[test]
fn cleanup_is_not_observable_by_later_reads() {
    let mut table = HashMap::new();
    table.insert("gone1234".to_string(), fixed_row("gone1234", "https://a.example", 5));
    table.insert("kept1234".to_string(), fixed_row("kept1234", "https://b.example", 50));
    let cutoff = at(10);
    let mut cleaned = table.clone();
    cleaned.retain(|_, row| !is_expired(row.expiration_time, cutoff));
    assert_eq!(cleaned.len(), 1);
    for id in ["gone1234", "kept1234", "absent12"] {
        assert_eq!(retrieve_in(&cleaned, id, at(10)).unwrap(), retrieve_in(&table, id, at(10)).unwrap());
    }
}

#[test]
fn table_keeps_whole_seconds() {
    let mut table = HashMap::new();
    let short_url =
        ShortUrl::try_from_at(fixed_row("abcdef12", "https://example.com", 5_700_000_001), at(0)).unwrap();
    let saved = save_in(&mut table, short_url, at(10)).unwrap();
    assert_eq!(saved.expiration_time().into_inner(), at(5_000_000_000));
    assert_eq!(table["abcdef12"].expiration_time, at(5_000_000_000));
}

#[test]
fn saving_a_whole_second_short_url_twice_gives_it_back() {
    let mut table = HashMap::new();
    let short_url =
        ShortUrl::try_from_at(fixed_row("abcdef12", "https://example.com/", 7_000_000_000), at(0)).unwrap();
    let saved = save_in(&mut table, short_url.clone(), at(10)).unwrap();
    assert_eq!(saved, short_url);
    match save_in(&mut table, short_url.clone(), at(20)) {
        Err(SaveUrlError::ItemAlreadyExists(existing)) => assert_eq!(*existing, short_url),
        other => panic!("unexpected {:?}", other),
    }
}
