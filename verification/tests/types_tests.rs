use tigerbot::date::Date;
use tigerbot::types::{FromSqlError, QuoteType, SqlTypeKind};
use tigerbot::users::{display_name, service_account, UserInfo};

const ALL: [QuoteType; 5] = [
    QuoteType::Text,
    QuoteType::Document,
    QuoteType::Photo,
    QuoteType::Video,
    QuoteType::Voice,
];

fn labels(ls: &[&str]) -> SqlTypeKind {
    SqlTypeKind::Enum(ls.iter().map(|s| s.to_string()).collect())
}

#[test]
fn kinds_have_their_labels() {
    assert_eq!(QuoteType::Text.name(), "Text");
    assert_eq!(QuoteType::Document.name(), "Document");
    assert_eq!(QuoteType::Photo.name(), "Photo");
    assert_eq!(QuoteType::Video.name(), "Video");
    assert_eq!(QuoteType::Voice.name(), "Voice");
}

#[test]
fn a_written_kind_reads_back() {
    for t in ALL {
        assert_eq!(QuoteType::from_sql(t.name().as_bytes()), Ok(t));
    }
}

#[test]
fn unknown_labels_and_bad_bytes_are_refused() {
    assert_eq!(
        QuoteType::from_sql(b"Sticker"),
        Err(FromSqlError::InvalidVariant("Sticker".to_string()))
    );
    assert_eq!(
        QuoteType::from_sql(b"text"),
        Err(FromSqlError::InvalidVariant("text".to_string()))
    );
    assert_eq!(QuoteType::from_sql(&[0xff, 0xfe]), Err(FromSqlError::NotUtf8));
    assert_eq!(
        FromSqlError::InvalidVariant("Sticker".to_string()).message(),
        Some("invalid variant `Sticker`".to_string())
    );
    assert_eq!(FromSqlError::NotUtf8.message(), None);
}

#[test]
fn accepted_database_types() {
    let good = labels(&["Text", "Document", "Photo", "Video", "Voice"]);
    assert!(QuoteType::accepts("quote_type", &good));
    assert!(QuoteType::accepts("quote_type", &labels(&["Voice", "Video", "Photo", "Document", "Text"])));
    // Five labels, each known, repeats included.
    assert!(QuoteType::accepts("quote_type", &labels(&["Text", "Text", "Text", "Text", "Text"])));
    assert!(!QuoteType::accepts("quote_kind", &good));
    assert!(!QuoteType::accepts("quote_type", &labels(&["Text", "Document", "Photo", "Video"])));
    assert!(!QuoteType::accepts("quote_type", &labels(&["Text", "Document", "Photo", "Video", "Audio"])));
    assert!(!QuoteType::accepts("quote_type", &SqlTypeKind::Other));
}

#[test]
fn calendar_days_exist_or_not() {
    assert!(Date::from_ymd(2024, 2, 29).is_some());
    assert!(Date::from_ymd(2023, 2, 29).is_none());
    assert!(Date::from_ymd(2000, 2, 29).is_some());
    assert!(Date::from_ymd(1900, 2, 29).is_none());
    assert!(Date::from_ymd(-4, 2, 29).is_some());
    assert!(Date::from_ymd(2015, 0, 14).is_none());
    assert!(Date::from_ymd(2015, 13, 1).is_none());
    assert!(Date::from_ymd(2023, 4, 31).is_none());
    assert!(Date::from_ymd(2023, 4, 0).is_none());
    assert!(Date::from_ymd(262142, 12, 31).is_some());
    assert!(Date::from_ymd(262143, 1, 1).is_none());
    assert!(Date::from_ymd(-262143, 1, 1).is_some());
    assert!(Date::from_ymd(-262144, 12, 31).is_none());
    let d = Date::from_ymd(2024, 3, 5).unwrap();
    assert_eq!((d.year(), d.month(), d.day()), (2024, 3, 5));
}

#[test]
fn dates_are_written_as_chrono_does() {
    assert_eq!(Date::from_ymd(2024, 3, 5).unwrap().text(), "2024-03-05");
    assert_eq!(Date::from_ymd(1999, 12, 31).unwrap().text(), "1999-12-31");
    assert_eq!(Date::from_ymd(5, 1, 1).unwrap().text(), "0005-01-01");
    assert_eq!(Date::from_ymd(-4, 2, 29).unwrap().text(), "-0004-02-29");
    assert_eq!(Date::from_ymd(12345, 6, 7).unwrap().text(), "+12345-06-07");
}

#[test]
fn full_names_and_display_names() {
    let mut u = UserInfo {
        id: 5,
        is_bot: false,
        first_name: "Ada".to_string(),
        last_name: Some("Lovelace".to_string()),
        username: None,
    };
    assert_eq!(u.full_name(), "Ada Lovelace");
    u.last_name = None;
    assert_eq!(u.full_name(), "Ada");
    assert_eq!(display_name(Some("ada".to_string()), 5), "ada");
    assert_eq!(display_name(None, 123456789), "123456789");
}

#[test]
fn service_accounts() {
    assert!(service_account(777000));
    assert!(service_account(136817688));
    assert!(service_account(1087968824));
    assert!(!service_account(0));
    assert!(!service_account(777001));
    assert!(!service_account(42));
}
