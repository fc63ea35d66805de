use tigerbot::date::Date;
use tigerbot::queries::{
    add_quote, get_quote, most_quoted, most_quoted_by, number_of_quotes, purge_quotes_for_privacy,
    quote_from_user, random_quote, search_quote, search_quote_from_user, set_username_query,
    AddQuoteParams, BoundQuery, Quote, QuoteBorrowed, QuoteFromUserParams, SearchQuoteFromUserParams,
    SearchQuoteParams, SqlValue,
};
use tigerbot::types::QuoteType;

/// The highest `$n` placeholder of a statement.
fn highest_placeholder(sql: &str) -> usize {
    let chars: Vec<char> = sql.chars().collect();
    let mut best = 0;
    let mut i = 0;
    while i < chars.len() {
        if chars[i] == '$' {
            let mut j = i + 1;
            let mut n = 0usize;
            while j < chars.len() && chars[j].is_ascii_digit() {
                n = n * 10 + chars[j].to_digit(10).unwrap() as usize;
                j += 1;
            }
            best = best.max(n);
            i = j;
        } else {
            i += 1;
        }
    }
    best
}

fn date() -> Date {
    Date::from_ymd(2024, 3, 5).unwrap()
}

fn all_bound() -> Vec<BoundQuery> {
    vec![
        add_quote().bind(1, 2, 3, 4, QuoteType::Text, date(), false, Some("hi".to_string()), None),
        random_quote().bind(3),
        get_quote().bind(1),
        number_of_quotes().bind(3),
        most_quoted().bind(3),
        most_quoted_by().bind(3),
        quote_from_user().bind(3, 2),
        search_quote().bind(3, "cat".to_string()),
        search_quote_from_user().bind(3, 2, "cat".to_string()),
        purge_quotes_for_privacy().bind(2),
        set_username_query(2, "name".to_string()),
    ]
}

#[test]
fn every_statement_binds_as_many_values_as_it_has_placeholders() {
    for q in all_bound() {
        assert_eq!(highest_placeholder(q.sql), q.params.len(), "{}", q.sql);
    }
}

#[test]
fn statement_texts() {
    assert_eq!(
        add_quote().bind(1, 2, 3, 4, QuoteType::Text, date(), false, None, None).sql,
        "INSERT INTO quotes (msg_id, user_from, chat_id, quoted_by, msg_type, msg_date, has_spoiler, text, file_id) VALUES ($1, $2, $3, $4, $5, $6, $7, $8, $9)"
    );
    assert_eq!(
        random_quote().bind(1).sql,
        "SELECT user_from, chat_id, quoted_by, msg_type, msg_date, has_spoiler, text, file_id FROM quotes WHERE chat_id = ($1) ORDER BY RANDOM() LIMIT 1"
    );
    assert_eq!(
        get_quote().bind(1).sql,
        "SELECT user_from, chat_id, quoted_by, msg_type, msg_date, has_spoiler, text, file_id FROM quotes WHERE msg_id = ($1)"
    );
    assert_eq!(number_of_quotes().bind(1).sql, "SELECT COUNT(*) FROM quotes WHERE chat_id = ($1)");
    assert_eq!(
        most_quoted().bind(1).sql,
        "SELECT user_from, COUNT(*) AS count FROM quotes WHERE chat_id = ($1) GROUP BY user_from ORDER BY count DESC LIMIT 5"
    );
    assert_eq!(
        most_quoted_by().bind(1).sql,
        "SELECT quoted_by, COUNT(*) AS count FROM quotes WHERE chat_id = ($1) GROUP BY quoted_by ORDER BY count DESC LIMIT 5"
    );
    assert_eq!(
        quote_from_user().bind(1, 2).sql,
        "SELECT user_from, chat_id, quoted_by, msg_type, msg_date, has_spoiler, text, file_id FROM quotes WHERE chat_id = ($1) AND user_from = ($2) ORDER BY RANDOM() LIMIT 1"
    );
    assert_eq!(
        search_quote().bind(1, String::new()).sql,
        "SELECT user_from, chat_id, quoted_by, msg_type, msg_date, has_spoiler, text, file_id FROM quotes WHERE chat_id = ($1) AND textsearchable_index_col @@ to_tsquery($2) ORDER BY RANDOM() LIMIT 1"
    );
    assert_eq!(
        search_quote_from_user().bind(1, 2, String::new()).sql,
        "SELECT user_from, chat_id, quoted_by, msg_type, msg_date, has_spoiler, text, file_id FROM quotes WHERE chat_id = ($1) AND user_from = ($2) AND textsearchable_index_col @@ to_tsquery($3) ORDER BY RANDOM() LIMIT 1"
    );
    assert_eq!(
        purge_quotes_for_privacy().bind(1).sql,
        "DELETE FROM quotes WHERE user_from = ($1) OR quoted_by = ($1)"
    );
    assert_eq!(set_username_query(1, String::new()).sql, "SELECT merge_username($1, $2)");
}

#[test]
fn add_quote_binds_columns_in_order() {
    let q = add_quote().bind(
        10,
        20,
        -30,
        40,
        QuoteType::Photo,
        date(),
        true,
        Some("caption".to_string()),
        Some("file".to_string()),
    );
    assert_eq!(
        q.params,
        vec![
            SqlValue::Int4(10),
            SqlValue::Numeric(20),
            SqlValue::Int8(-30),
            SqlValue::Numeric(40),
            SqlValue::Kind(QuoteType::Photo),
            SqlValue::Date(date()),
            SqlValue::Bool(true),
            SqlValue::OptText(Some("caption".to_string())),
            SqlValue::OptText(Some("file".to_string())),
        ]
    );
}

#[test]
fn params_bind_the_same_values_as_bind() {
    let stmt = add_quote();
    let p = AddQuoteParams {
        msg_id: 1,
        user_from: 2,
        chat_id: 3,
        quoted_by: 4,
        msg_type: QuoteType::Voice,
        msg_date: date(),
        has_spoiler: false,
        text_content: None,
        file_id: Some("f".to_string()),
    };
    assert_eq!(
        stmt.params(p),
        stmt.bind(1, 2, 3, 4, QuoteType::Voice, date(), false, None, Some("f".to_string()))
    );
    let stmt = quote_from_user();
    assert_eq!(stmt.params(&QuoteFromUserParams { chat_id: 7, user_from: 8 }), stmt.bind(7, 8));
    let stmt = search_quote();
    assert_eq!(
        stmt.params(SearchQuoteParams { chat_id: 7, query: "a & b".to_string() }),
        stmt.bind(7, "a & b".to_string())
    );
    let stmt = search_quote_from_user();
    assert_eq!(
        stmt.params(SearchQuoteFromUserParams { chat_id: 7, user_from: 8, query: "a".to_string() }),
        stmt.bind(7, 8, "a".to_string())
    );
}

#[test]
fn purge_binds_the_user_once_for_both_columns() {
    let q = purge_quotes_for_privacy().bind(99);
    assert_eq!(q.params, vec![SqlValue::Numeric(99)]);
}

#[test]
fn borrowed_quote_becomes_owned() {
    let text = String::from("hello");
    let b = QuoteBorrowed {
        user_from: 1,
        chat_id: 2,
        quoted_by: 3,
        msg_type: QuoteType::Text,
        msg_date: date(),
        has_spoiler: false,
        text: Some(text.as_str()),
        file_id: None,
    };
    let q = Quote::from_borrowed(b);
    assert_eq!(
        q,
        Quote {
            user_from: 1,
            chat_id: 2,
            quoted_by: 3,
            msg_type: QuoteType::Text,
            msg_date: date(),
            has_spoiler: false,
            text: Some("hello".to_string()),
            file_id: None,
        }
    );
}
