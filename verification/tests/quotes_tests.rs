use tigerbot::date::Date;
use tigerbot::queries::{get_quote, search_quote, MostQuoted, MostQuotedBy, Quote, SqlValue};
use tigerbot::quotes::{
    credited_quote_message, credited_user, lookup_failure, plan_add_quote, plan_search, quote_message, rankings_failed_reply,
    rankings_shortcut, rankings_text, AddQuotePlan, DbError, LookupFailure, MediaKind,
    MessageContent, OutgoingQuote, PhotoSize, QuoteAction, QuoteEvent, QuoteFlow, QuoteError,
    QuoteReply, QuoteRequest, QuotedMessage, RankLine, ReplyInfo, SearchPlan,
};
use tigerbot::types::QuoteType;
use tigerbot::users::{AuthorInfo, UserInfo};

fn db_error(code: Option<&str>, detail: &str) -> DbError {
    DbError { sqlstate: code.map(String::from), detail: detail.to_string() }
}

#[test]
fn database_errors_are_classified() {
    let unique = db_error(Some("23505"), "Error { kind: Db, cause: ... }");
    assert_eq!(QuoteError::from_db(unique.clone()), QuoteError::DatabaseUniqueViolation(unique));
    let none = db_error(None, "Error { kind: RowCount, cause: None }");
    assert_eq!(QuoteError::from_db(none.clone()), QuoteError::DatabaseNoResults(none));
    let other = db_error(Some("42P01"), "Error { kind: Db, cause: ... }");
    assert_eq!(QuoteError::from_db(other.clone()), QuoteError::Database(other));
}

#[test]
fn failed_lookups_are_answered() {
    assert_eq!(lookup_failure(&QuoteError::TeloxideRequest), LookupFailure::Propagate);
    let none = QuoteError::DatabaseNoResults(db_error(None, "Error { kind: RowCount, cause: None }"));
    assert_eq!(lookup_failure(&none), LookupFailure::NoQuotes);
    assert_eq!(lookup_failure(&QuoteError::TGMissingFileID), LookupFailure::Failed);
    assert_eq!(lookup_failure(&QuoteError::Database(db_error(None, "x"))), LookupFailure::Failed);
    assert_eq!(LookupFailure::NoQuotes.text(), "No Quotes in this Chat yet.");
    assert_eq!(LookupFailure::Failed.text(), "Failed to get random quote. Sorry");
}

fn request(author: AuthorInfo) -> QuoteRequest {
    QuoteRequest { sender: Some(1), reply: Some(ReplyInfo { msg_id: 55, author: Some(author) }) }
}

fn human(id: u64) -> AuthorInfo {
    AuthorInfo { id, is_bot: false }
}

fn reply_of(a: QuoteAction) -> String {
    match a {
        QuoteAction::Reply(r) => r.text(),
        other => panic!("expected a reply, got {other:?}"),
    }
}

#[test]
fn quote_command_preconditions() {
    let (_, a) = QuoteFlow::start(&QuoteRequest { sender: Some(1), reply: None });
    assert_eq!(reply_of(a), "Must be used as a reply to a message to quote.");
    let (_, a) = QuoteFlow::start(&QuoteRequest {
        sender: None,
        reply: Some(ReplyInfo { msg_id: 1, author: Some(human(2)) }),
    });
    assert_eq!(reply_of(a), "Channels cant quote messages");
    let (_, a) = QuoteFlow::start(&QuoteRequest {
        sender: Some(1),
        reply: Some(ReplyInfo { msg_id: 1, author: None }),
    });
    assert_eq!(reply_of(a), "Cant quote messages from a group or channel.");
}

#[test]
fn quote_command_happy_path() {
    let (f, a) = QuoteFlow::start(&request(human(2)));
    assert_eq!(a, QuoteAction::CheckOptOut(1));
    let (f, a) = f.step(QuoteEvent::OptedOut(false));
    assert_eq!(a, QuoteAction::CheckOptOut(2));
    let (f, a) = f.step(QuoteEvent::OptedOut(false));
    assert_eq!(a, QuoteAction::Store);
    let (_, a) = f.step(QuoteEvent::Stored(Ok(1)));
    assert_eq!(reply_of(a), "Quote Added");
}

#[test]
fn quote_command_refusals() {
    let (f, _) = QuoteFlow::start(&request(human(2)));
    let (_, a) = f.step(QuoteEvent::OptedOut(true));
    assert_eq!(
        reply_of(a),
        "You have opted out of quote functionality. Please opt in if you wish to quote messages again."
    );
    let (f, _) = QuoteFlow::start(&request(human(2)));
    let (f, _) = f.step(QuoteEvent::OptedOut(false));
    let (_, a) = f.step(QuoteEvent::OptedOut(true));
    assert_eq!(reply_of(a), "The user you are trying to quote has opted out.");
    let (f, _) = QuoteFlow::start(&request(AuthorInfo { id: 2, is_bot: true }));
    let (f, _) = f.step(QuoteEvent::OptedOut(false));
    let (_, a) = f.step(QuoteEvent::OptedOut(false));
    assert_eq!(reply_of(a), "Cant quote a bot's messages.");
    for service in [777000u64, 136817688, 1087968824] {
        let (f, _) = QuoteFlow::start(&request(human(service)));
        let (f, _) = f.step(QuoteEvent::OptedOut(false));
        let (_, a) = f.step(QuoteEvent::OptedOut(false));
        assert_eq!(reply_of(a), "Cant quote a channel's messages.");
    }
}

fn stored_flow() -> QuoteFlow {
    let (f, _) = QuoteFlow::start(&request(human(2)));
    let (f, _) = f.step(QuoteEvent::OptedOut(false));
    let (f, a) = f.step(QuoteEvent::OptedOut(false));
    assert_eq!(a, QuoteAction::Store);
    f
}

#[test]
fn quote_command_storage_outcomes() {
    let (_, a) = stored_flow().step(QuoteEvent::Stored(Ok(0)));
    assert_eq!(reply_of(a), "Not a valid message type to quote");
    let (_, a) = stored_flow().step(QuoteEvent::Stored(Err(db_error(Some("42P01"), "x"))));
    assert_eq!(reply_of(a), "Failed to add quote. Sorry");
    let (f, a) = stored_flow().step(QuoteEvent::Stored(Err(db_error(Some("23505"), "x"))));
    assert_eq!(a, QuoteAction::LookupExisting(55));
    let (_, a) = f.step(QuoteEvent::Existing(None));
    assert_eq!(reply_of(a), "Quote Already Exists");
    let (f, _) = stored_flow().step(QuoteEvent::Stored(Err(db_error(Some("23505"), "x"))));
    let (f, a) = f.step(QuoteEvent::Existing(Some(9)));
    assert_eq!(a, QuoteAction::LookupName(9));
    let (_, a) = f.step(QuoteEvent::Name(Some("bob".to_string())));
    assert_eq!(reply_of(a), "Quote Already exists. bob beat you to it.");
    let (f, _) = stored_flow().step(QuoteEvent::Stored(Err(db_error(Some("23505"), "x"))));
    let (f, _) = f.step(QuoteEvent::Existing(Some(9)));
    let (_, a) = f.step(QuoteEvent::Name(None));
    assert_eq!(reply_of(a), "Quote Already Exists");
}

#[test]
fn events_out_of_turn_change_nothing() {
    let (f, _) = QuoteFlow::start(&request(human(2)));
    let (g, a) = f.step(QuoteEvent::Stored(Ok(1)));
    assert_eq!(a, QuoteAction::Wait);
    assert_eq!(g, f);
    let (g, a) = f.step(QuoteEvent::Name(Some("x".to_string())));
    assert_eq!(a, QuoteAction::Wait);
    assert_eq!(g, f);
}

fn user(id: u64, username: Option<&str>, first: &str, last: Option<&str>) -> UserInfo {
    UserInfo {
        id,
        is_bot: false,
        first_name: first.to_string(),
        last_name: last.map(String::from),
        username: username.map(String::from),
    }
}

fn message(content: MessageContent) -> QuotedMessage {
    QuotedMessage {
        id: 55,
        chat_id: -100,
        date: Date::from_ymd(2024, 3, 5).unwrap(),
        is_common: true,
        author: Some(user(2, None, "Grace", Some("Hopper"))),
        content,
        caption: Some("look".to_string()),
        text: Some("plain words".to_string()),
        has_media_spoiler: true,
    }
}

fn size(f: &str, w: u32, h: u32) -> PhotoSize {
    PhotoSize { file_id: f.to_string(), width: w, height: h }
}

fn stored_values(plan: AddQuotePlan) -> (Vec<Vec<SqlValue>>, Vec<SqlValue>) {
    match plan {
        AddQuotePlan::Store { names, insert } => {
            (names.into_iter().map(|q| q.params).collect(), insert.params)
        },
        AddQuotePlan::Skip => panic!("expected a store"),
    }
}

#[test]
fn plain_text_quote() {
    let quoter = user(1, Some("ada"), "Ada", None);
    let (names, values) = stored_values(plan_add_quote(&message(MessageContent::Plain), &quoter));
    assert_eq!(
        names,
        vec![
            vec![SqlValue::Numeric(2), SqlValue::Text("Ada".to_string())],
            vec![SqlValue::Numeric(1), SqlValue::Text("ada".to_string())],
        ]
    );
    assert_eq!(
        values,
        vec![
            SqlValue::Int4(55),
            SqlValue::Numeric(2),
            SqlValue::Int8(-100),
            SqlValue::Numeric(1),
            SqlValue::Kind(QuoteType::Text),
            SqlValue::Date(Date::from_ymd(2024, 3, 5).unwrap()),
            SqlValue::Bool(false),
            SqlValue::OptText(Some("plain words".to_string())),
            SqlValue::OptText(None),
        ]
    );
}

#[test]
fn names_fall_back_to_the_quoters_full_name() {
    let mut m = message(MessageContent::Plain);
    m.author = Some(user(2, Some("grace"), "Grace", Some("Hopper")));
    let quoter = user(1, None, "Ada", Some("Lovelace"));
    let (names, _) = stored_values(plan_add_quote(&m, &quoter));
    assert_eq!(names[0], vec![SqlValue::Numeric(2), SqlValue::Text("grace".to_string())]);
    assert_eq!(names[1], vec![SqlValue::Numeric(1), SqlValue::Text("Ada Lovelace".to_string())]);
    let (names, _) = stored_values(plan_add_quote(&message(MessageContent::Plain), &quoter));
    assert_eq!(names[0], vec![SqlValue::Numeric(2), SqlValue::Text("Ada Lovelace".to_string())]);
}

#[test]
fn media_quotes_keep_file_caption_and_spoiler() {
    let quoter = user(1, Some("ada"), "Ada", None);
    for (content, kind, file) in [
        (MessageContent::Voice("v".to_string()), QuoteType::Voice, "v"),
        (MessageContent::Video("w".to_string()), QuoteType::Video, "w"),
        (MessageContent::Document("d".to_string()), QuoteType::Document, "d"),
    ] {
        let (_, values) = stored_values(plan_add_quote(&message(content), &quoter));
        assert_eq!(values[4], SqlValue::Kind(kind));
        assert_eq!(values[6], SqlValue::Bool(true));
        assert_eq!(values[7], SqlValue::OptText(Some("look".to_string())));
        assert_eq!(values[8], SqlValue::OptText(Some(file.to_string())));
    }
}

#[test]
fn the_largest_photo_size_is_stored() {
    let quoter = user(1, Some("ada"), "Ada", None);
    let sizes = vec![size("small", 90, 60), size("large", 1280, 960), size("medium", 320, 240)];
    let (_, values) = stored_values(plan_add_quote(&message(MessageContent::Photo(sizes)), &quoter));
    assert_eq!(values[4], SqlValue::Kind(QuoteType::Photo));
    assert_eq!(values[8], SqlValue::OptText(Some("large".to_string())));
    let sizes = vec![size("huge", u32::MAX, u32::MAX), size("tiny", 1, 1)];
    let (_, values) = stored_values(plan_add_quote(&message(MessageContent::Photo(sizes)), &quoter));
    assert_eq!(values[8], SqlValue::OptText(Some("huge".to_string())));
}

#[test]
fn unquotable_messages_are_skipped() {
    let quoter = user(1, Some("ada"), "Ada", None);
    assert_eq!(plan_add_quote(&message(MessageContent::Unsupported), &quoter), AddQuotePlan::Skip);
    let mut m = message(MessageContent::Plain);
    m.is_common = false;
    assert_eq!(plan_add_quote(&m, &quoter), AddQuotePlan::Skip);
}

fn run(plan: SearchPlan) -> (&'static str, Vec<SqlValue>) {
    match plan {
        SearchPlan::Run(q) => (q.sql, q.params),
        SearchPlan::NoTerms => panic!("expected a query"),
    }
}

#[test]
fn searches() {
    let bob = vec![AuthorInfo { id: 3, is_bot: true }, AuthorInfo { id: 9, is_bot: false }];
    assert_eq!(plan_search("/searchquote", 5, &bob), SearchPlan::NoTerms);
    assert_eq!(plan_search("/searchquote   ", 5, &bob), SearchPlan::NoTerms);
    assert_eq!(plan_search("", 5, &bob), SearchPlan::NoTerms);
    let (_, params) = run(plan_search("/searchquote @bob", 5, &bob));
    assert_eq!(params, vec![SqlValue::Int8(5), SqlValue::Numeric(9)]);
    let (sql, params) = run(plan_search("/searchquote @bob cats  dogs", 5, &bob));
    assert!(sql.contains("user_from = ($2)"));
    assert_eq!(
        params,
        vec![SqlValue::Int8(5), SqlValue::Numeric(9), SqlValue::Text("cats & dogs".to_string())]
    );
    let (sql, params) = run(plan_search("/searchquote cats dogs", 5, &bob));
    assert_eq!(sql, search_quote().bind(5, String::new()).sql);
    assert_eq!(params, vec![SqlValue::Int8(5), SqlValue::Text("cats & dogs".to_string())]);
}

#[test]
fn mentions_without_a_human_user_search_all_terms() {
    let bots = vec![AuthorInfo { id: 3, is_bot: true }];
    let (_, params) = run(plan_search("/searchquote @bot", 5, &bots));
    assert_eq!(params, vec![SqlValue::Int8(5), SqlValue::Text("@bot".to_string())]);
    let (_, params) = run(plan_search("/searchquote @bot cats", 5, &vec![]));
    assert_eq!(params, vec![SqlValue::Int8(5), SqlValue::Text("@bot & cats".to_string())]);
}

fn stored_quote(kind: QuoteType, text: Option<&str>, file: Option<&str>) -> Quote {
    Quote {
        user_from: 2,
        chat_id: 5,
        quoted_by: 1,
        msg_type: kind,
        msg_date: Date::from_ymd(2024, 3, 5).unwrap(),
        has_spoiler: true,
        text: text.map(String::from),
        file_id: file.map(String::from),
    }
}

#[test]
fn quotes_are_shown_with_author_and_date() {
    let q = stored_quote(QuoteType::Text, Some("hello"), None);
    assert_eq!(
        quote_message(&q, "grace"),
        Ok(OutgoingQuote::Text("\"hello\" -grace\n2024-03-05".to_string()))
    );
    let q = stored_quote(QuoteType::Photo, Some("look"), Some("f"));
    assert_eq!(
        quote_message(&q, "grace"),
        Ok(OutgoingQuote::Media {
            kind: MediaKind::Photo,
            file_id: "f".to_string(),
            caption: "\"look\" -grace\n2024-03-05".to_string(),
            spoiler: true,
        })
    );
    let q = stored_quote(QuoteType::Voice, None, Some("v"));
    assert_eq!(
        quote_message(&q, "grace"),
        Ok(OutgoingQuote::Media {
            kind: MediaKind::Voice,
            file_id: "v".to_string(),
            caption: "-grace\n2024-03-05".to_string(),
            spoiler: false,
        })
    );
    let q = stored_quote(QuoteType::Video, None, Some("w"));
    assert!(matches!(quote_message(&q, "g"), Ok(OutgoingQuote::Media { spoiler: true, kind: MediaKind::Video, .. })));
    let q = stored_quote(QuoteType::Document, None, Some("d"));
    assert!(matches!(quote_message(&q, "g"), Ok(OutgoingQuote::Media { spoiler: false, kind: MediaKind::Document, .. })));
}

#[test]
fn media_quotes_without_file_cannot_be_sent() {
    for kind in [QuoteType::Document, QuoteType::Photo, QuoteType::Video, QuoteType::Voice] {
        assert_eq!(
            quote_message(&stored_quote(kind, Some("x"), None), "g"),
            Err(QuoteError::TGMissingFileID)
        );
    }
}

#[test]
fn rankings_message() {
    let most = vec![
        RankLine { count: 6, percentage: "60".to_string(), name: "grace".to_string() },
        RankLine { count: 4, percentage: "40".to_string(), name: "42".to_string() },
    ];
    let by = vec![RankLine { count: 10, percentage: "100".to_string(), name: "ada".to_string() }];
    assert_eq!(
        rankings_text(10, &most, &by),
        "<b>Overall:</b>\n • 10 Total Quotes\n\n<b>Users With the Most Quotes:</b>\n • 6 (60%): grace\n • 4 (40%): 42\n\n<b>Users Who Add the Most Quotes:</b>\n • 10 (100%): ada\n"
    );
    assert_eq!(rankings_shortcut(0), Some("0 Quoted Messages in this Chat"));
    assert_eq!(rankings_shortcut(3), None);
    assert_eq!(rankings_failed_reply(), "Failed to get quote rankings");
}

#[test]
fn existing_quote_lookup_uses_the_message_id() {
    assert_eq!(get_quote().bind(55).params, vec![SqlValue::Int4(55)]);
    assert_eq!(QuoteReply::BeatenBy("x".to_string()).text(), "Quote Already exists. x beat you to it.");
}

#[test]
fn shown_quotes_are_credited_to_their_author() {
    let q = Quote {
        user_from: 42,
        chat_id: 7,
        quoted_by: 9,
        msg_type: QuoteType::Photo,
        msg_date: Date::from_ymd(2024, 1, 2).unwrap(),
        has_spoiler: true,
        text: None,
        file_id: Some("F1".to_string()),
    };
    assert_eq!(credited_user(&q), 42);
    assert_eq!(
        credited_quote_message(&q, Some("alice".to_string())),
        Ok(OutgoingQuote::Media {
            kind: MediaKind::Photo,
            file_id: "F1".to_string(),
            caption: "-alice\n2024-01-02".to_string(),
            spoiler: true,
        })
    );
    let t = stored_quote(QuoteType::Text, Some("hi"), None);
    assert_eq!(
        credited_quote_message(&t, None),
        Ok(OutgoingQuote::Text("\"hi\" -2\n2024-03-05".to_string()))
    );
}

#[test]
fn ranking_lines_name_the_row_user() {
    let row = MostQuoted { user_from: 42, count: 3 };
    let l = RankLine::most_quoted(&row, Some("alice".to_string()), "30".to_string());
    assert_eq!(l, RankLine { count: 3, percentage: "30".to_string(), name: "alice".to_string() });
    let l = RankLine::most_quoted(&row, None, "30".to_string());
    assert_eq!(l.name, "42");
    let row = MostQuotedBy { quoted_by: 9, count: 5 };
    let l = RankLine::most_quoted_by(&row, None, "50".to_string());
    assert_eq!(l, RankLine { count: 5, percentage: "50".to_string(), name: "9".to_string() });
}

#[test]
fn skipped_messages_need_no_author_or_photo() {
    let quoter = user(1, Some("ada"), "Ada", None);
    let mut m = message(MessageContent::Unsupported);
    m.author = None;
    assert_eq!(plan_add_quote(&m, &quoter), AddQuotePlan::Skip);
    let mut m = message(MessageContent::Photo(vec![]));
    m.is_common = false;
    m.author = None;
    assert_eq!(plan_add_quote(&m, &quoter), AddQuotePlan::Skip);
}
