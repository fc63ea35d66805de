//! The SQL statements the bot runs against its quote store, and the values
//! that are bound to their parameters. Running them is left to the caller.
use vstd::prelude::*;

use crate::date::Date;
use crate::types::QuoteType;

verus! {

/// A value bound to a statement parameter. User ids are stored as `NUMERIC`
/// and travel here as the `u64` they were made from.
#[derive(Debug, PartialEq, Eq)]
pub enum SqlValue {
    Int4(i32),
    Int8(i64),
    Numeric(u64),
    Bool(bool),
    Text(String),
    OptText(Option<String>),
    Date(Date),
    Kind(QuoteType),
}

/// What a bound value is, with texts as character sequences.
pub enum SqlParam {
    Int4(i32),
    Int8(i64),
    Numeric(u64),
    Bool(bool),
    Text(Seq<char>),
    OptText(Option<Seq<char>>),
    Date(Date),
    Kind(QuoteType),
}

impl View for SqlValue {
    type V = SqlParam;

    open spec fn view(&self) -> SqlParam {
        match self {
            SqlValue::Int4(v) => SqlParam::Int4(*v),
            SqlValue::Int8(v) => SqlParam::Int8(*v),
            SqlValue::Numeric(v) => SqlParam::Numeric(*v),
            SqlValue::Bool(v) => SqlParam::Bool(*v),
            SqlValue::Text(v) => SqlParam::Text(v@),
            SqlValue::OptText(v) => SqlParam::OptText(v.deep_view()),
            SqlValue::Date(v) => SqlParam::Date(*v),
            SqlValue::Kind(v) => SqlParam::Kind(*v),
        }
    }
}

/// A statement together with the values of its parameters, `$1` first.
#[derive(Debug, PartialEq, Eq)]
pub struct BoundQuery {
    pub sql: &'static str,
    pub params: Vec<SqlValue>,
}

impl BoundQuery {
    /// The bound values, with texts as character sequences.
    pub open spec fn param_views(self) -> Seq<SqlParam> {
        self.params@.map_values(|v: SqlValue| v@)
    }
}

/// A prepared-statement handle: the SQL text it runs.
pub struct Stmt {
    query: &'static str,
}

impl View for Stmt {
    type V = Seq<char>;

    closed spec fn view(&self) -> Seq<char> {
        self.query@
    }
}

impl Stmt {
    pub fn new(query: &'static str) -> (s: Stmt)
        ensures
            s@ == query@,
    {
        Stmt { query }
    }

    pub fn query(&self) -> (q: &'static str)
        ensures
            q@ == self@,
    {
        self.query
    }
}

/// Handle on the statement built by [`add_quote`].
pub struct AddQuoteStmt(Stmt);

impl AddQuoteStmt {
    #[verifier::type_invariant]
    spec fn runs_its_statement(self) -> bool {
        self.0@ == add_quote_sql()
    }

    /// The SQL text this handle runs.
    pub closed spec fn sql(self) -> Seq<char> {
        self.0@
    }
}

/// SQL text of the statement built by [`add_quote`].
pub open spec fn add_quote_sql() -> Seq<char> {
    "INSERT INTO quotes (msg_id, user_from, chat_id, quoted_by, msg_type, msg_date, has_spoiler, text, file_id) VALUES ($1, $2, $3, $4, $5, $6, $7, $8, $9)"@
}

/// The statement that stores a new quote.
pub fn add_quote() -> (s: AddQuoteStmt)
    ensures
        s.sql() == add_quote_sql(),
{
    AddQuoteStmt(Stmt::new(
        "INSERT INTO quotes (msg_id, user_from, chat_id, quoted_by, msg_type, msg_date, has_spoiler, text, file_id) VALUES ($1, $2, $3, $4, $5, $6, $7, $8, $9)",
    ))
}

/// Handle on the statement built by [`random_quote`].
pub struct RandomQuoteStmt(Stmt);

impl RandomQuoteStmt {
    #[verifier::type_invariant]
    spec fn runs_its_statement(self) -> bool {
        self.0@ == random_quote_sql()
    }

    /// The SQL text this handle runs.
    pub closed spec fn sql(self) -> Seq<char> {
        self.0@
    }
}

/// SQL text of the statement built by [`random_quote`].
pub open spec fn random_quote_sql() -> Seq<char> {
    "SELECT user_from, chat_id, quoted_by, msg_type, msg_date, has_spoiler, text, file_id FROM quotes WHERE chat_id = ($1) ORDER BY RANDOM() LIMIT 1"@
}

/// The statement that picks one quote of a chat at random.
pub fn random_quote() -> (s: RandomQuoteStmt)
    ensures
        s.sql() == random_quote_sql(),
{
    RandomQuoteStmt(Stmt::new(
        "SELECT user_from, chat_id, quoted_by, msg_type, msg_date, has_spoiler, text, file_id FROM quotes WHERE chat_id = ($1) ORDER BY RANDOM() LIMIT 1",
    ))
}

/// Handle on the statement built by [`get_quote`].
pub struct GetQuoteStmt(Stmt);

impl GetQuoteStmt {
    #[verifier::type_invariant]
    spec fn runs_its_statement(self) -> bool {
        self.0@ == get_quote_sql()
    }

    /// The SQL text this handle runs.
    pub closed spec fn sql(self) -> Seq<char> {
        self.0@
    }
}

/// SQL text of the statement built by [`get_quote`].
pub open spec fn get_quote_sql() -> Seq<char> {
    "SELECT user_from, chat_id, quoted_by, msg_type, msg_date, has_spoiler, text, file_id FROM quotes WHERE msg_id = ($1)"@
}

/// The statement that reads the quote stored for a message id.
pub fn get_quote() -> (s: GetQuoteStmt)
    ensures
        s.sql() == get_quote_sql(),
{
    GetQuoteStmt(Stmt::new(
        "SELECT user_from, chat_id, quoted_by, msg_type, msg_date, has_spoiler, text, file_id FROM quotes WHERE msg_id = ($1)",
    ))
}

/// Handle on the statement built by [`number_of_quotes`].
pub struct NumberOfQuotesStmt(Stmt);

impl NumberOfQuotesStmt {
    #[verifier::type_invariant]
    spec fn runs_its_statement(self) -> bool {
        self.0@ == number_of_quotes_sql()
    }

    /// The SQL text this handle runs.
    pub closed spec fn sql(self) -> Seq<char> {
        self.0@
    }
}

/// SQL text of the statement built by [`number_of_quotes`].
pub open spec fn number_of_quotes_sql() -> Seq<char> {
    "SELECT COUNT(*) FROM quotes WHERE chat_id = ($1)"@
}

/// The statement that counts the quotes of a chat.
pub fn number_of_quotes() -> (s: NumberOfQuotesStmt)
    ensures
        s.sql() == number_of_quotes_sql(),
{
    NumberOfQuotesStmt(Stmt::new(
        "SELECT COUNT(*) FROM quotes WHERE chat_id = ($1)",
    ))
}

/// Handle on the statement built by [`most_quoted`].
pub struct MostQuotedStmt(Stmt);

impl MostQuotedStmt {
    #[verifier::type_invariant]
    spec fn runs_its_statement(self) -> bool {
        self.0@ == most_quoted_sql()
    }

    /// The SQL text this handle runs.
    pub closed spec fn sql(self) -> Seq<char> {
        self.0@
    }
}

/// SQL text of the statement built by [`most_quoted`].
pub open spec fn most_quoted_sql() -> Seq<char> {
    "SELECT user_from, COUNT(*) AS count FROM quotes WHERE chat_id = ($1) GROUP BY user_from ORDER BY count DESC LIMIT 5"@
}

/// The statement that ranks the five most quoted users of a chat.
pub fn most_quoted() -> (s: MostQuotedStmt)
    ensures
        s.sql() == most_quoted_sql(),
{
    MostQuotedStmt(Stmt::new(
        "SELECT user_from, COUNT(*) AS count FROM quotes WHERE chat_id = ($1) GROUP BY user_from ORDER BY count DESC LIMIT 5",
    ))
}

/// Handle on the statement built by [`most_quoted_by`].
pub struct MostQuotedByStmt(Stmt);

impl MostQuotedByStmt {
    #[verifier::type_invariant]
    spec fn runs_its_statement(self) -> bool {
        self.0@ == most_quoted_by_sql()
    }

    /// The SQL text this handle runs.
    pub closed spec fn sql(self) -> Seq<char> {
        self.0@
    }
}

/// SQL text of the statement built by [`most_quoted_by`].
pub open spec fn most_quoted_by_sql() -> Seq<char> {
    "SELECT quoted_by, COUNT(*) AS count FROM quotes WHERE chat_id = ($1) GROUP BY quoted_by ORDER BY count DESC LIMIT 5"@
}

/// The statement that ranks the five users of a chat who added the most quotes.
pub fn most_quoted_by() -> (s: MostQuotedByStmt)
    ensures
        s.sql() == most_quoted_by_sql(),
{
    MostQuotedByStmt(Stmt::new(
        "SELECT quoted_by, COUNT(*) AS count FROM quotes WHERE chat_id = ($1) GROUP BY quoted_by ORDER BY count DESC LIMIT 5",
    ))
}

/// Handle on the statement built by [`quote_from_user`].
pub struct QuoteFromUserStmt(Stmt);

impl QuoteFromUserStmt {
    #[verifier::type_invariant]
    spec fn runs_its_statement(self) -> bool {
        self.0@ == quote_from_user_sql()
    }

    /// The SQL text this handle runs.
    pub closed spec fn sql(self) -> Seq<char> {
        self.0@
    }
}

/// SQL text of the statement built by [`quote_from_user`].
pub open spec fn quote_from_user_sql() -> Seq<char> {
    "SELECT user_from, chat_id, quoted_by, msg_type, msg_date, has_spoiler, text, file_id FROM quotes WHERE chat_id = ($1) AND user_from = ($2) ORDER BY RANDOM() LIMIT 1"@
}

/// The statement that picks one quote of a given user in a chat at random.
pub fn quote_from_user() -> (s: QuoteFromUserStmt)
    ensures
        s.sql() == quote_from_user_sql(),
{
    QuoteFromUserStmt(Stmt::new(
        "SELECT user_from, chat_id, quoted_by, msg_type, msg_date, has_spoiler, text, file_id FROM quotes WHERE chat_id = ($1) AND user_from = ($2) ORDER BY RANDOM() LIMIT 1",
    ))
}

/// Handle on the statement built by [`search_quote`].
pub struct SearchQuoteStmt(Stmt);

impl SearchQuoteStmt {
    #[verifier::type_invariant]
    spec fn runs_its_statement(self) -> bool {
        self.0@ == search_quote_sql()
    }

    /// The SQL text this handle runs.
    pub closed spec fn sql(self) -> Seq<char> {
        self.0@
    }
}

/// SQL text of the statement built by [`search_quote`].
pub open spec fn search_quote_sql() -> Seq<char> {
    "SELECT user_from, chat_id, quoted_by, msg_type, msg_date, has_spoiler, text, file_id FROM quotes WHERE chat_id = ($1) AND textsearchable_index_col @@ to_tsquery($2) ORDER BY RANDOM() LIMIT 1"@
}

/// The statement that picks at random one quote of a chat matching a text search.
pub fn search_quote() -> (s: SearchQuoteStmt)
    ensures
        s.sql() == search_quote_sql(),
{
    SearchQuoteStmt(Stmt::new(
        "SELECT user_from, chat_id, quoted_by, msg_type, msg_date, has_spoiler, text, file_id FROM quotes WHERE chat_id = ($1) AND textsearchable_index_col @@ to_tsquery($2) ORDER BY RANDOM() LIMIT 1",
    ))
}

/// Handle on the statement built by [`search_quote_from_user`].
pub struct SearchQuoteFromUserStmt(Stmt);

impl SearchQuoteFromUserStmt {
    #[verifier::type_invariant]
    spec fn runs_its_statement(self) -> bool {
        self.0@ == search_quote_from_user_sql()
    }

    /// The SQL text this handle runs.
    pub closed spec fn sql(self) -> Seq<char> {
        self.0@
    }
}

/// SQL text of the statement built by [`search_quote_from_user`].
pub open spec fn search_quote_from_user_sql() -> Seq<char> {
    "SELECT user_from, chat_id, quoted_by, msg_type, msg_date, has_spoiler, text, file_id FROM quotes WHERE chat_id = ($1) AND user_from = ($2) AND textsearchable_index_col @@ to_tsquery($3) ORDER BY RANDOM() LIMIT 1"@
}

/// The statement that picks at random one quote of a given user in a chat matching a text search.
pub fn search_quote_from_user() -> (s: SearchQuoteFromUserStmt)
    ensures
        s.sql() == search_quote_from_user_sql(),
{
    SearchQuoteFromUserStmt(Stmt::new(
        "SELECT user_from, chat_id, quoted_by, msg_type, msg_date, has_spoiler, text, file_id FROM quotes WHERE chat_id = ($1) AND user_from = ($2) AND textsearchable_index_col @@ to_tsquery($3) ORDER BY RANDOM() LIMIT 1",
    ))
}

/// Handle on the statement built by [`purge_quotes_for_privacy`].
pub struct PurgeQuotesForPrivacyStmt(Stmt);

impl PurgeQuotesForPrivacyStmt {
    #[verifier::type_invariant]
    spec fn runs_its_statement(self) -> bool {
        self.0@ == purge_quotes_for_privacy_sql()
    }

    /// The SQL text this handle runs.
    pub closed spec fn sql(self) -> Seq<char> {
        self.0@
    }
}

/// SQL text of the statement built by [`purge_quotes_for_privacy`].
pub open spec fn purge_quotes_for_privacy_sql() -> Seq<char> {
    "DELETE FROM quotes WHERE user_from = ($1) OR quoted_by = ($1)"@
}

/// The statement that deletes every quote made by or of a user.
pub fn purge_quotes_for_privacy() -> (s: PurgeQuotesForPrivacyStmt)
    ensures
        s.sql() == purge_quotes_for_privacy_sql(),
{
    PurgeQuotesForPrivacyStmt(Stmt::new(
        "DELETE FROM quotes WHERE user_from = ($1) OR quoted_by = ($1)",
    ))
}

impl AddQuoteStmt {
    /// Binds the fields of a new quote.
    pub fn bind(&self, msg_id: i32, user_from: u64, chat_id: i64, quoted_by: u64, msg_type: QuoteType, msg_date: Date, has_spoiler: bool, text_content: Option<String>, file_id: Option<String>) -> (q: BoundQuery)
        ensures
            q.sql@ == add_quote_sql(),
            q.params@ == seq![SqlValue::Int4(msg_id), SqlValue::Numeric(user_from), SqlValue::Int8(chat_id), SqlValue::Numeric(quoted_by), SqlValue::Kind(msg_type), SqlValue::Date(msg_date), SqlValue::Bool(has_spoiler), SqlValue::OptText(text_content), SqlValue::OptText(file_id)],
    {
        let mut params: Vec<SqlValue> = Vec::new();
        params.push(SqlValue::Int4(msg_id));
        params.push(SqlValue::Numeric(user_from));
        params.push(SqlValue::Int8(chat_id));
        params.push(SqlValue::Numeric(quoted_by));
        params.push(SqlValue::Kind(msg_type));
        params.push(SqlValue::Date(msg_date));
        params.push(SqlValue::Bool(has_spoiler));
        params.push(SqlValue::OptText(text_content));
        params.push(SqlValue::OptText(file_id));
        proof {
            assert(params@ =~= seq![SqlValue::Int4(msg_id), SqlValue::Numeric(user_from), SqlValue::Int8(chat_id), SqlValue::Numeric(quoted_by), SqlValue::Kind(msg_type), SqlValue::Date(msg_date), SqlValue::Bool(has_spoiler), SqlValue::OptText(text_content), SqlValue::OptText(file_id)]);
        }
        proof {
            use_type_invariant(self);
        }
        BoundQuery { sql: self.0.query(), params }
    }
}

impl RandomQuoteStmt {
    /// Binds the chat to pick a quote from.
    pub fn bind(&self, chat_id: i64) -> (q: BoundQuery)
        ensures
            q.sql@ == random_quote_sql(),
            q.params@ == seq![SqlValue::Int8(chat_id)],
    {
        let mut params: Vec<SqlValue> = Vec::new();
        params.push(SqlValue::Int8(chat_id));
        proof {
            assert(params@ =~= seq![SqlValue::Int8(chat_id)]);
        }
        proof {
            use_type_invariant(self);
        }
        BoundQuery { sql: self.0.query(), params }
    }
}

impl GetQuoteStmt {
    /// Binds the id of the quoted message.
    pub fn bind(&self, msg_id: i32) -> (q: BoundQuery)
        ensures
            q.sql@ == get_quote_sql(),
            q.params@ == seq![SqlValue::Int4(msg_id)],
    {
        let mut params: Vec<SqlValue> = Vec::new();
        params.push(SqlValue::Int4(msg_id));
        proof {
            assert(params@ =~= seq![SqlValue::Int4(msg_id)]);
        }
        proof {
            use_type_invariant(self);
        }
        BoundQuery { sql: self.0.query(), params }
    }
}

impl NumberOfQuotesStmt {
    /// Binds the chat whose quotes are counted.
    pub fn bind(&self, chat_id: i64) -> (q: BoundQuery)
        ensures
            q.sql@ == number_of_quotes_sql(),
            q.params@ == seq![SqlValue::Int8(chat_id)],
    {
        let mut params: Vec<SqlValue> = Vec::new();
        params.push(SqlValue::Int8(chat_id));
        proof {
            assert(params@ =~= seq![SqlValue::Int8(chat_id)]);
        }
        proof {
            use_type_invariant(self);
        }
        BoundQuery { sql: self.0.query(), params }
    }
}

impl MostQuotedStmt {
    /// Binds the chat to rank.
    pub fn bind(&self, chat_id: i64) -> (q: BoundQuery)
        ensures
            q.sql@ == most_quoted_sql(),
            q.params@ == seq![SqlValue::Int8(chat_id)],
    {
        let mut params: Vec<SqlValue> = Vec::new();
        params.push(SqlValue::Int8(chat_id));
        proof {
            assert(params@ =~= seq![SqlValue::Int8(chat_id)]);
        }
        proof {
            use_type_invariant(self);
        }
        BoundQuery { sql: self.0.query(), params }
    }
}

impl MostQuotedByStmt {
    /// Binds the chat to rank.
    pub fn bind(&self, chat_id: i64) -> (q: BoundQuery)
        ensures
            q.sql@ == most_quoted_by_sql(),
            q.params@ == seq![SqlValue::Int8(chat_id)],
    {
        let mut params: Vec<SqlValue> = Vec::new();
        params.push(SqlValue::Int8(chat_id));
        proof {
            assert(params@ =~= seq![SqlValue::Int8(chat_id)]);
        }
        proof {
            use_type_invariant(self);
        }
        BoundQuery { sql: self.0.query(), params }
    }
}

impl QuoteFromUserStmt {
    /// Binds the chat and the quoted user.
    pub fn bind(&self, chat_id: i64, user_from: u64) -> (q: BoundQuery)
        ensures
            q.sql@ == quote_from_user_sql(),
            q.params@ == seq![SqlValue::Int8(chat_id), SqlValue::Numeric(user_from)],
    {
        let mut params: Vec<SqlValue> = Vec::new();
        params.push(SqlValue::Int8(chat_id));
        params.push(SqlValue::Numeric(user_from));
        proof {
            assert(params@ =~= seq![SqlValue::Int8(chat_id), SqlValue::Numeric(user_from)]);
        }
        proof {
            use_type_invariant(self);
        }
        BoundQuery { sql: self.0.query(), params }
    }
}

impl SearchQuoteStmt {
    /// Binds the chat and the text-search query.
    pub fn bind(&self, chat_id: i64, query: String) -> (q: BoundQuery)
        ensures
            q.sql@ == search_quote_sql(),
            q.params@ == seq![SqlValue::Int8(chat_id), SqlValue::Text(query)],
    {
        let mut params: Vec<SqlValue> = Vec::new();
        params.push(SqlValue::Int8(chat_id));
        params.push(SqlValue::Text(query));
        proof {
            assert(params@ =~= seq![SqlValue::Int8(chat_id), SqlValue::Text(query)]);
        }
        proof {
            use_type_invariant(self);
        }
        BoundQuery { sql: self.0.query(), params }
    }
}

impl SearchQuoteFromUserStmt {
    /// Binds the chat, the quoted user and the text-search query.
    pub fn bind(&self, chat_id: i64, user_from: u64, query: String) -> (q: BoundQuery)
        ensures
            q.sql@ == search_quote_from_user_sql(),
            q.params@ == seq![SqlValue::Int8(chat_id), SqlValue::Numeric(user_from), SqlValue::Text(query)],
    {
        let mut params: Vec<SqlValue> = Vec::new();
        params.push(SqlValue::Int8(chat_id));
        params.push(SqlValue::Numeric(user_from));
        params.push(SqlValue::Text(query));
        proof {
            assert(params@ =~= seq![SqlValue::Int8(chat_id), SqlValue::Numeric(user_from), SqlValue::Text(query)]);
        }
        proof {
            use_type_invariant(self);
        }
        BoundQuery { sql: self.0.query(), params }
    }
}

impl PurgeQuotesForPrivacyStmt {
    /// Binds the user whose quotes are deleted.
    pub fn bind(&self, user_id: u64) -> (q: BoundQuery)
        ensures
            q.sql@ == purge_quotes_for_privacy_sql(),
            q.params@ == seq![SqlValue::Numeric(user_id)],
    {
        let mut params: Vec<SqlValue> = Vec::new();
        params.push(SqlValue::Numeric(user_id));
        proof {
            assert(params@ =~= seq![SqlValue::Numeric(user_id)]);
        }
        proof {
            use_type_invariant(self);
        }
        BoundQuery { sql: self.0.query(), params }
    }
}


/// The fields of a new quote, as [`AddQuoteStmt::params`] takes them.
#[derive(Debug, PartialEq, Eq)]
pub struct AddQuoteParams {
    pub msg_id: i32,
    pub user_from: u64,
    pub chat_id: i64,
    pub quoted_by: u64,
    pub msg_type: QuoteType,
    pub msg_date: Date,
    pub has_spoiler: bool,
    pub text_content: Option<String>,
    pub file_id: Option<String>,
}

/// The parameters of [`quote_from_user`].
#[derive(Clone, Copy, Debug)]
pub struct QuoteFromUserParams {
    pub chat_id: i64,
    pub user_from: u64,
}

/// The parameters of [`search_quote`].
#[derive(Debug, PartialEq, Eq)]
pub struct SearchQuoteParams {
    pub chat_id: i64,
    pub query: String,
}

/// The parameters of [`search_quote_from_user`].
#[derive(Debug, PartialEq, Eq)]
pub struct SearchQuoteFromUserParams {
    pub chat_id: i64,
    pub user_from: u64,
    pub query: String,
}

impl AddQuoteStmt {
    /// Binds the fields of `p`, in the order of the statement's columns.
    pub fn params(&self, p: AddQuoteParams) -> (q: BoundQuery)
        ensures
            q.sql@ == add_quote_sql(),
            q.params@ == seq![SqlValue::Int4(p.msg_id), SqlValue::Numeric(p.user_from), SqlValue::Int8(p.chat_id), SqlValue::Numeric(p.quoted_by), SqlValue::Kind(p.msg_type), SqlValue::Date(p.msg_date), SqlValue::Bool(p.has_spoiler), SqlValue::OptText(p.text_content), SqlValue::OptText(p.file_id)],
    {
        self.bind(
            p.msg_id,
            p.user_from,
            p.chat_id,
            p.quoted_by,
            p.msg_type,
            p.msg_date,
            p.has_spoiler,
            p.text_content,
            p.file_id,
        )
    }
}

impl QuoteFromUserStmt {
    /// Binds the chat and the quoted user of `p`.
    pub fn params(&self, p: &QuoteFromUserParams) -> (q: BoundQuery)
        ensures
            q.sql@ == quote_from_user_sql(),
            q.params@ == seq![SqlValue::Int8(p.chat_id), SqlValue::Numeric(p.user_from)],
    {
        self.bind(p.chat_id, p.user_from)
    }
}

impl SearchQuoteStmt {
    /// Binds the chat and the query of `p`.
    pub fn params(&self, p: SearchQuoteParams) -> (q: BoundQuery)
        ensures
            q.sql@ == search_quote_sql(),
            q.params@ == seq![SqlValue::Int8(p.chat_id), SqlValue::Text(p.query)],
    {
        self.bind(p.chat_id, p.query)
    }
}

impl SearchQuoteFromUserStmt {
    /// Binds the chat, the quoted user and the query of `p`.
    pub fn params(&self, p: SearchQuoteFromUserParams) -> (q: BoundQuery)
        ensures
            q.sql@ == search_quote_from_user_sql(),
            q.params@ == seq![SqlValue::Int8(p.chat_id), SqlValue::Numeric(p.user_from), SqlValue::Text(p.query)],
    {
        self.bind(p.chat_id, p.user_from, p.query)
    }
}

/// A stored quote, as the quote-reading statements return it.
#[derive(Debug, PartialEq, Eq)]
pub struct Quote {
    pub user_from: u64,
    pub chat_id: i64,
    pub quoted_by: u64,
    pub msg_type: QuoteType,
    pub msg_date: Date,
    pub has_spoiler: bool,
    pub text: Option<String>,
    pub file_id: Option<String>,
}

/// A stored quote whose texts still borrow from the row they were read from.
pub struct QuoteBorrowed<'a> {
    pub user_from: u64,
    pub chat_id: i64,
    pub quoted_by: u64,
    pub msg_type: QuoteType,
    pub msg_date: Date,
    pub has_spoiler: bool,
    pub text: Option<&'a str>,
    pub file_id: Option<&'a str>,
}

fn owned_text(t: Option<&str>) -> (r: Option<String>)
    ensures
        r.deep_view() == t.deep_view(),
{
    match t {
        Some(v) => Some(String::from_str(v)),
        None => None,
    }
}

impl Quote {
    /// Takes ownership of the texts of a borrowed quote.
    pub fn from_borrowed(b: QuoteBorrowed) -> (q: Quote)
        ensures
            q.user_from == b.user_from,
            q.chat_id == b.chat_id,
            q.quoted_by == b.quoted_by,
            q.msg_type == b.msg_type,
            q.msg_date == b.msg_date,
            q.has_spoiler == b.has_spoiler,
            q.text.deep_view() == b.text.deep_view(),
            q.file_id.deep_view() == b.file_id.deep_view(),
    {
        Quote {
            user_from: b.user_from,
            chat_id: b.chat_id,
            quoted_by: b.quoted_by,
            msg_type: b.msg_type,
            msg_date: b.msg_date,
            has_spoiler: b.has_spoiler,
            text: owned_text(b.text),
            file_id: owned_text(b.file_id),
        }
    }
}

/// A row of the ranking of the most quoted users.
#[derive(Clone, Copy, Debug)]
pub struct MostQuoted {
    pub user_from: u64,
    pub count: i64,
}

/// A row of the ranking of the users who added the most quotes.
#[derive(Clone, Copy, Debug)]
pub struct MostQuotedBy {
    pub quoted_by: u64,
    pub count: i64,
}

/// SQL text of the statement that records a user's display name.
pub open spec fn set_username_sql() -> Seq<char> {
    "SELECT merge_username($1, $2)"@
}

/// The statement that records the display name of a user.
pub fn set_username_query(user_id: u64, username: String) -> (q: BoundQuery)
    ensures
        q.sql@ == set_username_sql(),
        q.params@ == seq![SqlValue::Numeric(user_id), SqlValue::Text(username)],
{
    let mut params: Vec<SqlValue> = Vec::new();
    params.push(SqlValue::Numeric(user_id));
    params.push(SqlValue::Text(username));
    proof {
        assert(params@ =~= seq![SqlValue::Numeric(user_id), SqlValue::Text(username)]);
    }
    BoundQuery { sql: "SELECT merge_username($1, $2)", params }
}

} // verus!
