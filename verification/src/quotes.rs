//! The quote commands: storing a replied-to message, picking or searching a
//! quote, sending it back, and the rankings.
use vstd::prelude::*;

use crate::date::Date;
use crate::date::date_text;
use crate::queries::{
    add_quote, add_quote_sql, quote_from_user, quote_from_user_sql, search_quote,
    search_quote_from_user, search_quote_from_user_sql, search_quote_sql, set_username_query,
    set_username_sql, BoundQuery, MostQuoted, MostQuotedBy, Quote, SqlParam,
};
use crate::text::{i64_text, join, join_from, signed_decimal_text, split_words, starts_with_char, words};
use crate::types::QuoteType;
use crate::users::{
    display_name, display_name_of, full_name_of, is_service_account, service_account, AuthorInfo,
    UserInfo,
};

verus! {

/// The quote commands of the bot.
#[derive(Clone, Copy, Debug, PartialEq, Eq, Structural)]
pub enum Command {
    /// Quote a message and add it to the database.
    Quote,
    /// Get a random quote from the database.
    RandomQuote,
    /// Search for a quote in the database.
    SearchQuote,
    /// Display quote rankings and statistics.
    QuoteRankings,
}

// ---------------------------------------------------------------------------
// Errors
// ---------------------------------------------------------------------------

/// A database error, as far as the bot looks at it: the SQLSTATE code the
/// server reported, if any, and the error's debug rendering.
#[derive(Clone, Debug, PartialEq, Eq)]
pub struct DbError {
    pub sqlstate: Option<String>,
    pub detail: String,
}

/// The SQLSTATE of a unique-key violation.
pub open spec fn unique_violation_code() -> Seq<char> {
    "23505"@
}

/// The debug rendering of the error a single-row query gives when it finds
/// no row.
pub open spec fn no_rows_detail() -> Seq<char> {
    "Error { kind: RowCount, cause: None }"@
}

pub open spec fn is_unique_violation(e: DbError) -> bool {
    e.sqlstate.deep_view() == Some(unique_violation_code())
}

pub open spec fn is_no_rows(e: DbError) -> bool {
    e.detail@ == no_rows_detail()
}

/// Why showing a quote failed.
#[derive(Debug, PartialEq, Eq)]
pub enum QuoteError {
    /// Sending to Telegram failed.
    TeloxideRequest,
    /// A stored media quote has no file id.
    TGMissingFileID,
    Database(DbError),
    DatabaseUniqueViolation(DbError),
    DatabaseNoResults(DbError),
}

/// How a database error is classified.
pub open spec fn classify_db_error(e: DbError) -> QuoteError {
    if is_unique_violation(e) {
        QuoteError::DatabaseUniqueViolation(e)
    } else if is_no_rows(e) {
        QuoteError::DatabaseNoResults(e)
    } else {
        QuoteError::Database(e)
    }
}

fn unique_violation(e: &DbError) -> (r: bool)
    ensures
        r == is_unique_violation(*e),
{
    match &e.sqlstate {
        Some(code) => crate::text::text_eq(code.as_str(), "23505"),
        None => false,
    }
}

impl QuoteError {
    /// Classifies a database error: a unique-key violation, a query that
    /// found no row, or anything else.
    pub fn from_db(e: DbError) -> (r: QuoteError)
        ensures
            r == classify_db_error(e),
    {
        if unique_violation(&e) {
            QuoteError::DatabaseUniqueViolation(e)
        } else if crate::text::text_eq(e.detail.as_str(), "Error { kind: RowCount, cause: None }") {
            QuoteError::DatabaseNoResults(e)
        } else {
            QuoteError::Database(e)
        }
    }
}

/// What to do when fetching or sending a random or searched quote failed.
#[derive(Clone, Copy, Debug, PartialEq, Eq, Structural)]
pub enum LookupFailure {
    /// Give the Telegram error back to the dispatcher.
    Propagate,
    /// Reply that the chat has no (matching) quotes.
    NoQuotes,
    /// Reply that the lookup failed.
    Failed,
}

pub open spec fn lookup_failure_spec(e: QuoteError) -> LookupFailure {
    match e {
        QuoteError::TeloxideRequest => LookupFailure::Propagate,
        QuoteError::DatabaseNoResults(_) => LookupFailure::NoQuotes,
        _ => LookupFailure::Failed,
    }
}

pub open spec fn lookup_failure_text(f: LookupFailure) -> Seq<char> {
    match f {
        LookupFailure::NoQuotes => "No Quotes in this Chat yet."@,
        _ => "Failed to get random quote. Sorry"@,
    }
}

/// Decides the answer to a failed quote lookup or send.
pub fn lookup_failure(e: &QuoteError) -> (f: LookupFailure)
    ensures
        f == lookup_failure_spec(*e),
{
    match e {
        QuoteError::TeloxideRequest => LookupFailure::Propagate,
        QuoteError::DatabaseNoResults(_) => LookupFailure::NoQuotes,
        _ => LookupFailure::Failed,
    }
}

impl LookupFailure {
    /// The reply sent for this failure (`Propagate` sends none).
    pub fn text(&self) -> (s: &'static str)
        ensures
            s@ == lookup_failure_text(*self),
    {
        match self {
            LookupFailure::NoQuotes => "No Quotes in this Chat yet.",
            _ => "Failed to get random quote. Sorry",
        }
    }
}


// ---------------------------------------------------------------------------
// The quote command
// ---------------------------------------------------------------------------

/// The message the command answers: the replied-to message and who sent the
/// command.
#[derive(Clone, Copy, Debug, PartialEq, Eq, Structural)]
pub struct ReplyInfo {
    pub msg_id: i32,
    pub author: Option<AuthorInfo>,
}

/// A quote command: who sent it (none for a channel) and the message it
/// replies to, if any.
#[derive(Clone, Copy, Debug, PartialEq, Eq, Structural)]
pub struct QuoteRequest {
    pub sender: Option<u64>,
    pub reply: Option<ReplyInfo>,
}

/// Where a quote command stands.
#[derive(Clone, Copy, Debug, PartialEq, Eq, Structural)]
pub enum QuoteStage {
    /// Waiting to learn whether the sender has opted out.
    CheckingQuoter,
    /// Waiting to learn whether the quoted author has opted out.
    CheckingQuoted,
    /// Waiting for the quote to be stored.
    Storing,
    /// The quote was there already; waiting for the stored copy.
    LookingUpExisting,
    /// Waiting for the name of whoever stored it first.
    LookingUpName,
    /// Answered.
    Finished,
}

/// The state of a quote command.
#[derive(Clone, Copy, Debug, PartialEq, Eq, Structural)]
pub struct QuoteFlow {
    pub stage: QuoteStage,
    pub quoter: u64,
    pub author: AuthorInfo,
    pub msg_id: i32,
}

/// The answers to a quote command.
#[derive(Debug, PartialEq, Eq)]
pub enum QuoteReply {
    MustReply,
    ChannelsCantQuote,
    CantQuoteGroup,
    YouOptedOut,
    TheyOptedOut,
    CantQuoteBot,
    CantQuoteChannel,
    Added,
    NotQuotable,
    AddFailed,
    AlreadyExists,
    BeatenBy(String),
}

pub open spec fn quote_reply_text(r: QuoteReply) -> Seq<char> {
    match r {
        QuoteReply::MustReply => "Must be used as a reply to a message to quote."@,
        QuoteReply::ChannelsCantQuote => "Channels cant quote messages"@,
        QuoteReply::CantQuoteGroup => "Cant quote messages from a group or channel."@,
        QuoteReply::YouOptedOut => "You have opted out of quote functionality. Please opt in if you wish to quote messages again."@,
        QuoteReply::TheyOptedOut => "The user you are trying to quote has opted out."@,
        QuoteReply::CantQuoteBot => "Cant quote a bot's messages."@,
        QuoteReply::CantQuoteChannel => "Cant quote a channel's messages."@,
        QuoteReply::Added => "Quote Added"@,
        QuoteReply::NotQuotable => "Not a valid message type to quote"@,
        QuoteReply::AddFailed => "Failed to add quote. Sorry"@,
        QuoteReply::AlreadyExists => "Quote Already Exists"@,
        QuoteReply::BeatenBy(name) => "Quote Already exists. "@ + name@ + " beat you to it."@,
    }
}

impl QuoteReply {
    /// The text of the reply.
    pub fn text(&self) -> (s: String)
        ensures
            s@ == quote_reply_text(*self),
    {
        match self {
            QuoteReply::MustReply => String::from_str("Must be used as a reply to a message to quote."),
            QuoteReply::ChannelsCantQuote => String::from_str("Channels cant quote messages"),
            QuoteReply::CantQuoteGroup => String::from_str("Cant quote messages from a group or channel."),
            QuoteReply::YouOptedOut => String::from_str(
                "You have opted out of quote functionality. Please opt in if you wish to quote messages again.",
            ),
            QuoteReply::TheyOptedOut => String::from_str("The user you are trying to quote has opted out."),
            QuoteReply::CantQuoteBot => String::from_str("Cant quote a bot's messages."),
            QuoteReply::CantQuoteChannel => String::from_str("Cant quote a channel's messages."),
            QuoteReply::Added => String::from_str("Quote Added"),
            QuoteReply::NotQuotable => String::from_str("Not a valid message type to quote"),
            QuoteReply::AddFailed => String::from_str("Failed to add quote. Sorry"),
            QuoteReply::AlreadyExists => String::from_str("Quote Already Exists"),
            QuoteReply::BeatenBy(name) => {
                let s = String::from_str("Quote Already exists. ").concat(name.as_str());
                s.concat(" beat you to it.")
            },
        }
    }
}

/// What the bot does next for a quote command.
#[derive(Debug, PartialEq, Eq)]
pub enum QuoteAction {
    /// Answer with this reply; the command is done.
    Reply(QuoteReply),
    /// Find out whether this user has opted out.
    CheckOptOut(u64),
    /// Store the replied-to message as a quote (see [`plan_add_quote`]).
    Store,
    /// Read the quote already stored for this message id.
    LookupExisting(i32),
    /// Find the recorded name of this user.
    LookupName(u64),
    /// Nothing: the event did not answer what the command was waiting for.
    Wait,
}

/// What the bot learned since the last action.
#[derive(Debug, PartialEq, Eq)]
pub enum QuoteEvent {
    /// Whether the user asked about has opted out.
    OptedOut(bool),
    /// How storing went: the number of rows stored, or the database error.
    Stored(Result<u64, DbError>),
    /// Who stored the quote that was there already, if that could be read.
    Existing(Option<u64>),
    /// The recorded name of that user, if any.
    Name(Option<String>),
}

pub open spec fn finished(f: QuoteFlow) -> QuoteFlow {
    QuoteFlow { stage: QuoteStage::Finished, ..f }
}

pub open spec fn no_author() -> AuthorInfo {
    AuthorInfo { id: 0, is_bot: false }
}

/// How a quote command starts.
pub open spec fn quote_start_spec(req: QuoteRequest) -> (QuoteFlow, QuoteAction) {
    let done = QuoteFlow { stage: QuoteStage::Finished, quoter: 0, author: no_author(), msg_id: 0 };
    match req.reply {
        None => (done, QuoteAction::Reply(QuoteReply::MustReply)),
        Some(reply) => match req.sender {
            None => (done, QuoteAction::Reply(QuoteReply::ChannelsCantQuote)),
            Some(sender) => match reply.author {
                None => (done, QuoteAction::Reply(QuoteReply::CantQuoteGroup)),
                Some(author) => (
                    QuoteFlow {
                        stage: QuoteStage::CheckingQuoter,
                        quoter: sender,
                        author,
                        msg_id: reply.msg_id,
                    },
                    QuoteAction::CheckOptOut(sender),
                ),
            },
        },
    }
}

/// How a quote command moves on when the bot learns something.
pub open spec fn quote_transition(f: QuoteFlow, e: QuoteEvent) -> (QuoteFlow, QuoteAction) {
    match (f.stage, e) {
        (QuoteStage::CheckingQuoter, QuoteEvent::OptedOut(opted_out)) => if opted_out {
            (finished(f), QuoteAction::Reply(QuoteReply::YouOptedOut))
        } else {
            (QuoteFlow { stage: QuoteStage::CheckingQuoted, ..f }, QuoteAction::CheckOptOut(f.author.id))
        },
        (QuoteStage::CheckingQuoted, QuoteEvent::OptedOut(opted_out)) => if opted_out {
            (finished(f), QuoteAction::Reply(QuoteReply::TheyOptedOut))
        } else if f.author.is_bot {
            (finished(f), QuoteAction::Reply(QuoteReply::CantQuoteBot))
        } else if is_service_account(f.author.id) {
            (finished(f), QuoteAction::Reply(QuoteReply::CantQuoteChannel))
        } else {
            (QuoteFlow { stage: QuoteStage::Storing, ..f }, QuoteAction::Store)
        },
        (QuoteStage::Storing, QuoteEvent::Stored(result)) => match result {
            Ok(rows) => if rows != 0 {
                (finished(f), QuoteAction::Reply(QuoteReply::Added))
            } else {
                (finished(f), QuoteAction::Reply(QuoteReply::NotQuotable))
            },
            Err(err) => if is_unique_violation(err) {
                (QuoteFlow { stage: QuoteStage::LookingUpExisting, ..f }, QuoteAction::LookupExisting(f.msg_id))
            } else {
                (finished(f), QuoteAction::Reply(QuoteReply::AddFailed))
            },
        },
        (QuoteStage::LookingUpExisting, QuoteEvent::Existing(first)) => match first {
            Some(user) => (QuoteFlow { stage: QuoteStage::LookingUpName, ..f }, QuoteAction::LookupName(user)),
            None => (finished(f), QuoteAction::Reply(QuoteReply::AlreadyExists)),
        },
        (QuoteStage::LookingUpName, QuoteEvent::Name(name)) => match name {
            Some(n) => (finished(f), QuoteAction::Reply(QuoteReply::BeatenBy(n))),
            None => (finished(f), QuoteAction::Reply(QuoteReply::AlreadyExists)),
        },
        _ => (f, QuoteAction::Wait),
    }
}

impl QuoteFlow {
    /// Starts a quote command: it must reply to a message, come from a user,
    /// and quote a user; then the sender's opt-out status is checked.
    pub fn start(req: &QuoteRequest) -> (r: (QuoteFlow, QuoteAction))
        ensures
            r == quote_start_spec(*req),
    {
        let done = QuoteFlow {
            stage: QuoteStage::Finished,
            quoter: 0,
            author: AuthorInfo { id: 0, is_bot: false },
            msg_id: 0,
        };
        match req.reply {
            None => (done, QuoteAction::Reply(QuoteReply::MustReply)),
            Some(reply) => match req.sender {
                None => (done, QuoteAction::Reply(QuoteReply::ChannelsCantQuote)),
                Some(sender) => match reply.author {
                    None => (done, QuoteAction::Reply(QuoteReply::CantQuoteGroup)),
                    Some(author) => (
                        QuoteFlow {
                            stage: QuoteStage::CheckingQuoter,
                            quoter: sender,
                            author,
                            msg_id: reply.msg_id,
                        },
                        QuoteAction::CheckOptOut(sender),
                    ),
                },
            },
        }
    }

    /// Moves the command on with what the bot learned.
    pub fn step(self, e: QuoteEvent) -> (r: (QuoteFlow, QuoteAction))
        ensures
            r == quote_transition(self, e),
            self.stage == QuoteStage::CheckingQuoter && e == QuoteEvent::OptedOut(false) ==> r.1
                == QuoteAction::CheckOptOut(self.author.id),
            self.stage == QuoteStage::CheckingQuoted && e == QuoteEvent::OptedOut(false)
                && !self.author.is_bot && !is_service_account(self.author.id) ==> r.1
                == QuoteAction::Store && r.0.stage == QuoteStage::Storing,
    {
        let done = QuoteFlow { stage: QuoteStage::Finished, ..self };
        match (self.stage, e) {
            (QuoteStage::CheckingQuoter, QuoteEvent::OptedOut(opted_out)) => {
                if opted_out {
                    (done, QuoteAction::Reply(QuoteReply::YouOptedOut))
                } else {
                    (
                        QuoteFlow { stage: QuoteStage::CheckingQuoted, ..self },
                        QuoteAction::CheckOptOut(self.author.id),
                    )
                }
            },
            (QuoteStage::CheckingQuoted, QuoteEvent::OptedOut(opted_out)) => {
                if opted_out {
                    (done, QuoteAction::Reply(QuoteReply::TheyOptedOut))
                } else if self.author.is_bot {
                    (done, QuoteAction::Reply(QuoteReply::CantQuoteBot))
                } else if service_account(self.author.id) {
                    (done, QuoteAction::Reply(QuoteReply::CantQuoteChannel))
                } else {
                    (QuoteFlow { stage: QuoteStage::Storing, ..self }, QuoteAction::Store)
                }
            },
            (QuoteStage::Storing, QuoteEvent::Stored(result)) => match result {
                Ok(rows) => {
                    if rows != 0 {
                        (done, QuoteAction::Reply(QuoteReply::Added))
                    } else {
                        (done, QuoteAction::Reply(QuoteReply::NotQuotable))
                    }
                },
                Err(err) => {
                    if unique_violation(&err) {
                        (
                            QuoteFlow { stage: QuoteStage::LookingUpExisting, ..self },
                            QuoteAction::LookupExisting(self.msg_id),
                        )
                    } else {
                        (done, QuoteAction::Reply(QuoteReply::AddFailed))
                    }
                },
            },
            (QuoteStage::LookingUpExisting, QuoteEvent::Existing(first)) => match first {
                Some(user) => (
                    QuoteFlow { stage: QuoteStage::LookingUpName, ..self },
                    QuoteAction::LookupName(user),
                ),
                None => (done, QuoteAction::Reply(QuoteReply::AlreadyExists)),
            },
            (QuoteStage::LookingUpName, QuoteEvent::Name(name)) => match name {
                Some(n) => (done, QuoteAction::Reply(QuoteReply::BeatenBy(n))),
                None => (done, QuoteAction::Reply(QuoteReply::AlreadyExists)),
            },
            _ => (self, QuoteAction::Wait),
        }
    }
}

/// The actions a quote command takes in state `f` as it learns `events`, one
/// action per event.
pub open spec fn quote_run(f: QuoteFlow, events: Seq<QuoteEvent>) -> Seq<QuoteAction>
    decreases events.len(),
{
    if events.len() == 0 {
        Seq::empty()
    } else {
        let (g, a) = quote_transition(f, events[0]);
        seq![a] + quote_run(g, events.drop_first())
    }
}

proof fn lemma_run_step(f: QuoteFlow, events: Seq<QuoteEvent>, k: int)
    requires
        0 < k < events.len(),
    ensures
        quote_run(f, events).len() == events.len(),
        quote_run(f, events)[k] == quote_run(quote_transition(f, events[0]).0, events.drop_first())[k - 1],
{
    lemma_run_len(f, events);
}

proof fn lemma_run_len(f: QuoteFlow, events: Seq<QuoteEvent>)
    ensures
        quote_run(f, events).len() == events.len(),
    decreases events.len(),
{
    if events.len() > 0 {
        lemma_run_len(quote_transition(f, events[0]).0, events.drop_first());
    }
}

/// Past the opt-out checks, a command never stores.
proof fn lemma_no_store_after_checks(f: QuoteFlow, events: Seq<QuoteEvent>, k: int)
    requires
        f.stage != QuoteStage::CheckingQuoter,
        f.stage != QuoteStage::CheckingQuoted,
        0 <= k < events.len(),
    ensures
        !(quote_run(f, events)[k] is Store),
    decreases events.len(),
{
    lemma_run_len(f, events);
    if k > 0 {
        lemma_run_step(f, events, k);
        lemma_no_store_after_checks(quote_transition(f, events[0]).0, events.drop_first(), k - 1);
    }
}

proof fn lemma_store_from_quoted_check(f: QuoteFlow, events: Seq<QuoteEvent>, k: int)
    requires
        f.stage == QuoteStage::CheckingQuoted,
        0 <= k < events.len(),
        quote_run(f, events)[k] is Store,
    ensures
        events[k] == QuoteEvent::OptedOut(false),
        !f.author.is_bot,
        !is_service_account(f.author.id),
    decreases events.len(),
{
    lemma_run_len(f, events);
    if k > 0 {
        lemma_run_step(f, events, k);
        let g = quote_transition(f, events[0]).0;
        if g.stage == QuoteStage::CheckingQuoted {
            lemma_store_from_quoted_check(g, events.drop_first(), k - 1);
        } else {
            lemma_no_store_after_checks(g, events.drop_first(), k - 1);
        }
    }
}

proof fn lemma_store_from_quoter_check(f: QuoteFlow, events: Seq<QuoteEvent>, k: int)
    requires
        f.stage == QuoteStage::CheckingQuoter,
        0 <= k < events.len(),
        quote_run(f, events)[k] is Store,
    ensures
        exists|i: int|
            0 <= i < k && events[i] == QuoteEvent::OptedOut(false) && #[trigger] quote_run(f, events)[i]
                == QuoteAction::CheckOptOut(f.author.id),
        events[k] == QuoteEvent::OptedOut(false),
        !f.author.is_bot,
        !is_service_account(f.author.id),
    decreases events.len(),
{
    lemma_run_len(f, events);
    if k == 0 {
        assert(false);
    } else {
        lemma_run_step(f, events, k);
        let g = quote_transition(f, events[0]).0;
        let rest = events.drop_first();
        if g.stage == QuoteStage::CheckingQuoter {
            lemma_store_from_quoter_check(g, rest, k - 1);
            let i = choose|i: int|
                0 <= i < k - 1 && rest[i] == QuoteEvent::OptedOut(false) && #[trigger] quote_run(g, rest)[i]
                    == QuoteAction::CheckOptOut(g.author.id);
            lemma_run_step(f, events, i + 1);
            assert(quote_run(f, events)[i + 1] == QuoteAction::CheckOptOut(f.author.id));
        } else if g.stage == QuoteStage::CheckingQuoted {
            lemma_store_from_quoted_check(g, rest, k - 1);
            assert(quote_run(f, events)[0] == QuoteAction::CheckOptOut(f.author.id));
        } else {
            lemma_no_store_after_checks(g, rest, k - 1);
        }
    }
}

/// Whatever the bot learns and in whatever order, a quote command stores the
/// replied-to message only if the command came from a user, replies to a
/// message of a user who is neither a bot nor a service account, the sender
/// was reported as not opted out (`events[i]`, which the command answers by
/// asking about the author), and then the author was reported as not opted
/// out (`events[k]`, answered by storing).
pub proof fn lemma_quote_stored_only_with_consent(req: QuoteRequest, events: Seq<QuoteEvent>, k: int)
    requires
        0 <= k < events.len(),
        quote_run(quote_start_spec(req).0, events)[k] is Store,
    ensures
        req.sender is Some,
        req.reply is Some,
        req.reply->0.author is Some,
        !req.reply->0.author->0.is_bot,
        !is_service_account(req.reply->0.author->0.id),
        quote_start_spec(req).1 == QuoteAction::CheckOptOut(req.sender->0),
        exists|i: int|
            0 <= i < k && events[i] == QuoteEvent::OptedOut(false) && #[trigger] quote_run(
                quote_start_spec(req).0,
                events,
            )[i] == QuoteAction::CheckOptOut(req.reply->0.author->0.id),
        events[k] == QuoteEvent::OptedOut(false),
{
    let f = quote_start_spec(req).0;
    if f.stage == QuoteStage::CheckingQuoter {
        lemma_store_from_quoter_check(f, events, k);
    } else {
        lemma_no_store_after_checks(f, events, k);
    }
}

/// Consent is enough: a command that comes from a user and replies to a
/// message of a user who is neither a bot nor a service account asks about
/// the sender, then about the author, stores the message once both are
/// reported as not opted out, and answers "Quote Added" once a row is stored.
/// Who the quoter is does not matter; users may quote themselves.
pub proof fn lemma_quote_consent_suffices(req: QuoteRequest, rows: u64)
    requires
        req.sender is Some,
        req.reply is Some,
        req.reply->0.author is Some,
        !req.reply->0.author->0.is_bot,
        !is_service_account(req.reply->0.author->0.id),
        rows != 0,
    ensures
        quote_start_spec(req).1 == QuoteAction::CheckOptOut(req.sender->0),
        quote_run(
            quote_start_spec(req).0,
            seq![
                QuoteEvent::OptedOut(false),
                QuoteEvent::OptedOut(false),
                QuoteEvent::Stored(Ok(rows)),
            ],
        ) == seq![
            QuoteAction::CheckOptOut(req.reply->0.author->0.id),
            QuoteAction::Store,
            QuoteAction::Reply(QuoteReply::Added),
        ],
{
    let f0 = quote_start_spec(req).0;
    let events = seq![
        QuoteEvent::OptedOut(false),
        QuoteEvent::OptedOut(false),
        QuoteEvent::Stored(Ok(rows)),
    ];
    let (f1, a0) = quote_transition(f0, events[0]);
    let e1 = events.drop_first();
    let (f2, a1) = quote_transition(f1, e1[0]);
    let e2 = e1.drop_first();
    let (f3, a2) = quote_transition(f2, e2[0]);
    let e3 = e2.drop_first();
    assert(e3.len() == 0);
    assert(quote_run(f3, e3) =~= Seq::<QuoteAction>::empty());
    assert(quote_run(f2, e2) =~= seq![a2]);
    assert(quote_run(f1, e1) =~= seq![a1, a2]);
    assert(quote_run(f0, events) =~= seq![a0, a1, a2]);
}

// ---------------------------------------------------------------------------
// Storing a quote
// ---------------------------------------------------------------------------

/// One size of a photo.
#[derive(Clone, Debug, PartialEq, Eq)]
pub struct PhotoSize {
    pub file_id: String,
    pub width: u32,
    pub height: u32,
}

pub open spec fn area(p: PhotoSize) -> nat {
    (p.width * p.height) as nat
}

/// What a quoted message holds besides its text.
#[derive(Clone, Debug, PartialEq, Eq)]
pub enum MessageContent {
    /// A photo, in the sizes Telegram offers.
    Photo(Vec<PhotoSize>),
    /// A voice note, a video or a document, by file id.
    Voice(String),
    Video(String),
    Document(String),
    /// A video note, game, poll or animation: not quotable.
    Unsupported,
    /// Plain text.
    Plain,
}

/// The replied-to message, with what storing it reads.
#[derive(Debug, PartialEq, Eq)]
pub struct QuotedMessage {
    pub id: i32,
    pub chat_id: i64,
    pub date: Date,
    /// Whether it is an ordinary message (not a service message).
    pub is_common: bool,
    pub author: Option<UserInfo>,
    pub content: MessageContent,
    pub caption: Option<String>,
    pub text: Option<String>,
    pub has_media_spoiler: bool,
}

/// How to store a quote: record the names of its author and of its quoter,
/// then insert it; or nothing, for a message that cannot be quoted.
#[derive(Debug, PartialEq, Eq)]
pub enum AddQuotePlan {
    Skip,
    Store { names: Vec<BoundQuery>, insert: BoundQuery },
}

/// Whether `k` is a photo size of the largest area.
pub open spec fn largest_size(sizes: Seq<PhotoSize>, k: int) -> bool {
    0 <= k < sizes.len() && forall|j: int| 0 <= j < sizes.len() ==> area(#[trigger] sizes[j]) <= area(sizes[k])
}

/// The file stored for a message: the file of its media (for a photo, one of
/// its largest sizes), none for plain text.
pub open spec fn stored_file_ok(content: MessageContent, file: Option<Seq<char>>) -> bool {
    match content {
        MessageContent::Photo(sizes) => exists|k: int| largest_size(sizes@, k) && file == Some(sizes@[k].file_id@),
        MessageContent::Voice(f) => file == Some(f@),
        MessageContent::Video(f) => file == Some(f@),
        MessageContent::Document(f) => file == Some(f@),
        _ => file is None,
    }
}

pub open spec fn stored_kind(content: MessageContent) -> QuoteType {
    match content {
        MessageContent::Photo(_) => QuoteType::Photo,
        MessageContent::Voice(_) => QuoteType::Voice,
        MessageContent::Video(_) => QuoteType::Video,
        MessageContent::Document(_) => QuoteType::Document,
        _ => QuoteType::Text,
    }
}

/// The text stored: the caption of a media message, the text of a plain one.
pub open spec fn stored_text(m: QuotedMessage) -> Option<Seq<char>> {
    match m.content {
        MessageContent::Plain => m.text.deep_view(),
        _ => m.caption.deep_view(),
    }
}

pub open spec fn stored_spoiler(m: QuotedMessage) -> bool {
    match m.content {
        MessageContent::Plain => false,
        _ => m.has_media_spoiler,
    }
}

/// The name recorded for a user: their username, else `fallback`.
pub open spec fn recorded_name(username: Option<Seq<char>>, fallback: Seq<char>) -> Seq<char> {
    match username {
        Some(u) => u,
        None => fallback,
    }
}

/// The values of the insert that stores `m`, quoted by `quoter`.
pub open spec fn insert_params(m: QuotedMessage, author: u64, quoter: u64, file: Option<Seq<char>>) -> Seq<SqlParam> {
    seq![
        SqlParam::Int4(m.id),
        SqlParam::Numeric(author),
        SqlParam::Int8(m.chat_id),
        SqlParam::Numeric(quoter),
        SqlParam::Kind(stored_kind(m.content)),
        SqlParam::Date(m.date),
        SqlParam::Bool(stored_spoiler(m)),
        SqlParam::OptText(stored_text(m)),
        SqlParam::OptText(file),
    ]
}

/// What an insert stores of a message: a photo, voice note, video or
/// document is stored as that kind, with its caption as the text and its
/// spoiler flag; a plain message is stored as text, with its text and no
/// spoiler.
pub proof fn lemma_insert_stores_caption_of_media(
    m: QuotedMessage,
    author: u64,
    quoter: u64,
    file: Option<Seq<char>>,
)
    ensures
        insert_params(m, author, quoter, file).len() == 9,
        (m.content is Photo || m.content is Voice || m.content is Video || m.content is Document)
            ==> insert_params(m, author, quoter, file)[7] == SqlParam::OptText(
            m.caption.deep_view(),
        ) && insert_params(m, author, quoter, file)[6] == SqlParam::Bool(m.has_media_spoiler),
        m.content is Plain ==> insert_params(m, author, quoter, file)[7] == SqlParam::OptText(
            m.text.deep_view(),
        ) && insert_params(m, author, quoter, file)[6] == SqlParam::Bool(false)
            && insert_params(m, author, quoter, file)[4] == SqlParam::Kind(QuoteType::Text),
        m.content is Photo ==> insert_params(m, author, quoter, file)[4] == SqlParam::Kind(
            QuoteType::Photo,
        ),
        m.content is Voice ==> insert_params(m, author, quoter, file)[4] == SqlParam::Kind(
            QuoteType::Voice,
        ),
        m.content is Video ==> insert_params(m, author, quoter, file)[4] == SqlParam::Kind(
            QuoteType::Video,
        ),
        m.content is Document ==> insert_params(m, author, quoter, file)[4] == SqlParam::Kind(
            QuoteType::Document,
        ),
        insert_params(m, author, quoter, file)[8] == SqlParam::OptText(file),
{
}

/// Calls itertools' `sorted_unstable_by_key` with the first field as key.
/// Its documentation: the items come out in ascending order of the key; it
/// is a sort, so they are the same items; it is unstable, so which of two
/// items with the same key comes first is left open.
#[verifier::external_body]
fn sort_by_first(pairs: Vec<(u64, usize)>) -> (r: Vec<(u64, usize)>)
    ensures
        r@.to_multiset() == pairs@.to_multiset(),
        forall|i: int, j: int| 0 <= i <= j < r@.len() ==> r@[i].0 <= r@[j].0,
{
    itertools::Itertools::sorted_unstable_by_key(pairs.into_iter(), |p: &(u64, usize)| p.0).collect()
}

/// The index of a photo size of the largest area: the last of the sizes
/// sorted by area.
fn largest_photo(sizes: &Vec<PhotoSize>) -> (k: usize)
    requires
        sizes.len() > 0,
    ensures
        largest_size(sizes@, k as int),
{
    let mut pairs: Vec<(u64, usize)> = Vec::new();
    let mut i: usize = 0;
    while i < sizes.len()
        invariant
            i <= sizes.len(),
            pairs@.len() == i,
            forall|j: int| 0 <= j < i ==> (#[trigger] pairs@[j]).0 == area(sizes@[j]) && pairs@[j].1 == j,
        decreases sizes.len() - i,
    {
        let w = sizes[i].width as u64;
        let h = sizes[i].height as u64;
        assert(w * h <= u64::MAX) by (nonlinear_arith)
            requires
                w <= u32::MAX,
                h <= u32::MAX,
        ;
        let a = w * h;
        assert(a == area(sizes@[i as int]));
        pairs.push((a, i));
        i = i + 1;
    }
    let sorted = sort_by_first(pairs);
    proof {
        sorted@.to_multiset_ensures();
        pairs@.to_multiset_ensures();
        assert(pairs@.contains(pairs@[0]));
        assert(sorted@.len() == pairs@.len());
    }
    let last = sorted[sorted.len() - 1];
    proof {
        assert(sorted@.contains(last));
        assert(sorted@.to_multiset().count(last) > 0);
        assert(pairs@.to_multiset().count(last) > 0);
        assert(pairs@.contains(last));
        let m = choose|m: int| 0 <= m < pairs@.len() && pairs@[m] == last;
        assert(pairs@[m] == last);
        assert forall|j: int| 0 <= j < sizes.len() implies area(#[trigger] sizes@[j]) <= area(sizes@[last.1 as int]) by {
            assert(pairs@[j].0 == area(sizes@[j]) && pairs@[j].1 == j);
            assert(pairs@.contains(pairs@[j]));
            assert(pairs@.to_multiset().count(pairs@[j]) > 0);
            assert(sorted@.to_multiset().count(pairs@[j]) > 0);
            assert(sorted@.contains(pairs@[j]));
            let p = choose|p: int| 0 <= p < sorted@.len() && sorted@[p] == pairs@[j];
            assert(sorted@[p].0 <= sorted@[sorted@.len() - 1].0);
        }
    }
    last.1
}

/// Plans storing `quote`, quoted by `quoter`. Service messages and video
/// notes, games, polls and animations are skipped. Otherwise the author's
/// name (their username, else the quoter's full name) and the quoter's name
/// (their username, else their full name) are recorded, and the quote is
/// inserted with its kind, text or caption, spoiler flag and file.
pub fn plan_add_quote(quote: &QuotedMessage, quoter: &UserInfo) -> (plan: AddQuotePlan)
    requires
        quote.is_common && !(quote.content is Unsupported) ==> quote.author is Some,
        quote.is_common ==> (quote.content matches MessageContent::Photo(sizes) ==> sizes.len() > 0),
    ensures
        plan is Skip <==> (!quote.is_common || quote.content is Unsupported),
        plan matches AddQuotePlan::Store { names, insert } ==> {
            let author = quote.author->0;
            let quoter_name = full_name_of(quoter.first_name@, quoter.last_name.deep_view());
            &&& names@.len() == 2
            &&& names@[0].sql@ == set_username_sql()
            &&& names@[0].param_views() == seq![
                SqlParam::Numeric(author.id),
                SqlParam::Text(recorded_name(author.username.deep_view(), quoter_name)),
            ]
            &&& names@[1].sql@ == set_username_sql()
            &&& names@[1].param_views() == seq![
                SqlParam::Numeric(quoter.id),
                SqlParam::Text(recorded_name(quoter.username.deep_view(), quoter_name)),
            ]
            &&& insert.sql@ == add_quote_sql()
            &&& exists|file: Option<Seq<char>>| stored_file_ok(quote.content, file)
                && insert.param_views() == insert_params(*quote, author.id, quoter.id, file)
            &&& insert.param_views().len() == 9
            &&& insert.param_views()[7] == SqlParam::OptText(
                if quote.content is Plain {
                    quote.text.deep_view()
                } else {
                    quote.caption.deep_view()
                },
            )
            &&& insert.param_views()[6] == SqlParam::Bool(
                !(quote.content is Plain) && quote.has_media_spoiler,
            )
        },
{
    if !quote.is_common {
        return AddQuotePlan::Skip;
    }
    let (file_id, text, has_spoiler, kind): (Option<String>, Option<String>, bool, QuoteType) =
        match &quote.content {
        MessageContent::Photo(sizes) => {
            let k = largest_photo(sizes);
            (Some(sizes[k].file_id.clone()), quote.caption.clone(), quote.has_media_spoiler, QuoteType::Photo)
        },
        MessageContent::Voice(f) => (Some(f.clone()), quote.caption.clone(), quote.has_media_spoiler, QuoteType::Voice),
        MessageContent::Video(f) => (Some(f.clone()), quote.caption.clone(), quote.has_media_spoiler, QuoteType::Video),
        MessageContent::Document(f) => (Some(f.clone()), quote.caption.clone(), quote.has_media_spoiler, QuoteType::Document),
        MessageContent::Unsupported => {
            return AddQuotePlan::Skip;
        },
        MessageContent::Plain => (None, quote.text.clone(), false, QuoteType::Text),
    };
    let author = match &quote.author {
        Some(a) => a,
        None => {
            return AddQuotePlan::Skip;
        },
    };
    let quoter_full = quoter.full_name();
    let author_name = match &author.username {
        Some(u) => u.clone(),
        None => quoter_full.clone(),
    };
    let quoter_name = match &quoter.username {
        Some(u) => u.clone(),
        None => quoter_full,
    };
    let mut names: Vec<BoundQuery> = Vec::new();
    names.push(set_username_query(author.id, author_name));
    names.push(set_username_query(quoter.id, quoter_name));
    let ghost file_view = file_id.deep_view();
    let insert = add_quote().bind(
        quote.id,
        author.id,
        quote.chat_id,
        quoter.id,
        kind,
        quote.date.clone(),
        has_spoiler,
        text,
        file_id,
    );
    proof {
        assert(stored_file_ok(quote.content, file_view));
        assert(insert.param_views() =~= insert_params(*quote, author.id, quoter.id, file_view));
        assert(names@[0].param_views() =~= seq![
            SqlParam::Numeric(author.id),
            SqlParam::Text(recorded_name(author.username.deep_view(), full_name_of(quoter.first_name@, quoter.last_name.deep_view()))),
        ]);
        assert(names@[1].param_views() =~= seq![
            SqlParam::Numeric(quoter.id),
            SqlParam::Text(recorded_name(quoter.username.deep_view(), full_name_of(quoter.first_name@, quoter.last_name.deep_view()))),
        ]);
    }
    AddQuotePlan::Store { names, insert }
}


// ---------------------------------------------------------------------------
// Searching
// ---------------------------------------------------------------------------

/// The first mentioned user who is not a bot.
pub open spec fn first_human(mentioned: Seq<AuthorInfo>) -> Option<u64>
    decreases mentioned.len(),
{
    if mentioned.len() == 0 {
        None
    } else if !mentioned[0].is_bot {
        Some(mentioned[0].id)
    } else {
        first_human(mentioned.drop_first())
    }
}

/// The search terms: the words of the command after the command itself.
pub open spec fn search_terms(text: Seq<char>) -> Seq<Seq<char>> {
    let w = words(text);
    if w.len() == 0 {
        Seq::empty()
    } else {
        w.skip(1)
    }
}

/// Whether a term names a user (`@name`).
pub open spec fn is_mention(term: Seq<char>) -> bool {
    term.len() > 0 && term[0] == '@'
}

/// The separator of terms in a text-search query.
pub open spec fn query_separator() -> Seq<char> {
    " & "@
}

/// What a search command runs.
#[derive(Debug, PartialEq, Eq)]
pub enum SearchPlan {
    /// Reply that there is nothing to search for.
    NoTerms,
    /// Run this query and send the quote it finds.
    Run(BoundQuery),
}

pub open spec fn no_terms_text() -> Seq<char> {
    "Must provide text to search by"@
}

/// The reply to a search without terms.
pub fn no_terms_reply() -> (s: &'static str)
    ensures
        s@ == no_terms_text(),
{
    "Must provide text to search by"
}

fn find_human(mentioned: &Vec<AuthorInfo>) -> (r: Option<u64>)
    ensures
        r == first_human(mentioned@),
{
    let mut i: usize = 0;
    proof {
        assert(mentioned@.skip(0) =~= mentioned@);
    }
    while i < mentioned.len()
        invariant
            i <= mentioned.len(),
            first_human(mentioned@) == first_human(mentioned@.skip(i as int)),
        decreases mentioned.len() - i,
    {
        proof {
            assert(mentioned@.skip(i as int).drop_first() =~= mentioned@.skip(i + 1));
        }
        if !mentioned[i].is_bot {
            return Some(mentioned[i].id);
        }
        i = i + 1;
    }
    None
}

/// Plans a search command in `chat_id` with text `text`, where `mentioned`
/// are the users its mentions name. A single `@mention` of a user who is not
/// a bot picks one of their quotes; a mention followed by words searches
/// their quotes for all the words; otherwise all quotes of the chat are
/// searched for all the terms.
pub fn plan_search(text: &str, chat_id: i64, mentioned: &Vec<AuthorInfo>) -> (plan: SearchPlan)
    ensures
        plan is NoTerms <==> search_terms(text@).len() == 0,
        plan matches SearchPlan::Run(q) ==> {
            let terms = search_terms(text@);
            let user = first_human(mentioned@);
            if is_mention(terms[0]) && user is Some && terms.len() == 1 {
                &&& q.sql@ == quote_from_user_sql()
                &&& q.param_views() == seq![SqlParam::Int8(chat_id), SqlParam::Numeric(user->0)]
            } else if is_mention(terms[0]) && user is Some {
                &&& q.sql@ == search_quote_from_user_sql()
                &&& q.param_views() == seq![
                    SqlParam::Int8(chat_id),
                    SqlParam::Numeric(user->0),
                    SqlParam::Text(join(terms.skip(1), query_separator())),
                ]
            } else {
                &&& q.sql@ == search_quote_sql()
                &&& q.param_views() == seq![
                    SqlParam::Int8(chat_id),
                    SqlParam::Text(join(terms, query_separator())),
                ]
            }
        },
{
    let ws = split_words(text);
    if ws.len() <= 1 {
        proof {
            assert(search_terms(text@) =~= Seq::<Seq<char>>::empty());
        }
        return SearchPlan::NoTerms;
    }
    let ghost terms = search_terms(text@);
    proof {
        assert(terms[0] == ws@[1]@);
        assert(ws.deep_view().skip(1) =~= terms);
        assert(ws.deep_view().skip(2) =~= terms.skip(1));
    }
    proof {
        reveal_strlit(" & ");
    }
    let mention = starts_with_char(ws[1].as_str(), '@');
    let user = find_human(mentioned);
    match user {
        Some(u) => {
            if mention && ws.len() == 2 {
                let q = quote_from_user().bind(chat_id, u);
                proof {
                    assert(q.param_views() =~= seq![SqlParam::Int8(chat_id), SqlParam::Numeric(u)]);
                }
                return SearchPlan::Run(q);
            } else if mention {
                let query = join_from(&ws, 2, " & ");
                let q = search_quote_from_user().bind(chat_id, u, query);
                proof {
                    assert(q.param_views() =~= seq![
                        SqlParam::Int8(chat_id),
                        SqlParam::Numeric(u),
                        SqlParam::Text(join(terms.skip(1), query_separator())),
                    ]);
                }
                return SearchPlan::Run(q);
            }
        },
        None => {},
    }
    let query = join_from(&ws, 1, " & ");
    let q = search_quote().bind(chat_id, query);
    proof {
        assert(q.param_views() =~= seq![
            SqlParam::Int8(chat_id),
            SqlParam::Text(join(terms, query_separator())),
        ]);
    }
    SearchPlan::Run(q)
}

// ---------------------------------------------------------------------------
// Sending a quote
// ---------------------------------------------------------------------------

/// How a media quote is sent.
#[derive(Clone, Copy, Debug, PartialEq, Eq, Structural)]
pub enum MediaKind {
    Document,
    Photo,
    Video,
    Voice,
}

/// A quote ready to be sent: a text message, or a media message with its
/// caption.
#[derive(Debug, PartialEq, Eq)]
pub enum OutgoingQuote {
    Text(String),
    Media { kind: MediaKind, file_id: String, caption: String, spoiler: bool },
}

/// `"text" -name` and the date on the next line; `-name` and the date when
/// there is no text.
pub open spec fn quote_caption(text: Option<Seq<char>>, name: Seq<char>, date: Seq<char>) -> Seq<char> {
    match text {
        Some(t) => "\""@ + t + "\" -"@ + name + "\n"@ + date,
        None => "-"@ + name + "\n"@ + date,
    }
}

pub open spec fn media_kind_of(t: QuoteType) -> MediaKind {
    match t {
        QuoteType::Photo => MediaKind::Photo,
        QuoteType::Video => MediaKind::Video,
        QuoteType::Voice => MediaKind::Voice,
        _ => MediaKind::Document,
    }
}

/// The date of a quote as it is shown.
pub open spec fn quote_date_text(q: Quote) -> Seq<char> {
    date_text(q.msg_date.spec_year(), q.msg_date.spec_month(), q.msg_date.spec_day())
}

fn caption(text: &Option<String>, name: &str, date: &str) -> (s: String)
    ensures
        s@ == quote_caption(text.deep_view(), name@, date@),
{
    match text {
        Some(t) => {
            let s = String::from_str("\"").concat(t.as_str());
            let s = s.concat("\" -").concat(name);
            s.concat("\n").concat(date)
        },
        None => {
            let s = String::from_str("-").concat(name);
            s.concat("\n").concat(date)
        },
    }
}

/// What the message showing `quote`, credited to `name`, is: a text quote
/// shows its text; a media quote is sent as its file with the caption (if
/// any) as text, and photos and videos keep their spoiler flag; a media quote
/// without a file cannot be sent.
pub open spec fn shows_quote(quote: Quote, name: Seq<char>, r: Result<OutgoingQuote, QuoteError>) -> bool {
    &&& quote.msg_type == QuoteType::Text ==> (r matches Ok(OutgoingQuote::Text(t)) && t@
        == quote_caption(quote.text.deep_view(), name, quote_date_text(quote)))
    &&& quote.msg_type != QuoteType::Text ==> (r matches Err(QuoteError::TGMissingFileID)
        <==> quote.file_id is None)
    &&& quote.msg_type != QuoteType::Text && r is Ok ==> (r matches Ok(
        OutgoingQuote::Media { kind, file_id, caption, spoiler },
    ) && kind == media_kind_of(quote.msg_type) && Some(file_id@) == quote.file_id.deep_view()
        && caption@ == quote_caption(quote.text.deep_view(), name, quote_date_text(quote))
        && spoiler == (quote.has_spoiler && (quote.msg_type == QuoteType::Photo
        || quote.msg_type == QuoteType::Video)))
    &&& r is Err ==> r matches Err(QuoteError::TGMissingFileID)
}

/// The message that shows `quote`, credited to `name`. A text quote shows
/// its text; a media quote is sent as its file with the caption (if any) as
/// text, and photos and videos keep their spoiler flag. A media quote
/// without a file cannot be sent.
pub fn quote_message(quote: &Quote, name: &str) -> (r: Result<OutgoingQuote, QuoteError>)
    requires
        quote.msg_type == QuoteType::Text ==> quote.text is Some,
    ensures
        shows_quote(*quote, name@, r),
{
    let date = quote.msg_date.text();
    let text = caption(&quote.text, name, date.as_str());
    let kind = match quote.msg_type {
        QuoteType::Text => {
            return Ok(OutgoingQuote::Text(text));
        },
        QuoteType::Document => MediaKind::Document,
        QuoteType::Photo => MediaKind::Photo,
        QuoteType::Video => MediaKind::Video,
        QuoteType::Voice => MediaKind::Voice,
    };
    let spoiler = match kind {
        MediaKind::Photo | MediaKind::Video => quote.has_spoiler,
        _ => false,
    };
    match &quote.file_id {
        Some(f) => Ok(OutgoingQuote::Media { kind, file_id: f.clone(), caption: text, spoiler }),
        None => Err(QuoteError::TGMissingFileID),
    }
}

/// The user whose recorded name a shown quote is credited to: its author.
pub fn credited_user(quote: &Quote) -> (u: u64)
    ensures
        u == quote.user_from,
{
    quote.user_from
}

/// The message that shows `quote`, credited to its author: under the name
/// recorded for them (`recorded`), else under their id.
pub fn credited_quote_message(quote: &Quote, recorded: Option<String>) -> (r: Result<
    OutgoingQuote,
    QuoteError,
>)
    requires
        quote.msg_type == QuoteType::Text ==> quote.text is Some,
    ensures
        shows_quote(*quote, display_name_of(recorded.deep_view(), quote.user_from), r),
{
    let name = display_name(recorded, quote.user_from);
    quote_message(quote, name.as_str())
}

// ---------------------------------------------------------------------------
// Rankings
// ---------------------------------------------------------------------------

/// A line of a ranking: the number of quotes, their share of all quotes as
/// written for display, and the user's name.
#[derive(Clone, Debug, PartialEq, Eq)]
pub struct RankLine {
    pub count: i64,
    pub percentage: String,
    pub name: String,
}

impl RankLine {
    /// The line of a most-quoted user: their count, the share as written, and
    /// the name recorded for the quoted user, else their id.
    pub fn most_quoted(row: &MostQuoted, recorded: Option<String>, percentage: String) -> (l: RankLine)
        ensures
            l.count == row.count,
            l.percentage == percentage,
            l.name@ == display_name_of(recorded.deep_view(), row.user_from),
    {
        RankLine { count: row.count, percentage, name: display_name(recorded, row.user_from) }
    }

    /// The line of a user who added quotes: their count, the share as
    /// written, and the name recorded for the quoter, else their id.
    pub fn most_quoted_by(row: &MostQuotedBy, recorded: Option<String>, percentage: String) -> (l: RankLine)
        ensures
            l.count == row.count,
            l.percentage == percentage,
            l.name@ == display_name_of(recorded.deep_view(), row.quoted_by),
    {
        RankLine { count: row.count, percentage, name: display_name(recorded, row.quoted_by) }
    }
}

/// ` • count (percentage%): name`, one line per entry.
pub open spec fn rank_lines(lines: Seq<RankLine>) -> Seq<char>
    decreases lines.len(),
{
    if lines.len() == 0 {
        Seq::empty()
    } else {
        let l = lines.last();
        rank_lines(lines.drop_last()) + " • "@ + signed_decimal_text(l.count as int) + " ("@
            + l.percentage@ + "%): "@ + l.name@ + "\n"@
    }
}

/// The lines of two lists of rows, one after the other, are the lines of the
/// two lists joined: every row gives its own line, in order, and no row is
/// dropped or repeated.
pub proof fn lemma_rank_lines_concat(a: Seq<RankLine>, b: Seq<RankLine>)
    ensures
        rank_lines(a + b) == rank_lines(a) + rank_lines(b),
    decreases b.len(),
{
    if b.len() == 0 {
        assert(a + b =~= a);
        assert(rank_lines(b) =~= Seq::<char>::empty());
        assert(rank_lines(a) + rank_lines(b) =~= rank_lines(a));
    } else {
        let ab = a + b;
        assert(ab.drop_last() =~= a + b.drop_last());
        assert(ab.last() == b.last());
        lemma_rank_lines_concat(a, b.drop_last());
        let l = b.last();
        let line = " • "@ + signed_decimal_text(l.count as int) + " ("@ + l.percentage@ + "%): "@
            + l.name@ + "\n"@;
        assert(rank_lines(ab) =~= rank_lines(a + b.drop_last()) + " • "@ + signed_decimal_text(
            l.count as int,
        ) + " ("@ + l.percentage@ + "%): "@ + l.name@ + "\n"@);
        assert(rank_lines(ab) =~= rank_lines(a) + rank_lines(b.drop_last()) + line);
        assert(rank_lines(b) =~= rank_lines(b.drop_last()) + line);
        assert(rank_lines(ab) =~= rank_lines(a) + rank_lines(b));
    }
}

/// A single row gives the line ` • count (percentage%): name`.
pub proof fn lemma_rank_lines_single(l: RankLine)
    ensures
        rank_lines(seq![l]) == " • "@ + signed_decimal_text(l.count as int) + " ("@
            + l.percentage@ + "%): "@ + l.name@ + "\n"@,
{
    let s = seq![l];
    assert(s.drop_last() =~= Seq::<RankLine>::empty());
    assert(s.last() == l);
    assert(rank_lines(s.drop_last()) =~= Seq::<char>::empty());
    let line = " • "@ + signed_decimal_text(l.count as int) + " ("@ + l.percentage@ + "%): "@
        + l.name@ + "\n"@;
    assert(Seq::<char>::empty() + line =~= line);
    assert(rank_lines(s) =~= " • "@ + signed_decimal_text(l.count as int) + " ("@
        + l.percentage@ + "%): "@ + l.name@ + "\n"@);
}

/// The rankings message: the total, then the most quoted users, then the
/// users who added the most quotes.
pub open spec fn rankings_text_spec(total: i64, most_quoted: Seq<RankLine>, top_quoters: Seq<RankLine>) -> Seq<char> {
    "<b>Overall:</b>\n • "@ + signed_decimal_text(total as int)
        + " Total Quotes\n\n<b>Users With the Most Quotes:</b>\n"@ + rank_lines(most_quoted)
        + "\n<b>Users Who Add the Most Quotes:</b>\n"@ + rank_lines(top_quoters)
}

fn append_rank_lines(text: &mut String, lines: &Vec<RankLine>)
    ensures
        final(text)@ == old(text)@ + rank_lines(lines@),
{
    let ghost start = text@;
    let mut i: usize = 0;
    while i < lines.len()
        invariant
            i <= lines.len(),
            text@ == start + rank_lines(lines@.take(i as int)),
        decreases lines.len() - i,
    {
        proof {
            assert(lines@.take(i + 1).drop_last() =~= lines@.take(i as int));
        }
        let count = i64_text(lines[i].count);
        text.append(" • ");
        text.append(count.as_str());
        text.append(" (");
        text.append(lines[i].percentage.as_str());
        text.append("%): ");
        text.append(lines[i].name.as_str());
        text.append("\n");
        proof {
            assert(text@ =~= start + rank_lines(lines@.take(i + 1)));
        }
        i = i + 1;
    }
    proof {
        assert(lines@.take(lines.len() as int) =~= lines@);
    }
}

/// Writes the rankings message.
pub fn rankings_text(total: i64, most_quoted: &Vec<RankLine>, top_quoters: &Vec<RankLine>) -> (s: String)
    ensures
        s@ == rankings_text_spec(total, most_quoted@, top_quoters@),
{
    let mut text = String::from_str("<b>Overall:</b>\n • ");
    let t = i64_text(total);
    text.append(t.as_str());
    text.append(" Total Quotes\n\n<b>Users With the Most Quotes:</b>\n");
    append_rank_lines(&mut text, most_quoted);
    text.append("\n<b>Users Who Add the Most Quotes:</b>\n");
    append_rank_lines(&mut text, top_quoters);
    text
}

pub open spec fn no_quotes_text() -> Seq<char> {
    "0 Quoted Messages in this Chat"@
}

pub open spec fn rankings_failed_text() -> Seq<char> {
    "Failed to get quote rankings"@
}

/// The reply when the chat has `total` quotes, if the rankings are not sent:
/// a chat without quotes gets no rankings.
pub fn rankings_shortcut(total: i64) -> (r: Option<&'static str>)
    ensures
        r is Some <==> total == 0,
        r matches Some(s) ==> s@ == no_quotes_text(),
{
    if total == 0 {
        Some("0 Quoted Messages in this Chat")
    } else {
        None
    }
}

/// The reply when reading the rankings failed.
pub fn rankings_failed_reply() -> (s: &'static str)
    ensures
        s@ == rankings_failed_text(),
{
    "Failed to get quote rankings"
}

} // verus!
