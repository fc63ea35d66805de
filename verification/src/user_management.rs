//! The statements on the bot's user tables: who has opted out of quotes,
//! and the names recorded for users.
use vstd::prelude::*;

use crate::queries::{purge_quotes_for_privacy, purge_quotes_for_privacy_sql, BoundQuery, SqlParam, SqlValue, Stmt};

verus! {

/// Handle on the statement built by [`is_user_opt_out`].
pub struct IsUserOptOutStmt(Stmt);

impl IsUserOptOutStmt {
    #[verifier::type_invariant]
    spec fn runs_its_statement(self) -> bool {
        self.0@ == is_user_opt_out_sql()
    }

    /// The SQL text this handle runs.
    pub closed spec fn sql(self) -> Seq<char> {
        self.0@
    }

    /// Binds the user.
    pub fn bind(&self, user_id: u64) -> (q: BoundQuery)
        ensures
            q.sql@ == is_user_opt_out_sql(),
            q.params@ == seq![SqlValue::Numeric(user_id)],
    {
        let mut params: Vec<SqlValue> = Vec::new();
        params.push(SqlValue::Numeric(user_id));
        proof {
            assert(params@ =~= seq![SqlValue::Numeric(user_id)]);
            use_type_invariant(self);
        }
        BoundQuery { sql: self.0.query(), params }
    }
}

/// SQL text of the statement built by [`is_user_opt_out`].
pub open spec fn is_user_opt_out_sql() -> Seq<char> {
    "SELECT 1 FROM opt_out_users WHERE user_id = ($1)"@
}

/// The statement that tells whether a user has opted out (a row when they have).
pub fn is_user_opt_out() -> (s: IsUserOptOutStmt)
    ensures
        s.sql() == is_user_opt_out_sql(),
{
    IsUserOptOutStmt(Stmt::new("SELECT 1 FROM opt_out_users WHERE user_id = ($1)"))
}

/// Handle on the statement built by [`add_opt_out_user`].
pub struct AddOptOutUserStmt(Stmt);

impl AddOptOutUserStmt {
    #[verifier::type_invariant]
    spec fn runs_its_statement(self) -> bool {
        self.0@ == add_opt_out_user_sql()
    }

    /// The SQL text this handle runs.
    pub closed spec fn sql(self) -> Seq<char> {
        self.0@
    }

    /// Binds the user.
    pub fn bind(&self, user_id: u64) -> (q: BoundQuery)
        ensures
            q.sql@ == add_opt_out_user_sql(),
            q.params@ == seq![SqlValue::Numeric(user_id)],
    {
        let mut params: Vec<SqlValue> = Vec::new();
        params.push(SqlValue::Numeric(user_id));
        proof {
            assert(params@ =~= seq![SqlValue::Numeric(user_id)]);
            use_type_invariant(self);
        }
        BoundQuery { sql: self.0.query(), params }
    }
}

/// SQL text of the statement built by [`add_opt_out_user`].
pub open spec fn add_opt_out_user_sql() -> Seq<char> {
    "INSERT INTO opt_out_users (user_id) VALUES ($1)"@
}

/// The statement that records that a user has opted out.
pub fn add_opt_out_user() -> (s: AddOptOutUserStmt)
    ensures
        s.sql() == add_opt_out_user_sql(),
{
    AddOptOutUserStmt(Stmt::new("INSERT INTO opt_out_users (user_id) VALUES ($1)"))
}

/// Handle on the statement built by [`remove_opt_out_user`].
pub struct RemoveOptOutUserStmt(Stmt);

impl RemoveOptOutUserStmt {
    #[verifier::type_invariant]
    spec fn runs_its_statement(self) -> bool {
        self.0@ == remove_opt_out_user_sql()
    }

    /// The SQL text this handle runs.
    pub closed spec fn sql(self) -> Seq<char> {
        self.0@
    }

    /// Binds the user.
    pub fn bind(&self, user_id: u64) -> (q: BoundQuery)
        ensures
            q.sql@ == remove_opt_out_user_sql(),
            q.params@ == seq![SqlValue::Numeric(user_id)],
    {
        let mut params: Vec<SqlValue> = Vec::new();
        params.push(SqlValue::Numeric(user_id));
        proof {
            assert(params@ =~= seq![SqlValue::Numeric(user_id)]);
            use_type_invariant(self);
        }
        BoundQuery { sql: self.0.query(), params }
    }
}

/// SQL text of the statement built by [`remove_opt_out_user`].
pub open spec fn remove_opt_out_user_sql() -> Seq<char> {
    "DELETE FROM opt_out_users WHERE user_id = ($1)"@
}

/// The statement that records that a user has opted back in.
pub fn remove_opt_out_user() -> (s: RemoveOptOutUserStmt)
    ensures
        s.sql() == remove_opt_out_user_sql(),
{
    RemoveOptOutUserStmt(Stmt::new("DELETE FROM opt_out_users WHERE user_id = ($1)"))
}

/// Handle on the statement built by [`get_name`].
pub struct GetNameStmt(Stmt);

impl GetNameStmt {
    #[verifier::type_invariant]
    spec fn runs_its_statement(self) -> bool {
        self.0@ == get_name_sql()
    }

    /// The SQL text this handle runs.
    pub closed spec fn sql(self) -> Seq<char> {
        self.0@
    }

    /// Binds the user.
    pub fn bind(&self, user_id: u64) -> (q: BoundQuery)
        ensures
            q.sql@ == get_name_sql(),
            q.params@ == seq![SqlValue::Numeric(user_id)],
    {
        let mut params: Vec<SqlValue> = Vec::new();
        params.push(SqlValue::Numeric(user_id));
        proof {
            assert(params@ =~= seq![SqlValue::Numeric(user_id)]);
            use_type_invariant(self);
        }
        BoundQuery { sql: self.0.query(), params }
    }
}

/// SQL text of the statement built by [`get_name`].
pub open spec fn get_name_sql() -> Seq<char> {
    "SELECT username FROM usernames WHERE user_id = ($1)"@
}

/// The statement that reads the name recorded for a user.
pub fn get_name() -> (s: GetNameStmt)
    ensures
        s.sql() == get_name_sql(),
{
    GetNameStmt(Stmt::new("SELECT username FROM usernames WHERE user_id = ($1)"))
}

/// Handle on the statement built by [`remove_name`].
pub struct RemoveNameStmt(Stmt);

impl RemoveNameStmt {
    #[verifier::type_invariant]
    spec fn runs_its_statement(self) -> bool {
        self.0@ == remove_name_sql()
    }

    /// The SQL text this handle runs.
    pub closed spec fn sql(self) -> Seq<char> {
        self.0@
    }

    /// Binds the user.
    pub fn bind(&self, user_id: u64) -> (q: BoundQuery)
        ensures
            q.sql@ == remove_name_sql(),
            q.params@ == seq![SqlValue::Numeric(user_id)],
    {
        let mut params: Vec<SqlValue> = Vec::new();
        params.push(SqlValue::Numeric(user_id));
        proof {
            assert(params@ =~= seq![SqlValue::Numeric(user_id)]);
            use_type_invariant(self);
        }
        BoundQuery { sql: self.0.query(), params }
    }
}

/// SQL text of the statement built by [`remove_name`].
pub open spec fn remove_name_sql() -> Seq<char> {
    "DELETE FROM usernames WHERE user_id = ($1)"@
}

/// The statement that forgets the name recorded for a user.
pub fn remove_name() -> (s: RemoveNameStmt)
    ensures
        s.sql() == remove_name_sql(),
{
    RemoveNameStmt(Stmt::new("DELETE FROM usernames WHERE user_id = ($1)"))
}

/// The statements that opt a user out, run together: record the opt-out,
/// delete every quote made by or of the user, and forget their name.
pub fn opt_out_statements(user_id: u64) -> (qs: Vec<BoundQuery>)
    ensures
        qs@.len() == 3,
        qs@[0].sql@ == add_opt_out_user_sql(),
        qs@[1].sql@ == purge_quotes_for_privacy_sql(),
        qs@[2].sql@ == remove_name_sql(),
        forall|i: int| 0 <= i < 3 ==> (#[trigger] qs@[i]).param_views() == seq![SqlParam::Numeric(user_id)],
{
    let mut qs: Vec<BoundQuery> = Vec::new();
    qs.push(add_opt_out_user().bind(user_id));
    qs.push(purge_quotes_for_privacy().bind(user_id));
    qs.push(remove_name().bind(user_id));
    proof {
        assert forall|i: int| 0 <= i < 3 implies (#[trigger] qs@[i]).param_views() == seq![SqlParam::Numeric(user_id)] by {
            assert(qs@[i].param_views() =~= seq![SqlParam::Numeric(user_id)]);
        }
    }
    qs
}

} // verus!
