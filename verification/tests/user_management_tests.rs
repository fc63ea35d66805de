use tigerbot::queries::{purge_quotes_for_privacy, SqlValue};
use tigerbot::user_management::{
    add_opt_out_user, get_name, is_user_opt_out, opt_out_statements, remove_name,
    remove_opt_out_user,
};

#[test]
fn user_statements_bind_the_user() {
    assert_eq!(is_user_opt_out().bind(5).sql, "SELECT 1 FROM opt_out_users WHERE user_id = ($1)");
    assert_eq!(add_opt_out_user().bind(5).sql, "INSERT INTO opt_out_users (user_id) VALUES ($1)");
    assert_eq!(remove_opt_out_user().bind(5).sql, "DELETE FROM opt_out_users WHERE user_id = ($1)");
    assert_eq!(get_name().bind(5).sql, "SELECT username FROM usernames WHERE user_id = ($1)");
    assert_eq!(remove_name().bind(5).sql, "DELETE FROM usernames WHERE user_id = ($1)");
    assert_eq!(get_name().bind(5).params, vec![SqlValue::Numeric(5)]);
}

#[test]
fn opting_out_records_it_deletes_quotes_and_forgets_the_name() {
    let qs = opt_out_statements(5);
    assert_eq!(qs.len(), 3);
    assert_eq!(qs[0], add_opt_out_user().bind(5));
    assert_eq!(qs[1], purge_quotes_for_privacy().bind(5));
    assert_eq!(qs[2], remove_name().bind(5));
}
