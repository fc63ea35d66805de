use tigerbot::callbacks::{
    after_change, after_lookup, callback_data, callback_tag, read_callback, split_callback_data,
    CallbackAction, CallbackRequest, CallbackTag, Notice,
};
use tigerbot::commands::{
    cache_failure_reply, help_text, opt_out_prompt, CommandInfo, GeneralCommand,
};

fn pair(a: &str, b: &str) -> Option<(String, String)> {
    Some((a.to_string(), b.to_string()))
}

#[test]
fn button_data_is_tag_separator_key() {
    assert_eq!(callback_data(CallbackTag::OptInYes, "abc"), "opt_in_yes||abc");
    assert_eq!(callback_data(CallbackTag::OptOutYes, "abc"), "opt_out_yes||abc");
    assert_eq!(callback_data(CallbackTag::OptInNo, "abc"), "opt_in_no||abc");
    assert_eq!(callback_data(CallbackTag::OptOutNo, "abc"), "opt_out_no||abc");
}

#[test]
fn data_is_cut_at_the_first_separator() {
    assert_eq!(split_callback_data("a||b"), pair("a", "b"));
    assert_eq!(split_callback_data("a||b||c"), pair("a", "b||c"));
    assert_eq!(split_callback_data("||x"), pair("", "x"));
    assert_eq!(split_callback_data("a|||x"), pair("a", "|x"));
    assert_eq!(split_callback_data("a||"), pair("a", ""));
    assert_eq!(split_callback_data("a|b"), None);
    assert_eq!(split_callback_data(""), None);
    assert_eq!(split_callback_data("|"), None);
    for s in ["a||b", "a||b||c", "||x", "a|||x", "a|b", "", "x||y"] {
        let expected = s.split_once("||").map(|(a, b)| (a.to_string(), b.to_string()));
        assert_eq!(split_callback_data(s), expected);
    }
}

#[test]
fn tags_are_recognised() {
    assert_eq!(callback_tag("opt_in_yes"), CallbackTag::OptInYes);
    assert_eq!(callback_tag("opt_out_yes"), CallbackTag::OptOutYes);
    assert_eq!(callback_tag("opt_in_no"), CallbackTag::OptInNo);
    assert_eq!(callback_tag("opt_out_no"), CallbackTag::OptOutNo);
    assert_eq!(callback_tag("opt_in"), CallbackTag::Unknown);
    assert_eq!(callback_tag(""), CallbackTag::Unknown);
}

#[test]
fn presses_that_cannot_be_read_are_left_alone() {
    assert_eq!(read_callback(None, true, 1), None);
    assert_eq!(read_callback(Some("opt_in_yes"), true, 1), None);
    assert_eq!(read_callback(Some("opt_in_yes||k"), false, 1), None);
    assert_eq!(
        read_callback(Some("opt_in_yes||k"), true, 1),
        Some(CallbackRequest { tag: CallbackTag::OptInYes, key: "k".to_string(), presser: 1 })
    );
    assert_eq!(
        read_callback(Some("bogus||k"), true, 1),
        Some(CallbackRequest { tag: CallbackTag::Unknown, key: "k".to_string(), presser: 1 })
    );
}

fn req(tag: CallbackTag, presser: u64) -> CallbackRequest {
    CallbackRequest { tag, key: "k".to_string(), presser }
}

#[test]
fn only_the_asker_is_served() {
    assert_eq!(
        after_lookup(&req(CallbackTag::OptOutYes, 7), None),
        CallbackAction::Notify(Notice::CacheUnavailable)
    );
    assert_eq!(after_lookup(&req(CallbackTag::OptOutYes, 7), Some(8)), CallbackAction::Ignore);
    assert_eq!(after_lookup(&req(CallbackTag::OptOutYes, 7), Some(7)), CallbackAction::OptOut(7));
    assert_eq!(after_lookup(&req(CallbackTag::OptInYes, 7), Some(7)), CallbackAction::OptIn(7));
    assert_eq!(
        after_lookup(&req(CallbackTag::OptInNo, 7), Some(7)),
        CallbackAction::Close(Notice::OptInCanceled)
    );
    assert_eq!(
        after_lookup(&req(CallbackTag::OptOutNo, 7), Some(7)),
        CallbackAction::Close(Notice::OptOutCanceled)
    );
    assert_eq!(after_lookup(&req(CallbackTag::Unknown, 7), Some(7)), CallbackAction::Ignore);
}

#[test]
fn outcome_of_a_change() {
    assert_eq!(after_change(true, true), CallbackAction::Close(Notice::OptedIn));
    assert_eq!(after_change(false, true), CallbackAction::Close(Notice::OptedOut));
    assert_eq!(after_change(true, false), CallbackAction::Ignore);
    assert_eq!(after_change(false, false), CallbackAction::Ignore);
}

#[test]
fn notice_texts() {
    assert_eq!(
        Notice::CacheUnavailable.text(),
        "Failed to get cached user data, sorry, please try running the command again later."
    );
    assert_eq!(Notice::OptedIn.text(), "You have successfully opted in.");
    assert_eq!(Notice::OptedOut.text(), "You have successfully opted out.");
    assert_eq!(Notice::OptInCanceled.text(), "Opt in canceled");
    assert_eq!(Notice::OptOutCanceled.text(), "Opt out canceled");
}

#[test]
fn prompt_for_a_user_who_has_not_opted_out() {
    let p = opt_out_prompt(false, "V1StGXR8_Z5jdHi6B-myT");
    assert_eq!(
        p.text,
        "This will prevent you from being quoted and quoting other's messages.\nIt will also delete all existing quotes from you, and quotes you added.\nAre you sure?"
    );
    assert_eq!(p.yes.label, "Yes, Delete My Data");
    assert_eq!(p.yes.data, "opt_out_yes||V1StGXR8_Z5jdHi6B-myT");
    assert_eq!(p.no.label, "No, Keep My Quotes");
    assert_eq!(p.no.data, "opt_out_no||V1StGXR8_Z5jdHi6B-myT");
}

#[test]
fn prompt_for_a_user_who_has_opted_out() {
    let p = opt_out_prompt(true, "key");
    assert_eq!(
        p.text,
        "You are currently opted out of quote functionality.\nWould you like to opt in? This bot only stores the quotes and your username.\nNo other data is stored."
    );
    assert_eq!(p.yes.label, "Yes, Let Me use Quotes");
    assert_eq!(p.yes.data, "opt_in_yes||key");
    assert_eq!(p.no.label, "No, No Quotes for Me");
    assert_eq!(p.no.data, "opt_in_no||key");
}

#[test]
fn pressing_a_prompt_button_does_what_it_says() {
    for opted_out in [false, true] {
        let p = opt_out_prompt(opted_out, "key");
        let yes = read_callback(Some(&p.yes.data), true, 7).unwrap();
        assert_eq!(yes.key, "key");
        let expected = if opted_out { CallbackAction::OptIn(7) } else { CallbackAction::OptOut(7) };
        assert_eq!(after_lookup(&yes, Some(7)), expected);
        let no = read_callback(Some(&p.no.data), true, 7).unwrap();
        let expected = if opted_out {
            CallbackAction::Close(Notice::OptInCanceled)
        } else {
            CallbackAction::Close(Notice::OptOutCanceled)
        };
        assert_eq!(after_lookup(&no, Some(7)), expected);
        // Someone else pressing it changes nothing.
        assert_eq!(after_lookup(&yes, Some(8)), CallbackAction::Ignore);
    }
}

#[test]
fn cache_failure_text() {
    assert_eq!(cache_failure_reply(), "Sorry, I ran into an error, please try again later.");
}

fn info(c: &str, d: &str) -> CommandInfo {
    CommandInfo { command: c.to_string(), description: d.to_string() }
}

#[test]
fn help_lists_both_groups_of_commands() {
    let general = vec![
        info("/help", "Prints command descriptions"),
        info(
            "/toggleoptout",
            "Opt out or in to quote functionality, removes existing quotes made by or from this user",
        ),
    ];
    let quotes = vec![
        info("/quote", "Quote a message and add it to the database"),
        info("/randomquote", "Get a random quote from the database"),
    ];
    assert_eq!(
        help_text(&general, &quotes),
        "Commands for TigerTM Bot\n\nGeneral:\n/help - Prints command descriptions\n/toggleoptout - Opt out or in to quote functionality, removes existing quotes made by or from this user\n\nQuotes:\n/quote - Quote a message and add it to the database\n/randomquote - Get a random quote from the database\n"
    );
    assert_eq!(help_text(&vec![], &vec![]), "Commands for TigerTM Bot\n\nGeneral:\n\nQuotes:\n");
    let _ = GeneralCommand::Help;
}
