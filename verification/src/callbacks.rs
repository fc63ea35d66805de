//! The inline buttons of the opt-out prompt and what a press on one of them
//! leads to. A button carries `tag||key`, where the key names the cached id
//! of the user who asked for the prompt.
use vstd::prelude::*;

use crate::text::text_eq;

verus! {

/// What a button asks for.
#[derive(Clone, Copy, Debug, PartialEq, Eq, Structural)]
pub enum CallbackTag {
    OptInYes,
    OptOutYes,
    OptInNo,
    OptOutNo,
    Unknown,
}

/// The text of each known tag.
pub open spec fn tag_text(tag: CallbackTag) -> Seq<char> {
    match tag {
        CallbackTag::OptInYes => "opt_in_yes"@,
        CallbackTag::OptOutYes => "opt_out_yes"@,
        CallbackTag::OptInNo => "opt_in_no"@,
        CallbackTag::OptOutNo => "opt_out_no"@,
        CallbackTag::Unknown => Seq::empty(),
    }
}

/// The tag a text stands for.
pub open spec fn tag_of(t: Seq<char>) -> CallbackTag {
    if t == "opt_in_yes"@ {
        CallbackTag::OptInYes
    } else if t == "opt_out_yes"@ {
        CallbackTag::OptOutYes
    } else if t == "opt_in_no"@ {
        CallbackTag::OptInNo
    } else if t == "opt_out_no"@ {
        CallbackTag::OptOutNo
    } else {
        CallbackTag::Unknown
    }
}

/// The separator between tag and key.
pub open spec fn separator() -> Seq<char> {
    "||"@
}

/// Whether `s` holds the separator `||` at position `i`.
pub open spec fn separator_at(s: Seq<char>, i: int) -> bool {
    0 <= i && i + 1 < s.len() && s[i] == '|' && s[i + 1] == '|'
}

/// The first position at or after `from` where `s` holds the separator.
pub open spec fn first_separator_from(s: Seq<char>, from: int) -> Option<int>
    decreases s.len() - from,
{
    if from < 0 || from + 1 >= s.len() {
        None
    } else if separator_at(s, from) {
        Some(from)
    } else {
        first_separator_from(s, from + 1)
    }
}

/// `s` cut at its first separator, as `str::split_once("||")`.
pub open spec fn split_callback_spec(s: Seq<char>) -> Option<(Seq<char>, Seq<char>)> {
    match first_separator_from(s, 0) {
        Some(i) => Some((s.take(i), s.skip(i + 2))),
        None => None,
    }
}

/// The data a button carries.
pub open spec fn callback_data_spec(tag: CallbackTag, key: Seq<char>) -> Seq<char> {
    tag_text(tag) + separator() + key
}

/// Writes the data of a button: its tag, `||` and the key.
pub fn callback_data(tag: CallbackTag, key: &str) -> (s: String)
    requires
        tag != CallbackTag::Unknown,
    ensures
        s@ == callback_data_spec(tag, key@),
{
    let t = match tag {
        CallbackTag::OptInYes => "opt_in_yes",
        CallbackTag::OptOutYes => "opt_out_yes",
        CallbackTag::OptInNo => "opt_in_no",
        CallbackTag::OptOutNo => "opt_out_no",
        CallbackTag::Unknown => "",
    };
    let s = String::from_str(t).concat("||");
    s.concat(key)
}

/// Reads the tag of a button.
pub fn callback_tag(t: &str) -> (tag: CallbackTag)
    ensures
        tag == tag_of(t@),
{
    if text_eq(t, "opt_in_yes") {
        CallbackTag::OptInYes
    } else if text_eq(t, "opt_out_yes") {
        CallbackTag::OptOutYes
    } else if text_eq(t, "opt_in_no") {
        CallbackTag::OptInNo
    } else if text_eq(t, "opt_out_no") {
        CallbackTag::OptOutNo
    } else {
        CallbackTag::Unknown
    }
}

/// Cuts button data at its first `||` into tag text and key.
pub fn split_callback_data(s: &str) -> (r: Option<(String, String)>)
    ensures
        r is None <==> split_callback_spec(s@) is None,
        r matches Some((t, k)) ==> split_callback_spec(s@) == Some((t@, k@)),
{
    let n = s.unicode_len();
    let mut i: usize = 0;
    while n > 0 && i < n - 1
        invariant
            n == s@.len(),
            i <= n,
            first_separator_from(s@, 0) == first_separator_from(s@, i as int),
        decreases n - i,
    {
        if s.get_char(i) == '|' && s.get_char(i + 1) == '|' {
            let tag = String::from_str(s.substring_char(0, i));
            let key = String::from_str(s.substring_char(i + 2, n));
            proof {
                assert(s@.subrange(0, i as int) =~= s@.take(i as int));
                assert(s@.subrange(i + 2, n as int) =~= s@.skip(i + 2));
            }
            return Some((tag, key));
        }
        i = i + 1;
    }
    None
}

/// A press on a button that can be acted on: what it asks, the key of the
/// cached asker, and who pressed it.
#[derive(Debug, PartialEq, Eq)]
pub struct CallbackRequest {
    pub tag: CallbackTag,
    pub key: String,
    pub presser: u64,
}

/// Reads a button press. Presses without data, with data that has no `||`,
/// or whose prompt message is gone are left alone (`None`).
pub fn read_callback(data: Option<&str>, has_message: bool, presser: u64) -> (r: Option<
    CallbackRequest,
>)
    ensures
        r is Some <==> (data matches Some(d) && split_callback_spec(d@) is Some && has_message),
        r matches Some(req) ==> data matches Some(d) && split_callback_spec(d@) matches Some(
            (t, k),
        ) && req.tag == tag_of(t) && req.key@ == k && req.presser == presser,
{
    match data {
        None => None,
        Some(d) => match split_callback_data(d) {
            None => None,
            Some((t, k)) => {
                if !has_message {
                    return None;
                }
                let tag = callback_tag(t.as_str());
                Some(CallbackRequest { tag, key: k, presser })
            },
        },
    }
}

/// The texts the bot answers a button press with.
#[derive(Clone, Copy, Debug, PartialEq, Eq, Structural)]
pub enum Notice {
    CacheUnavailable,
    OptedIn,
    OptedOut,
    OptInCanceled,
    OptOutCanceled,
}

pub open spec fn notice_text(n: Notice) -> Seq<char> {
    match n {
        Notice::CacheUnavailable => "Failed to get cached user data, sorry, please try running the command again later."@,
        Notice::OptedIn => "You have successfully opted in."@,
        Notice::OptedOut => "You have successfully opted out."@,
        Notice::OptInCanceled => "Opt in canceled"@,
        Notice::OptOutCanceled => "Opt out canceled"@,
    }
}

impl Notice {
    pub fn text(&self) -> (s: &'static str)
        ensures
            s@ == notice_text(*self),
    {
        match self {
            Notice::CacheUnavailable => "Failed to get cached user data, sorry, please try running the command again later.",
            Notice::OptedIn => "You have successfully opted in.",
            Notice::OptedOut => "You have successfully opted out.",
            Notice::OptInCanceled => "Opt in canceled",
            Notice::OptOutCanceled => "Opt out canceled",
        }
    }
}

/// What the bot does next about a button press.
#[derive(Clone, Copy, Debug, PartialEq, Eq, Structural)]
pub enum CallbackAction {
    /// Nothing more.
    Ignore,
    /// Send a new message with the notice to the chat.
    Notify(Notice),
    /// Opt the user back in, then report how it went.
    OptIn(u64),
    /// Opt the user out and delete their data, then report how it went.
    OptOut(u64),
    /// Remove the buttons and replace the prompt's text with the notice.
    Close(Notice),
}

/// The decision once the cached asker has been looked up (`None` when the
/// cache failed): only the user who asked for the prompt is served.
pub open spec fn after_lookup_spec(tag: CallbackTag, presser: u64, cached: Option<u64>) -> CallbackAction {
    match cached {
        None => CallbackAction::Notify(Notice::CacheUnavailable),
        Some(asker) => if asker != presser {
            CallbackAction::Ignore
        } else {
            match tag {
                CallbackTag::OptInYes => CallbackAction::OptIn(presser),
                CallbackTag::OptOutYes => CallbackAction::OptOut(presser),
                CallbackTag::OptInNo => CallbackAction::Close(Notice::OptInCanceled),
                CallbackTag::OptOutNo => CallbackAction::Close(Notice::OptOutCanceled),
                CallbackTag::Unknown => CallbackAction::Ignore,
            }
        },
    }
}

/// Decides what to do with a press once the cached asker is known.
pub fn after_lookup(req: &CallbackRequest, cached: Option<u64>) -> (a: CallbackAction)
    ensures
        a == after_lookup_spec(req.tag, req.presser, cached),
{
    match cached {
        None => CallbackAction::Notify(Notice::CacheUnavailable),
        Some(asker) => {
            if asker != req.presser {
                CallbackAction::Ignore
            } else {
                match req.tag {
                    CallbackTag::OptInYes => CallbackAction::OptIn(req.presser),
                    CallbackTag::OptOutYes => CallbackAction::OptOut(req.presser),
                    CallbackTag::OptInNo => CallbackAction::Close(Notice::OptInCanceled),
                    CallbackTag::OptOutNo => CallbackAction::Close(Notice::OptOutCanceled),
                    CallbackTag::Unknown => CallbackAction::Ignore,
                }
            }
        },
    }
}

/// The decision once an opt in (`opted_in`) or opt out has been applied:
/// report success, or say nothing when it failed.
pub open spec fn after_change_spec(opted_in: bool, succeeded: bool) -> CallbackAction {
    if !succeeded {
        CallbackAction::Ignore
    } else if opted_in {
        CallbackAction::Close(Notice::OptedIn)
    } else {
        CallbackAction::Close(Notice::OptedOut)
    }
}

pub fn after_change(opted_in: bool, succeeded: bool) -> (a: CallbackAction)
    ensures
        a == after_change_spec(opted_in, succeeded),
{
    if !succeeded {
        CallbackAction::Ignore
    } else if opted_in {
        CallbackAction::Close(Notice::OptedIn)
    } else {
        CallbackAction::Close(Notice::OptedOut)
    }
}

/// Only the user whose id was cached for the prompt can opt in or out with
/// its buttons, and only themselves.
pub proof fn lemma_only_asker_changes_opt_out(tag: CallbackTag, presser: u64, cached: Option<u64>)
    ensures
        after_lookup_spec(tag, presser, cached) matches CallbackAction::OptIn(u) ==> cached
            == Some(presser) && u == presser && tag == CallbackTag::OptInYes,
        after_lookup_spec(tag, presser, cached) matches CallbackAction::OptOut(u) ==> cached
            == Some(presser) && u == presser && tag == CallbackTag::OptOutYes,
{
}

/// The tag and key written on a button are read back unchanged, provided the
/// tag text holds no `||` and does not end with `|`.
pub proof fn lemma_callback_data_round_trip(tag: Seq<char>, key: Seq<char>)
    requires
        forall|i: int| #![trigger separator_at(tag, i)] !separator_at(tag, i),
        tag.len() == 0 || tag.last() != '|',
    ensures
        split_callback_spec(tag + separator() + key) == Some((tag, key)),
{
    reveal_strlit("||");
    let s = tag + separator() + key;
    assert(separator_at(s, tag.len() as int));
    lemma_first_separator(s, tag, 0);
    assert(s.take(tag.len() as int) =~= tag);
    assert(s.skip(tag.len() + 2int) =~= key);
}

proof fn lemma_first_separator(s: Seq<char>, tag: Seq<char>, from: int)
    requires
        0 <= from <= tag.len(),
        s.len() >= tag.len() + 2,
        forall|i: int| 0 <= i < tag.len() ==> s[i] == tag[i],
        s[tag.len() as int] == '|',
        s[tag.len() + 1int] == '|',
        forall|i: int| #![trigger separator_at(tag, i)] !separator_at(tag, i),
        tag.len() == 0 || tag.last() != '|',
    ensures
        first_separator_from(s, from) == Some(tag.len() as int),
    decreases tag.len() - from,
{
    if from < tag.len() {
        if from + 1 < tag.len() {
            assert(!separator_at(tag, from));
        }
        assert(!separator_at(s, from));
        lemma_first_separator(s, tag, from + 1);
    }
}

/// The buttons of the prompt carry the tags the press handler acts on.
pub proof fn lemma_known_tags_read_back(tag: CallbackTag)
    requires
        tag != CallbackTag::Unknown,
    ensures
        tag_of(tag_text(tag)) == tag,
        forall|i: int| #![trigger separator_at(tag_text(tag), i)] !separator_at(tag_text(tag), i),
        tag_text(tag).last() != '|',
{
    reveal_strlit("opt_in_yes");
    reveal_strlit("opt_out_yes");
    reveal_strlit("opt_in_no");
    reveal_strlit("opt_out_no");
    match tag {
        CallbackTag::OptInNo => {
            assert("opt_in_no"@[7] != "opt_in_yes"@[7]);
        },
        CallbackTag::OptOutNo => {
            assert("opt_out_no"@[8] != "opt_out_yes"@[8]);
            assert("opt_out_no"@.len() != "opt_in_no"@.len());
        },
        _ => {},
    }
}

/// A press on a button of the prompt is read as the tag and key the prompt
/// wrote on it.
pub proof fn lemma_button_press_round_trip(tag: CallbackTag, key: Seq<char>)
    requires
        tag != CallbackTag::Unknown,
    ensures
        split_callback_spec(callback_data_spec(tag, key)) == Some((tag_text(tag), key)),
        tag_of(tag_text(tag)) == tag,
{
    lemma_known_tags_read_back(tag);
    lemma_callback_data_round_trip(tag_text(tag), key);
}

} // verus!
