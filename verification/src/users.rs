//! Telegram users as the bot sees them: their ids, names and whether they
//! are one of Telegram's service accounts.
use vstd::prelude::*;

use crate::text::{decimal_text, u64_text};

verus! {

/// A Telegram user, with the fields the bot reads.
#[derive(Clone, Debug, PartialEq, Eq)]
pub struct UserInfo {
    pub id: u64,
    pub is_bot: bool,
    pub first_name: String,
    pub last_name: Option<String>,
    pub username: Option<String>,
}

/// The author of a message: its id and whether it is a bot.
#[derive(Clone, Copy, Debug, PartialEq, Eq, Structural)]
pub struct AuthorInfo {
    pub id: u64,
    pub is_bot: bool,
}

/// First and last name joined with a space, or the first name alone.
pub open spec fn full_name_of(first: Seq<char>, last: Option<Seq<char>>) -> Seq<char> {
    match last {
        Some(l) => first + seq![' '] + l,
        None => first,
    }
}

/// The id Telegram uses for its own messages.
pub open spec fn telegram_user_id() -> u64 {
    777000
}

/// The id Telegram uses for anonymous posts on behalf of a channel.
pub open spec fn channel_bot_id() -> u64 {
    136817688
}

/// The id Telegram uses for anonymous posts on behalf of a group.
pub open spec fn group_anonymous_bot_id() -> u64 {
    1087968824
}

/// Whether the id is one of the three service accounts that speak for
/// Telegram, a channel or an anonymous group admin.
pub open spec fn is_service_account(id: u64) -> bool {
    id == telegram_user_id() || id == channel_bot_id() || id == group_anonymous_bot_id()
}

impl UserInfo {
    /// First and last name joined with a space, as teloxide's `User::full_name`.
    pub fn full_name(&self) -> (s: String)
        ensures
            s@ == full_name_of(self.first_name@, self.last_name.deep_view()),
    {
        match &self.last_name {
            Some(last) => {
                proof {
                    reveal_strlit(" ");
                }
                let s = self.first_name.clone().concat(" ");
                s.concat(last.as_str())
            },
            None => self.first_name.clone(),
        }
    }

    /// The author view of this user.
    pub fn author(&self) -> (a: AuthorInfo)
        ensures
            a.id == self.id,
            a.is_bot == self.is_bot,
    {
        AuthorInfo { id: self.id, is_bot: self.is_bot }
    }
}

/// Whether a user id is a Telegram service account (teloxide's
/// `is_telegram`, `is_channel` and `is_anonymous`).
pub fn service_account(id: u64) -> (r: bool)
    ensures
        r == is_service_account(id),
{
    user_id_is_telegram(id) || user_id_is_channel(id) || user_id_is_anonymous(id)
}

/// The name shown for a user: the recorded name, else the id in decimal.
pub open spec fn display_name_of(name: Option<Seq<char>>, id: u64) -> Seq<char> {
    match name {
        Some(n) => n,
        None => decimal_text(id as nat),
    }
}

/// The name shown for a user: the recorded name, else the id in decimal.
pub fn display_name(name: Option<String>, id: u64) -> (s: String)
    ensures
        s@ == display_name_of(name.deep_view(), id),
{
    match name {
        Some(n) => n,
        None => u64_text(id),
    }
}

/// Calls teloxide's `UserId::is_telegram`, which its source defines as the id
/// being 777000.
#[verifier::external_body]
fn user_id_is_telegram(id: u64) -> (r: bool)
    ensures
        r == (id == telegram_user_id()),
{
    teloxide::types::UserId(id).is_telegram()
}

/// Calls teloxide's `UserId::is_channel`, which its source defines as the id
/// being 136817688.
#[verifier::external_body]
fn user_id_is_channel(id: u64) -> (r: bool)
    ensures
        r == (id == channel_bot_id()),
{
    teloxide::types::UserId(id).is_channel()
}

/// Calls teloxide's `UserId::is_anonymous`, which its source defines as the id
/// being 1087968824.
#[verifier::external_body]
fn user_id_is_anonymous(id: u64) -> (r: bool)
    ensures
        r == (id == group_anonymous_bot_id()),
{
    teloxide::types::UserId(id).is_anonymous()
}

} // verus!
