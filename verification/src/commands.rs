//! The general commands: the help text and the opt-out prompt.
use vstd::prelude::*;
use vstd::utf8::encode_utf8;

use crate::callbacks::{
    after_lookup_spec, callback_data, callback_data_spec, lemma_button_press_round_trip,
    split_callback_spec, tag_of, tag_text, CallbackAction, CallbackTag, Notice,
};

verus! {

/// The general commands of the bot.
#[derive(Clone, Copy, Debug, PartialEq, Eq, Structural)]
pub enum GeneralCommand {
    /// Prints command descriptions.
    Help,
    /// Opt out or in to quote functionality, removes existing quotes made by
    /// or from this user.
    ToggleOptOut,
}

/// A command as listed in the help: its name (with `/`) and description.
#[derive(Clone, Debug, PartialEq, Eq)]
pub struct CommandInfo {
    pub command: String,
    pub description: String,
}

/// Each command and its description, as the help lists them.
pub open spec fn infos_view(infos: Seq<CommandInfo>) -> Seq<(Seq<char>, Seq<char>)> {
    infos.map_values(|c: CommandInfo| (c.command@, c.description@))
}

/// One line `command - description` per command.
pub open spec fn command_lines(cmds: Seq<(Seq<char>, Seq<char>)>) -> Seq<char>
    decreases cmds.len(),
{
    if cmds.len() == 0 {
        Seq::empty()
    } else {
        command_lines(cmds.drop_last()) + cmds.last().0 + " - "@ + cmds.last().1 + "\n"@
    }
}

/// The lines of two lists of commands, one after the other, are the lines of
/// the two lists joined: every command gives its own line, in order, and no
/// command is dropped or repeated.
pub proof fn lemma_command_lines_concat(
    a: Seq<(Seq<char>, Seq<char>)>,
    b: Seq<(Seq<char>, Seq<char>)>,
)
    ensures
        command_lines(a + b) == command_lines(a) + command_lines(b),
    decreases b.len(),
{
    if b.len() == 0 {
        assert(a + b =~= a);
        assert(command_lines(b) =~= Seq::<char>::empty());
        assert(command_lines(a) + command_lines(b) =~= command_lines(a));
    } else {
        let ab = a + b;
        assert(ab.drop_last() =~= a + b.drop_last());
        assert(ab.last() == b.last());
        lemma_command_lines_concat(a, b.drop_last());
        let c = b.last();
        let line = c.0 + " - "@ + c.1 + "\n"@;
        assert(command_lines(ab) =~= command_lines(a + b.drop_last()) + c.0 + " - "@ + c.1
            + "\n"@);
        assert(command_lines(ab) =~= command_lines(a) + command_lines(b.drop_last()) + line);
        assert(command_lines(b) =~= command_lines(b.drop_last()) + line);
        assert(command_lines(ab) =~= command_lines(a) + command_lines(b));
    }
}

/// A single command gives the line `command - description`.
pub proof fn lemma_command_lines_single(command: Seq<char>, description: Seq<char>)
    ensures
        command_lines(seq![(command, description)]) == command + " - "@ + description + "\n"@,
{
    let s = seq![(command, description)];
    assert(s.drop_last() =~= Seq::<(Seq<char>, Seq<char>)>::empty());
    assert(s.last() == (command, description));
    assert(command_lines(s.drop_last()) =~= Seq::<char>::empty());
    let line = command + " - "@ + description + "\n"@;
    assert(Seq::<char>::empty() + line =~= line);
    assert(command_lines(s) =~= command + " - "@ + description + "\n"@);
}

/// Listing the commands of two lists one after the other lists those of the
/// joined list.
pub proof fn lemma_infos_view_concat(a: Seq<CommandInfo>, b: Seq<CommandInfo>)
    ensures
        infos_view(a + b) == infos_view(a) + infos_view(b),
        infos_view(a).len() == a.len(),
{
    assert(infos_view(a + b) =~= infos_view(a) + infos_view(b));
}

/// The help message: a title, the general commands, then the quote commands.
pub open spec fn help_text_spec(
    general: Seq<(Seq<char>, Seq<char>)>,
    quotes: Seq<(Seq<char>, Seq<char>)>,
) -> Seq<char> {
    "Commands for TigerTM Bot\n\nGeneral:\n"@ + command_lines(general) + "\nQuotes:\n"@
        + command_lines(quotes)
}

fn append_command_lines(text: &mut String, cmds: &Vec<CommandInfo>)
    ensures
        final(text)@ == old(text)@ + command_lines(infos_view(cmds@)),
{
    let ghost start = text@;
    let mut i: usize = 0;
    while i < cmds.len()
        invariant
            i <= cmds.len(),
            text@ == start + command_lines(infos_view(cmds@.take(i as int))),
        decreases cmds.len() - i,
    {
        proof {
            assert(infos_view(cmds@.take(i + 1)).drop_last() =~= infos_view(cmds@.take(i as int)));
            assert(infos_view(cmds@.take(i + 1)).last() == (cmds[i as int].command@, cmds[i as int].description@));
        }
        text.append(cmds[i].command.as_str());
        text.append(" - ");
        text.append(cmds[i].description.as_str());
        text.append("\n");
        proof {
            assert(text@ =~= start + command_lines(infos_view(cmds@.take(i + 1))));
        }
        i = i + 1;
    }
    proof {
        assert(cmds@.take(cmds.len() as int) =~= cmds@);
    }
}

/// The help message listing the general and the quote commands.
pub fn help_text(general: &Vec<CommandInfo>, quotes: &Vec<CommandInfo>) -> (s: String)
    ensures
        s@ == help_text_spec(infos_view(general@), infos_view(quotes@)),
{
    let mut text = String::from_str("Commands for TigerTM Bot\n\nGeneral:\n");
    append_command_lines(&mut text, general);
    text.append("\nQuotes:\n");
    append_command_lines(&mut text, quotes);
    text
}

/// An inline button: its label and the data it sends back when pressed.
#[derive(Debug, PartialEq, Eq)]
pub struct Button {
    pub label: String,
    pub data: String,
}

/// The message asking a user to confirm opting out, or back in.
#[derive(Debug, PartialEq, Eq)]
pub struct OptOutPrompt {
    pub text: String,
    pub yes: Button,
    pub no: Button,
}

/// The tags of the prompt's two buttons.
pub open spec fn yes_tag(has_opted_out: bool) -> CallbackTag {
    if has_opted_out { CallbackTag::OptInYes } else { CallbackTag::OptOutYes }
}

pub open spec fn no_tag(has_opted_out: bool) -> CallbackTag {
    if has_opted_out { CallbackTag::OptInNo } else { CallbackTag::OptOutNo }
}

/// The prompt's text.
pub open spec fn prompt_text(has_opted_out: bool) -> Seq<char> {
    if has_opted_out {
        "You are currently opted out of quote functionality.\nWould you like to opt in? This bot only stores the quotes and your username.\nNo other data is stored."@
    } else {
        "This will prevent you from being quoted and quoting other's messages.\nIt will also delete all existing quotes from you, and quotes you added.\nAre you sure?"@
    }
}

/// The labels of the prompt's buttons.
pub open spec fn yes_label(has_opted_out: bool) -> Seq<char> {
    if has_opted_out { "Yes, Let Me use Quotes"@ } else { "Yes, Delete My Data"@ }
}

pub open spec fn no_label(has_opted_out: bool) -> Seq<char> {
    if has_opted_out { "No, No Quotes for Me"@ } else { "No, Keep My Quotes"@ }
}

/// Telegram takes at most 64 bytes of data per button.
pub open spec fn prompt_fits(has_opted_out: bool, key: Seq<char>) -> bool {
    &&& encode_utf8(callback_data_spec(yes_tag(has_opted_out), key)).len() <= 64
    &&& encode_utf8(callback_data_spec(no_tag(has_opted_out), key)).len() <= 64
}

/// The prompt sent for the opt-out command: to opt back in when the user has
/// opted out, else to opt out. Both buttons carry `key`, under which the
/// asker's id is cached.
pub fn opt_out_prompt(has_opted_out: bool, key: &str) -> (p: OptOutPrompt)
    requires
        prompt_fits(has_opted_out, key@),
    ensures
        p.text@ == prompt_text(has_opted_out),
        p.yes.label@ == yes_label(has_opted_out),
        p.yes.data@ == callback_data_spec(yes_tag(has_opted_out), key@),
        p.no.label@ == no_label(has_opted_out),
        p.no.data@ == callback_data_spec(no_tag(has_opted_out), key@),
{
    if has_opted_out {
        OptOutPrompt {
            text: String::from_str(
                "You are currently opted out of quote functionality.\nWould you like to opt in? This bot only stores the quotes and your username.\nNo other data is stored.",
            ),
            yes: Button {
                label: String::from_str("Yes, Let Me use Quotes"),
                data: callback_data(CallbackTag::OptInYes, key),
            },
            no: Button {
                label: String::from_str("No, No Quotes for Me"),
                data: callback_data(CallbackTag::OptInNo, key),
            },
        }
    } else {
        OptOutPrompt {
            text: String::from_str(
                "This will prevent you from being quoted and quoting other's messages.\nIt will also delete all existing quotes from you, and quotes you added.\nAre you sure?",
            ),
            yes: Button {
                label: String::from_str("Yes, Delete My Data"),
                data: callback_data(CallbackTag::OptOutYes, key),
            },
            no: Button {
                label: String::from_str("No, Keep My Quotes"),
                data: callback_data(CallbackTag::OptOutNo, key),
            },
        }
    }
}

/// The reply when the asker's id could not be cached.
pub open spec fn cache_failure_text() -> Seq<char> {
    "Sorry, I ran into an error, please try again later."@
}

pub fn cache_failure_reply() -> (s: &'static str)
    ensures
        s@ == cache_failure_text(),
{
    "Sorry, I ran into an error, please try again later."
}

/// When the user who asked for the prompt presses its "yes" button, the bot
/// applies the change the prompt offered (opting in when they had opted out,
/// else opting out); its "no" button cancels. Both buttons carry the key the
/// prompt was made with.
pub proof fn lemma_prompt_buttons_do_what_they_say(has_opted_out: bool, key: Seq<char>, asker: u64)
    ensures
        split_callback_spec(callback_data_spec(yes_tag(has_opted_out), key)) matches Some((t, k))
            && k == key && after_lookup_spec(tag_of(t), asker, Some(asker)) == (if has_opted_out {
            CallbackAction::OptIn(asker)
        } else {
            CallbackAction::OptOut(asker)
        }),
        split_callback_spec(callback_data_spec(no_tag(has_opted_out), key)) matches Some((t, k))
            && k == key && after_lookup_spec(tag_of(t), asker, Some(asker)) == (if has_opted_out {
            CallbackAction::Close(Notice::OptInCanceled)
        } else {
            CallbackAction::Close(Notice::OptOutCanceled)
        }),
{
    lemma_button_press_round_trip(yes_tag(has_opted_out), key);
    lemma_button_press_round_trip(no_tag(has_opted_out), key);
}

} // verus!
