//! What the bot answers before it handles a message: the whitelist gate, and
//! the display name it stores for the user.
use vstd::prelude::*;

use crate::entity::user_whitelist::UserWhitelistStatus;
use crate::text::{push_char, trim, trim_spec};

verus! {

/// The messages the whitelist gate sends, and whether the message is handled.
#[derive(Debug, Clone, PartialEq, Eq)]
pub struct WhitelistReply {
    /// The user may use the bot.
    pub allowed: bool,
    /// The message to send the user, if any.
    pub user_message: Option<String>,
    /// The message to send the admin, if any.
    pub admin_message: Option<String>,
}

/// The message for a user whose join request was just sent to the admin.
pub open spec fn requested_message_spec(admin: Seq<char>, user_id: Seq<char>) -> Seq<char> {
    "This bot is in whitelist mode\\\\.\nAdmin already notified that you want to join, but you also can contact <a href=\"tg://user?id="@
        + admin + "\">[admin]()</a> and send this message to him\\\\.\n\nUser Id: <code>"@ + user_id
        + "</code>"@
}

/// The message that tells the admin about a join request.
pub open spec fn admin_message_spec(user_id: Seq<char>) -> Seq<char> {
    "New <a href=\"tg://user?id="@ + user_id + "\">user</a> wants to join\\\\!\n\n<code>/whitelist allow "@
        + user_id + "</code>\n<code>/whitelist deny "@ + user_id + "</code>\n"@
}

/// The message for a user whose request is still waiting for the admin.
pub open spec fn pending_message_spec(admin: Seq<char>, user_id: Seq<char>) -> Seq<char> {
    "This bot is in whitelist mode\\\\.\nYour request was already sent, but admin didn't decided yet\\\\.\nYou can contact <a href=\"tg://user?id="@
        + admin + "\">him</a> to speedup the process\\\\.\nSend him this message, this will drastically help\\\\.\n\nUser Id: <code>"@
        + user_id + "</code>"@
}

/// The message for a user whose request was rejected.
pub open spec fn denied_message_spec() -> Seq<char> {
    "Sorry, your join request was rejected..."@
}

/// The whitelist gate: an allowed user passes; everyone else is stopped with a
/// message, and a join request that was just made is also sent to the admin.
pub fn whitelist_reply(
    status: UserWhitelistStatus,
    just_requested: bool,
    contact_admin: &str,
    user_id: &str,
) -> (r: WhitelistReply)
    ensures
        r.allowed == (status == UserWhitelistStatus::Allowed),
        match status {
            UserWhitelistStatus::Allowed => r.user_message is None && r.admin_message is None,
            UserWhitelistStatus::Denied => r.user_message matches Some(m) && m@
                == denied_message_spec() && r.admin_message is None,
            UserWhitelistStatus::Pending => if just_requested {
                &&& r.user_message matches Some(m) && m@ == requested_message_spec(
                    contact_admin@,
                    user_id@,
                )
                &&& r.admin_message matches Some(m) && m@ == admin_message_spec(user_id@)
            } else {
                &&& r.user_message matches Some(m) && m@ == pending_message_spec(
                    contact_admin@,
                    user_id@,
                )
                &&& r.admin_message is None
            },
        },
{
    match status {
        UserWhitelistStatus::Allowed => WhitelistReply {
            allowed: true,
            user_message: None,
            admin_message: None,
        },
        UserWhitelistStatus::Denied => WhitelistReply {
            allowed: false,
            user_message: Some(String::from_str("Sorry, your join request was rejected...")),
            admin_message: None,
        },
        UserWhitelistStatus::Pending => {
            if just_requested {
                let mut m = String::from_str(
                    "This bot is in whitelist mode\\\\.\nAdmin already notified that you want to join, but you also can contact <a href=\"tg://user?id=",
                );
                m.append(contact_admin);
                m.append("\">[admin]()</a> and send this message to him\\\\.\n\nUser Id: <code>");
                m.append(user_id);
                m.append("</code>");
                let mut a = String::from_str("New <a href=\"tg://user?id=");
                a.append(user_id);
                a.append("\">user</a> wants to join\\\\!\n\n<code>/whitelist allow ");
                a.append(user_id);
                a.append("</code>\n<code>/whitelist deny ");
                a.append(user_id);
                a.append("</code>\n");
                WhitelistReply { allowed: false, user_message: Some(m), admin_message: Some(a) }
            } else {
                let mut m = String::from_str(
                    "This bot is in whitelist mode\\\\.\nYour request was already sent, but admin didn't decided yet\\\\.\nYou can contact <a href=\"tg://user?id=",
                );
                m.append(contact_admin);
                m.append(
                    "\">him</a> to speedup the process\\\\.\nSend him this message, this will drastically help\\\\.\n\nUser Id: <code>",
                );
                m.append(user_id);
                m.append("</code>");
                WhitelistReply { allowed: false, user_message: Some(m), admin_message: None }
            }
        },
    }
}

/// What Telegram tells about the user who wrote.
#[derive(Debug, Clone, PartialEq, Eq)]
pub struct TelegramUser {
    pub first_name: String,
    pub last_name: Option<String>,
    pub username: Option<String>,
}

/// `"{first} {last} (@{username})"` with missing parts left empty.
pub open spec fn telegram_name_untrimmed(u: TelegramUser) -> Seq<char> {
    u.first_name@ + seq![' '] + match u.last_name {
        Some(l) => l@,
        None => Seq::empty(),
    } + seq![' '] + match u.username {
        Some(n) => "(@"@ + n@ + seq![')'],
        None => Seq::empty(),
    }
}

/// [`telegram_name_untrimmed`], trimmed.
pub open spec fn telegram_name_spec(u: TelegramUser) -> Seq<char> {
    trim_spec(telegram_name_untrimmed(u))
}

/// The name stored for a user: the Telegram name and the Spotify display name
/// ("unknown" when the Spotify account has none), those that are known,
/// joined by " | ".
pub open spec fn display_name_spec(tg: Option<TelegramUser>, spotify: Option<Option<Seq<char>>>) -> Seq<char> {
    let s = match spotify {
        Some(Some(n)) => n,
        Some(None) => "unknown"@,
        None => Seq::empty(),
    };
    match tg {
        Some(u) => if spotify is Some {
            telegram_name_spec(u) + " | "@ + s
        } else {
            telegram_name_spec(u)
        },
        None => s,
    }
}

/// See [`telegram_name_spec`].
pub fn telegram_name(u: &TelegramUser) -> (res: String)
    ensures
        res@ == telegram_name_spec(*u),
{
    let mut s = u.first_name.as_str().to_owned();
    push_char(&mut s, ' ');
    match &u.last_name {
        Some(l) => s.append(l.as_str()),
        None => {},
    }
    push_char(&mut s, ' ');
    match &u.username {
        Some(n) => {
            s.append("(@");
            s.append(n.as_str());
            push_char(&mut s, ')');
        },
        None => {},
    }
    assert(s@ =~= telegram_name_untrimmed(*u));
    trim(s.as_str())
}

/// See [`display_name_spec`].
pub fn display_name(tg: &Option<TelegramUser>, spotify: &Option<Option<String>>) -> (res: String)
    ensures
        res@ == display_name_spec(
            *tg,
            match spotify {
                Some(Some(n)) => Some(Some(n@)),
                Some(None) => Some(None),
                None => None,
            },
        ),
{
    let s = match spotify {
        Some(Some(n)) => n.as_str().to_owned(),
        Some(None) => String::from_str("unknown"),
        None => String::new(),
    };
    match tg {
        Some(u) => {
            let mut name = telegram_name(u);
            if spotify.is_some() {
                name.append(" | ");
                name.append(s.as_str());
            }
            name
        },
        None => s,
    }
}

/// The answer to a message whose handling failed.
pub open spec fn error_reply_spec() -> Seq<char> {
    "<b>Sorry, error has happened :(</b>\n\n<a href=\"https://github.com/vtvz/rustify/issues/new\">Report an issue on GitHub</a>\n"@
}

/// See [`error_reply_spec`].
pub fn error_reply() -> (res: String)
    ensures
        res@ == error_reply_spec(),
{
    String::from_str(
        "<b>Sorry, error has happened :(</b>\n\n<a href=\"https://github.com/vtvz/rustify/issues/new\">Report an issue on GitHub</a>\n",
    )
}

} // verus!
