//! The messages sent to the admins when something happens to a user.
use vstd::prelude::*;

use crate::text::{decimal_spec, push_char, trim, trim_spec, u64_to_string};

verus! {

/// The admin notifications; sending them is the caller's job.
pub struct NotificationService;

/// What Telegram tells about a user who joined.
#[derive(Debug, Clone, PartialEq, Eq)]
pub struct JoinedUser {
    pub id: u64,
    pub first_name: String,
    pub last_name: Option<String>,
    pub username: Option<String>,
}

/// The description of a joined user before trimming: a code-formatted id, a
/// link to the user, the name, surname and `(@username)`, and the referral code.
pub open spec fn joined_user_untrimmed(u: JoinedUser, ref_code: Option<Seq<char>>) -> Seq<char> {
    "<code>"@ + decimal_spec(u.id as nat) + "</code> <a href=\"tg://user?id="@ + decimal_spec(
        u.id as nat,
    ) + "\">link</a> "@ + u.first_name@ + seq![' '] + match u.last_name {
        Some(l) => l@,
        None => Seq::empty(),
    } + seq![' '] + match u.username {
        Some(n) => "(@"@ + n@ + seq![')'],
        None => Seq::empty(),
    } + "\nRef Code: "@ + match ref_code {
        Some(c) => "<code>"@ + c + "</code>"@,
        None => "<i>None</i>"@,
    }
}

/// The notice that a user joined.
pub open spec fn user_joined_spec(u: Option<JoinedUser>, ref_code: Option<Seq<char>>) -> Seq<char> {
    "🆕 <b>New user joined</b>\n\n"@ + match u {
        Some(u) => trim_spec(joined_user_untrimmed(u, ref_code)),
        None => "Unknown"@,
    }
}

/// The notice that a user connected Spotify.
pub open spec fn spotify_connected_spec(id: Seq<char>, name: Seq<char>) -> Seq<char> {
    "✅ <b>User connected Spotify</b>\n\nName: "@ + name + "\nID: <code>"@ + id
        + "</code> <a href=\"tg://user?id="@ + id + "\">link</a>"@
}

impl NotificationService {
    /// See [`user_joined_spec`].
    pub fn user_joined_message(user: &Option<JoinedUser>, ref_code: &Option<String>) -> (res: String)
        ensures
            res@ == user_joined_spec(
                *user,
                match ref_code {
                    Some(c) => Some(c@),
                    None => None,
                },
            ),
    {
        let mut res = String::from_str("🆕 <b>New user joined</b>\n\n");
        match user {
            Some(u) => {
                let id = u64_to_string(u.id);
                let mut d = String::from_str("<code>");
                d.append(id.as_str());
                d.append("</code> <a href=\"tg://user?id=");
                d.append(id.as_str());
                d.append("\">link</a> ");
                d.append(u.first_name.as_str());
                push_char(&mut d, ' ');
                match &u.last_name {
                    Some(l) => d.append(l.as_str()),
                    None => {},
                }
                push_char(&mut d, ' ');
                match &u.username {
                    Some(n) => {
                        d.append("(@");
                        d.append(n.as_str());
                        push_char(&mut d, ')');
                    },
                    None => {},
                }
                d.append("\nRef Code: ");
                match ref_code {
                    Some(c) => {
                        d.append("<code>");
                        d.append(c.as_str());
                        d.append("</code>");
                    },
                    None => d.append("<i>None</i>"),
                }
                assert(d@ =~= joined_user_untrimmed(
                    *u,
                    match ref_code {
                        Some(c) => Some(c@),
                        None => None,
                    },
                ));
                let t = trim(d.as_str());
                res.append(t.as_str());
            },
            None => res.append("Unknown"),
        }
        res
    }

    /// See [`spotify_connected_spec`].
    pub fn spotify_connected_message(id: &str, name: &str) -> (res: String)
        ensures
            res@ == spotify_connected_spec(id@, name@),
    {
        let mut res = String::from_str("✅ <b>User connected Spotify</b>\n\nName: ");
        res.append(name);
        res.append("\nID: <code>");
        res.append(id);
        res.append("</code> <a href=\"tg://user?id=");
        res.append(id);
        res.append("\">link</a>");
        res
    }
}

} // verus!
