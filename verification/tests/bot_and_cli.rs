use rustify::bot::{display_name, error_reply, telegram_name, whitelist_reply, TelegramUser};
use rustify::cli::users::{admins_listing, role_set_message, user_not_found_message, RoleChange, UsersCommands};
use rustify::entity::user_whitelist::UserWhitelistStatus;

#[test]
fn whitelist_allowed_passes() {
    let r = whitelist_reply(UserWhitelistStatus::Allowed, false, "1", "2");
    assert!(r.allowed);
    assert_eq!(r.user_message, None);
    assert_eq!(r.admin_message, None);
}

#[test]
fn whitelist_denied_and_pending() {
    let r = whitelist_reply(UserWhitelistStatus::Denied, true, "1", "2");
    assert!(!r.allowed);
    assert_eq!(r.user_message.as_deref(), Some("Sorry, your join request was rejected..."));
    assert_eq!(r.admin_message, None);

    let r = whitelist_reply(UserWhitelistStatus::Pending, true, "100", "200");
    assert!(!r.allowed);
    assert_eq!(
        r.user_message.as_deref(),
        Some("This bot is in whitelist mode\\\\.\nAdmin already notified that you want to join, but you also can contact <a href=\"tg://user?id=100\">[admin]()</a> and send this message to him\\\\.\n\nUser Id: <code>200</code>")
    );
    assert_eq!(
        r.admin_message.as_deref(),
        Some("New <a href=\"tg://user?id=200\">user</a> wants to join\\\\!\n\n<code>/whitelist allow 200</code>\n<code>/whitelist deny 200</code>\n")
    );

    let r = whitelist_reply(UserWhitelistStatus::Pending, false, "100", "200");
    assert!(r.user_message.unwrap().starts_with("This bot is in whitelist mode\\\\.\nYour request was already sent"));
    assert_eq!(r.admin_message, None);
}

#[test]
fn user_display_names() {
    let full = TelegramUser {
        first_name: "Ann".to_string(),
        last_name: Some("Lee".to_string()),
        username: Some("ann".to_string()),
    };
    assert_eq!(telegram_name(&full), "Ann Lee (@ann)");
    let bare = TelegramUser { first_name: "Bo".to_string(), last_name: None, username: None };
    assert_eq!(telegram_name(&bare), "Bo");
    assert_eq!(display_name(&Some(full.clone()), &Some(Some("ann_sp".to_string()))), "Ann Lee (@ann) | ann_sp");
    assert_eq!(display_name(&Some(bare), &Some(None)), "Bo | unknown");
    assert_eq!(display_name(&None, &Some(Some("x".to_string()))), "x");
    assert_eq!(display_name(&Some(full), &None), "Ann Lee (@ann)");
    assert_eq!(display_name(&None, &None), "");
}

#[test]
fn error_reply_text() {
    assert_eq!(
        error_reply(),
        "<b>Sorry, error has happened :(</b>\n\n<a href=\"https://github.com/vtvz/rustify/issues/new\">Report an issue on GitHub</a>\n"
    );
}

#[test]
fn user_commands() {
    let c = UsersCommands::Promote { user_id: "7".to_string() };
    assert_eq!(c.role_change(), Some(("7".to_string(), RoleChange::Admin)));
    let c = UsersCommands::Demote { user_id: "8".to_string() };
    assert_eq!(c.role_change(), Some(("8".to_string(), RoleChange::User)));
    assert_eq!(UsersCommands::ListAdmins.role_change(), None);
    assert_eq!(role_set_message("7", RoleChange::Admin), "User 7 role set to Admin");
    assert_eq!(user_not_found_message("9"), "User not found: 9");
    assert_eq!(admins_listing(&vec![]), vec!["No admins found".to_string()]);
    assert_eq!(
        admins_listing(&vec![("1".to_string(), "Ann".to_string())]),
        vec!["Admins:".to_string(), "  - 1 (Ann)".to_string()]
    );
}
