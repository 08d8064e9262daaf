use motorchik::command_filter::{CommandDisability, CommandFilter};
use motorchik::dispatch::{command_error_embed, may_run};
use motorchik::guild_config::{EditGuildConfig, GuildConfig};
use motorchik::info_channel::{EditInfoChannel, InfoChannelData};
use motorchik::members::{goodbye_text, on_join, settle_queue, welcome_text, JoinAction};
use motorchik::mod_list::{mod_list, plan_mod_list_update, ModListPlan, MOD_LIST_LEN};
use motorchik::moderation::{
    ban_log, find_ban, kick_log, reason_line, target, Ban, BanMessageIgnoreList,
};
use motorchik::replies::{
    argument_list, arguments_reply, deleted_reply, dm_redirect_text, source_reply,
};

#[test]
fn command_runs_where_its_filter_allows() {
    let whitelist = CommandFilter::new(CommandDisability::Whitelisted, vec![1]);
    assert!(may_run(Some(&whitelist), 1));
    assert!(!may_run(Some(&whitelist), 2));
    assert!(!may_run(Some(&CommandFilter::new(CommandDisability::Global, vec![])), 1));
    assert!(may_run(Some(&CommandFilter::default()), 1));
}

#[test]
fn command_runs_where_no_filter_could_be_obtained() {
    assert!(may_run(None, 1));
    assert!(may_run(None, u64::MAX));
}

#[test]
fn failed_command_is_reported() {
    let embed = command_error_embed("ban", "Missing permissions");
    assert_eq!(Some((255, 15, 15)), embed.color);
    assert_eq!(Some("Error executing a command".to_string()), embed.title);
    assert_eq!(
        Some("Error occured while running command `ban`:\nMissing permissions".to_string()),
        embed.description
    );
    assert_eq!(
        Some("Please contact bot author on github/gitlab/discord, see `source` command".to_string()),
        embed.footer
    );
    assert!(embed.fields.is_empty());
    assert_eq!(None, embed.timestamp);
}

#[test]
fn simple_replies() {
    assert_eq!(
        "Choose whichever you want:\nGitHub: https://github.com/JohnTheCoolingFan/rusted-motorchik\nGitLab: Sorry, not available yet",
        source_reply()
    );
    assert_eq!("I have received a message from user#0001:\nhello", dm_redirect_text("user#0001", "hello"));
    assert_eq!("Passed 3 arguments: a, b", arguments_reply(3, "a, b"));
    assert_eq!("Deleted 0 message(s)", deleted_reply(0));
    assert_eq!("Deleted 100 message(s)", deleted_reply(100));
}

#[test]
fn argument_list_puts_commas_between() {
    assert_eq!("", argument_list(&vec![]));
    assert_eq!("a", argument_list(&vec!["a".to_string()]));
    assert_eq!("", argument_list(&vec!["".to_string()]));
    assert_eq!(
        "a, b c, ",
        argument_list(&vec!["a".to_string(), "b c".to_string(), "".to_string()])
    );
}

#[test]
fn info_channel_target_is_its_channel_when_switched_on() {
    assert_eq!(Some(5), target(InfoChannelData { channel_id: 5, enabled: true }));
    assert_eq!(None, target(InfoChannelData { channel_id: 5, enabled: false }));
}

#[test]
fn kick_is_logged_where_the_log_is_on() {
    let log = InfoChannelData { channel_id: 5, enabled: true };
    assert_eq!(
        Some((5, "User <@10> was kicked by <@20>.\nReason: needs to cool off".to_string())),
        kick_log(log, 10, 20, Some("needs to cool off"))
    );
    assert_eq!(
        Some((5, "User <@10> was kicked by <@20>.\nReason was not provided".to_string())),
        kick_log(log, 10, 20, None)
    );
    assert_eq!(None, kick_log(InfoChannelData { channel_id: 5, enabled: false }, 10, 20, None));
}

#[test]
fn reasons_are_written_as_the_log_has_them() {
    assert_eq!("Reason: spam", reason_line(Some("spam")));
    assert_eq!("Reason: ", reason_line(Some("")));
    assert_eq!("Reason was not provided", reason_line(None));
}

fn bans() -> Vec<Ban> {
    vec![
        Ban { user: 1, reason: None },
        Ban { user: 2, reason: Some("lots of spam".to_string()) },
        Ban { user: 1, reason: Some("second".to_string()) },
    ]
}

#[test]
fn first_ban_of_a_user_is_found() {
    assert_eq!(Some(0), find_ban(&bans(), 1));
    assert_eq!(Some(1), find_ban(&bans(), 2));
    assert_eq!(None, find_ban(&bans(), 3));
    assert_eq!(None, find_ban(&vec![], 1));
}

#[test]
fn ban_is_logged_with_the_reason_on_record() {
    assert_eq!(
        Some("User <@2> was banned.\nReason: lots of spam".to_string()),
        ban_log(&bans(), 2, None, None)
    );
    assert_eq!(
        Some("User <@1> was banned by <@9>.\nReason was not provided".to_string()),
        ban_log(&bans(), 1, Some(9), None)
    );
}

#[test]
fn ban_is_logged_with_the_reason_that_comes_with_it() {
    assert_eq!(
        Some("User <@2> was banned by <@9>.\nflooding".to_string()),
        ban_log(&bans(), 2, Some(9), Some("flooding".to_string()))
    );
}

#[test]
fn ban_that_is_not_on_record_is_not_logged() {
    assert_eq!(None, ban_log(&bans(), 3, Some(9), Some("flooding".to_string())));
}

#[test]
fn ignore_list_is_a_set() {
    let mut list = BanMessageIgnoreList::new();
    assert!(!list.contains(1, 2));
    assert!(!list.take(1, 2));
    list.insert(1, 2);
    list.insert(1, 2);
    list.insert(2, 1);
    assert!(list.contains(1, 2));
    assert!(list.contains(2, 1));
    assert!(!list.contains(1, 1));
    assert!(list.take(1, 2));
    assert!(!list.contains(1, 2));
    assert!(!list.take(1, 2));
    assert!(list.contains(2, 1));
}

#[test]
fn new_member_gets_roles_when_screened() {
    assert_eq!(JoinAction::Nothing, on_join(&vec![], true));
    assert_eq!(JoinAction::Nothing, on_join(&vec![], false));
    assert_eq!(JoinAction::Enqueue, on_join(&vec![1], true));
    assert_eq!(JoinAction::Grant, on_join(&vec![1, 2], false));
}

#[test]
fn welcome_and_goodbye() {
    assert_eq!("Welcome, <@42>!", welcome_text(42));
    assert_eq!("Goodbye, Wumpus", goodbye_text("Wumpus"));
}

#[test]
fn queue_keeps_pending_members_only() {
    let round = vec![
        (1, 10, Some(true)),
        (1, 11, Some(false)),
        (2, 12, None),
        (2, 13, Some(true)),
        (3, 14, Some(false)),
    ];
    let (waiting, admitted) = settle_queue(&round);
    assert_eq!(vec![(1, 10), (2, 13)], waiting);
    assert_eq!(vec![(1, 11), (3, 14)], admitted);
    let (waiting, admitted) = settle_queue(&vec![]);
    assert!(waiting.is_empty());
    assert!(admitted.is_empty());
}

#[test]
fn mod_list_names() {
    assert_eq!(
        vec![
            "artillery-spidertron",
            "PlaceableOffGrid",
            "NoArtilleryMapReveal",
            "RandomFactorioThings",
            "PlutoniumEnergy",
            "ReactorDansen"
        ],
        mod_list()
    );
    assert_eq!(6, MOD_LIST_LEN);
}

#[test]
fn mod_list_update_plan() {
    let mut config = GuildConfig::new(1, Some(10));
    assert_eq!(ModListPlan::Skip, plan_mod_list_update(&config));

    config.set_mod_list_messages(vec![("a".to_string(), 1)]);
    assert_eq!(ModListPlan::Skip, plan_mod_list_update(&config));

    let mut request = EditGuildConfig::default();
    request.modlist_info_channel(EditInfoChannel { state: Some(true), channel: Some(20) });
    config.edit(request);
    assert_eq!(ModListPlan::Repost(20, 6), plan_mod_list_update(&config));

    config.set_mod_list_messages(vec![("a".to_string(), 1), ("b".to_string(), 2)]);
    assert_eq!(
        ModListPlan::Edit(20, vec![("a".to_string(), 1), ("b".to_string(), 2)]),
        plan_mod_list_update(&config)
    );
}
