use adachi_cube::events::guild_status_message;
use adachi_cube::events::plan_event;
use adachi_cube::events::BotEvent;
use adachi_cube::events::EventPlan;

#[test]
fn ready_logs_online() {
    match plan_event(&BotEvent::Ready) {
        EventPlan::LogInfo { message } => assert_eq!(message, "online"),
        _ => panic!("ready must log"),
    }
}

#[test]
fn new_guild_refreshes_and_alerts_a_join() {
    let event = BotEvent::GuildCreate {
        guild_id: 7777,
        guild_name: String::from("cube fans"),
        is_new: Some(true),
    };
    match plan_event(&event) {
        EventPlan::RefreshGuilds { joined, guild_id, guild_name } => {
            assert!(joined);
            assert_eq!(guild_id, 7777);
            assert_eq!(guild_name.as_deref(), Some("cube fans"));
        },
        _ => panic!("a new guild must refresh the count"),
    }
}

#[test]
fn guild_create_without_flag_counts_as_new() {
    let event = BotEvent::GuildCreate {
        guild_id: 7777,
        guild_name: String::from("cube fans"),
        is_new: None,
    };
    assert!(matches!(plan_event(&event), EventPlan::RefreshGuilds { joined: true, .. }));
}

#[test]
fn replayed_guild_create_is_ignored() {
    let event = BotEvent::GuildCreate {
        guild_id: 7777,
        guild_name: String::from("cube fans"),
        is_new: Some(false),
    };
    assert!(matches!(plan_event(&event), EventPlan::Ignore));
}

#[test]
fn guild_delete_always_refreshes() {
    let event = BotEvent::GuildDelete { guild_id: 4242, full_name: None };
    match plan_event(&event) {
        EventPlan::RefreshGuilds { joined, guild_id, guild_name } => {
            assert!(!joined);
            assert_eq!(guild_id, 4242);
            assert!(guild_name.is_none());
        },
        _ => panic!("a guild delete must refresh the count"),
    }
}

#[test]
fn unhandled_events_are_ignored() {
    assert!(matches!(plan_event(&BotEvent::Other), EventPlan::Ignore));
}

#[test]
fn join_alert_names_the_guild_and_count() {
    let message = guild_status_message(true, &Some(String::from("cube fans")), 7777, 7);
    assert_eq!(message, "joined guild `cube fans`:7777 [7 servers]");
}

#[test]
fn leave_alert_without_full_object_renders_unknown() {
    let message = guild_status_message(false, &None, 4242, 6);
    assert_eq!(message, "left guild `<unknown>`:4242 [6 servers]");
}
