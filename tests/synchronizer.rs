use dcexport::events::Event;
use dcexport::cache::PresenceCache;
use dcexport::discord::{count_bots, custom_emotes, message_actions, Handler};
use dcexport::metrics::{
    Action, ActivityLabels, Boolean, BoostLabels, BotLabels, ChannelLabels, EmoteUsedLabels,
    GuildsLabels, MemberLabels, MemberStatusLabels, MemberVoiceLabels, MessageSentLabels, Series,
};
use dcexport::model::{
    Activity, Guild, GuildChannel, Message, OnlineStatus, PartialGuild, Presence, Reaction,
    ReactionType, User, VoiceState,
};
use dcexport::topology::{category_channel, TopologyLookupError};

fn channel(id: u64, parent_id: Option<u64>, name: &str, kind: u8) -> GuildChannel {
    GuildChannel { id, parent_id, name: name.to_string(), kind, nsfw: false }
}

/// Category A (1) holds channel C (2), which holds thread T (3); L (4) has no parent.
fn topology() -> Vec<GuildChannel> {
    vec![
        channel(1, None, "A", 4),
        channel(2, Some(1), "C", 0),
        channel(3, Some(2), "T", 11),
        channel(4, None, "L", 0),
    ]
}

fn user(id: u64, bot: bool) -> User {
    User { id, bot, system: false }
}

fn presence(user_id: u64, status: OnlineStatus, activities: Vec<Activity>) -> Presence {
    Presence { user_id, guild_id: Some(7), status, activities }
}

fn status(name: &str) -> Series {
    Series::MemberStatus(MemberStatusLabels { status: name.to_string() })
}

fn voice(user_id: u64, channel_id: Option<u64>) -> VoiceState {
    VoiceState {
        user_id,
        guild_id: Some(7),
        channel_id,
        self_stream: None,
        self_video: false,
        self_deaf: false,
        self_mute: true,
    }
}

fn voice_series(category_id: Option<u64>, channel_id: u64) -> Series {
    Series::MemberVoice(MemberVoiceLabels {
        category_id,
        channel_id,
        self_stream: Boolean(false),
        self_video: Boolean(false),
        self_deaf: Boolean(false),
        self_mute: Boolean(true),
    })
}

fn guild(presences: Vec<Presence>, voice_states: Vec<VoiceState>) -> Guild {
    Guild {
        id: 7,
        name: "G".to_string(),
        member_count: 5,
        premium_subscription_count: None,
        channels: topology(),
        presences,
        voice_states,
    }
}

#[test]
fn resolver_channel_without_parent() {
    assert_eq!(category_channel(&topology(), 4), Ok((None, 4)));
    assert_eq!(category_channel(&topology(), 1), Ok((None, 1)));
}

#[test]
fn resolver_channel_under_category() {
    assert_eq!(category_channel(&topology(), 2), Ok((Some(1), 2)));
}

#[test]
fn resolver_thread_folds_into_parent() {
    assert_eq!(category_channel(&topology(), 3), Ok((Some(1), 2)));
}

#[test]
fn resolver_missing_channel_or_ancestor() {
    assert_eq!(category_channel(&topology(), 9), Err(TopologyLookupError { channel_id: 9 }));
    let orphan = vec![channel(5, Some(6), "X", 0)];
    assert_eq!(category_channel(&orphan, 5), Err(TopologyLookupError { channel_id: 6 }));
    let deep = vec![channel(5, Some(6), "X", 11), channel(6, Some(8), "Y", 0)];
    assert_eq!(category_channel(&deep, 5), Err(TopologyLookupError { channel_id: 8 }));
}

#[test]
fn label_names_come_from_the_platform() {
    assert_eq!(MemberStatusLabels::new(OnlineStatus::Idle).status, "idle");
    assert_eq!(MemberStatusLabels::new(OnlineStatus::DoNotDisturb).status, "dnd");
    assert_eq!(MemberStatusLabels::new(OnlineStatus::Online).status, "online");
    let labels = ChannelLabels::new(&channel(1, None, "A", 4));
    assert_eq!(labels.channel_type, "category");
    assert_eq!(labels.channel_name, "A");
    assert_eq!(ChannelLabels::new(&channel(3, Some(2), "T", 11)).channel_type, "public_thread");
    assert_eq!(ChannelLabels::new(&channel(3, None, "T", 200)).channel_type, "unknown");
}

#[test]
fn empty_label_sets() {
    assert_eq!(BoostLabels::new(), BoostLabels {});
    assert_eq!(MemberLabels::new(), MemberLabels {});
    assert_eq!(BotLabels::new(), BotLabels {});
    let b: Boolean = true.into();
    assert!(bool::from(b));
}

#[test]
fn presence_update_moves_status() {
    let mut h = Handler::new();
    let g = guild(vec![presence(10, OnlineStatus::Online, vec![])], vec![]);
    h.guild_create(&g);
    let actions = h.presence_update(presence(10, OnlineStatus::Idle, vec![]));
    assert_eq!(actions, vec![Action::Dec(status("online")), Action::Inc(status("idle"))]);
    assert_eq!(h.cached_presence(7, 10).map(|p| p.status), Some(OnlineStatus::Idle));
}

#[test]
fn presence_update_first_sighting_does_not_decrement() {
    let mut h = Handler::new();
    let game = Activity { application_id: Some(3), name: "game".to_string() };
    let actions = h.presence_update(presence(11, OnlineStatus::Online, vec![game.clone()]));
    assert_eq!(
        actions,
        vec![Action::Inc(status("online")), Action::Inc(Series::Activity(ActivityLabels::new(&game)))]
    );
}

#[test]
fn presence_update_twice_targets_the_cached_presence() {
    let mut h = Handler::new();
    let game = Activity { application_id: None, name: "game".to_string() };
    let p = presence(12, OnlineStatus::Idle, vec![game.clone()]);
    h.presence_update(p.clone());
    let second = h.presence_update(p.clone());
    let act = Series::Activity(ActivityLabels { activity_application_id: None, activity_name: "game".to_string() });
    assert_eq!(
        second,
        vec![
            Action::Dec(status("idle")),
            Action::Dec(act.clone()),
            Action::Inc(status("idle")),
            Action::Inc(act),
        ]
    );
    assert_eq!(h.cached_presence(7, 12), Some(&p));
}

#[test]
fn presence_update_outside_a_guild_is_ignored() {
    let mut h = Handler::new();
    let mut p = presence(13, OnlineStatus::Online, vec![]);
    p.guild_id = None;
    assert!(h.presence_update(p).is_empty());
    assert_eq!(h.cached_presence(7, 13), None);
}

#[test]
fn message_counts_message_and_custom_emotes() {
    let h = Handler::new();
    let msg = Message {
        guild_id: Some(7),
        channel_id: 2,
        author: user(10, false),
        content: "hello <:wave:123> world".to_string(),
    };
    let actions = h.message(&msg, &topology());
    assert_eq!(
        actions,
        vec![
            Action::Inc(Series::MessageSent(MessageSentLabels { category_id: Some(1), channel_id: 2 })),
            Action::Inc(Series::EmoteUsed(EmoteUsedLabels {
                category_id: Some(1),
                channel_id: 2,
                reaction: Boolean(false),
                emoji_id: 123,
                emoji_name: Some("wave".to_string()),
            })),
        ]
    );
}

#[test]
fn message_without_emotes_counts_only_the_message() {
    let h = Handler::new();
    let msg = Message {
        guild_id: Some(7),
        channel_id: 4,
        author: user(10, false),
        content: "plain words :wave: only".to_string(),
    };
    assert_eq!(
        h.message(&msg, &topology()),
        vec![Action::Inc(Series::MessageSent(MessageSentLabels { category_id: None, channel_id: 4 }))]
    );
}

#[test]
fn message_from_bot_or_outside_guild_is_ignored() {
    let h = Handler::new();
    let mut msg = Message {
        guild_id: Some(7),
        channel_id: 2,
        author: user(10, true),
        content: "<:wave:123>".to_string(),
    };
    assert!(h.message(&msg, &topology()).is_empty());
    msg.author = User { id: 10, bot: false, system: true };
    assert!(h.message(&msg, &topology()).is_empty());
    msg.author = user(10, false);
    msg.guild_id = None;
    assert!(h.message(&msg, &topology()).is_empty());
}

#[test]
fn message_in_unknown_channel_is_noted() {
    let h = Handler::new();
    let msg = Message { guild_id: Some(7), channel_id: 99, author: user(10, false), content: "hi".to_string() };
    assert_eq!(h.message(&msg, &topology()), vec![Action::Inconsistent(99)]);
}

#[test]
fn custom_emotes_of_words() {
    let words = vec![
        "<a:dance:456>".to_string(),
        "x".to_string(),
        "<:wave:123>".to_string(),
        "<:bad:notanid>".to_string(),
    ];
    assert_eq!(custom_emotes(&words), vec![(456, "dance".to_string()), (123, "wave".to_string())]);
    let actions = message_actions(None, 4, &vec![(5, "e".to_string())]);
    assert_eq!(actions.len(), 2);
    assert_eq!(
        actions[1],
        Action::Inc(Series::EmoteUsed(EmoteUsedLabels {
            category_id: None,
            channel_id: 4,
            reaction: Boolean(false),
            emoji_id: 5,
            emoji_name: Some("e".to_string()),
        }))
    );
}

#[test]
fn reaction_with_custom_emoji_counts() {
    let h = Handler::new();
    let reaction = Reaction {
        guild_id: Some(7),
        channel_id: 3,
        member: Some(user(10, false)),
        emoji: ReactionType::Custom { animated: false, id: 77, name: Some("cat".to_string()) },
    };
    assert_eq!(
        h.reaction_add(&reaction, &topology()),
        vec![Action::Inc(Series::EmoteUsed(EmoteUsedLabels {
            category_id: Some(1),
            channel_id: 2,
            reaction: Boolean(true),
            emoji_id: 77,
            emoji_name: Some("cat".to_string()),
        }))]
    );
}

#[test]
fn reaction_skipped_for_unicode_or_bot() {
    let h = Handler::new();
    let mut reaction = Reaction {
        guild_id: Some(7),
        channel_id: 2,
        member: None,
        emoji: ReactionType::Unicode("👍".to_string()),
    };
    assert!(h.reaction_add(&reaction, &topology()).is_empty());
    reaction.emoji = ReactionType::Custom { animated: true, id: 1, name: None };
    reaction.member = Some(user(3, true));
    assert!(h.reaction_add(&reaction, &topology()).is_empty());
    reaction.member = None;
    assert_eq!(h.reaction_add(&reaction, &topology()).len(), 1);
}

#[test]
fn voice_join_increments_only() {
    let h = Handler::new();
    let actions = h.voice_state_update(Some(voice(10, None)), voice(10, Some(2)), &topology());
    assert_eq!(actions, vec![Action::Inc(voice_series(Some(1), 2))]);
}

#[test]
fn voice_move_and_leave() {
    let h = Handler::new();
    let moved = h.voice_state_update(Some(voice(10, Some(2))), voice(10, Some(4)), &topology());
    assert_eq!(moved, vec![Action::Dec(voice_series(Some(1), 2)), Action::Inc(voice_series(None, 4))]);
    let left = h.voice_state_update(Some(voice(10, Some(4))), voice(10, None), &topology());
    assert_eq!(left, vec![Action::Dec(voice_series(None, 4))]);
    let unknown = h.voice_state_update(None, voice(10, Some(99)), &topology());
    assert_eq!(unknown, vec![Action::Inconsistent(99)]);
    let mut outside = voice(10, Some(2));
    outside.guild_id = None;
    assert!(h.voice_state_update(None, outside, &topology()).is_empty());
}

#[test]
fn member_join_and_leave() {
    let h = Handler::new();
    let member = Series::Member(MemberLabels {});
    let bot = Series::Bot(BotLabels {});
    assert_eq!(h.guild_member_addition(&user(1, false)), vec![Action::Inc(member.clone())]);
    assert_eq!(
        h.guild_member_addition(&user(2, true)),
        vec![Action::Inc(member.clone()), Action::Inc(bot.clone())]
    );
    assert_eq!(h.guild_member_removal(&user(2, true)), vec![Action::Dec(member), Action::Dec(bot)]);
}

#[test]
fn guild_update_moves_name_and_sets_boosts() {
    let h = Handler::new();
    let old = guild(vec![], vec![]);
    let new = PartialGuild { id: 7, name: "H".to_string(), premium_subscription_count: Some(3) };
    assert_eq!(
        h.guild_update(Some(&old), &new),
        vec![
            Action::Remove(Series::Guild(GuildsLabels { guild_name: "G".to_string() })),
            Action::SetValue(Series::Guild(GuildsLabels { guild_name: "H".to_string() }), 1),
            Action::SetValue(Series::Boost(BoostLabels {}), 3),
        ]
    );
    let none = PartialGuild { id: 7, name: "H".to_string(), premium_subscription_count: None };
    assert_eq!(h.guild_update(None, &none), vec![Action::SetValue(Series::Boost(BoostLabels {}), 0)]);
}

#[test]
fn channel_events() {
    let h = Handler::new();
    let c = channel(2, Some(1), "C", 0);
    let d = channel(2, Some(1), "D", 0);
    let labels = |ch: &GuildChannel| Series::Channel(ChannelLabels::new(ch));
    assert_eq!(h.channel_create(&c), vec![Action::SetValue(labels(&c), 1)]);
    assert_eq!(h.channel_delete(&c), vec![Action::Remove(labels(&c))]);
    assert_eq!(h.channel_update(Some(&c), &d), vec![Action::Remove(labels(&c)), Action::SetValue(labels(&d), 1)]);
    assert_eq!(h.channel_update(None, &d), vec![Action::SetValue(labels(&d), 1)]);
}

#[test]
fn bootstrap_counts_presences_and_voices() {
    let mut h = Handler::new();
    let g = guild(
        vec![
            presence(10, OnlineStatus::Online, vec![Activity { application_id: None, name: "a".to_string() }]),
            presence(11, OnlineStatus::Idle, vec![]),
        ],
        vec![voice(10, Some(2)), voice(11, None), voice(12, Some(99))],
    );
    let actions = h.guild_create(&g);
    assert!(h.created());
    let statuses = actions.iter().filter(|a| matches!(a, Action::Inc(Series::MemberStatus(_)))).count();
    let voices = actions.iter().filter(|a| matches!(a, Action::Inc(Series::MemberVoice(_)))).count();
    assert_eq!(statuses, 2);
    assert_eq!(voices, 1);
    assert!(actions.contains(&Action::Inconsistent(99)));
    assert_eq!(actions[0], Action::SetValue(Series::Guild(GuildsLabels { guild_name: "G".to_string() }), 1));
    assert!(actions.contains(&Action::SetValue(Series::Member(MemberLabels {}), 5)));
    assert!(actions.contains(&Action::SetValue(Series::Boost(BoostLabels {}), 0)));
    let channels = actions.iter().filter(|a| matches!(a, Action::SetValue(Series::Channel(_), 1))).count();
    assert_eq!(channels, 4);
    assert_eq!(h.cached_presence(7, 11).map(|p| p.status), Some(OnlineStatus::Idle));
}

#[test]
fn second_bootstrap_clears_first() {
    let mut h = Handler::new();
    h.guild_create(&guild(vec![presence(10, OnlineStatus::Online, vec![])], vec![]));
    let again = h.guild_create(&guild(vec![], vec![]));
    assert_eq!(again[0], Action::Clear);
    assert_eq!(h.cached_presence(7, 10), None);
}

#[test]
fn guild_delete_clears_everything() {
    let mut h = Handler::new();
    h.guild_create(&guild(vec![presence(10, OnlineStatus::Online, vec![])], vec![]));
    assert_eq!(h.guild_delete(7), vec![Action::Clear]);
    assert!(!h.created());
    assert_eq!(h.cached_presence(7, 10), None);
}

#[test]
fn bot_pages() {
    let bot = Series::Bot(BotLabels {});
    let page = vec![user(1, true), user(2, false), user(3, true)];
    assert_eq!(count_bots(Some(&page)), (vec![Action::IncBy(bot.clone(), 2)], Some(3)));
    assert_eq!(count_bots(Some(&vec![])), (vec![Action::IncBy(bot.clone(), 0)], None));
    assert_eq!(count_bots(None), (vec![Action::Remove(bot)], None));
}

#[test]
fn presence_cache_is_keyed_by_guild_and_user() {
    let mut cache = PresenceCache::new();
    let p = presence(10, OnlineStatus::Online, vec![]);
    let q = presence(10, OnlineStatus::Idle, vec![]);
    cache.put(7, 10, p.clone());
    cache.put(8, 10, q.clone());
    assert_eq!(cache.get(7, 10), Some(&p));
    assert_eq!(cache.get(8, 10), Some(&q));
    assert_eq!(cache.get(7, 11), None);
    cache.remove_all(7);
    assert_eq!(cache.get(7, 10), None);
    assert_eq!(cache.get(8, 10), Some(&q));
    cache.clear();
    assert_eq!(cache.get(8, 10), None);
}

#[test]
fn guild_delete_keeps_other_guilds_presences() {
    let mut h = Handler::new();
    let mut other = presence(20, OnlineStatus::Online, vec![]);
    other.guild_id = Some(8);
    h.presence_update(other.clone());
    h.guild_create(&guild(vec![presence(10, OnlineStatus::Online, vec![])], vec![]));
    h.guild_delete(7);
    assert_eq!(h.cached_presence(7, 10), None);
    assert_eq!(h.cached_presence(8, 20), Some(&other));
}

#[test]
fn handle_dispatches_each_event() {
    let mut h = Handler::new();
    let none: Vec<GuildChannel> = Vec::new();
    let created = h.handle(Event::GuildCreate(guild(vec![presence(10, OnlineStatus::Online, vec![])], vec![])), &none);
    assert_eq!(created[0], Action::SetValue(Series::Guild(GuildsLabels { guild_name: "G".to_string() }), 1));
    assert!(h.created());
    let moved = h.handle(Event::PresenceUpdate(presence(10, OnlineStatus::Idle, vec![])), &none);
    assert_eq!(moved, vec![Action::Dec(status("online")), Action::Inc(status("idle"))]);
    let msg = Message { guild_id: Some(7), channel_id: 3, author: user(10, false), content: "hi".to_string() };
    assert_eq!(
        h.handle(Event::Message(msg), &topology()),
        vec![Action::Inc(Series::MessageSent(MessageSentLabels { category_id: Some(1), channel_id: 2 }))]
    );
    let joined = h.handle(Event::VoiceStateUpdate(None, voice(10, Some(2))), &topology());
    assert_eq!(joined, vec![Action::Inc(voice_series(Some(1), 2))]);
    assert_eq!(h.handle(Event::MemberAddition(user(3, true)), &none).len(), 2);
    assert_eq!(h.handle(Event::GuildDelete(7), &none), vec![Action::Clear]);
    assert!(!h.created());
    assert_eq!(h.cached_presence(7, 10), None);
}

#[test]
fn bot_messages_count_when_not_filtered() {
    let h = Handler::with_bot_filter(false);
    let msg = Message { guild_id: Some(7), channel_id: 4, author: user(10, true), content: "beep".to_string() };
    assert_eq!(
        h.message(&msg, &topology()),
        vec![Action::Inc(Series::MessageSent(MessageSentLabels { category_id: None, channel_id: 4 }))]
    );
    let reaction = Reaction {
        guild_id: Some(7),
        channel_id: 4,
        member: Some(User { id: 10, bot: false, system: true }),
        emoji: ReactionType::Custom { animated: false, id: 5, name: None },
    };
    assert_eq!(h.reaction_add(&reaction, &topology()).len(), 1);
}

#[test]
fn message_with_non_ascii_words_counts_no_emote() {
    let h = Handler::new();
    let msg = Message {
        guild_id: Some(7),
        channel_id: 4,
        author: user(10, false),
        content: "<:é:1> <a:éé:1> <:wave:123>".to_string(),
    };
    let actions = h.message(&msg, &topology());
    assert_eq!(actions.len(), 2);
    assert_eq!(
        actions[1],
        Action::Inc(Series::EmoteUsed(EmoteUsedLabels {
            category_id: None,
            channel_id: 4,
            reaction: Boolean(false),
            emoji_id: 123,
            emoji_name: Some("wave".to_string()),
        }))
    );
    assert!(custom_emotes(&vec!["<:é:1>".to_string(), "<a:éé:1>".to_string()]).is_empty());
}

#[test]
fn presence_updates_converge_to_the_last() {
    let mut h = Handler::new();
    h.presence_update(presence(10, OnlineStatus::Online, vec![]));
    let game = Activity { application_id: Some(1), name: "g".to_string() };
    let first = h.presence_update(presence(10, OnlineStatus::Idle, vec![game.clone()]));
    let second = h.presence_update(presence(10, OnlineStatus::DoNotDisturb, vec![]));
    let act = Series::Activity(ActivityLabels::new(&game));
    assert_eq!(
        first,
        vec![Action::Dec(status("online")), Action::Inc(status("idle")), Action::Inc(act.clone())]
    );
    assert_eq!(second, vec![Action::Dec(status("idle")), Action::Dec(act), Action::Inc(status("dnd"))]);
    assert_eq!(h.cached_presence(7, 10).map(|p| p.status), Some(OnlineStatus::DoNotDisturb));
}
