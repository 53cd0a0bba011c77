//! The gateway events as one type, and the synchronizer's single entry
//! point: one arm per event, each stated as a step over plain values.

use crate::cache::{cache_get, without_guild};
use crate::discord::{
    emotes_of, guild_create_actions, message_actions_of, presence_update_actions, seed_cache,
    voice_actions, words_of, Handler,
};
use crate::metrics::{channel_key, opt_view, actions_view, ActionView, Action, SeriesKey};
use crate::model::{
    Guild, GuildChannel, Message, PartialGuild, Presence, PresenceView, Reaction, User, VoiceState,
};
use crate::topology::resolve;
use vstd::prelude::*;

verus! {

/// A gateway event of a guild.
#[derive(Clone, Debug)]
pub enum Event {
    ChannelCreate(GuildChannel),
    ChannelDelete(GuildChannel),
    /// The channel before, where it is known, and after.
    ChannelUpdate(Option<GuildChannel>, GuildChannel),
    /// The guild became visible; its bots are counted apart (`count_bots`).
    GuildCreate(Guild),
    /// The guild, by id, became invisible.
    GuildDelete(u64),
    /// The guild before, where it is known, and the new data.
    GuildUpdate(Option<Guild>, PartialGuild),
    MemberAddition(User),
    MemberRemoval(User),
    Message(Message),
    ReactionAdd(Reaction),
    PresenceUpdate(Presence),
    /// The voice state before, where it is known, and after.
    VoiceStateUpdate(Option<VoiceState>, VoiceState),
}

/// The step of a message: where it was posted in a guild (by an account
/// that is neither a bot nor the system, where those are skipped) and its
/// channel resolves, one increment for the message and one for each custom
/// emoji among its words; where the channel does not resolve, a note of it.
/// Anything else changes nothing.
pub open spec fn message_step(skip_bots: bool, msg: Message, cs: Seq<GuildChannel>) -> Seq<ActionView> {
    if msg.guild_id is None || (skip_bots && (msg.author.bot || msg.author.system)) {
        seq![]
    } else {
        match resolve(cs, msg.channel_id) {
            Ok((category_id, channel_id)) => message_actions_of(
                category_id,
                channel_id,
                emotes_of(words_of(msg.content@)),
            ),
            Err(_) => seq![ActionView::Inconsistent(msg.channel_id)],
        }
    }
}

/// The step of a reaction: where it was added in a guild with a custom
/// emoji (by a member not known to be a bot or the system, where those are
/// skipped) and its channel resolves, one increment of that emoji's reaction
/// series; where the channel does not resolve, a note of it. Anything else
/// changes nothing.
pub open spec fn reaction_step(skip_bots: bool, r: Reaction, cs: Seq<GuildChannel>) -> Seq<ActionView> {
    if r.guild_id is None || (skip_bots && (r.member matches Some(u) && (u.bot || u.system)))
        || r.emoji is Unicode {
        seq![]
    } else {
        match resolve(cs, r.channel_id) {
            Ok((category_id, channel_id)) => seq![
                ActionView::Inc(
                    SeriesKey::EmoteUsed(
                        (
                            category_id,
                            channel_id,
                            true,
                            r.emoji->Custom_id,
                            opt_view(r.emoji->Custom_name),
                        ),
                    ),
                ),
            ],
            Err(_) => seq![ActionView::Inconsistent(r.channel_id)],
        }
    }
}

/// The step of a voice state update (see `Handler::voice_state_update`).
pub open spec fn voice_step(old: Option<VoiceState>, new: VoiceState, cs: Seq<GuildChannel>) -> Seq<
    ActionView,
> {
    if new.guild_id is None {
        seq![]
    } else {
        let before = match old {
            Some(o) => voice_actions(cs, o, false),
            None => seq![],
        };
        before + voice_actions(cs, new, true)
    }
}

/// The step of a member joining, or leaving.
pub open spec fn member_step(user: User, joined: bool) -> Seq<ActionView> {
    let step = |k: SeriesKey|
        if joined {
            ActionView::Inc(k)
        } else {
            ActionView::Dec(k)
        };
    seq![step(SeriesKey::Member)] + if user.bot {
        seq![step(SeriesKey::Bot)]
    } else {
        seq![]
    }
}

/// The step of a guild update (see `Handler::guild_update`).
pub open spec fn guild_update_step(old: Option<Guild>, new: PartialGuild) -> Seq<ActionView> {
    let before = match old {
        Some(g) => seq![
            ActionView::Remove(SeriesKey::Guild(g.name@)),
            ActionView::SetValue(SeriesKey::Guild(new.name@), 1),
        ],
        None => seq![],
    };
    before + seq![
        ActionView::SetValue(
            SeriesKey::Boost,
            match new.premium_subscription_count {
                Some(n) => n as int,
                None => 0,
            },
        ),
    ]
}

/// The step of a channel update (see `Handler::channel_update`).
pub open spec fn channel_update_step(old: Option<GuildChannel>, new: GuildChannel) -> Seq<ActionView> {
    let before = match old {
        Some(o) => seq![ActionView::Remove(SeriesKey::Channel(channel_key(o)))],
        None => seq![],
    };
    before + seq![ActionView::SetValue(SeriesKey::Channel(channel_key(new)), 1)]
}

/// The actions of an event, from whether the guild is visible, whether bot
/// and system accounts are skipped, the presence cache, and the guild's
/// topology.
pub open spec fn event_actions(
    created: bool,
    skip_bots: bool,
    cache: Map<(u64, u64), PresenceView>,
    e: Event,
    cs: Seq<GuildChannel>,
) -> Seq<ActionView> {
    match e {
        Event::ChannelCreate(c) => seq![ActionView::SetValue(SeriesKey::Channel(channel_key(c)), 1)],
        Event::ChannelDelete(c) => seq![ActionView::Remove(SeriesKey::Channel(channel_key(c)))],
        Event::ChannelUpdate(o, n) => channel_update_step(o, n),
        Event::GuildCreate(g) => guild_create_actions(created, g),
        Event::GuildDelete(_) => seq![ActionView::Clear],
        Event::GuildUpdate(o, n) => guild_update_step(o, n),
        Event::MemberAddition(u) => member_step(u, true),
        Event::MemberRemoval(u) => member_step(u, false),
        Event::Message(m) => message_step(skip_bots, m, cs),
        Event::ReactionAdd(r) => reaction_step(skip_bots, r, cs),
        Event::PresenceUpdate(p) => match p.guild_id {
            Some(g) => presence_update_actions(cache_get(cache, (g, p.user_id)), p@),
            None => seq![],
        },
        Event::VoiceStateUpdate(o, n) => voice_step(o, n, cs),
    }
}

/// Whether the guild is visible after an event.
pub open spec fn event_visible(created: bool, e: Event) -> bool {
    match e {
        Event::GuildCreate(_) => true,
        Event::GuildDelete(_) => false,
        _ => created,
    }
}

/// The presence cache after an event.
pub open spec fn event_cache(created: bool, cache: Map<(u64, u64), PresenceView>, e: Event) -> Map<
    (u64, u64),
    PresenceView,
> {
    match e {
        Event::GuildCreate(g) => seed_cache(
            if created {
                Map::<(u64, u64), PresenceView>::empty()
            } else {
                cache
            },
            g.id,
            g.presences@,
        ),
        Event::GuildDelete(id) => without_guild(cache, id),
        Event::PresenceUpdate(p) => match p.guild_id {
            Some(g) => cache.insert((g, p.user_id), p@),
            None => cache,
        },
        _ => cache,
    }
}

/// Whether the counts that an event sets fit a gauge.
pub open spec fn event_fits(e: Event) -> bool {
    match e {
        Event::GuildCreate(g) => g.member_count <= i64::MAX && crate::discord::boosts_of(
            g.premium_subscription_count,
        ) <= i64::MAX,
        Event::GuildUpdate(_, n) => crate::discord::boosts_of(n.premium_subscription_count)
            <= i64::MAX,
        _ => true,
    }
}

impl Handler {
    /// Handles one event: returns its actions, in order, and moves to the
    /// state after it (see `event_actions`, `event_visible`, `event_cache`).
    pub fn handle(&mut self, event: Event, channels: &Vec<GuildChannel>) -> (r: Vec<Action>)
        requires
            event_fits(event),
        ensures
            actions_view(r@) == event_actions(
                old(self).is_created(),
                old(self).skips_bots(),
                old(self).cache(),
                event,
                channels@,
            ),
            final(self).skips_bots() == old(self).skips_bots(),
            final(self).is_created() == event_visible(old(self).is_created(), event),
            final(self).cache() == event_cache(old(self).is_created(), old(self).cache(), event),
    {
        let ghost e = event;
        let r = match event {
            Event::ChannelCreate(c) => self.channel_create(&c),
            Event::ChannelDelete(c) => self.channel_delete(&c),
            Event::ChannelUpdate(o, n) => self.channel_update(o.as_ref(), &n),
            Event::GuildCreate(g) => self.guild_create(&g),
            Event::GuildDelete(id) => self.guild_delete(id),
            Event::GuildUpdate(o, n) => self.guild_update(o.as_ref(), &n),
            Event::MemberAddition(u) => self.guild_member_addition(&u),
            Event::MemberRemoval(u) => self.guild_member_removal(&u),
            Event::Message(m) => self.message(&m, channels),
            Event::ReactionAdd(a) => self.reaction_add(&a, channels),
            Event::PresenceUpdate(p) => self.presence_update(p),
            Event::VoiceStateUpdate(o, n) => self.voice_state_update(o, n, channels),
        };
        assert(actions_view(r@) =~= event_actions(
            old(self).is_created(),
            old(self).skips_bots(),
            old(self).cache(),
            e,
            channels@,
        ));
        r
    }
}

} // verus!
