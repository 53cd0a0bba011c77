//! The guild event synchronizer: for each gateway event, the registry
//! actions that keep the metrics in step with the guild, and the presence
//! cache that lets a presence's old series be decremented.

use crate::metrics::{
    status_name, channel_key, voice_key, actions_view, Action, ActionView, ActivityLabels,
    BoostLabels, BotLabels, ChannelLabels, EmoteUsedLabels, GuildsLabels, MemberLabels,
    MemberStatusLabels, MemberVoiceLabels, MessageSentLabels, Series, SeriesKey,
};
use crate::model::{
    duplicate_activities, Guild, GuildChannel, Message, PartialGuild, Presence, PresenceView,
    Reaction, ReactionType, User, VoiceState,
};
use crate::events::{
    channel_update_step, guild_update_step, member_step, message_step, reaction_step, voice_step,
};
use crate::topology::{category_channel, resolve};
use crate::cache::{cache_get, without_guild, PresenceCache};
use vstd::prelude::*;
use vstd::utf8::is_ascii_chars;

verus! {

/// The synchronizer of one guild: whether the guild is visible, the last
/// presence seen of each user, and whether messages and reactions of bot and
/// system accounts are left uncounted.
pub struct Handler {
    created: bool,
    users: PresenceCache,
    skip_bots: bool,
}

/// The series of the members with a status.
pub open spec fn status_key(s: crate::model::OnlineStatus) -> SeriesKey {
    SeriesKey::MemberStatus(status_name(s))
}

/// One step for the status and one for each activity of a presence, each
/// made by `step`.
pub open spec fn presence_steps(p: PresenceView, step: spec_fn(SeriesKey) -> ActionView) -> Seq<
    ActionView,
> {
    seq![step(status_key(p.status))] + p.activities.map_values(
        |a: (Option<u64>, Seq<char>)| step(SeriesKey::Activity(a)),
    )
}

/// The increments that a presence accounts for.
pub open spec fn presence_incs(p: PresenceView) -> Seq<ActionView> {
    presence_steps(p, |k: SeriesKey| ActionView::Inc(k))
}

/// The decrements that take a presence back out.
pub open spec fn presence_decs(p: PresenceView) -> Seq<ActionView> {
    presence_steps(p, |k: SeriesKey| ActionView::Dec(k))
}

/// A presence update: the cached presence, if any, is taken out, and the new
/// one put in.
pub open spec fn presence_update_actions(old: Option<PresenceView>, new: PresenceView) -> Seq<
    ActionView,
> {
    match old {
        Some(o) => presence_decs(o) + presence_incs(new),
        None => presence_incs(new),
    }
}

/// The step for a voice connection in a topology: none where it is in no
/// channel, an increment (or decrement) of its series where its channel
/// resolves, and a note of the channel where it does not.
pub open spec fn voice_actions(cs: Seq<GuildChannel>, v: VoiceState, inc: bool) -> Seq<ActionView> {
    match v.channel_id {
        None => seq![],
        Some(c) => match resolve(cs, c) {
            Ok((category_id, channel_id)) => {
                let k = SeriesKey::MemberVoice(voice_key(category_id, channel_id, v));
                if inc {
                    seq![ActionView::Inc(k)]
                } else {
                    seq![ActionView::Dec(k)]
                }
            },
            Err(_) => seq![ActionView::Inconsistent(c)],
        },
    }
}

/// Appends the steps for a presence: increments, or decrements.
fn push_presence(actions: &mut Vec<Action>, p: &Presence, inc: bool)
    ensures
        actions_view(final(actions)@) == actions_view(old(actions)@) + if inc {
            presence_incs(p@)
        } else {
            presence_decs(p@)
        },
{
    let ghost start = actions_view(actions@);
    let ghost step: spec_fn(SeriesKey) -> ActionView = if inc {
        |k: SeriesKey| ActionView::Inc(k)
    } else {
        |k: SeriesKey| ActionView::Dec(k)
    };
    let status = Series::MemberStatus(MemberStatusLabels::new(p.status));
    if inc {
        actions.push(Action::Inc(status));
    } else {
        actions.push(Action::Dec(status));
    }
    let ghost acts = p@.activities;
    assert(actions_view(actions@) =~= start + seq![step(status_key(p.status))]);
    let mut i: usize = 0;
    while i < p.activities.len()
        invariant
            i <= p.activities.len(),
            acts == p@.activities,
            acts.len() == p.activities@.len(),
            forall|j: int| 0 <= j < acts.len() ==> acts[j] == #[trigger] p.activities@[j]@,
            step == (if inc {
                |k: SeriesKey| ActionView::Inc(k)
            } else {
                |k: SeriesKey| ActionView::Dec(k)
            }),
            actions_view(actions@) == start + seq![step(status_key(p.status))] + acts.subrange(
                0,
                i as int,
            ).map_values(|a: (Option<u64>, Seq<char>)| step(SeriesKey::Activity(a))),
        decreases p.activities.len() - i,
    {
        let ghost before = actions@;
        let series = Series::Activity(ActivityLabels::new(&p.activities[i]));
        if inc {
            actions.push(Action::Inc(series));
        } else {
            actions.push(Action::Dec(series));
        }
        proof {
            assert(acts.subrange(0, i + 1) =~= acts.subrange(0, i as int).push(acts[i as int]));
            let f = |a: (Option<u64>, Seq<char>)| step(SeriesKey::Activity(a));
            assert(acts.subrange(0, i + 1).map_values(f) =~= acts.subrange(0, i as int).map_values(
                f,
            ).push(f(acts[i as int])));
            assert(actions_view(actions@) =~= actions_view(before).push(f(acts[i as int])));
        }
        i = i + 1;
    }
    assert(acts.subrange(0, acts.len() as int) =~= acts);
}

/// Appends the step for a voice connection (see `voice_actions`).
fn push_voice(actions: &mut Vec<Action>, channels: &Vec<GuildChannel>, v: &VoiceState, inc: bool)
    ensures
        actions_view(final(actions)@) == actions_view(old(actions)@) + voice_actions(
            channels@,
            *v,
            inc,
        ),
{
    let ghost start = actions@;
    match v.channel_id {
        None => {
            assert(actions_view(actions@) =~= actions_view(start) + seq![]);
        },
        Some(c) => {
            match category_channel(channels, c) {
                Ok((category_id, channel_id)) => {
                    let series = Series::MemberVoice(MemberVoiceLabels::new(category_id, channel_id, v));
                    if inc {
                        actions.push(Action::Inc(series));
                    } else {
                        actions.push(Action::Dec(series));
                    }
                },
                Err(_) => {
                    actions.push(Action::Inconsistent(c));
                },
            }
            assert(actions_view(actions@) =~= actions_view(start) + voice_actions(channels@, *v, inc));
        },
    }
}

/// The words of a text, split at white space.
pub uninterp spec fn words_of(s: Seq<char>) -> Seq<Seq<char>>;

/// The views of a list of strings.
pub open spec fn strings_view(v: Seq<String>) -> Seq<Seq<char>> {
    v.map_values(|s: String| s@)
}

/// Relies on `str::split_whitespace`: the words of a text, split at Unicode
/// white space, which depend on the text alone.
#[verifier::external_body]
fn split_words(s: &String) -> (r: Vec<String>)
    ensures
        strings_view(r@) == words_of(s@),
{
    s.split_whitespace().map(|w| w.to_string()).collect()
}

/// The id and name of the custom emoji that a word spells, if it spells one.
pub uninterp spec fn custom_emoji_of(s: Seq<char>) -> Option<(u64, Seq<char>)>;

/// The view of an emoji's id and name.
pub open spec fn emoji_view(e: (u64, String)) -> (u64, Seq<char>) {
    (e.0, e.1@)
}

/// Relies on serenity's `parse_emoji`: the id and name of the custom emoji
/// that a word spells, which depend on the word alone. It slices the word at
/// byte positions counted as characters, so it is called on ASCII words only.
#[verifier::external_body]
fn parse_custom_emoji(word: &String) -> (r: Option<(u64, String)>)
    requires
        is_ascii_chars(word@),
    ensures
        r matches Some(e) ==> custom_emoji_of(word@) == Some(emoji_view(e)),
        r is None ==> custom_emoji_of(word@) is None,
{
    serenity::utils::parse_emoji(word).map(|e| (e.id.get(), e.name))
}

/// The custom emoji that a word spells, if any. A custom emoji is written
/// in ASCII (`<:name:id>`, or `<a:name:id>` where it is animated), so a word
/// that is not ASCII spells none.
pub open spec fn emoji_of_word(w: Seq<char>) -> Option<(u64, Seq<char>)> {
    if is_ascii_chars(w) {
        custom_emoji_of(w)
    } else {
        None
    }
}

/// The custom emojis among a list of words, in order.
pub open spec fn emotes_of(ws: Seq<Seq<char>>) -> Seq<(u64, Seq<char>)>
    decreases ws.len(),
{
    if ws.len() == 0 {
        seq![]
    } else {
        let rest = emotes_of(ws.drop_last());
        match emoji_of_word(ws.last()) {
            Some(e) => rest.push(e),
            None => rest,
        }
    }
}

/// The views of a list of emojis.
pub open spec fn emotes_view(v: Seq<(u64, String)>) -> Seq<(u64, Seq<char>)> {
    v.map_values(|e: (u64, String)| emoji_view(e))
}

/// The custom emojis among a list of words, in order.
pub fn custom_emotes(words: &Vec<String>) -> (r: Vec<(u64, String)>)
    ensures
        emotes_view(r@) == emotes_of(strings_view(words@)),
{
    let mut r: Vec<(u64, String)> = Vec::new();
    let mut i: usize = 0;
    while i < words.len()
        invariant
            i <= words.len(),
            emotes_view(r@) == emotes_of(strings_view(words@.subrange(0, i as int))),
        decreases words.len() - i,
    {
        let ghost before = r@;
        proof {
            let ws = strings_view(words@.subrange(0, i + 1));
            assert(ws.drop_last() =~= strings_view(words@.subrange(0, i as int)));
            assert(ws.last() == words@[i as int]@);
        }
        if words[i].as_str().is_ascii() {
            match parse_custom_emoji(&words[i]) {
                Some(e) => {
                    r.push(e);
                    assert(emotes_view(r@) =~= emotes_view(before).push(emoji_view(r@.last())));
                },
                None => {},
            }
        }
        i = i + 1;
    }
    assert(words@.subrange(0, words@.len() as int) =~= words@);
    r
}

/// A message's step: one increment for the message, and one for each custom
/// emoji that it holds, in order.
pub open spec fn message_actions_of(
    category_id: Option<u64>,
    channel_id: u64,
    emotes: Seq<(u64, Seq<char>)>,
) -> Seq<ActionView> {
    seq![ActionView::Inc(SeriesKey::MessageSent(MessageSentLabels { category_id, channel_id }))]
        + emotes.map_values(
        |e: (u64, Seq<char>)|
            ActionView::Inc(SeriesKey::EmoteUsed((category_id, channel_id, false, e.0, Some(e.1)))),
    )
}

/// The actions for a message in a channel that holds the given custom emojis.
pub fn message_actions(category_id: Option<u64>, channel_id: u64, emotes: &Vec<(u64, String)>) -> (r:
    Vec<Action>)
    ensures
        actions_view(r@) == message_actions_of(category_id, channel_id, emotes_view(emotes@)),
{
    let mut r: Vec<Action> = Vec::new();
    r.push(Action::Inc(Series::MessageSent(MessageSentLabels::new(category_id, channel_id))));
    let ghost f = |e: (u64, Seq<char>)|
        ActionView::Inc(SeriesKey::EmoteUsed((category_id, channel_id, false, e.0, Some(e.1))));
    let ghost head = seq![ActionView::Inc(SeriesKey::MessageSent(MessageSentLabels { category_id, channel_id }))];
    assert(actions_view(r@) =~= head);
    let mut i: usize = 0;
    while i < emotes.len()
        invariant
            i <= emotes.len(),
            f == (|e: (u64, Seq<char>)|
                ActionView::Inc(SeriesKey::EmoteUsed((category_id, channel_id, false, e.0, Some(e.1))))),
            actions_view(r@) == head + emotes_view(emotes@.subrange(0, i as int)).map_values(f),
        decreases emotes.len() - i,
    {
        let ghost before = r@;
        let name = emotes[i].1.clone();
        r.push(Action::Inc(Series::EmoteUsed(EmoteUsedLabels::new(category_id, channel_id, false, emotes[i].0, Some(name)))));
        proof {
            assert(emotes_view(emotes@.subrange(0, i + 1)) =~= emotes_view(emotes@.subrange(0, i as int)).push(emoji_view(emotes@[i as int])));
            assert(actions_view(r@) =~= actions_view(before).push(f(emoji_view(emotes@[i as int]))));
        }
        i = i + 1;
    }
    assert(emotes@.subrange(0, emotes@.len() as int) =~= emotes@);
    r
}

/// The channel series of a guild's channels, each set to 1.
pub open spec fn channel_sets(cs: Seq<GuildChannel>) -> Seq<ActionView> {
    cs.map_values(|c: GuildChannel| ActionView::SetValue(SeriesKey::Channel(channel_key(c)), 1))
}

/// The increments that a list of presences accounts for, in order.
pub open spec fn presences_incs(ps: Seq<Presence>) -> Seq<ActionView>
    decreases ps.len(),
{
    if ps.len() == 0 {
        seq![]
    } else {
        presences_incs(ps.drop_last()) + presence_incs(ps.last()@)
    }
}

/// The increments for a list of voice states, in order (see `voice_actions`).
pub open spec fn voices_incs(cs: Seq<GuildChannel>, vs: Seq<VoiceState>) -> Seq<ActionView>
    decreases vs.len(),
{
    if vs.len() == 0 {
        seq![]
    } else {
        voices_incs(cs, vs.drop_last()) + voice_actions(cs, vs.last(), true)
    }
}

/// A presence cache after a guild's list of presences is put in, in order.
pub open spec fn seed_cache(m: Map<(u64, u64), PresenceView>, guild_id: u64, ps: Seq<Presence>) -> Map<
    (u64, u64),
    PresenceView,
>
    decreases ps.len(),
{
    if ps.len() == 0 {
        m
    } else {
        seed_cache(m, guild_id, ps.drop_last()).insert((guild_id, ps.last().user_id), ps.last()@)
    }
}

/// The boost count of a guild; 0 where it is absent.
pub open spec fn boosts_of(n: Option<u64>) -> int {
    match n {
        Some(b) => b as int,
        None => 0,
    }
}

/// The actions of a guild becoming visible, bots aside: everything is
/// cleared first where the guild was already visible; then the guild's
/// series and each channel's are set to 1, the boost and member counts set,
/// each presence's series incremented, and each voice connection's.
pub open spec fn guild_create_actions(created: bool, g: Guild) -> Seq<ActionView> {
    (if created {
        seq![ActionView::Clear]
    } else {
        seq![]
    }) + seq![ActionView::SetValue(SeriesKey::Guild(g.name@), 1)] + channel_sets(g.channels@) + seq![
        ActionView::SetValue(SeriesKey::Boost, boosts_of(g.premium_subscription_count)),
        ActionView::SetValue(SeriesKey::Member, g.member_count as int),
    ] + presences_incs(g.presences@) + voices_incs(g.channels@, g.voice_states@)
}

/// The number of bots in a list of members.
pub open spec fn bot_count(s: Seq<User>) -> nat
    decreases s.len(),
{
    if s.len() == 0 {
        0
    } else {
        bot_count(s.drop_last()) + if s.last().bot {
            1nat
        } else {
            0nat
        }
    }
}

proof fn lemma_bot_count_le(s: Seq<User>)
    ensures
        bot_count(s) <= s.len(),
    decreases s.len(),
{
    if s.len() > 0 {
        lemma_bot_count_le(s.drop_last());
    }
}

/// One page of the listing of a guild's members, or `None` where the
/// request failed. A page adds its bots to the bot count, and the listing
/// goes on after its last member; an empty page ends it. A failed request
/// drops the bot count, which is then unknown, and ends the listing.
pub fn count_bots(page: Option<&Vec<User>>) -> (r: (Vec<Action>, Option<u64>))
    ensures
        page is None ==> actions_view(r.0@) == seq![ActionView::Remove(SeriesKey::Bot)] && r.1 is None,
        page matches Some(ms) ==> {
            &&& actions_view(r.0@) == seq![ActionView::IncBy(SeriesKey::Bot, bot_count(ms@))]
            &&& r.1 == if ms@.len() == 0 {
                None::<u64>
            } else {
                Some(ms@.last().id)
            }
        },
{
    match page {
        None => {
            let r = vec![Action::Remove(Series::Bot(BotLabels::new()))];
            assert(actions_view(r@) =~= seq![ActionView::Remove(SeriesKey::Bot)]);
            (r, None)
        },
        Some(ms) => {
            let mut n: usize = 0;
            let mut i: usize = 0;
            while i < ms.len()
                invariant
                    i <= ms.len(),
                    n == bot_count(ms@.subrange(0, i as int)),
                decreases ms.len() - i,
            {
                proof {
                    assert(ms@.subrange(0, i + 1).drop_last() =~= ms@.subrange(0, i as int));
                    lemma_bot_count_le(ms@.subrange(0, i as int));
                }
                if ms[i].bot {
                    n = n + 1;
                }
                i = i + 1;
            }
            assert(ms@.subrange(0, ms@.len() as int) =~= ms@);
            let r = vec![Action::IncBy(Series::Bot(BotLabels::new()), n as u64)];
            assert(actions_view(r@) =~= seq![ActionView::IncBy(SeriesKey::Bot, bot_count(ms@))]);
            let next = if ms.len() == 0 {
                None
            } else {
                Some(ms[ms.len() - 1].id)
            };
            (r, next)
        },
    }
}

impl Handler {
    /// Whether the guild is visible.
    pub closed spec fn is_created(&self) -> bool {
        self.created
    }

    /// The last presence seen of each user, by guild and user.
    pub closed spec fn cache(&self) -> Map<(u64, u64), PresenceView> {
        self.users@
    }

    /// Whether the guild is visible.
    pub fn created(&self) -> (r: bool)
        ensures
            r == self.is_created(),
    {
        self.created
    }

    /// The presence cached for a user of a guild, if any.
    pub fn cached_presence(&self, guild_id: u64, user_id: u64) -> (r: Option<&Presence>)
        ensures
            r matches Some(p) ==> cache_get(self.cache(), (guild_id, user_id)) == Some(p@),
            r is None ==> cache_get(self.cache(), (guild_id, user_id)) is None,
    {
        self.users.get(guild_id, user_id)
    }

    /// Whether messages and reactions of bot and system accounts are left
    /// uncounted.
    pub closed spec fn skips_bots(&self) -> bool {
        self.skip_bots
    }

    /// A synchronizer for a guild that is not visible yet, which leaves the
    /// messages and reactions of bot and system accounts uncounted.
    pub fn new() -> (r: Self)
        ensures
            !r.is_created(),
            r.cache() == Map::<(u64, u64), PresenceView>::empty(),
            r.skips_bots(),
    {
        Self { created: false, users: PresenceCache::new(), skip_bots: true }
    }

    /// A synchronizer for a guild that is not visible yet, which counts the
    /// messages and reactions of bot and system accounts unless `skip_bots`.
    pub fn with_bot_filter(skip_bots: bool) -> (r: Self)
        ensures
            !r.is_created(),
            r.cache() == Map::<(u64, u64), PresenceView>::empty(),
            r.skips_bots() == skip_bots,
    {
        Self { created: false, users: PresenceCache::new(), skip_bots }
    }

    /// A presence update in a guild: decrements the series of the presence
    /// cached for the user in that guild, if any, increments those of the new
    /// one, and caches it. An update outside a guild changes nothing.
    pub fn presence_update(&mut self, new_data: Presence) -> (r: Vec<Action>)
        ensures
            final(self).is_created() == old(self).is_created(),
            final(self).skips_bots() == old(self).skips_bots(),
            new_data.guild_id is None ==> r@.len() == 0 && final(self).cache() == old(self).cache(),
            new_data.guild_id matches Some(g) ==> {
                &&& actions_view(r@) == presence_update_actions(
                    cache_get(old(self).cache(), (g, new_data.user_id)),
                    new_data@,
                )
                &&& final(self).cache() == old(self).cache().insert((g, new_data.user_id), new_data@)
            },
    {
        let mut actions: Vec<Action> = Vec::new();
        let guild_id = match new_data.guild_id {
            Some(g) => g,
            None => {
                return actions;
            },
        };
        // Decrement the series of the cached presence, if any
        match self.users.get(guild_id, new_data.user_id) {
            Some(cached) => {
                push_presence(&mut actions, cached, false);
            },
            None => {},
        }
        push_presence(&mut actions, &new_data, true);
        assert(actions_view(actions@) =~= presence_update_actions(
            cache_get(old(self).cache(), (guild_id, new_data.user_id)),
            new_data@,
        ));
        let user_id = new_data.user_id;
        self.users.put(guild_id, user_id, new_data);
        actions
    }

    /// A message: its counts (see `message_step`).
    pub fn message(&self, msg: &Message, channels: &Vec<GuildChannel>) -> (r: Vec<Action>)
        ensures
            actions_view(r@) == message_step(self.skips_bots(), *msg, channels@),
    {
        if msg.guild_id.is_none() || (self.skip_bots && (msg.author.bot || msg.author.system)) {
            let r: Vec<Action> = Vec::new();
            assert(actions_view(r@) =~= seq![]);
            return r;
        }
        match category_channel(channels, msg.channel_id) {
            Ok((category_id, channel_id)) => {
                let words = split_words(&msg.content);
                let emotes = custom_emotes(&words);
                message_actions(category_id, channel_id, &emotes)
            },
            Err(_) => {
                let r = vec![Action::Inconsistent(msg.channel_id)];
                assert(actions_view(r@) =~= seq![ActionView::Inconsistent(msg.channel_id)]);
                r
            },
        }
    }

    /// A reaction: its count (see `reaction_step`).
    pub fn reaction_add(&self, add_reaction: &Reaction, channels: &Vec<GuildChannel>) -> (r: Vec<
        Action,
    >)
        ensures
            actions_view(r@) == reaction_step(self.skips_bots(), *add_reaction, channels@),
    {
        let none: Vec<Action> = Vec::new();
        assert(actions_view(none@) =~= seq![]);
        if add_reaction.guild_id.is_none() {
            return none;
        }
        match &add_reaction.member {
            Some(u) => {
                if self.skip_bots && (u.bot || u.system) {
                    return none;
                }
            },
            None => {},
        }
        let (id, name) = match &add_reaction.emoji {
            ReactionType::Custom { id, name, .. } => (*id, name.clone()),
            ReactionType::Unicode(_) => {
                return none;
            },
        };
        let r = match category_channel(channels, add_reaction.channel_id) {
            Ok((category_id, channel_id)) => vec![
                Action::Inc(Series::EmoteUsed(EmoteUsedLabels::new(category_id, channel_id, true, id, name))),
            ],
            Err(_) => vec![Action::Inconsistent(add_reaction.channel_id)],
        };
        assert(actions_view(r@) =~= seq![r@[0]@]);
        r
    }

    /// A voice state update in a guild: the old state's series, where it was
    /// in a channel, is decremented, and the new state's, where it is in a
    /// channel, incremented (see `voice_actions`). An update outside a guild
    /// changes nothing.
    pub fn voice_state_update(
        &self,
        old: Option<VoiceState>,
        new: VoiceState,
        channels: &Vec<GuildChannel>,
    ) -> (r: Vec<Action>)
        ensures
            actions_view(r@) == voice_step(old, new, channels@),
    {
        let mut actions: Vec<Action> = Vec::new();
        assert(actions_view(actions@) =~= seq![]);
        if new.guild_id.is_none() {
            return actions;
        }
        match old {
            Some(o) => {
                push_voice(&mut actions, channels, &o, false);
            },
            None => {},
        }
        push_voice(&mut actions, channels, &new, true);
        actions
    }

    /// A member joined: the member count goes up, and the bot count too
    /// where the member is a bot.
    pub fn guild_member_addition(&self, user: &User) -> (r: Vec<Action>)
        ensures
            actions_view(r@) == member_step(*user, true),
    {
        let mut r = vec![Action::Inc(Series::Member(MemberLabels::new()))];
        if user.bot {
            r.push(Action::Inc(Series::Bot(BotLabels::new())));
        }
        assert(actions_view(r@) =~= seq![ActionView::Inc(SeriesKey::Member)] + if user.bot {
            seq![ActionView::Inc(SeriesKey::Bot)]
        } else {
            seq![]
        });
        r
    }

    /// A member left: the member count goes down, and the bot count too
    /// where the member is a bot.
    pub fn guild_member_removal(&self, user: &User) -> (r: Vec<Action>)
        ensures
            actions_view(r@) == member_step(*user, false),
    {
        let mut r = vec![Action::Dec(Series::Member(MemberLabels::new()))];
        if user.bot {
            r.push(Action::Dec(Series::Bot(BotLabels::new())));
        }
        assert(actions_view(r@) =~= seq![ActionView::Dec(SeriesKey::Member)] + if user.bot {
            seq![ActionView::Dec(SeriesKey::Bot)]
        } else {
            seq![]
        });
        r
    }

    /// A guild update: where the old guild is known, its name's series is
    /// dropped and the new name's set to 1; the boost count is set from the
    /// new data, 0 where it is absent.
    pub fn guild_update(&self, old_data_if_available: Option<&Guild>, new_data: &PartialGuild) -> (r:
        Vec<Action>)
        requires
            new_data.premium_subscription_count matches Some(n) ==> n <= i64::MAX,
        ensures
            actions_view(r@) == guild_update_step(
                match old_data_if_available {
                    Some(g) => Some(*g),
                    None => None,
                },
                *new_data,
            ),
    {
        let mut r: Vec<Action> = Vec::new();
        match old_data_if_available {
            Some(g) => {
                r.push(Action::Remove(Series::Guild(GuildsLabels::new(g))));
                r.push(Action::SetValue(Series::Guild(GuildsLabels { guild_name: new_data.name.clone() }), 1));
            },
            None => {},
        }
        let boosts: u64 = match new_data.premium_subscription_count {
            Some(n) => n,
            None => 0,
        };
        r.push(Action::SetValue(Series::Boost(BoostLabels::new()), boosts as i64));
        assert(actions_view(r@) =~= match old_data_if_available {
            Some(g) => seq![
                ActionView::Remove(SeriesKey::Guild(g.name@)),
                ActionView::SetValue(SeriesKey::Guild(new_data.name@), 1),
            ],
            None => seq![],
        } + seq![ActionView::SetValue(SeriesKey::Boost, boosts as int)]);
        r
    }

    /// A channel was created: its series is set to 1.
    pub fn channel_create(&self, channel: &GuildChannel) -> (r: Vec<Action>)
        ensures
            actions_view(r@) == seq![ActionView::SetValue(SeriesKey::Channel(channel_key(*channel)), 1)],
    {
        let r = vec![Action::SetValue(Series::Channel(ChannelLabels::new(channel)), 1)];
        assert(actions_view(r@) =~= seq![ActionView::SetValue(SeriesKey::Channel(channel_key(*channel)), 1)]);
        r
    }

    /// A channel was deleted: its series is dropped.
    pub fn channel_delete(&self, channel: &GuildChannel) -> (r: Vec<Action>)
        ensures
            actions_view(r@) == seq![ActionView::Remove(SeriesKey::Channel(channel_key(*channel)))],
    {
        let r = vec![Action::Remove(Series::Channel(ChannelLabels::new(channel)))];
        assert(actions_view(r@) =~= seq![ActionView::Remove(SeriesKey::Channel(channel_key(*channel)))]);
        r
    }

    /// A channel was updated: the old channel's series, where it is known,
    /// is dropped, and the new one's set to 1.
    pub fn channel_update(&self, old: Option<&GuildChannel>, new: &GuildChannel) -> (r: Vec<Action>)
        ensures
            actions_view(r@) == channel_update_step(
                match old {
                    Some(o) => Some(*o),
                    None => None,
                },
                *new,
            ),
    {
        let mut r: Vec<Action> = Vec::new();
        match old {
            Some(o) => {
                r.push(Action::Remove(Series::Channel(ChannelLabels::new(o))));
            },
            None => {},
        }
        r.push(Action::SetValue(Series::Channel(ChannelLabels::new(new)), 1));
        assert(actions_view(r@) =~= match old {
            Some(o) => seq![ActionView::Remove(SeriesKey::Channel(channel_key(*o)))],
            None => seq![],
        } + seq![ActionView::SetValue(SeriesKey::Channel(channel_key(*new)), 1)]);
        r
    }

    /// The guild became invisible: every series is dropped, and the guild's
    /// entries of the presence cache.
    pub fn guild_delete(&mut self, guild_id: u64) -> (r: Vec<Action>)
        ensures
            actions_view(r@) == seq![ActionView::Clear],
            !final(self).is_created(),
            final(self).skips_bots() == old(self).skips_bots(),
            final(self).cache() == without_guild(old(self).cache(), guild_id),
    {
        self.created = false;
        self.users.remove_all(guild_id);
        let r = vec![Action::Clear];
        assert(actions_view(r@) =~= seq![ActionView::Clear]);
        r
    }

    /// The guild became visible: the actions of `guild_create_actions` (the
    /// bot count comes apart, page by page, from `count_bots`). The guild is
    /// then visible, and each of its presences cached, over an empty cache
    /// where the guild was already visible.
    pub fn guild_create(&mut self, guild: &Guild) -> (r: Vec<Action>)
        requires
            guild.member_count <= i64::MAX,
            boosts_of(guild.premium_subscription_count) <= i64::MAX,
        ensures
            actions_view(r@) == guild_create_actions(old(self).is_created(), *guild),
            final(self).is_created(),
            final(self).skips_bots() == old(self).skips_bots(),
            final(self).cache() == seed_cache(
                if old(self).is_created() {
                    Map::<(u64, u64), PresenceView>::empty()
                } else {
                    old(self).cache()
                },
                guild.id,
                guild.presences@,
            ),
    {
        let ghost was_created = self.created;
        let ghost start_cache = if was_created {
            Map::<(u64, u64), PresenceView>::empty()
        } else {
            self.cache()
        };
        // A guild seen twice starts over
        let mut actions: Vec<Action> = Vec::new();
        if self.created {
            actions.push(Action::Clear);
            self.users.clear();
        }
        self.created = true;
        assert(self.cache() =~= start_cache);

        // `guild` and `channel` metrics
        actions.push(Action::SetValue(Series::Guild(GuildsLabels::new(guild)), 1));
        let ghost head = actions_view(actions@);
        assert(head =~= (if was_created {
            seq![ActionView::Clear]
        } else {
            seq![]
        }) + seq![ActionView::SetValue(SeriesKey::Guild(guild.name@), 1)]);

        let mut i: usize = 0;
        while i < guild.channels.len()
            invariant
                i <= guild.channels.len(),
                actions_view(actions@) == head + channel_sets(guild.channels@.subrange(0, i as int)),
            decreases guild.channels.len() - i,
        {
            let ghost before = actions@;
            actions.push(Action::SetValue(Series::Channel(ChannelLabels::new(&guild.channels[i])), 1));
            proof {
                assert(guild.channels@.subrange(0, i + 1) =~= guild.channels@.subrange(0, i as int).push(
                    guild.channels@[i as int],
                ));
                assert(actions_view(actions@) =~= actions_view(before).push(actions@.last()@));
            }
            i = i + 1;
        }
        assert(guild.channels@.subrange(0, guild.channels@.len() as int) =~= guild.channels@);

        // `boost` and `member` metrics
        let boosts: u64 = match guild.premium_subscription_count {
            Some(n) => n,
            None => 0,
        };
        actions.push(Action::SetValue(Series::Boost(BoostLabels::new()), boosts as i64));
        actions.push(Action::SetValue(Series::Member(MemberLabels::new()), guild.member_count as i64));
        let ghost head = actions_view(actions@);
        assert(head =~= (if was_created {
                seq![ActionView::Clear]
            } else {
                seq![]
            }) + seq![ActionView::SetValue(SeriesKey::Guild(guild.name@), 1)] + channel_sets(guild.channels@) + seq![
                ActionView::SetValue(SeriesKey::Boost, boosts_of(guild.premium_subscription_count)),
                ActionView::SetValue(SeriesKey::Member, guild.member_count as int),
            ]);

        // `member_status` and `activity` metrics; each presence is cached so
        // that its series can be decremented on the next update
        let mut i: usize = 0;
        while i < guild.presences.len()
            invariant
                i <= guild.presences.len(),
                self.created,
                self.skip_bots == old(self).skip_bots,
                actions_view(actions@) == head + presences_incs(guild.presences@.subrange(0, i as int)),
                self.cache() == seed_cache(start_cache, guild.id, guild.presences@.subrange(0, i as int)),
            decreases guild.presences.len() - i,
        {
            let p = &guild.presences[i];
            push_presence(&mut actions, p, true);
            let copy = Presence {
                user_id: p.user_id,
                guild_id: p.guild_id,
                status: p.status,
                activities: duplicate_activities(&p.activities),
            };
            self.users.put(guild.id, p.user_id, copy);
            proof {
                let ps = guild.presences@.subrange(0, i + 1);
                assert(ps.drop_last() =~= guild.presences@.subrange(0, i as int));
                assert(ps.last() == *p);
                assert(copy@ == p@);
            }
            i = i + 1;
        }
        assert(guild.presences@.subrange(0, guild.presences@.len() as int) =~= guild.presences@);

        // `member_voice` metric
        let ghost head = actions_view(actions@);
        let mut i: usize = 0;
        while i < guild.voice_states.len()
            invariant
                i <= guild.voice_states.len(),
                actions_view(actions@) == head + voices_incs(guild.channels@, guild.voice_states@.subrange(0, i as int)),
            decreases guild.voice_states.len() - i,
        {
            push_voice(&mut actions, &guild.channels, &guild.voice_states[i], true);
            proof {
                let vs = guild.voice_states@.subrange(0, i + 1);
                assert(vs.drop_last() =~= guild.voice_states@.subrange(0, i as int));
            }
            i = i + 1;
        }
        assert(guild.voice_states@.subrange(0, guild.voice_states@.len() as int) =~= guild.voice_states@);
        actions
    }
}

} // verus!
