//! The label sets of the exporter's metrics, the actions that change a metric
//! registry, and a model of what a registry holds after a run of actions.

use crate::model::{Activity, GuildChannel, Guild, OnlineStatus, VoiceState};
use vstd::prelude::*;

verus! {

/// A `bool` as a label value; it reads "true" or "false".
#[derive(Clone, Copy, Debug, Hash, PartialEq, Eq, Structural)]
pub struct Boolean(pub bool);

impl From<Boolean> for bool {
    fn from(val: Boolean) -> (r: bool)
        ensures
            r == val.0,
    {
        val.0
    }
}

impl vstd::std_specs::convert::FromSpecImpl<Boolean> for bool {
    open spec fn obeys_from_spec() -> bool {
        true
    }

    open spec fn from_spec(val: Boolean) -> bool {
        val.0
    }
}

impl From<bool> for Boolean {
    fn from(val: bool) -> (r: Boolean)
        ensures
            r.0 == val,
    {
        Boolean(val)
    }
}

impl vstd::std_specs::convert::FromSpecImpl<bool> for Boolean {
    open spec fn obeys_from_spec() -> bool {
        true
    }

    open spec fn from_spec(val: bool) -> Boolean {
        Boolean(val)
    }
}

/// The name that the platform gives a status.
pub open spec fn status_name(s: OnlineStatus) -> Seq<char> {
    match s {
        OnlineStatus::DoNotDisturb => seq!['d', 'n', 'd'],
        OnlineStatus::Idle => seq!['i', 'd', 'l', 'e'],
        OnlineStatus::Invisible => seq!['i', 'n', 'v', 'i', 's', 'i', 'b', 'l', 'e'],
        OnlineStatus::Offline => seq!['o', 'f', 'f', 'l', 'i', 'n', 'e'],
        OnlineStatus::Online => seq!['o', 'n', 'l', 'i', 'n', 'e'],
    }
}

/// Relies on serenity's `OnlineStatus::name`, which names each status as
/// `status_name` does.
#[verifier::external_body]
fn online_status_name(s: OnlineStatus) -> (r: String)
    ensures
        r@ == status_name(s),
{
    let status = match s {
        OnlineStatus::DoNotDisturb => serenity::model::user::OnlineStatus::DoNotDisturb,
        OnlineStatus::Idle => serenity::model::user::OnlineStatus::Idle,
        OnlineStatus::Invisible => serenity::model::user::OnlineStatus::Invisible,
        OnlineStatus::Offline => serenity::model::user::OnlineStatus::Offline,
        OnlineStatus::Online => serenity::model::user::OnlineStatus::Online,
    };
    status.name().to_string()
}

/// The name that the platform gives a channel type number.
pub open spec fn channel_type_name(kind: u8) -> Seq<char> {
    if kind == 0 {
        seq!['t', 'e', 'x', 't']
    } else if kind == 1 {
        seq!['p', 'r', 'i', 'v', 'a', 't', 'e']
    } else if kind == 2 {
        seq!['v', 'o', 'i', 'c', 'e']
    } else if kind == 3 {
        seq!['g', 'r', 'o', 'u', 'p', '_', 'd', 'm']
    } else if kind == 4 {
        seq!['c', 'a', 't', 'e', 'g', 'o', 'r', 'y']
    } else if kind == 5 {
        seq!['n', 'e', 'w', 's']
    } else if kind == 10 {
        seq!['n', 'e', 'w', 's', '_', 't', 'h', 'r', 'e', 'a', 'd']
    } else if kind == 11 {
        seq!['p', 'u', 'b', 'l', 'i', 'c', '_', 't', 'h', 'r', 'e', 'a', 'd']
    } else if kind == 12 {
        seq!['p', 'r', 'i', 'v', 'a', 't', 'e', '_', 't', 'h', 'r', 'e', 'a', 'd']
    } else if kind == 13 {
        seq!['s', 't', 'a', 'g', 'e']
    } else if kind == 14 {
        seq!['d', 'i', 'r', 'e', 'c', 't', 'o', 'r', 'y']
    } else if kind == 15 {
        seq!['f', 'o', 'r', 'u', 'm']
    } else {
        seq!['u', 'n', 'k', 'n', 'o', 'w', 'n']
    }
}

/// Relies on serenity's `ChannelType::from(u8)` and `ChannelType::name`,
/// which name each channel type number as `channel_type_name` does.
#[verifier::external_body]
fn channel_kind_name(kind: u8) -> (r: String)
    ensures
        r@ == channel_type_name(kind),
{
    serenity::model::channel::ChannelType::from(kind).name().to_string()
}

/// The labels of the `guild` metric.
#[derive(Clone, Debug, Hash, PartialEq, Eq)]
pub struct GuildsLabels {
    pub guild_name: String,
}

impl View for GuildsLabels {
    type V = Seq<char>;

    open spec fn view(&self) -> Seq<char> {
        self.guild_name@
    }
}

impl GuildsLabels {
    /// The labels of a guild.
    pub fn new(guild: &Guild) -> (r: Self)
        ensures
            r@ == guild.name@,
    {
        Self { guild_name: guild.name.clone() }
    }
}

/// The labels of the `channel` metric.
#[derive(Clone, Debug, Hash, PartialEq, Eq)]
pub struct ChannelLabels {
    pub channel_id: u64,
    pub channel_name: String,
    pub channel_nsfw: Boolean,
    pub channel_type: String,
}

impl View for ChannelLabels {
    type V = (u64, Seq<char>, bool, Seq<char>);

    open spec fn view(&self) -> Self::V {
        (self.channel_id, self.channel_name@, self.channel_nsfw.0, self.channel_type@)
    }
}

/// The labels of a channel.
pub open spec fn channel_key(c: GuildChannel) -> (u64, Seq<char>, bool, Seq<char>) {
    (c.id, c.name@, c.nsfw, channel_type_name(c.kind))
}

impl ChannelLabels {
    /// The labels of a channel.
    pub fn new(channel: &GuildChannel) -> (r: Self)
        ensures
            r@ == channel_key(*channel),
    {
        Self {
            channel_id: channel.id,
            channel_name: channel.name.clone(),
            channel_nsfw: Boolean(channel.nsfw),
            channel_type: channel_kind_name(channel.kind),
        }
    }
}

/// The labels of the `boost` metric: there are none.
#[derive(Clone, Copy, Debug, Hash, PartialEq, Eq, Structural)]
pub struct BoostLabels {}

impl BoostLabels {
    /// The labels of the guild's boost count.
    pub fn new() -> (r: Self)
        ensures
            r == (BoostLabels {}),
    {
        Self {}
    }
}

/// The labels of the `member` metric: there are none.
#[derive(Clone, Copy, Debug, Hash, PartialEq, Eq, Structural)]
pub struct MemberLabels {}

impl MemberLabels {
    /// The labels of the guild's member count.
    pub fn new() -> (r: Self)
        ensures
            r == (MemberLabels {}),
    {
        Self {}
    }
}

/// The labels of the `bot` metric: there are none.
///
/// Bots are counted apart from members because telling them apart takes a
/// listing of all members when a guild becomes visible, which may fail.
#[derive(Clone, Copy, Debug, Hash, PartialEq, Eq, Structural)]
pub struct BotLabels {}

impl BotLabels {
    /// The labels of the guild's bot count.
    pub fn new() -> (r: Self)
        ensures
            r == (BotLabels {}),
    {
        Self {}
    }
}

/// The labels of the `member_status` metric.
#[derive(Clone, Debug, Hash, PartialEq, Eq)]
pub struct MemberStatusLabels {
    pub status: String,
}

impl View for MemberStatusLabels {
    type V = Seq<char>;

    open spec fn view(&self) -> Seq<char> {
        self.status@
    }
}

impl MemberStatusLabels {
    /// The labels of the members with a status.
    pub fn new(status: OnlineStatus) -> (r: Self)
        ensures
            r@ == status_name(status),
    {
        Self { status: online_status_name(status) }
    }
}

/// The labels of the `member_voice` metric.
#[derive(Clone, Copy, Debug, Hash, PartialEq, Eq, Structural)]
pub struct MemberVoiceLabels {
    pub category_id: Option<u64>,
    pub channel_id: u64,
    pub self_stream: Boolean,
    pub self_video: Boolean,
    pub self_deaf: Boolean,
    pub self_mute: Boolean,
}

/// The labels of a voice connection, reported under a category and channel.
pub open spec fn voice_key(category_id: Option<u64>, channel_id: u64, v: VoiceState) -> MemberVoiceLabels {
    MemberVoiceLabels {
        category_id,
        channel_id,
        self_stream: Boolean(
            match v.self_stream {
                Some(b) => b,
                None => false,
            },
        ),
        self_video: Boolean(v.self_video),
        self_deaf: Boolean(v.self_deaf),
        self_mute: Boolean(v.self_mute),
    }
}

impl MemberVoiceLabels {
    /// The labels of a voice connection; an unknown stream flag reads false.
    pub fn new(category_id: Option<u64>, channel_id: u64, voice: &VoiceState) -> (r: Self)
        ensures
            r == voice_key(category_id, channel_id, *voice),
    {
        let self_stream = match voice.self_stream {
            Some(b) => b,
            None => false,
        };
        Self {
            category_id,
            channel_id,
            self_stream: Boolean(self_stream),
            self_video: Boolean(voice.self_video),
            self_deaf: Boolean(voice.self_deaf),
            self_mute: Boolean(voice.self_mute),
        }
    }
}

/// The labels of the `message_sent` metric.
#[derive(Clone, Copy, Debug, Hash, PartialEq, Eq, Structural)]
pub struct MessageSentLabels {
    pub category_id: Option<u64>,
    pub channel_id: u64,
}

impl MessageSentLabels {
    /// The labels of the messages of a channel.
    pub fn new(category_id: Option<u64>, channel_id: u64) -> (r: Self)
        ensures
            r == (MessageSentLabels { category_id, channel_id }),
    {
        Self { category_id, channel_id }
    }
}

/// The labels of the `emote_used` metric.
#[derive(Clone, Debug, Hash, PartialEq, Eq)]
pub struct EmoteUsedLabels {
    pub category_id: Option<u64>,
    pub channel_id: u64,
    pub reaction: Boolean,
    pub emoji_id: u64,
    pub emoji_name: Option<String>,
}

/// The view of an optional string.
pub open spec fn opt_view(s: Option<String>) -> Option<Seq<char>> {
    match s {
        Some(t) => Some(t@),
        None => None,
    }
}

impl View for EmoteUsedLabels {
    type V = (Option<u64>, u64, bool, u64, Option<Seq<char>>);

    open spec fn view(&self) -> Self::V {
        (self.category_id, self.channel_id, self.reaction.0, self.emoji_id, opt_view(self.emoji_name))
    }
}

impl EmoteUsedLabels {
    /// The labels of a custom emote used in a channel, in a message or as a
    /// reaction.
    pub fn new(
        category_id: Option<u64>,
        channel_id: u64,
        reaction: bool,
        emoji_id: u64,
        emoji_name: Option<String>,
    ) -> (r: Self)
        ensures
            r@ == (category_id, channel_id, reaction, emoji_id, opt_view(emoji_name)),
    {
        Self { category_id, channel_id, reaction: Boolean(reaction), emoji_id, emoji_name }
    }
}

/// The labels of the `activity` metric.
#[derive(Clone, Debug, Hash, PartialEq, Eq)]
pub struct ActivityLabels {
    pub activity_application_id: Option<u64>,
    pub activity_name: String,
}

impl View for ActivityLabels {
    type V = (Option<u64>, Seq<char>);

    open spec fn view(&self) -> Self::V {
        (self.activity_application_id, self.activity_name@)
    }
}

impl ActivityLabels {
    /// The labels of an activity.
    pub fn new(activity: &Activity) -> (r: Self)
        ensures
            r@ == activity@,
    {
        Self { activity_application_id: activity.application_id, activity_name: activity.name.clone() }
    }
}

/// One series of one metric: the metric and the series' labels.
#[derive(Clone, Debug, PartialEq, Eq)]
pub enum Series {
    Guild(GuildsLabels),
    Channel(ChannelLabels),
    Boost(BoostLabels),
    Member(MemberLabels),
    Bot(BotLabels),
    MemberStatus(MemberStatusLabels),
    MemberVoice(MemberVoiceLabels),
    MessageSent(MessageSentLabels),
    EmoteUsed(EmoteUsedLabels),
    Activity(ActivityLabels),
}

/// A series as the registry tells it apart: its metric and label values.
pub ghost enum SeriesKey {
    Guild(Seq<char>),
    Channel((u64, Seq<char>, bool, Seq<char>)),
    Boost,
    Member,
    Bot,
    MemberStatus(Seq<char>),
    MemberVoice(MemberVoiceLabels),
    MessageSent(MessageSentLabels),
    EmoteUsed((Option<u64>, u64, bool, u64, Option<Seq<char>>)),
    Activity((Option<u64>, Seq<char>)),
}

impl View for Series {
    type V = SeriesKey;

    open spec fn view(&self) -> SeriesKey {
        match self {
            Series::Guild(l) => SeriesKey::Guild(l@),
            Series::Channel(l) => SeriesKey::Channel(l@),
            Series::Boost(_) => SeriesKey::Boost,
            Series::Member(_) => SeriesKey::Member,
            Series::Bot(_) => SeriesKey::Bot,
            Series::MemberStatus(l) => SeriesKey::MemberStatus(l@),
            Series::MemberVoice(l) => SeriesKey::MemberVoice(*l),
            Series::MessageSent(l) => SeriesKey::MessageSent(*l),
            Series::EmoteUsed(l) => SeriesKey::EmoteUsed(l@),
            Series::Activity(l) => SeriesKey::Activity(l@),
        }
    }
}

/// The metrics of the exporter.
#[derive(Clone, Copy, Debug, PartialEq, Eq, Structural)]
pub enum Metric {
    Guild,
    Channel,
    Boost,
    Member,
    Bot,
    MemberStatus,
    MemberVoice,
    MessageSent,
    EmoteUsed,
    Activity,
}

/// The metric that a series belongs to.
pub open spec fn metric_of(k: SeriesKey) -> Metric {
    match k {
        SeriesKey::Guild(_) => Metric::Guild,
        SeriesKey::Channel(_) => Metric::Channel,
        SeriesKey::Boost => Metric::Boost,
        SeriesKey::Member => Metric::Member,
        SeriesKey::Bot => Metric::Bot,
        SeriesKey::MemberStatus(_) => Metric::MemberStatus,
        SeriesKey::MemberVoice(_) => Metric::MemberVoice,
        SeriesKey::MessageSent(_) => Metric::MessageSent,
        SeriesKey::EmoteUsed(_) => Metric::EmoteUsed,
        SeriesKey::Activity(_) => Metric::Activity,
    }
}

/// A change to the metric registry, or a note that one could not be made.
#[derive(Clone, Debug, PartialEq, Eq)]
pub enum Action {
    /// Set a gauge to a value, creating the series if needed.
    SetValue(Series, i64),
    /// Add one to a series, creating it if needed.
    Inc(Series),
    /// Take one from a gauge, creating it if needed.
    Dec(Series),
    /// Add an amount to a gauge, creating it if needed.
    IncBy(Series, u64),
    /// Drop a series.
    Remove(Series),
    /// Drop every series of every metric.
    Clear,
    /// The channel could not be resolved, so one update was skipped and the
    /// registry may now be off for one series.
    Inconsistent(u64),
}

/// An action as the registry model reads it.
pub ghost enum ActionView {
    SetValue(SeriesKey, int),
    Inc(SeriesKey),
    Dec(SeriesKey),
    IncBy(SeriesKey, nat),
    Remove(SeriesKey),
    Clear,
    Inconsistent(u64),
}

impl View for Action {
    type V = ActionView;

    open spec fn view(&self) -> ActionView {
        match self {
            Action::SetValue(s, v) => ActionView::SetValue(s@, *v as int),
            Action::Inc(s) => ActionView::Inc(s@),
            Action::Dec(s) => ActionView::Dec(s@),
            Action::IncBy(s, n) => ActionView::IncBy(s@, *n as nat),
            Action::Remove(s) => ActionView::Remove(s@),
            Action::Clear => ActionView::Clear,
            Action::Inconsistent(c) => ActionView::Inconsistent(*c),
        }
    }
}

/// The views of a list of actions.
pub open spec fn actions_view(v: Seq<Action>) -> Seq<ActionView> {
    v.map_values(|a: Action| a@)
}

/// The value of a series after a run of actions on an empty registry; a
/// series that is absent reads 0.
pub open spec fn series_value(h: Seq<ActionView>, k: SeriesKey) -> int
    decreases h.len(),
{
    if h.len() == 0 {
        0
    } else {
        let v = series_value(h.drop_last(), k);
        match h.last() {
            ActionView::SetValue(s, n) => if s == k { n } else { v },
            ActionView::Inc(s) => if s == k { v + 1 } else { v },
            ActionView::Dec(s) => if s == k { v - 1 } else { v },
            ActionView::IncBy(s, n) => if s == k { v + n } else { v },
            ActionView::Remove(s) => if s == k { 0 } else { v },
            ActionView::Clear => 0,
            ActionView::Inconsistent(_) => v,
        }
    }
}

/// Whether a series exists after a run of actions on an empty registry.
pub open spec fn series_present(h: Seq<ActionView>, k: SeriesKey) -> bool
    decreases h.len(),
{
    if h.len() == 0 {
        false
    } else {
        let p = series_present(h.drop_last(), k);
        match h.last() {
            ActionView::SetValue(s, _) => s == k || p,
            ActionView::Inc(s) => s == k || p,
            ActionView::Dec(s) => s == k || p,
            ActionView::IncBy(s, _) => s == k || p,
            ActionView::Remove(s) => s != k && p,
            ActionView::Clear => false,
            ActionView::Inconsistent(_) => p,
        }
    }
}

/// The sum of the values of all series of one metric after a run of actions
/// on an empty registry.
pub open spec fn metric_total(h: Seq<ActionView>, m: Metric) -> int
    decreases h.len(),
{
    if h.len() == 0 {
        0
    } else {
        let p = h.drop_last();
        let t = metric_total(p, m);
        match h.last() {
            ActionView::SetValue(s, n) => if metric_of(s) == m { t - series_value(p, s) + n } else { t },
            ActionView::Inc(s) => if metric_of(s) == m { t + 1 } else { t },
            ActionView::Dec(s) => if metric_of(s) == m { t - 1 } else { t },
            ActionView::IncBy(s, n) => if metric_of(s) == m { t + n } else { t },
            ActionView::Remove(s) => if metric_of(s) == m { t - series_value(p, s) } else { t },
            ActionView::Clear => 0,
            ActionView::Inconsistent(_) => t,
        }
    }
}

} // verus!
