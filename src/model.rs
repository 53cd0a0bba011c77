//! The guild data the synchronizer reads, as plain values.

use vstd::prelude::*;

verus! {

/// A member's presence status.
#[derive(Clone, Copy, Debug, PartialEq, Eq, Structural)]
pub enum OnlineStatus {
    DoNotDisturb,
    Idle,
    Invisible,
    Offline,
    Online,
}

/// An activity of a member's presence.
#[derive(Clone, Debug, PartialEq, Eq)]
pub struct Activity {
    pub application_id: Option<u64>,
    pub name: String,
}

impl View for Activity {
    type V = (Option<u64>, Seq<char>);

    open spec fn view(&self) -> Self::V {
        (self.application_id, self.name@)
    }
}

impl Activity {
    /// A copy of this activity.
    pub fn duplicate(&self) -> (r: Activity)
        ensures
            r == *self,
    {
        Activity { application_id: self.application_id, name: self.name.clone() }
    }
}

/// The views of a list of activities.
pub open spec fn activities_view(v: Seq<Activity>) -> Seq<(Option<u64>, Seq<char>)> {
    v.map_values(|a: Activity| a@)
}

/// Copies a list of activities.
pub fn duplicate_activities(v: &Vec<Activity>) -> (r: Vec<Activity>)
    ensures
        r@ == v@,
{
    let mut r: Vec<Activity> = Vec::new();
    let mut i: usize = 0;
    while i < v.len()
        invariant
            i <= v.len(),
            r@ == v@.subrange(0, i as int),
        decreases v.len() - i,
    {
        r.push(v[i].duplicate());
        i = i + 1;
    }
    assert(r@ == v@.subrange(0, v.len() as int));
    r
}

/// A user's status and activities, as last reported for a guild.
#[derive(Clone, Debug, PartialEq, Eq)]
pub struct Presence {
    pub user_id: u64,
    pub guild_id: Option<u64>,
    pub status: OnlineStatus,
    pub activities: Vec<Activity>,
}

/// What is kept of a presence between two updates.
pub ghost struct PresenceView {
    pub status: OnlineStatus,
    pub activities: Seq<(Option<u64>, Seq<char>)>,
}

impl View for Presence {
    type V = PresenceView;

    open spec fn view(&self) -> PresenceView {
        PresenceView { status: self.status, activities: activities_view(self.activities@) }
    }
}

/// A channel of a guild.
#[derive(Clone, Debug, PartialEq, Eq)]
pub struct GuildChannel {
    pub id: u64,
    pub parent_id: Option<u64>,
    pub name: String,
    /// The channel type, as the platform numbers it.
    pub kind: u8,
    pub nsfw: bool,
}

/// A user's voice connection in a guild.
#[derive(Clone, Copy, Debug, PartialEq, Eq, Structural)]
pub struct VoiceState {
    pub user_id: u64,
    pub guild_id: Option<u64>,
    pub channel_id: Option<u64>,
    pub self_stream: Option<bool>,
    pub self_video: bool,
    pub self_deaf: bool,
    pub self_mute: bool,
}

/// A user account.
#[derive(Clone, Copy, Debug, PartialEq, Eq, Structural)]
pub struct User {
    pub id: u64,
    pub bot: bool,
    pub system: bool,
}

/// A guild as it is seen when it becomes visible.
#[derive(Clone, Debug)]
pub struct Guild {
    pub id: u64,
    pub name: String,
    pub member_count: u64,
    pub premium_subscription_count: Option<u64>,
    /// The channels and threads, one per id (`laws::unique_channels`); a
    /// lookup takes the first of an id.
    pub channels: Vec<GuildChannel>,
    /// The presences, one per user (`laws::unique_users`); where a user has
    /// two, the later is the one cached.
    pub presences: Vec<Presence>,
    pub voice_states: Vec<VoiceState>,
}

/// The fields of a guild that an update carries.
#[derive(Clone, Debug)]
pub struct PartialGuild {
    pub id: u64,
    pub name: String,
    pub premium_subscription_count: Option<u64>,
}

/// A message posted in a channel.
#[derive(Clone, Debug)]
pub struct Message {
    pub guild_id: Option<u64>,
    pub channel_id: u64,
    pub author: User,
    pub content: String,
}

/// The emoji of a reaction.
#[derive(Clone, Debug)]
pub enum ReactionType {
    Custom { animated: bool, id: u64, name: Option<String> },
    Unicode(String),
}

/// A reaction added to a message.
#[derive(Clone, Debug)]
pub struct Reaction {
    pub guild_id: Option<u64>,
    pub channel_id: u64,
    /// The reacting member's account, where it is known.
    pub member: Option<User>,
    pub emoji: ReactionType,
}

} // verus!
