//! The presence cache: the last presence seen of each user of each guild,
//! kept so that its series can be decremented when the next one comes.

use crate::model::{Presence, PresenceView};
use std::collections::HashMap;
use vstd::prelude::*;

verus! {

/// What is kept of a user between two presence updates.
#[derive(Clone, Debug)]
pub struct CachedUser {
    pub presence: Presence,
}

/// The last presence seen of each user, by guild and user.
pub struct PresenceCache {
    guilds: HashMap<u64, HashMap<u64, CachedUser>>,
}

/// The cached presence under a key, if any.
pub open spec fn cache_get(m: Map<(u64, u64), PresenceView>, key: (u64, u64)) -> Option<PresenceView> {
    if m.contains_key(key) {
        Some(m[key])
    } else {
        None
    }
}

/// A cache without the entries of one guild.
pub open spec fn without_guild(m: Map<(u64, u64), PresenceView>, guild_id: u64) -> Map<(u64, u64), PresenceView> {
    m.restrict(m.dom().filter(|k: (u64, u64)| k.0 != guild_id))
}

impl View for PresenceCache {
    type V = Map<(u64, u64), PresenceView>;

    closed spec fn view(&self) -> Map<(u64, u64), PresenceView> {
        Map::new(
            |k: (u64, u64)| self.guilds@.contains_key(k.0) && self.guilds@[k.0]@.contains_key(k.1),
            |k: (u64, u64)| self.guilds@[k.0]@[k.1].presence@,
        )
    }
}

impl PresenceCache {
    /// An empty cache.
    pub fn new() -> (r: Self)
        ensures
            r@ == Map::<(u64, u64), PresenceView>::empty(),
    {
        let r = Self { guilds: HashMap::new() };
        assert(r@ =~= Map::<(u64, u64), PresenceView>::empty());
        r
    }

    /// The presence cached for a user of a guild, if any.
    pub fn get(&self, guild_id: u64, user_id: u64) -> (r: Option<&Presence>)
        ensures
            r matches Some(p) ==> cache_get(self@, (guild_id, user_id)) == Some(p@),
            r is None ==> cache_get(self@, (guild_id, user_id)) is None,
    {
        match self.guilds.get(&guild_id) {
            Some(users) => match users.get(&user_id) {
                Some(c) => Some(&c.presence),
                None => None,
            },
            None => None,
        }
    }

    /// Caches a user's presence in a guild, in place of any earlier one.
    pub fn put(&mut self, guild_id: u64, user_id: u64, presence: Presence)
        ensures
            final(self)@ == old(self)@.insert((guild_id, user_id), presence@),
    {
        let ghost p = presence@;
        let mut users = match self.guilds.remove(&guild_id) {
            Some(users) => users,
            None => HashMap::new(),
        };
        users.insert(user_id, CachedUser { presence });
        self.guilds.insert(guild_id, users);
        assert(self@ =~= old(self)@.insert((guild_id, user_id), p));
    }

    /// Drops the entries of one guild.
    pub fn remove_all(&mut self, guild_id: u64)
        ensures
            final(self)@ == without_guild(old(self)@, guild_id),
    {
        self.guilds.remove(&guild_id);
        assert(self@ =~= without_guild(old(self)@, guild_id));
    }

    /// Drops every entry.
    pub fn clear(&mut self)
        ensures
            final(self)@ == Map::<(u64, u64), PresenceView>::empty(),
    {
        self.guilds.clear();
        assert(self@ =~= Map::<(u64, u64), PresenceView>::empty());
    }
}

} // verus!
