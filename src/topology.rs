//! Resolving a channel to the category and channel that it is reported under.

use crate::model::GuildChannel;
use vstd::prelude::*;

verus! {

/// A channel, or one of its ancestors, is not in the guild's topology.
#[derive(Clone, Copy, Debug, PartialEq, Eq, Structural)]
pub struct TopologyLookupError {
    /// The channel that was looked for.
    pub channel_id: u64,
}

/// The first channel of the topology with an id.
pub open spec fn find_channel(cs: Seq<GuildChannel>, id: u64) -> Option<GuildChannel>
    decreases cs.len(),
{
    if cs.len() == 0 {
        None
    } else if cs[0].id == id {
        Some(cs[0])
    } else {
        find_channel(cs.drop_first(), id)
    }
}

/// The category and channel that a channel is reported under: a channel
/// without a parent stands alone; a channel under a category is reported
/// under it; a thread is folded into its parent channel and reported under
/// its grandparent.
pub open spec fn resolve(cs: Seq<GuildChannel>, id: u64) -> Result<
    (Option<u64>, u64),
    TopologyLookupError,
> {
    match find_channel(cs, id) {
        None => Err(TopologyLookupError { channel_id: id }),
        Some(c) => match c.parent_id {
            None => Ok((None, c.id)),
            Some(pid) => match find_channel(cs, pid) {
                None => Err(TopologyLookupError { channel_id: pid }),
                Some(p) => match p.parent_id {
                    None => Ok((Some(p.id), c.id)),
                    Some(gid) => match find_channel(cs, gid) {
                        None => Err(TopologyLookupError { channel_id: gid }),
                        Some(g) => Ok((Some(g.id), p.id)),
                    },
                },
            },
        },
    }
}

/// The channel found for an id has that id.
pub proof fn lemma_find_found(cs: Seq<GuildChannel>, id: u64)
    ensures
        find_channel(cs, id) matches Some(c) ==> c.id == id,
    decreases cs.len(),
{
    if cs.len() > 0 && cs[0].id != id {
        lemma_find_found(cs.drop_first(), id);
    }
}

/// Looks a channel up by its id.
pub fn lookup(channels: &Vec<GuildChannel>, id: u64) -> (r: Option<&GuildChannel>)
    ensures
        r matches Some(c) ==> find_channel(channels@, id) == Some(*c) && c.id == id,
        r is None ==> find_channel(channels@, id) is None,
{
    let mut i: usize = 0;
    assert(channels@.subrange(0, channels@.len() as int) =~= channels@);
    while i < channels.len()
        invariant
            i <= channels.len(),
            find_channel(channels@, id) == find_channel(channels@.subrange(i as int, channels@.len() as int), id),
        decreases channels.len() - i,
    {
        proof {
            let rest = channels@.subrange(i as int, channels@.len() as int);
            assert(rest.drop_first() =~= channels@.subrange(i + 1, channels@.len() as int));
        }
        if channels[i].id == id {
            return Some(&channels[i]);
        }
        i = i + 1;
    }
    proof {
        lemma_find_found(channels@, id);
    }
    None
}

/// The category and channel that a channel is reported under (see
/// `resolve`), or the channel that is missing from the topology.
pub fn category_channel(channels: &Vec<GuildChannel>, channel_id: u64) -> (r: Result<
    (Option<u64>, u64),
    TopologyLookupError,
>)
    ensures
        r == resolve(channels@, channel_id),
{
    let channel = match lookup(channels, channel_id) {
        Some(c) => c,
        None => {
            return Err(TopologyLookupError { channel_id });
        },
    };
    let parent_id = match channel.parent_id {
        Some(p) => p,
        None => {
            return Ok((None, channel.id));
        },
    };
    let category = match lookup(channels, parent_id) {
        Some(c) => c,
        None => {
            return Err(TopologyLookupError { channel_id: parent_id });
        },
    };
    let grandparent_id = match category.parent_id {
        Some(g) => g,
        None => {
            return Ok((Some(category.id), channel.id));
        },
    };
    match lookup(channels, grandparent_id) {
        Some(g) => Ok((Some(g.id), category.id)),
        None => Err(TopologyLookupError { channel_id: grandparent_id }),
    }
}

} // verus!
