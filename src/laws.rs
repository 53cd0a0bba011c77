//! What holds of the synchronizer across events, stated over the registry
//! model of `metrics` and proved.

use crate::cache::cache_get;
use crate::discord::{
    seed_cache, channel_sets, guild_create_actions, presence_decs, presence_incs,
    presence_update_actions, presences_incs, status_key, voice_actions, voices_incs,
};
use crate::metrics::{metric_of, metric_total, series_present, series_value, ActionView, Metric, SeriesKey};
use crate::model::{Guild, GuildChannel, Presence, PresenceView, VoiceState};
use crate::topology::{find_channel, lemma_find_found, resolve, TopologyLookupError};
use vstd::prelude::*;

verus! {

/// How much a run of actions adds to a series, counting increments and
/// decrements only.
pub open spec fn series_net(ops: Seq<ActionView>, k: SeriesKey) -> int
    decreases ops.len(),
{
    if ops.len() == 0 {
        0
    } else {
        series_net(ops.drop_last(), k) + match ops.last() {
            ActionView::Inc(s) => if s == k { 1int } else { 0int },
            ActionView::Dec(s) => if s == k { -1int } else { 0int },
            ActionView::IncBy(s, n) => if s == k { n as int } else { 0int },
            _ => 0int,
        }
    }
}

/// Whether a run of actions only increments and decrements series (or notes
/// an unresolved channel).
pub open spec fn only_steps(ops: Seq<ActionView>) -> bool
    decreases ops.len(),
{
    ops.len() == 0 || (only_steps(ops.drop_last()) && (ops.last() is Inc || ops.last() is Dec
        || ops.last() is IncBy || ops.last() is Inconsistent))
}

proof fn lemma_series_append(h: Seq<ActionView>, ops: Seq<ActionView>, k: SeriesKey)
    requires
        only_steps(ops),
    ensures
        series_value(h + ops, k) == series_value(h, k) + series_net(ops, k),
    decreases ops.len(),
{
    if ops.len() == 0 {
        assert(h + ops =~= h);
    } else {
        assert((h + ops).drop_last() =~= h + ops.drop_last());
        lemma_series_append(h, ops.drop_last(), k);
    }
}

proof fn lemma_series_concat(a: Seq<ActionView>, b: Seq<ActionView>, k: SeriesKey)
    ensures
        series_net(a + b, k) == series_net(a, k) + series_net(b, k),
        only_steps(a + b) == (only_steps(a) && only_steps(b)),
    decreases b.len(),
{
    if b.len() == 0 {
        assert(a + b =~= a);
    } else {
        assert((a + b).drop_last() =~= a + b.drop_last());
        lemma_series_concat(a, b.drop_last(), k);
    }
}

proof fn lemma_steps_of_keys(keys: Seq<SeriesKey>, k: SeriesKey)
    ensures
        only_steps(keys.map_values(|x: SeriesKey| ActionView::Inc(x))),
        only_steps(keys.map_values(|x: SeriesKey| ActionView::Dec(x))),
        series_net(keys.map_values(|x: SeriesKey| ActionView::Inc(x)), k) == -series_net(
            keys.map_values(|x: SeriesKey| ActionView::Dec(x)),
            k,
        ),
    decreases keys.len(),
{
    if keys.len() > 0 {
        let inc = |x: SeriesKey| ActionView::Inc(x);
        let dec = |x: SeriesKey| ActionView::Dec(x);
        assert(keys.map_values(inc).drop_last() =~= keys.drop_last().map_values(inc));
        assert(keys.map_values(dec).drop_last() =~= keys.drop_last().map_values(dec));
        lemma_steps_of_keys(keys.drop_last(), k);
    }
}

/// The series that a presence accounts for: its status, then each activity.
spec fn presence_keys(p: PresenceView) -> Seq<SeriesKey> {
    seq![status_key(p.status)] + p.activities.map_values(
        |a: (Option<u64>, Seq<char>)| SeriesKey::Activity(a),
    )
}

proof fn lemma_presence_keys(p: PresenceView)
    ensures
        presence_incs(p) == presence_keys(p).map_values(|x: SeriesKey| ActionView::Inc(x)),
        presence_decs(p) == presence_keys(p).map_values(|x: SeriesKey| ActionView::Dec(x)),
{
    assert(presence_incs(p) =~= presence_keys(p).map_values(|x: SeriesKey| ActionView::Inc(x)));
    assert(presence_decs(p) =~= presence_keys(p).map_values(|x: SeriesKey| ActionView::Dec(x)));
}

/// Applying the same presence update twice leaves every series where the
/// first application left it: the second takes out exactly the presence that
/// the first cached, never the one before it, and puts it back.
pub proof fn presence_update_twice(
    h: Seq<ActionView>,
    cache: Map<(u64, u64), PresenceView>,
    key: (u64, u64),
    p: PresenceView,
    k: SeriesKey,
)
    ensures
        ({
            let first = presence_update_actions(cache_get(cache, key), p);
            let after = cache.insert(key, p);
            let second = presence_update_actions(cache_get(after, key), p);
            &&& second == presence_decs(p) + presence_incs(p)
            &&& after.insert(key, p) == after
            &&& series_value(h + first + second, k) == series_value(h + first, k)
        }),
{
    let first = presence_update_actions(cache_get(cache, key), p);
    let after = cache.insert(key, p);
    assert(cache_get(after, key) == Some(p));
    assert(after.insert(key, p) =~= after);
    lemma_presence_keys(p);
    lemma_steps_of_keys(presence_keys(p), k);
    lemma_series_concat(presence_decs(p), presence_incs(p), k);
    lemma_series_append(h + first, presence_decs(p) + presence_incs(p), k);
}

proof fn lemma_update_actions(old: Option<PresenceView>, p: PresenceView, k: SeriesKey)
    ensures
        only_steps(presence_update_actions(old, p)),
        series_net(presence_update_actions(old, p), k) == series_net(presence_incs(p), k) - match old {
            Some(o) => series_net(presence_incs(o), k),
            None => 0int,
        },
{
    lemma_presence_keys(p);
    lemma_steps_of_keys(presence_keys(p), k);
    match old {
        Some(o) => {
            lemma_presence_keys(o);
            lemma_steps_of_keys(presence_keys(o), k);
            lemma_series_concat(presence_decs(o), presence_incs(p), k);
        },
        None => {},
    }
}

/// Two presence updates of one user in a guild, the second over the first,
/// leave every series and the cache as the second alone would have: the
/// first is taken back out in full, and the last write wins.
pub proof fn presence_updates_converge(
    h: Seq<ActionView>,
    cache: Map<(u64, u64), PresenceView>,
    key: (u64, u64),
    p1: PresenceView,
    p2: PresenceView,
    k: SeriesKey,
)
    ensures
        ({
            let first = presence_update_actions(cache_get(cache, key), p1);
            let second = presence_update_actions(cache_get(cache.insert(key, p1), key), p2);
            let once = presence_update_actions(cache_get(cache, key), p2);
            &&& series_value(h + first + second, k) == series_value(h + once, k)
            &&& cache.insert(key, p1).insert(key, p2) == cache.insert(key, p2)
        }),
{
    let first = presence_update_actions(cache_get(cache, key), p1);
    let after = cache.insert(key, p1);
    assert(cache_get(after, key) == Some(p1));
    let second = presence_update_actions(cache_get(after, key), p2);
    let once = presence_update_actions(cache_get(cache, key), p2);
    lemma_update_actions(cache_get(cache, key), p1, k);
    lemma_update_actions(Some(p1), p2, k);
    lemma_update_actions(cache_get(cache, key), p2, k);
    lemma_series_append(h, first, k);
    lemma_series_append(h + first, second, k);
    lemma_series_append(h, once, k);
    assert(cache.insert(key, p1).insert(key, p2) =~= cache.insert(key, p2));
}

/// Whether no two presences of a list are of the same user.
pub open spec fn unique_users(ps: Seq<Presence>) -> bool {
    forall|i: int, j: int| 0 <= i < j < ps.len() ==> ps[i].user_id != ps[j].user_id
}

/// Whether no two channels of a topology share an id.
pub open spec fn unique_channels(cs: Seq<GuildChannel>) -> bool {
    forall|i: int, j: int| 0 <= i < j < cs.len() ==> cs[i].id != cs[j].id
}

/// Where no two presences of a guild's snapshot are of the same user, every
/// one of them ends up cached under the guild and its user.
pub proof fn bootstrap_caches_every_presence(
    m: Map<(u64, u64), PresenceView>,
    guild_id: u64,
    ps: Seq<Presence>,
)
    requires
        unique_users(ps),
    ensures
        forall|i: int|
            0 <= i < ps.len() ==> cache_get(seed_cache(m, guild_id, ps), (guild_id, #[trigger] ps[i].user_id))
                == Some(ps[i]@),
    decreases ps.len(),
{
    if ps.len() > 0 {
        let rest = ps.drop_last();
        assert(unique_users(rest));
        bootstrap_caches_every_presence(m, guild_id, rest);
        assert forall|i: int| 0 <= i < ps.len() implies cache_get(
            seed_cache(m, guild_id, ps),
            (guild_id, #[trigger] ps[i].user_id),
        ) == Some(ps[i]@) by {
            if i < ps.len() - 1 {
                assert(rest[i] == ps[i]);
                assert(ps[i].user_id != ps[ps.len() - 1].user_id);
            }
        }
    }
}

/// Where no two channels of a topology share an id, looking up a channel's
/// id finds that channel.
pub proof fn lookup_finds_each_channel(cs: Seq<GuildChannel>)
    requires
        unique_channels(cs),
    ensures
        forall|i: int| 0 <= i < cs.len() ==> find_channel(cs, #[trigger] cs[i].id) == Some(cs[i]),
    decreases cs.len(),
{
    if cs.len() > 0 {
        let rest = cs.drop_first();
        assert(unique_channels(rest)) by {
            assert forall|i: int, j: int| 0 <= i < j < rest.len() implies rest[i].id != rest[j].id by {
                assert(rest[i] == cs[i + 1] && rest[j] == cs[j + 1]);
            }
        }
        lookup_finds_each_channel(rest);
        assert forall|i: int| 0 <= i < cs.len() implies find_channel(cs, #[trigger] cs[i].id) == Some(
            cs[i],
        ) by {
            if i > 0 {
                assert(cs[0].id != cs[i].id);
                assert(rest[i - 1] == cs[i]);
            }
        }
    }
}

/// After a guild is deleted no series is left, and every series and every
/// metric's total reads 0.
pub proof fn guild_delete_clears(h: Seq<ActionView>, k: SeriesKey, m: Metric)
    ensures
        !series_present(h + seq![ActionView::Clear], k),
        series_value(h + seq![ActionView::Clear], k) == 0,
        metric_total(h + seq![ActionView::Clear], m) == 0,
{
    let t = h + seq![ActionView::Clear];
    assert(t.last() == ActionView::Clear);
}

/// How much a run of actions adds to a metric's total, counting increments
/// and decrements only.
pub open spec fn metric_net(ops: Seq<ActionView>, m: Metric) -> int
    decreases ops.len(),
{
    if ops.len() == 0 {
        0
    } else {
        metric_net(ops.drop_last(), m) + match ops.last() {
            ActionView::Inc(s) => if metric_of(s) == m { 1int } else { 0int },
            ActionView::Dec(s) => if metric_of(s) == m { -1int } else { 0int },
            ActionView::IncBy(s, n) => if metric_of(s) == m { n as int } else { 0int },
            _ => 0int,
        }
    }
}

/// Whether a run of actions sets, drops or clears no series of a metric.
pub open spec fn leaves_metric(ops: Seq<ActionView>, m: Metric) -> bool
    decreases ops.len(),
{
    ops.len() == 0 || (leaves_metric(ops.drop_last(), m) && match ops.last() {
        ActionView::SetValue(s, _) => metric_of(s) != m,
        ActionView::Remove(s) => metric_of(s) != m,
        ActionView::Clear => false,
        _ => true,
    })
}

/// The number of notes of an unresolved channel in a run of actions.
pub open spec fn notes(ops: Seq<ActionView>) -> int
    decreases ops.len(),
{
    if ops.len() == 0 {
        0
    } else {
        notes(ops.drop_last()) + if ops.last() is Inconsistent {
            1int
        } else {
            0int
        }
    }
}

proof fn lemma_metric_append(h: Seq<ActionView>, ops: Seq<ActionView>, m: Metric)
    requires
        leaves_metric(ops, m),
    ensures
        metric_total(h + ops, m) == metric_total(h, m) + metric_net(ops, m),
    decreases ops.len(),
{
    if ops.len() == 0 {
        assert(h + ops =~= h);
    } else {
        assert((h + ops).drop_last() =~= h + ops.drop_last());
        lemma_metric_append(h, ops.drop_last(), m);
    }
}

proof fn lemma_metric_concat(a: Seq<ActionView>, b: Seq<ActionView>, m: Metric)
    ensures
        metric_net(a + b, m) == metric_net(a, m) + metric_net(b, m),
        leaves_metric(a + b, m) == (leaves_metric(a, m) && leaves_metric(b, m)),
        notes(a + b) == notes(a) + notes(b),
    decreases b.len(),
{
    if b.len() == 0 {
        assert(a + b =~= a);
    } else {
        assert((a + b).drop_last() =~= a + b.drop_last());
        lemma_metric_concat(a, b.drop_last(), m);
    }
}

proof fn lemma_single(a: ActionView, m: Metric)
    ensures
        metric_net(seq![a], m) == metric_net(seq![], m) + match a {
            ActionView::Inc(s) => if metric_of(s) == m { 1int } else { 0int },
            ActionView::Dec(s) => if metric_of(s) == m { -1int } else { 0int },
            ActionView::IncBy(s, n) => if metric_of(s) == m { n as int } else { 0int },
            _ => 0int,
        },
        leaves_metric(seq![a], m) == match a {
            ActionView::SetValue(s, _) => metric_of(s) != m,
            ActionView::Remove(s) => metric_of(s) != m,
            ActionView::Clear => false,
            _ => true,
        },
        notes(seq![a]) == if a is Inconsistent {
            1int
        } else {
            0int
        },
{
    assert(seq![a].drop_last() =~= Seq::<ActionView>::empty());
    assert(leaves_metric(Seq::<ActionView>::empty(), m));
    assert(notes(Seq::<ActionView>::empty()) == 0);
    assert(seq![a].last() == a);
}

proof fn lemma_channel_sets(cs: Seq<GuildChannel>, m: Metric)
    requires
        m != Metric::Channel,
    ensures
        leaves_metric(channel_sets(cs), m),
        metric_net(channel_sets(cs), m) == 0,
        notes(channel_sets(cs)) == 0,
    decreases cs.len(),
{
    if cs.len() > 0 {
        assert(channel_sets(cs).drop_last() =~= channel_sets(cs.drop_last()));
        lemma_channel_sets(cs.drop_last(), m);
    }
}

proof fn lemma_activity_incs(acts: Seq<(Option<u64>, Seq<char>)>, m: Metric)
    requires
        m != Metric::Activity,
    ensures
        ({
            let ops = acts.map_values(
                |a: (Option<u64>, Seq<char>)| ActionView::Inc(SeriesKey::Activity(a)),
            );
            leaves_metric(ops, m) && metric_net(ops, m) == 0 && notes(ops) == 0
        }),
    decreases acts.len(),
{
    if acts.len() > 0 {
        let f = |a: (Option<u64>, Seq<char>)| ActionView::Inc(SeriesKey::Activity(a));
        assert(acts.map_values(f).drop_last() =~= acts.drop_last().map_values(f));
        lemma_activity_incs(acts.drop_last(), m);
    }
}

proof fn lemma_presence_incs(p: PresenceView, m: Metric)
    requires
        m != Metric::Activity,
    ensures
        leaves_metric(presence_incs(p), m),
        metric_net(presence_incs(p), m) == if m == Metric::MemberStatus { 1int } else { 0int },
        notes(presence_incs(p)) == 0,
{
    let f = |a: (Option<u64>, Seq<char>)| ActionView::Inc(SeriesKey::Activity(a));
    let head = seq![ActionView::Inc(status_key(p.status))];
    assert(presence_incs(p) =~= head + p.activities.map_values(f));
    lemma_single(ActionView::Inc(status_key(p.status)), m);
    lemma_activity_incs(p.activities, m);
    lemma_metric_concat(head, p.activities.map_values(f), m);
}

proof fn lemma_presences_incs(ps: Seq<crate::model::Presence>, m: Metric)
    requires
        m != Metric::Activity,
    ensures
        leaves_metric(presences_incs(ps), m),
        metric_net(presences_incs(ps), m) == if m == Metric::MemberStatus { ps.len() as int } else { 0int },
        notes(presences_incs(ps)) == 0,
    decreases ps.len(),
{
    if ps.len() > 0 {
        lemma_presences_incs(ps.drop_last(), m);
        lemma_presence_incs(ps.last()@, m);
        lemma_metric_concat(presences_incs(ps.drop_last()), presence_incs(ps.last()@), m);
    }
}

/// The number of voice states in a channel that does not resolve in a
/// topology.
pub open spec fn failed_voices(cs: Seq<GuildChannel>, vs: Seq<VoiceState>) -> int
    decreases vs.len(),
{
    if vs.len() == 0 {
        0
    } else {
        failed_voices(cs, vs.drop_last()) + match vs.last().channel_id {
            Some(c) => if resolve(cs, c) is Err { 1int } else { 0int },
            None => 0int,
        }
    }
}

/// The number of voice states in a channel that resolves in a topology.
pub open spec fn resolved_voices(cs: Seq<GuildChannel>, vs: Seq<VoiceState>) -> int
    decreases vs.len(),
{
    if vs.len() == 0 {
        0
    } else {
        resolved_voices(cs, vs.drop_last()) + match vs.last().channel_id {
            Some(c) => if resolve(cs, c) is Ok { 1int } else { 0int },
            None => 0int,
        }
    }
}

proof fn lemma_voices_incs(cs: Seq<GuildChannel>, vs: Seq<VoiceState>, m: Metric)
    ensures
        leaves_metric(voices_incs(cs, vs), m),
        metric_net(voices_incs(cs, vs), m) == if m == Metric::MemberVoice {
            resolved_voices(cs, vs)
        } else {
            0int
        },
        notes(voices_incs(cs, vs)) == failed_voices(cs, vs),
    decreases vs.len(),
{
    if vs.len() > 0 {
        let v = vs.last();
        lemma_voices_incs(cs, vs.drop_last(), m);
        let va = voice_actions(cs, v, true);
        match v.channel_id {
            None => {
                assert(va =~= Seq::<ActionView>::empty());
            },
            Some(c) => {
                assert(va.len() == 1);
                assert(va =~= seq![va[0]]);
                lemma_single(va[0], m);
            },
        }
        lemma_metric_concat(voices_incs(cs, vs.drop_last()), va, m);
    }
}

/// After a guild becomes visible, the member-status series add up to the
/// number of its presences, and the voice series to the number of its voice
/// states whose channel resolves, where the guild was visible already, or
/// where those metrics read 0 before; and each voice state whose channel
/// does not resolve is noted once.
pub proof fn guild_create_totals(h: Seq<ActionView>, created: bool, g: Guild)
    requires
        created || (metric_total(h, Metric::MemberStatus) == 0 && metric_total(
            h,
            Metric::MemberVoice,
        ) == 0),
    ensures
        metric_total(h + guild_create_actions(created, g), Metric::MemberStatus)
            == g.presences@.len(),
        metric_total(h + guild_create_actions(created, g), Metric::MemberVoice) == resolved_voices(
            g.channels@,
            g.voice_states@,
        ),
        notes(guild_create_actions(created, g)) == failed_voices(g.channels@, g.voice_states@),
{
    let pre = if created {
        seq![ActionView::Clear]
    } else {
        seq![]
    };
    let s1 = seq![ActionView::SetValue(SeriesKey::Guild(g.name@), 1)];
    let cs = channel_sets(g.channels@);
    let s2 = seq![
        ActionView::SetValue(SeriesKey::Boost, crate::discord::boosts_of(g.premium_subscription_count)),
        ActionView::SetValue(SeriesKey::Member, g.member_count as int),
    ];
    let pi = presences_incs(g.presences@);
    let vi = voices_incs(g.channels@, g.voice_states@);
    let rest = s1 + cs + s2 + pi + vi;
    assert(guild_create_actions(created, g) =~= pre + rest);
    assert(h + (pre + rest) =~= (h + pre) + rest);
    assert(s2 =~= seq![s2[0]] + seq![s2[1]]);
    assert forall|m: Metric| m == Metric::MemberStatus || m == Metric::MemberVoice implies leaves_metric(rest, m)
        && metric_net(rest, m) == if m == Metric::MemberStatus {
            g.presences@.len() as int
        } else {
            resolved_voices(g.channels@, g.voice_states@)
        } by {
        lemma_single(s1[0], m);
        lemma_single(s2[0], m);
        lemma_single(s2[1], m);
        lemma_metric_concat(seq![s2[0]], seq![s2[1]], m);
        lemma_channel_sets(g.channels@, m);
        lemma_presences_incs(g.presences@, m);
        lemma_voices_incs(g.channels@, g.voice_states@, m);
        lemma_metric_concat(s1, cs, m);
        lemma_metric_concat(s1 + cs, s2, m);
        lemma_metric_concat(s1 + cs + s2, pi, m);
        lemma_metric_concat(s1 + cs + s2 + pi, vi, m);
    }
    if created {
        assert((h + pre).last() == ActionView::Clear);
    } else {
        assert(h + pre =~= h);
    }
    lemma_metric_append(h + pre, rest, Metric::MemberStatus);
    lemma_metric_append(h + pre, rest, Metric::MemberVoice);
    let m = Metric::MemberVoice;
    lemma_single(s1[0], m);
    lemma_single(s2[0], m);
    lemma_single(s2[1], m);
    lemma_metric_concat(seq![s2[0]], seq![s2[1]], m);
    lemma_channel_sets(g.channels@, m);
    lemma_presences_incs(g.presences@, m);
    lemma_voices_incs(g.channels@, g.voice_states@, m);
    lemma_metric_concat(s1, cs, m);
    lemma_metric_concat(s1 + cs, s2, m);
    lemma_metric_concat(s1 + cs + s2, pi, m);
    lemma_metric_concat(s1 + cs + s2 + pi, vi, m);
    lemma_metric_concat(pre, rest, m);
    if created {
        lemma_single(ActionView::Clear, m);
    } else {
        assert(notes(pre) == 0);
    }
}

/// A channel without a parent is reported alone; a channel whose parent has
/// no parent is reported under that parent; a channel three levels deep (a
/// thread) is reported as its parent channel, not as itself, under its
/// grandparent.
pub proof fn resolver_flattening(
    cs: Seq<GuildChannel>,
    leaf: GuildChannel,
    parent: GuildChannel,
    grandparent: GuildChannel,
)
    ensures
        find_channel(cs, leaf.id) == Some(leaf) && leaf.parent_id is None ==> resolve(cs, leaf.id)
            == Ok::<(Option<u64>, u64), TopologyLookupError>((None, leaf.id)),
        find_channel(cs, leaf.id) == Some(leaf) && leaf.parent_id == Some(parent.id) && find_channel(
            cs,
            parent.id,
        ) == Some(parent) && parent.parent_id is None ==> resolve(cs, leaf.id) == Ok::<
            (Option<u64>, u64),
            TopologyLookupError,
        >((Some(parent.id), leaf.id)),
        find_channel(cs, leaf.id) == Some(leaf) && leaf.parent_id == Some(parent.id) && find_channel(
            cs,
            parent.id,
        ) == Some(parent) && parent.parent_id == Some(grandparent.id) && find_channel(
            cs,
            grandparent.id,
        ) == Some(grandparent) ==> resolve(cs, leaf.id) == Ok::<
            (Option<u64>, u64),
            TopologyLookupError,
        >((Some(grandparent.id), parent.id)),
{
    lemma_find_found(cs, leaf.id);
    lemma_find_found(cs, parent.id);
    lemma_find_found(cs, grandparent.id);
}

} // verus!
