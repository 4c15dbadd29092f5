//! Joins a player's achievement record with the game's published schema.
//!
//! The two sequences are walked in lock-step by position over the schema's
//! length, and the keys are compared at every position: a divergence, or a
//! record shorter than the schema, fails the whole merge. Record entries past
//! the schema's length are kept as they are.
use vstd::prelude::*;

use crate::error::SteamError;
use crate::model::{GameAchievements, PlayerAchievements, PlayerStats};

verus! {

/// A record entry with the display fields of its schema entry copied onto
/// it; the key and the achieved flag are the record's own.
pub open spec fn enrich(a: PlayerAchievements, g: GameAchievements) -> PlayerAchievements {
    PlayerAchievements {
        name: Some(g.displayName),
        hidden: Some(g.hidden),
        description: g.description,
        icon: Some(g.icon),
        icongray: Some(g.icongray),
        ..a
    }
}

/// The record covers the schema and agrees with it on the key at every
/// position of the schema.
pub open spec fn aligned(p: Seq<PlayerAchievements>, s: Seq<GameAchievements>) -> bool {
    &&& s.len() <= p.len()
    &&& forall|i: int| #![trigger s[i]] 0 <= i < s.len() ==> p[i].apiname@ == s[i].name@
}

/// The merged record: each entry within the schema's length enriched by the
/// schema entry at the same position, the others unchanged.
pub open spec fn merged(p: Seq<PlayerAchievements>, s: Seq<GameAchievements>) -> Seq<PlayerAchievements> {
    Seq::new(p.len(), |i: int| if i < s.len() { enrich(p[i], s[i]) } else { p[i] })
}

/// What merging a record with a schema yields: the merged record where the
/// two are aligned, nothing otherwise.
pub open spec fn merge_spec(p: Seq<PlayerAchievements>, s: Seq<GameAchievements>) -> Option<Seq<PlayerAchievements>> {
    if aligned(p, s) {
        Some(merged(p, s))
    } else {
        None
    }
}

fn copy_opt_string(o: &Option<String>) -> (r: Option<String>)
    ensures
        r == *o,
{
    match o {
        Some(s) => Some(s.clone()),
        None => None,
    }
}

/// Enriches the player's achievement record in `stats` with the display
/// fields of `schema`, position by position. Fails with `MergeMismatch`,
/// and returns nothing of the partial work, when the record is shorter than
/// the schema or the keys differ at some position. The game name and the
/// success flag pass through unchanged.
pub fn player_achievements(stats: PlayerStats, schema: &Vec<GameAchievements>) -> (r: Result<PlayerStats, SteamError>)
    ensures
        aligned(stats.achievements@, schema@) ==> (r matches Ok(o) && o.gameName == stats.gameName
            && o.success == stats.success && o.achievements@ == merged(stats.achievements@, schema@)),
        !aligned(stats.achievements@, schema@) ==> r == Err::<PlayerStats, SteamError>(SteamError::MergeMismatch),
{
    let mut out = stats;
    if out.achievements.len() < schema.len() {
        return Err(SteamError::MergeMismatch);
    }
    let ghost p0 = out.achievements@;
    let mut index: usize = 0;
    while index < schema.len()
        invariant
            index <= schema@.len(),
            schema@.len() <= p0.len(),
            p0 == stats.achievements@,
            out.achievements@.len() == p0.len(),
            out.gameName == stats.gameName,
            out.success == stats.success,
            forall|i: int| 0 <= i < index ==> p0[i].apiname@ == #[trigger] schema@[i].name@,
            forall|i: int| 0 <= i < p0.len() ==> #[trigger] out.achievements@[i] == if i < index {
                enrich(p0[i], schema@[i])
            } else {
                p0[i]
            },
        decreases schema@.len() - index,
    {
        let g = &schema[index];
        if !(out.achievements[index].apiname == g.name) {
            proof {
                assert(out.achievements@[index as int] == p0[index as int]);
                assert(p0[index as int].apiname@ != schema@[index as int].name@);
            }
            return Err(SteamError::MergeMismatch);
        }
        let a = &out.achievements[index];
        let e = PlayerAchievements {
            apiname: a.apiname.clone(),
            achieved: a.achieved,
            name: Some(g.displayName.clone()),
            hidden: Some(g.hidden),
            description: copy_opt_string(&g.description),
            icon: Some(g.icon.clone()),
            icongray: Some(g.icongray.clone()),
        };
        out.achievements.set(index, e);
        index += 1;
    }
    proof {
        assert(out.achievements@ =~= merged(p0, schema@));
    }
    Ok(out)
}

/// Merging is idempotent: merging an already merged record with the same
/// schema succeeds again and leaves it as it is.
pub proof fn lemma_merge_idempotent(p: Seq<PlayerAchievements>, s: Seq<GameAchievements>)
    requires
        merge_spec(p, s) is Some,
    ensures
        merge_spec(merge_spec(p, s)->0, s) == merge_spec(p, s),
{
    let m = merged(p, s);
    assert forall|i: int| #![trigger s[i]] 0 <= i < s.len() implies m[i].apiname@ == s[i].name@ by {
        assert(m[i] == enrich(p[i], s[i]));
    }
    assert(aligned(m, s));
    assert(merged(m, s) =~= m);
}

} // verus!
