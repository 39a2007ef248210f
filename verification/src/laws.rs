//! The laws the binding layer promises across several operations, proved
//! over the same spec functions its contracts are stated with. The
//! coordinate round-trip law lives with the adapter, in
//! [`crate::frame::lemma_frame_round_trip`].

use vstd::prelude::*;

use crate::frame::{lemma_flip_vec_finite, lemma_frame_round_trip, spec_flip_pose};
use crate::scalar::lemma_neg_keeps_finite;
use crate::types::{player_valid, pose_finite, JsPlayer, Pose};
use crate::world::{
    bomb_views, bombs_ok, bombs_wf, has_player, lemma_player_index_unique, player_index,
    player_views, players_ok, players_wf, replay_bombs, replay_players, spec_bomb_spawn,
    spec_player_rec, spec_player_spawn, BombHandles, BombRec, PlayerHandles, PlayerRec,
};

verus! {

/// No leak on removal: registering a player with a fresh id and then
/// removing that id restores the registry exactly, so a snapshot taken
/// afterwards contains no entity under the id, and a second registration
/// under the same id meets exactly the success condition of the add
/// operation again. The pushed and removed entries are the very ones
/// `commit_player` and `remove_player` promise in their contracts.
pub proof fn lemma_no_leak_on_removal(s: Seq<PlayerRec>, p: JsPlayer, h: PlayerHandles)
    requires
        players_wf(s),
        player_valid(p),
        !has_player(s, p.id@),
    ensures
        ({
            let s1 = s.push(spec_player_rec(p, h));
            let s2 = s1.remove(player_index(s1, p.id@));
            &&& has_player(s1, p.id@)
            &&& s2 == s
            &&& !has_player(s2, p.id@)
        }),
{
    let s1 = s.push(spec_player_rec(p, h));
    let n = s.len() as int;
    assert(s1[n].id@ == p.id@);
    assert(has_player(s1, p.id@));
    assert forall|i: int, j: int| 0 <= i < j < s1.len() implies s1[i].id@ != s1[j].id@ by {
        if j < n {
            assert(s1[i] == s[i] && s1[j] == s[j]);
        } else {
            assert(s1[i] == s[i]);
            assert(s[i].id@ != p.id@);
        }
    }
    assert(players_wf(s1));
    lemma_player_index_unique(s1, p.id@, n);
    assert(s1.remove(n) =~= s);
}

/// Snapshot idempotence: writing back the snapshot just read leaves the
/// externally observable population unchanged. For any well-formed
/// registries and finite engine readings, the read-back snapshot passes
/// the write's whole-snapshot check, replaying it preserves every entity's
/// id, team and radius in order (only the handle tokens differ, as the new
/// engine objects are fresh), and the spawn instruction of each replayed
/// entity recreates its body at exactly the engine-frame pose that was
/// read — bit for bit, the two frame flips cancelling.
pub proof fn lemma_snapshot_idempotent(
    players: Seq<PlayerRec>,
    bombs: Seq<BombRec>,
    preads: Seq<Pose>,
    breads: Seq<Pose>,
    ph: Seq<PlayerHandles>,
    bh: Seq<BombHandles>,
)
    requires
        players_wf(players),
        bombs_wf(bombs),
        preads.len() == players.len(),
        breads.len() == bombs.len(),
        ph.len() == players.len(),
        bh.len() == bombs.len(),
        forall|i: int| 0 <= i < preads.len() ==> pose_finite(preads[i]),
        forall|i: int| 0 <= i < breads.len() ==> pose_finite(breads[i]),
    ensures
        players_ok(player_views(players, preads)),
        bombs_ok(bomb_views(bombs, breads)),
        ({
            let replayed = replay_players(player_views(players, preads), ph);
            &&& replayed.len() == players.len()
            &&& forall|i: int| 0 <= i < players.len() ==> #[trigger] replayed[i].id
                == players[i].id && replayed[i].team == players[i].team && replayed[i].radius
                == players[i].radius
        }),
        ({
            let replayed = replay_bombs(bomb_views(bombs, breads), bh);
            &&& replayed.len() == bombs.len()
            &&& forall|i: int| 0 <= i < bombs.len() ==> #[trigger] replayed[i].id
                == bombs[i].id && replayed[i].team == bombs[i].team && replayed[i].radius
                == bombs[i].radius
        }),
        forall|i: int| 0 <= i < players.len() ==> #[trigger] spec_player_spawn(
            player_views(players, preads)[i],
        ).pose == preads[i],
        forall|i: int| 0 <= i < bombs.len() ==> #[trigger] spec_bomb_spawn(
            bomb_views(bombs, breads)[i],
        ).pose == breads[i],
{
    let pv = player_views(players, preads);
    let bv = bomb_views(bombs, breads);
    assert forall|i: int| 0 <= i < pv.len() implies crate::types::player_valid(
        #[trigger] pv[i],
    ) by {
        lemma_flip_vec_finite(preads[i].pos);
        lemma_neg_keeps_finite(preads[i].rot.bits);
        lemma_flip_vec_finite(preads[i].vel);
    }
    assert forall|i: int| 0 <= i < bv.len() implies crate::types::bomb_valid(
        #[trigger] bv[i],
    ) by {
        lemma_flip_vec_finite(breads[i].pos);
        lemma_neg_keeps_finite(breads[i].rot.bits);
        lemma_flip_vec_finite(breads[i].vel);
    }
    assert forall|i: int| 0 <= i < players.len() implies #[trigger] spec_player_spawn(
        pv[i],
    ).pose == preads[i] by {
        let assembled = Pose { pos: pv[i].pos, rot: pv[i].rot, vel: pv[i].vel };
        assert(assembled == spec_flip_pose(preads[i]));
        lemma_frame_round_trip(preads[i]);
    }
    assert forall|i: int| 0 <= i < bombs.len() implies #[trigger] spec_bomb_spawn(bv[i]).pose
        == breads[i] by {
        let assembled = Pose { pos: bv[i].pos, rot: bv[i].rot, vel: bv[i].vel };
        assert(assembled == spec_flip_pose(breads[i]));
        lemma_frame_round_trip(breads[i]);
    }
}

} // verus!
