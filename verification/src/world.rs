//! The world session: the entity registry and every decision of the binding
//! layer.
//!
//! The session owns no engine objects; it remembers, for each live player
//! and bomb, the opaque handle tokens under which the host registered that
//! entity's engine-side body, collider and (for players) rotation-locking
//! constraint. Each operation validates its inputs, resolves identities,
//! converts between frames, and tells the host exactly which engine objects
//! to create or destroy — so the bookkeeping that must be leak-free and
//! idempotent is all here, and all verified.

use vstd::prelude::*;

use crate::frame::{flip_vec, spec_flip_pose, spec_flip_rot, spec_flip_vec, to_engine};
use crate::scalar::{spec_is_pos, spec_is_zero, Scalar};
use crate::types::{
    bomb_valid, check_bomb_valid, check_player_valid, check_wall_valid, player_valid,
    wall_valid, JsBomb, JsPlayer, JsVec, JsWall, JsWorld, Pose, WorldError,
};

verus! {

/// Bit pattern of the engine's default collision skin, 0.01: colliders are
/// built with this margin, and a wall's half-extents have it subtracted to
/// avoid persistent contact jitter.
pub const COLLIDER_MARGIN_BITS: u32 = 0x3C23_D70A;

/// Bit pattern of the default timestep, one sixtieth of a second, that a
/// fresh engine instance is configured with.
pub const DEFAULT_TIMESTEP_BITS: u32 = 0x3C88_8889;

/// The engine-side handle tokens of one player: body, collider, and the
/// rotation-locking constraint.
#[derive(Clone, Copy, PartialEq, Eq, Structural, Debug)]
pub struct PlayerHandles {
    pub body: u64,
    pub collider: u64,
    pub constraint: u64,
}

/// An instruction to create one dynamic disk body: its pose and velocity in
/// the engine's frame, and the disk radius.
#[derive(Clone, Copy, PartialEq, Eq, Structural, Debug)]
pub struct BodySpawn {
    pub pose: Pose,
    pub radius: Scalar,
}

/// An instruction to create one static box collider attached to the ground:
/// center and rotation in the engine's frame, and the full width and height
/// (the host subtracts the engine's collision margin from each half-extent).
#[derive(Clone, Copy, PartialEq, Eq, Structural, Debug)]
pub struct WallSpawn {
    pub pos: JsVec,
    pub rot: Scalar,
    pub w: Scalar,
    pub h: Scalar,
}

/// An instruction to set one body's linear velocity: the body's handle
/// token, the velocity in the engine's frame, and whether a sleeping body
/// must be woken first (the velocity is non-zero in at least one axis).
#[derive(Clone, Copy, PartialEq, Eq, Structural, Debug)]
pub struct VelocityCmd {
    pub body: u64,
    pub vel: JsVec,
    pub wake: bool,
}

/// One live player's registry record: identity, team, radius, and the
/// handle tokens of its engine objects.
#[derive(Clone, Debug)]
pub struct PlayerRec {
    pub id: String,
    pub team: String,
    pub radius: Scalar,
    pub handles: PlayerHandles,
}

/// A player registry is well formed when its ids are pairwise distinct and
/// every stored radius is finite and strictly positive.
pub open spec fn players_wf(s: Seq<PlayerRec>) -> bool {
    &&& forall|i: int, j: int| 0 <= i < j < s.len() ==> s[i].id@ != s[j].id@
    &&& forall|i: int| 0 <= i < s.len() ==> spec_is_pos(s[i].radius.bits)
}

/// Some registry entry carries the given id.
pub open spec fn has_player(s: Seq<PlayerRec>, id: Seq<char>) -> bool {
    exists|i: int| 0 <= i < s.len() && s[i].id@ == id
}

/// The index of the entry carrying the given id (unique in a well-formed
/// registry).
pub open spec fn player_index(s: Seq<PlayerRec>, id: Seq<char>) -> int {
    choose|i: int| 0 <= i < s.len() && s[i].id@ == id
}

/// The registry record that registering a player descriptor under the given
/// handle tokens produces.
pub open spec fn spec_player_rec(p: JsPlayer, h: PlayerHandles) -> PlayerRec {
    PlayerRec { id: p.id, team: p.team, radius: p.r, handles: h }
}

/// The spawn instruction for a player descriptor: its pose converted to the
/// engine's frame, and its radius.
pub open spec fn spec_player_spawn(p: JsPlayer) -> BodySpawn {
    BodySpawn {
        pose: spec_flip_pose(Pose { pos: p.pos, rot: p.rot, vel: p.vel }),
        radius: p.r,
    }
}

/// The external-facing view of one registry record, given the engine-frame
/// pose read back from that player's body: identity data from the record,
/// pose converted to the external frame.
pub open spec fn spec_player_view(rec: PlayerRec, reading: Pose) -> JsPlayer {
    JsPlayer {
        id: rec.id,
        team: rec.team,
        pos: spec_flip_vec(reading.pos),
        rot: spec_flip_rot(reading.rot),
        vel: spec_flip_vec(reading.vel),
        r: rec.radius,
    }
}

/// In a well-formed registry the entry carrying an id is unique, so the
/// chosen index is the found one.
pub proof fn lemma_player_index_unique(s: Seq<PlayerRec>, id: Seq<char>, i: int)
    requires
        players_wf(s),
        0 <= i < s.len(),
        s[i].id@ == id,
    ensures
        player_index(s, id) == i,
{
    let j = player_index(s, id);
    assert(0 <= j < s.len() && s[j].id@ == id);
    if j < i {
        assert(s[j].id@ != s[i].id@);
    } else if i < j {
        assert(s[i].id@ != s[j].id@);
    }
}

/// Removing one entry keeps a player registry well formed, erases exactly
/// that entry's id, and keeps every other id.
pub proof fn lemma_remove_player_entry(s: Seq<PlayerRec>, i: int)
    requires
        players_wf(s),
        0 <= i < s.len(),
    ensures
        players_wf(s.remove(i)),
        !has_player(s.remove(i), s[i].id@),
        forall|id: Seq<char>| id != s[i].id@ ==> has_player(s.remove(i), id) == has_player(
            s,
            id,
        ),
{
    let t = s.remove(i);
    assert forall|k: int| 0 <= k < t.len() implies t[k].id@ != s[i].id@ by {
        if k < i {
            assert(t[k] == s[k]);
        } else {
            assert(t[k] == s[k + 1]);
        }
    }
    assert forall|id: Seq<char>| id != s[i].id@ && has_player(s, id) implies has_player(
        t,
        id,
    ) by {
        let k = choose|k: int| 0 <= k < s.len() && s[k].id@ == id;
        if k < i {
            assert(t[k] == s[k]);
        } else {
            assert(k > i);
            assert(t[k - 1] == s[k]);
        }
    }
}

/// The engine-side handle tokens of one bomb: body and collider. Bombs
/// carry no rotation-locking constraint, so they spin freely under
/// collision torque.
#[derive(Clone, Copy, PartialEq, Eq, Structural, Debug)]
pub struct BombHandles {
    pub body: u64,
    pub collider: u64,
}

/// One live bomb's registry record: identity, team, radius, and the handle
/// tokens of its engine objects.
#[derive(Clone, Debug)]
pub struct BombRec {
    pub id: String,
    pub team: String,
    pub radius: Scalar,
    pub handles: BombHandles,
}

/// A bomb registry is well formed when its ids are pairwise distinct and
/// every stored radius is finite and strictly positive.
pub open spec fn bombs_wf(s: Seq<BombRec>) -> bool {
    &&& forall|i: int, j: int| 0 <= i < j < s.len() ==> s[i].id@ != s[j].id@
    &&& forall|i: int| 0 <= i < s.len() ==> spec_is_pos(s[i].radius.bits)
}

/// Some registry entry carries the given id.
pub open spec fn has_bomb(s: Seq<BombRec>, id: Seq<char>) -> bool {
    exists|i: int| 0 <= i < s.len() && s[i].id@ == id
}

/// The index of the entry carrying the given id (unique in a well-formed
/// registry).
pub open spec fn bomb_index(s: Seq<BombRec>, id: Seq<char>) -> int {
    choose|i: int| 0 <= i < s.len() && s[i].id@ == id
}

/// The registry record that registering a bomb descriptor under the given
/// handle tokens produces.
pub open spec fn spec_bomb_rec(b: JsBomb, h: BombHandles) -> BombRec {
    BombRec { id: b.id, team: b.team, radius: b.r, handles: h }
}

/// The spawn instruction for a bomb descriptor: its pose converted to the
/// engine's frame, and its radius.
pub open spec fn spec_bomb_spawn(b: JsBomb) -> BodySpawn {
    BodySpawn {
        pose: spec_flip_pose(Pose { pos: b.pos, rot: b.rot, vel: b.vel }),
        radius: b.r,
    }
}

/// The external-facing view of one bomb record, given the engine-frame pose
/// read back from its body.
pub open spec fn spec_bomb_view(rec: BombRec, reading: Pose) -> JsBomb {
    JsBomb {
        id: rec.id,
        team: rec.team,
        pos: spec_flip_vec(reading.pos),
        rot: spec_flip_rot(reading.rot),
        vel: spec_flip_vec(reading.vel),
        r: rec.radius,
    }
}

/// In a well-formed bomb registry the entry carrying an id is unique, so
/// the chosen index is the found one.
pub proof fn lemma_bomb_index_unique(s: Seq<BombRec>, id: Seq<char>, i: int)
    requires
        bombs_wf(s),
        0 <= i < s.len(),
        s[i].id@ == id,
    ensures
        bomb_index(s, id) == i,
{
    let j = bomb_index(s, id);
    assert(0 <= j < s.len() && s[j].id@ == id);
    if j < i {
        assert(s[j].id@ != s[i].id@);
    } else if i < j {
        assert(s[i].id@ != s[j].id@);
    }
}

/// Removing one entry keeps a bomb registry well formed, erases exactly
/// that entry's id, and keeps every other id.
pub proof fn lemma_remove_bomb_entry(s: Seq<BombRec>, i: int)
    requires
        bombs_wf(s),
        0 <= i < s.len(),
    ensures
        bombs_wf(s.remove(i)),
        !has_bomb(s.remove(i), s[i].id@),
        forall|id: Seq<char>| id != s[i].id@ ==> has_bomb(s.remove(i), id) == has_bomb(s, id),
{
    let t = s.remove(i);
    assert forall|k: int| 0 <= k < t.len() implies t[k].id@ != s[i].id@ by {
        if k < i {
            assert(t[k] == s[k]);
        } else {
            assert(t[k] == s[k + 1]);
        }
    }
    assert forall|id: Seq<char>| id != s[i].id@ && has_bomb(s, id) implies has_bomb(t, id) by {
        let k = choose|k: int| 0 <= k < s.len() && s[k].id@ == id;
        if k < i {
            assert(t[k] == s[k]);
        } else {
            assert(k > i);
            assert(t[k - 1] == s[k]);
        }
    }
}

/// The handle tokens of every entity a full snapshot write tears down: one
/// entry per old player and per old bomb, in registry order.
#[derive(Clone, Debug, PartialEq, Eq)]
pub struct WorldTeardown {
    pub players: Vec<PlayerHandles>,
    pub bombs: Vec<BombHandles>,
}

/// The external views of a whole player registry, one per record, given the
/// engine-frame reading of each record's body.
pub open spec fn player_views(s: Seq<PlayerRec>, reads: Seq<Pose>) -> Seq<JsPlayer> {
    Seq::new(s.len(), |i: int| spec_player_view(s[i], reads[i]))
}

/// The external views of a whole bomb registry.
pub open spec fn bomb_views(s: Seq<BombRec>, reads: Seq<Pose>) -> Seq<JsBomb> {
    Seq::new(s.len(), |i: int| spec_bomb_view(s[i], reads[i]))
}

/// The player registry that replaying a snapshot's player list under the
/// given handle tokens produces.
pub open spec fn replay_players(ps: Seq<JsPlayer>, hs: Seq<PlayerHandles>) -> Seq<PlayerRec> {
    Seq::new(ps.len(), |i: int| spec_player_rec(ps[i], hs[i]))
}

/// The bomb registry that replaying a snapshot's bomb list produces.
pub open spec fn replay_bombs(bs: Seq<JsBomb>, hs: Seq<BombHandles>) -> Seq<BombRec> {
    Seq::new(bs.len(), |i: int| spec_bomb_rec(bs[i], hs[i]))
}

/// Every descriptor in the snapshot is valid.
pub open spec fn world_descs_valid(w: JsWorld) -> bool {
    &&& forall|i: int| 0 <= i < w.players@.len() ==> player_valid(w.players@[i])
    &&& forall|i: int| 0 <= i < w.bombs@.len() ==> bomb_valid(w.bombs@[i])
}

/// A snapshot's player list is acceptable: every descriptor valid, ids
/// pairwise distinct.
pub open spec fn players_ok(ps: Seq<JsPlayer>) -> bool {
    &&& forall|i: int| 0 <= i < ps.len() ==> player_valid(ps[i])
    &&& forall|i: int, j: int| 0 <= i < j < ps.len() ==> ps[i].id@ != ps[j].id@
}

/// A snapshot's bomb list is acceptable under the same conditions.
pub open spec fn bombs_ok(bs: Seq<JsBomb>) -> bool {
    &&& forall|i: int| 0 <= i < bs.len() ==> bomb_valid(bs[i])
    &&& forall|i: int, j: int| 0 <= i < j < bs.len() ==> bs[i].id@ != bs[j].id@
}

/// A full snapshot is acceptable for a snapshot write.
pub open spec fn snapshot_ok(w: JsWorld) -> bool {
    players_ok(w.players@) && bombs_ok(w.bombs@)
}

/// Checks a whole snapshot before a snapshot write touches the engine:
/// every descriptor must be valid and ids must be unique within each kind
/// (a player and a bomb may share an id without conflict). Rejecting here,
/// before any engine object is destroyed or created, is what makes a
/// failed snapshot write leave the session unchanged.
pub fn check_world(snap: &JsWorld) -> (r: Result<(), WorldError>)
    ensures
        (r is Ok) == snapshot_ok(*snap),
        !world_descs_valid(*snap) ==> r matches Err(WorldError::InvalidDescriptor),
        world_descs_valid(*snap) && !snapshot_ok(*snap) ==> (r matches Err(
            WorldError::DuplicateId(s),
        ) && ((exists|i: int, j: int|
            0 <= i < j < snap.players@.len() && snap.players@[i].id@ == snap.players@[j].id@
                && snap.players@[i].id@ == s@) || (exists|i: int, j: int|
            0 <= i < j < snap.bombs@.len() && snap.bombs@[i].id@ == snap.bombs@[j].id@
                && snap.bombs@[i].id@ == s@))),
{
    let np = snap.players.len();
    let nb = snap.bombs.len();
    let mut i: usize = 0;
    while i < np
        invariant
            np == snap.players@.len(),
            i <= np,
            forall|k: int| 0 <= k < i ==> player_valid(snap.players@[k]),
        decreases np - i,
    {
        if !check_player_valid(&snap.players[i]) {
            return Err(WorldError::InvalidDescriptor);
        }
        i = i + 1;
    }
    let mut i: usize = 0;
    while i < nb
        invariant
            nb == snap.bombs@.len(),
            i <= nb,
            forall|k: int| 0 <= k < i ==> bomb_valid(snap.bombs@[k]),
        decreases nb - i,
    {
        if !check_bomb_valid(&snap.bombs[i]) {
            return Err(WorldError::InvalidDescriptor);
        }
        i = i + 1;
    }
    assert(world_descs_valid(*snap));
    let mut i: usize = 0;
    while i < np
        invariant
            np == snap.players@.len(),
            i <= np,
            world_descs_valid(*snap),
            forall|x: int, y: int| 0 <= x < y < np && x < i ==> snap.players@[x].id@
                != snap.players@[y].id@,
        decreases np - i,
    {
        let mut j: usize = i + 1;
        while j < np
            invariant
                np == snap.players@.len(),
                i < np,
                i < j <= np,
                world_descs_valid(*snap),
                forall|y: int| i < y < j ==> snap.players@[i as int].id@ != snap.players@[y].id@,
            decreases np - j,
        {
            if snap.players[i].id == snap.players[j].id {
                return Err(WorldError::DuplicateId(snap.players[i].id.clone()));
            }
            j = j + 1;
        }
        i = i + 1;
    }
    let mut i: usize = 0;
    while i < nb
        invariant
            nb == snap.bombs@.len(),
            i <= nb,
            world_descs_valid(*snap),
            players_ok(snap.players@),
            forall|x: int, y: int| 0 <= x < y < nb && x < i ==> snap.bombs@[x].id@
                != snap.bombs@[y].id@,
        decreases nb - i,
    {
        let mut j: usize = i + 1;
        while j < nb
            invariant
                nb == snap.bombs@.len(),
                i < nb,
                i < j <= nb,
                world_descs_valid(*snap),
                players_ok(snap.players@),
                forall|y: int| i < y < j ==> snap.bombs@[i as int].id@ != snap.bombs@[y].id@,
            decreases nb - j,
        {
            if snap.bombs[i].id == snap.bombs[j].id {
                return Err(WorldError::DuplicateId(snap.bombs[i].id.clone()));
            }
            j = j + 1;
        }
        i = i + 1;
    }
    Ok(())
}

/// The world session: the player and bomb registries.
pub struct BombersplashWorld {
    players: Vec<PlayerRec>,
    bombs: Vec<BombRec>,
}

impl BombersplashWorld {
    /// The player registry's contents, in insertion order.
    pub closed spec fn players_view(self) -> Seq<PlayerRec> {
        self.players@
    }

    /// The bomb registry's contents, in insertion order.
    pub closed spec fn bombs_view(self) -> Seq<BombRec> {
        self.bombs@
    }

    /// Both registries are well formed.
    pub open spec fn wf(self) -> bool {
        players_wf(self.players_view()) && bombs_wf(self.bombs_view())
    }

    /// Creates a session with empty registries. The host pairs it with a
    /// fresh engine instance configured with zero gravity (a top-down
    /// arena) and the default timestep of one sixtieth of a second.
    pub fn new() -> (r: BombersplashWorld)
        ensures
            r.wf(),
            r.players_view() == Seq::<PlayerRec>::empty(),
            r.bombs_view() == Seq::<BombRec>::empty(),
    {
        let r = BombersplashWorld { players: Vec::new(), bombs: Vec::new() };
        proof {
            assert(r.players@ =~= Seq::<PlayerRec>::empty());
            assert(r.bombs@ =~= Seq::<BombRec>::empty());
        }
        r
    }

    /// Finds the registry index of a player id.
    fn find_player(&self, id: &String) -> (r: Option<usize>)
        ensures
            match r {
                Some(i) => i < self.players_view().len() && self.players_view()[i as int].id@
                    == id@,
                None => !has_player(self.players_view(), id@),
            },
    {
        let n = self.players.len();
        let mut i: usize = 0;
        while i < n
            invariant
                n == self.players_view().len(),
                i <= n,
                forall|k: int| 0 <= k < i ==> self.players_view()[k].id@ != id@,
            decreases n - i,
        {
            if self.players[i].id == *id {
                return Some(i);
            }
            i = i + 1;
        }
        None
    }

    /// Validates a wall descriptor and converts it to the engine's frame.
    /// Walls are session-permanent: no handle is recorded, so a wall can
    /// never be queried, moved or removed afterwards, and a full snapshot
    /// write does not touch it.
    pub fn add_wall(&self, wall: &JsWall) -> (r: Result<WallSpawn, WorldError>)
        ensures
            (r is Ok) == wall_valid(*wall),
            r matches Ok(s) ==> s == (WallSpawn {
                pos: spec_flip_vec(wall.pos),
                rot: spec_flip_rot(wall.rot),
                w: wall.w,
                h: wall.h,
            }),
            !wall_valid(*wall) ==> r matches Err(WorldError::InvalidDescriptor),
    {
        if !check_wall_valid(wall) {
            return Err(WorldError::InvalidDescriptor);
        }
        Ok(WallSpawn { pos: flip_vec(wall.pos), rot: wall.rot.neg(), w: wall.w, h: wall.h })
    }

    /// Validates a player descriptor, rejects a duplicate id, and returns
    /// the spawn instruction: a dynamic disk body at the converted pose
    /// with the converted initial velocity, plus a rotation-locking
    /// constraint between the ground and the body with identity anchor
    /// frames. The registry is unchanged until the host registers the
    /// created handles with [`Self::commit_player`].
    pub fn add_player(&self, p: &JsPlayer) -> (r: Result<BodySpawn, WorldError>)
        ensures
            (r is Ok) == (player_valid(*p) && !has_player(self.players_view(), p.id@)),
            r matches Ok(s) ==> s == spec_player_spawn(*p),
            !player_valid(*p) ==> r matches Err(WorldError::InvalidDescriptor),
            player_valid(*p) && has_player(self.players_view(), p.id@) ==> (r matches Err(
                WorldError::DuplicateId(s),
            ) && s@ == p.id@),
    {
        if !check_player_valid(p) {
            return Err(WorldError::InvalidDescriptor);
        }
        if self.find_player(&p.id).is_some() {
            return Err(WorldError::DuplicateId(p.id.clone()));
        }
        Ok(BodySpawn { pose: to_engine(Pose { pos: p.pos, rot: p.rot, vel: p.vel }), radius: p.r })
    }

    /// Registers a created player under its descriptor's id. Succeeds
    /// exactly when [`Self::add_player`] would have issued the spawn: the
    /// descriptor is valid and the id is free.
    pub fn commit_player(&mut self, p: &JsPlayer, h: PlayerHandles) -> (r: Result<
        (),
        WorldError,
    >)
        requires
            old(self).wf(),
        ensures
            final(self).wf(),
            (r is Ok) == (player_valid(*p) && !has_player(old(self).players_view(), p.id@)),
            r is Ok ==> final(self).players_view() == old(self).players_view().push(
                spec_player_rec(*p, h),
            ),
            r is Err ==> final(self).players_view() == old(self).players_view(),
            final(self).bombs_view() == old(self).bombs_view(),
            !player_valid(*p) ==> r matches Err(WorldError::InvalidDescriptor),
            player_valid(*p) && has_player(old(self).players_view(), p.id@) ==> (r matches Err(
                WorldError::DuplicateId(s),
            ) && s@ == p.id@),
    {
        if !check_player_valid(p) {
            return Err(WorldError::InvalidDescriptor);
        }
        if self.find_player(&p.id).is_some() {
            return Err(WorldError::DuplicateId(p.id.clone()));
        }
        let rec = PlayerRec { id: p.id.clone(), team: p.team.clone(), radius: p.r, handles: h };
        proof {
            assert(rec == spec_player_rec(*p, h));
        }
        self.players.push(rec);
        Ok(())
    }

    /// Removes the player carrying the given id and returns the handle
    /// tokens the host must release from the engine — the constraint
    /// before or with the body it references. Absent id: `NotFound`, and
    /// nothing changes.
    pub fn remove_player(&mut self, id: &str) -> (r: Result<PlayerHandles, WorldError>)
        requires
            old(self).wf(),
        ensures
            final(self).wf(),
            !has_player(final(self).players_view(), id@),
            has_player(old(self).players_view(), id@) ==> ({
                let i = player_index(old(self).players_view(), id@);
                &&& r == Ok::<PlayerHandles, WorldError>(old(self).players_view()[i].handles)
                &&& final(self).players_view() == old(self).players_view().remove(i)
            }),
            !has_player(old(self).players_view(), id@) ==> (r matches Err(
                WorldError::NotFound(s),
            ) && s@ == id@ && final(self).players_view() == old(self).players_view()),
            forall|other: Seq<char>| other != id@ ==> has_player(final(self).players_view(), other)
                == has_player(old(self).players_view(), other),
            final(self).bombs_view() == old(self).bombs_view(),
    {
        let key: String = id.to_owned();
        match self.find_player(&key) {
            Some(i) => {
                let h = self.players[i].handles;
                proof {
                    lemma_player_index_unique(self.players@, key@, i as int);
                    lemma_remove_player_entry(self.players@, i as int);
                }
                let _ = self.players.remove(i);
                Ok(h)
            },
            None => Err(WorldError::NotFound(key)),
        }
    }

    /// Resolves a velocity write: the body to mutate, the velocity in the
    /// engine's frame, and whether a sleeping body must be woken first
    /// (exactly when the new velocity is non-zero in either axis).
    pub fn set_player_velocity(&self, id: &str, vel: JsVec) -> (r: Result<
        VelocityCmd,
        WorldError,
    >)
        requires
            self.wf(),
        ensures
            (r is Ok) == has_player(self.players_view(), id@),
            r matches Ok(cmd) ==> ({
                let i = player_index(self.players_view(), id@);
                &&& cmd.body == self.players_view()[i].handles.body
                &&& cmd.vel == spec_flip_vec(vel)
                &&& cmd.wake == (!spec_is_zero(vel.x.bits) || !spec_is_zero(vel.y.bits))
            }),
            !has_player(self.players_view(), id@) ==> (r matches Err(WorldError::NotFound(s))
                && s@ == id@),
    {
        let key: String = id.to_owned();
        match self.find_player(&key) {
            Some(i) => {
                proof {
                    lemma_player_index_unique(self.players@, key@, i as int);
                }
                let wake = !vel.x.is_zero() || !vel.y.is_zero();
                Ok(VelocityCmd { body: self.players[i].handles.body, vel: flip_vec(vel), wake })
            },
            None => Err(WorldError::NotFound(key)),
        }
    }

    /// The body handle token of the player carrying the given id, for the
    /// host to read that body's engine-frame pose before calling
    /// [`Self::get_player_state`].
    pub fn player_body(&self, id: &str) -> (r: Result<u64, WorldError>)
        requires
            self.wf(),
        ensures
            (r is Ok) == has_player(self.players_view(), id@),
            r matches Ok(b) ==> b == self.players_view()[player_index(
                self.players_view(),
                id@,
            )].handles.body,
            !has_player(self.players_view(), id@) ==> (r matches Err(WorldError::NotFound(s))
                && s@ == id@),
    {
        let key: String = id.to_owned();
        match self.find_player(&key) {
            Some(i) => {
                proof {
                    lemma_player_index_unique(self.players@, key@, i as int);
                }
                Ok(self.players[i].handles.body)
            },
            None => Err(WorldError::NotFound(key)),
        }
    }

    /// The external view of one player: identity, team and radius from the
    /// registry, and the given engine-frame reading of its body converted
    /// to the external frame. Absent id: `NotFound`.
    pub fn get_player_state(&self, id: &str, reading: Pose) -> (r: Result<JsPlayer, WorldError>)
        requires
            self.wf(),
        ensures
            (r is Ok) == has_player(self.players_view(), id@),
            r matches Ok(v) ==> v == spec_player_view(
                self.players_view()[player_index(self.players_view(), id@)],
                reading,
            ),
            !has_player(self.players_view(), id@) ==> (r matches Err(WorldError::NotFound(s))
                && s@ == id@),
    {
        let key: String = id.to_owned();
        match self.find_player(&key) {
            Some(i) => {
                proof {
                    lemma_player_index_unique(self.players@, key@, i as int);
                }
                let rec = &self.players[i];
                Ok(JsPlayer {
                    id: rec.id.clone(),
                    team: rec.team.clone(),
                    pos: flip_vec(reading.pos),
                    rot: reading.rot.neg(),
                    vel: flip_vec(reading.vel),
                    r: rec.radius,
                })
            },
            None => Err(WorldError::NotFound(key)),
        }
    }

    /// Removes the player carrying the descriptor's id if present —
    /// tolerantly, unlike [`Self::remove_player`] — and issues the spawn
    /// instruction for the descriptor, so the host can destroy the old
    /// engine objects (if any), create the new ones, and register them
    /// with [`Self::commit_player`]. Used to teleport or respawn a player
    /// without accumulating stale constraints.
    pub fn replace_player(&mut self, p: &JsPlayer) -> (r: Result<
        (Option<PlayerHandles>, BodySpawn),
        WorldError,
    >)
        requires
            old(self).wf(),
        ensures
            final(self).wf(),
            final(self).bombs_view() == old(self).bombs_view(),
            (r is Ok) == player_valid(*p),
            !player_valid(*p) ==> (r matches Err(WorldError::InvalidDescriptor)
                && final(self).players_view() == old(self).players_view()),
            r matches Ok(pair) ==> ({
                &&& pair.1 == spec_player_spawn(*p)
                &&& !has_player(final(self).players_view(), p.id@)
                &&& if has_player(old(self).players_view(), p.id@) {
                    let i = player_index(old(self).players_view(), p.id@);
                    pair.0 == Some(old(self).players_view()[i].handles)
                        && final(self).players_view() == old(self).players_view().remove(i)
                } else {
                    pair.0 == None::<PlayerHandles>
                        && final(self).players_view() == old(self).players_view()
                }
            }),
    {
        if !check_player_valid(p) {
            return Err(WorldError::InvalidDescriptor);
        }
        let removed = match self.remove_player(p.id.as_str()) {
            Ok(h) => Some(h),
            Err(_) => None,
        };
        let spawn = BodySpawn {
            pose: to_engine(Pose { pos: p.pos, rot: p.rot, vel: p.vel }),
            radius: p.r,
        };
        Ok((removed, spawn))
    }

    /// Finds the registry index of a bomb id.
    fn find_bomb(&self, id: &String) -> (r: Option<usize>)
        ensures
            match r {
                Some(i) => i < self.bombs_view().len() && self.bombs_view()[i as int].id@
                    == id@,
                None => !has_bomb(self.bombs_view(), id@),
            },
    {
        let n = self.bombs.len();
        let mut i: usize = 0;
        while i < n
            invariant
                n == self.bombs_view().len(),
                i <= n,
                forall|k: int| 0 <= k < i ==> self.bombs_view()[k].id@ != id@,
            decreases n - i,
        {
            if self.bombs[i].id == *id {
                return Some(i);
            }
            i = i + 1;
        }
        None
    }

    /// Validates a bomb descriptor, rejects a duplicate id, and returns the
    /// spawn instruction: a dynamic disk body at the converted pose with
    /// the converted initial velocity, and no rotation-locking constraint.
    pub fn add_bomb(&self, b: &JsBomb) -> (r: Result<BodySpawn, WorldError>)
        ensures
            (r is Ok) == (bomb_valid(*b) && !has_bomb(self.bombs_view(), b.id@)),
            r matches Ok(s) ==> s == spec_bomb_spawn(*b),
            !bomb_valid(*b) ==> r matches Err(WorldError::InvalidDescriptor),
            bomb_valid(*b) && has_bomb(self.bombs_view(), b.id@) ==> (r matches Err(
                WorldError::DuplicateId(s),
            ) && s@ == b.id@),
    {
        if !check_bomb_valid(b) {
            return Err(WorldError::InvalidDescriptor);
        }
        if self.find_bomb(&b.id).is_some() {
            return Err(WorldError::DuplicateId(b.id.clone()));
        }
        Ok(BodySpawn { pose: to_engine(Pose { pos: b.pos, rot: b.rot, vel: b.vel }), radius: b.r })
    }

    /// Registers a created bomb under its descriptor's id. Succeeds exactly
    /// when [`Self::add_bomb`] would have issued the spawn.
    pub fn commit_bomb(&mut self, b: &JsBomb, h: BombHandles) -> (r: Result<(), WorldError>)
        requires
            old(self).wf(),
        ensures
            final(self).wf(),
            (r is Ok) == (bomb_valid(*b) && !has_bomb(old(self).bombs_view(), b.id@)),
            r is Ok ==> final(self).bombs_view() == old(self).bombs_view().push(
                spec_bomb_rec(*b, h),
            ),
            r is Err ==> final(self).bombs_view() == old(self).bombs_view(),
            final(self).players_view() == old(self).players_view(),
            !bomb_valid(*b) ==> r matches Err(WorldError::InvalidDescriptor),
            bomb_valid(*b) && has_bomb(old(self).bombs_view(), b.id@) ==> (r matches Err(
                WorldError::DuplicateId(s),
            ) && s@ == b.id@),
    {
        if !check_bomb_valid(b) {
            return Err(WorldError::InvalidDescriptor);
        }
        if self.find_bomb(&b.id).is_some() {
            return Err(WorldError::DuplicateId(b.id.clone()));
        }
        let rec = BombRec { id: b.id.clone(), team: b.team.clone(), radius: b.r, handles: h };
        proof {
            assert(rec == spec_bomb_rec(*b, h));
        }
        self.bombs.push(rec);
        Ok(())
    }

    /// Removes the bomb carrying the given id and returns the handle tokens
    /// the host must release from the engine. Absent id: `NotFound`, and
    /// nothing changes.
    pub fn remove_bomb(&mut self, id: &str) -> (r: Result<BombHandles, WorldError>)
        requires
            old(self).wf(),
        ensures
            final(self).wf(),
            !has_bomb(final(self).bombs_view(), id@),
            has_bomb(old(self).bombs_view(), id@) ==> ({
                let i = bomb_index(old(self).bombs_view(), id@);
                &&& r == Ok::<BombHandles, WorldError>(old(self).bombs_view()[i].handles)
                &&& final(self).bombs_view() == old(self).bombs_view().remove(i)
            }),
            !has_bomb(old(self).bombs_view(), id@) ==> (r matches Err(WorldError::NotFound(s))
                && s@ == id@ && final(self).bombs_view() == old(self).bombs_view()),
            forall|other: Seq<char>| other != id@ ==> has_bomb(final(self).bombs_view(), other)
                == has_bomb(old(self).bombs_view(), other),
            final(self).players_view() == old(self).players_view(),
    {
        let key: String = id.to_owned();
        match self.find_bomb(&key) {
            Some(i) => {
                let h = self.bombs[i].handles;
                proof {
                    lemma_bomb_index_unique(self.bombs@, key@, i as int);
                    lemma_remove_bomb_entry(self.bombs@, i as int);
                }
                let _ = self.bombs.remove(i);
                Ok(h)
            },
            None => Err(WorldError::NotFound(key)),
        }
    }

    /// The body handle token of the bomb carrying the given id, for the
    /// host to read that body's engine-frame pose before calling
    /// [`Self::get_bomb_state`].
    pub fn bomb_body(&self, id: &str) -> (r: Result<u64, WorldError>)
        requires
            self.wf(),
        ensures
            (r is Ok) == has_bomb(self.bombs_view(), id@),
            r matches Ok(b) ==> b == self.bombs_view()[bomb_index(
                self.bombs_view(),
                id@,
            )].handles.body,
            !has_bomb(self.bombs_view(), id@) ==> (r matches Err(WorldError::NotFound(s))
                && s@ == id@),
    {
        let key: String = id.to_owned();
        match self.find_bomb(&key) {
            Some(i) => {
                proof {
                    lemma_bomb_index_unique(self.bombs@, key@, i as int);
                }
                Ok(self.bombs[i].handles.body)
            },
            None => Err(WorldError::NotFound(key)),
        }
    }

    /// The external view of one bomb: identity, team and radius from the
    /// registry, and the given engine-frame reading of its body converted
    /// to the external frame. Absent id: `NotFound`.
    pub fn get_bomb_state(&self, id: &str, reading: Pose) -> (r: Result<JsBomb, WorldError>)
        requires
            self.wf(),
        ensures
            (r is Ok) == has_bomb(self.bombs_view(), id@),
            r matches Ok(v) ==> v == spec_bomb_view(
                self.bombs_view()[bomb_index(self.bombs_view(), id@)],
                reading,
            ),
            !has_bomb(self.bombs_view(), id@) ==> (r matches Err(WorldError::NotFound(s))
                && s@ == id@),
    {
        let key: String = id.to_owned();
        match self.find_bomb(&key) {
            Some(i) => {
                proof {
                    lemma_bomb_index_unique(self.bombs@, key@, i as int);
                }
                let rec = &self.bombs[i];
                Ok(JsBomb {
                    id: rec.id.clone(),
                    team: rec.team.clone(),
                    pos: flip_vec(reading.pos),
                    rot: reading.rot.neg(),
                    vel: flip_vec(reading.vel),
                    r: rec.radius,
                })
            },
            None => Err(WorldError::NotFound(key)),
        }
    }

    /// The body handle tokens of every live player, in registry order, for
    /// the host to read each body's engine-frame pose before calling
    /// [`Self::get_world_state`].
    pub fn player_bodies(&self) -> (r: Vec<u64>)
        ensures
            r@.len() == self.players_view().len(),
            forall|i: int| 0 <= i < r@.len() ==> r@[i] == self.players_view()[i].handles.body,
    {
        let n = self.players.len();
        let mut out: Vec<u64> = Vec::new();
        let mut i: usize = 0;
        while i < n
            invariant
                n == self.players_view().len(),
                i <= n,
                out@.len() == i,
                forall|k: int| 0 <= k < i ==> out@[k] == self.players_view()[k].handles.body,
            decreases n - i,
        {
            out.push(self.players[i].handles.body);
            i = i + 1;
        }
        out
    }

    /// The body handle tokens of every live bomb, in registry order.
    pub fn bomb_bodies(&self) -> (r: Vec<u64>)
        ensures
            r@.len() == self.bombs_view().len(),
            forall|i: int| 0 <= i < r@.len() ==> r@[i] == self.bombs_view()[i].handles.body,
    {
        let n = self.bombs.len();
        let mut out: Vec<u64> = Vec::new();
        let mut i: usize = 0;
        while i < n
            invariant
                n == self.bombs_view().len(),
                i <= n,
                out@.len() == i,
                forall|k: int| 0 <= k < i ==> out@[k] == self.bombs_view()[k].handles.body,
            decreases n - i,
        {
            out.push(self.bombs[i].handles.body);
            i = i + 1;
        }
        out
    }

    /// The full snapshot: every live player and bomb (walls excluded by
    /// design), each with identity, team and radius from the registry and
    /// the given engine-frame reading of its body converted to the
    /// external frame. Entities appear in registry order; callers must not
    /// depend on that order. The readings are paired with the registries
    /// positionally, as [`Self::player_bodies`] and [`Self::bomb_bodies`]
    /// list them.
    pub fn get_world_state(&self, player_reads: &Vec<Pose>, bomb_reads: &Vec<Pose>) -> (r:
        JsWorld)
        requires
            player_reads@.len() == self.players_view().len(),
            bomb_reads@.len() == self.bombs_view().len(),
        ensures
            r.players@ == player_views(self.players_view(), player_reads@),
            r.bombs@ == bomb_views(self.bombs_view(), bomb_reads@),
    {
        let np = self.players.len();
        let mut players: Vec<JsPlayer> = Vec::new();
        let mut i: usize = 0;
        while i < np
            invariant
                np == self.players_view().len(),
                player_reads@.len() == np,
                i <= np,
                players@.len() == i,
                forall|k: int| 0 <= k < i ==> players@[k] == spec_player_view(
                    self.players_view()[k],
                    player_reads@[k],
                ),
            decreases np - i,
        {
            let rec = &self.players[i];
            let reading = player_reads[i];
            players.push(JsPlayer {
                id: rec.id.clone(),
                team: rec.team.clone(),
                pos: flip_vec(reading.pos),
                rot: reading.rot.neg(),
                vel: flip_vec(reading.vel),
                r: rec.radius,
            });
            i = i + 1;
        }
        let nb = self.bombs.len();
        let mut bombs: Vec<JsBomb> = Vec::new();
        let mut i: usize = 0;
        while i < nb
            invariant
                nb == self.bombs_view().len(),
                bomb_reads@.len() == nb,
                i <= nb,
                bombs@.len() == i,
                forall|k: int| 0 <= k < i ==> bombs@[k] == spec_bomb_view(
                    self.bombs_view()[k],
                    bomb_reads@[k],
                ),
            decreases nb - i,
        {
            let rec = &self.bombs[i];
            let reading = bomb_reads[i];
            bombs.push(JsBomb {
                id: rec.id.clone(),
                team: rec.team.clone(),
                pos: flip_vec(reading.pos),
                rot: reading.rot.neg(),
                vel: flip_vec(reading.vel),
                r: rec.radius,
            });
            i = i + 1;
        }
        proof {
            assert(players@ =~= player_views(self.players_view(), player_reads@));
            assert(bombs@ =~= bomb_views(self.bombs_view(), bomb_reads@));
        }
        JsWorld { players, bombs }
    }

    /// The destructive full replace: rejects the whole snapshot — leaving
    /// the registries untouched — unless every descriptor is valid and ids
    /// are unique within each kind; otherwise clears both registries,
    /// returns the handle tokens of every old entity for the host to
    /// release, and registers every snapshot entity under the given handle
    /// tokens of its freshly created engine objects. An entity present in
    /// both old and new state is destroyed and recreated all the same.
    /// Walls are never touched.
    pub fn set_world_state(
        &mut self,
        snap: &JsWorld,
        player_handles: &Vec<PlayerHandles>,
        bomb_handles: &Vec<BombHandles>,
    ) -> (r: Result<WorldTeardown, WorldError>)
        requires
            old(self).wf(),
            player_handles@.len() == snap.players@.len(),
            bomb_handles@.len() == snap.bombs@.len(),
        ensures
            final(self).wf(),
            (r is Ok) == snapshot_ok(*snap),
            r is Err ==> final(self).players_view() == old(self).players_view()
                && final(self).bombs_view() == old(self).bombs_view(),
            !world_descs_valid(*snap) ==> r matches Err(WorldError::InvalidDescriptor),
            world_descs_valid(*snap) && !snapshot_ok(*snap) ==> r matches Err(
                WorldError::DuplicateId(_),
            ),
            r matches Ok(t) ==> ({
                &&& t.players@.len() == old(self).players_view().len()
                &&& forall|i: int| 0 <= i < t.players@.len() ==> t.players@[i]
                    == old(self).players_view()[i].handles
                &&& t.bombs@.len() == old(self).bombs_view().len()
                &&& forall|i: int| 0 <= i < t.bombs@.len() ==> t.bombs@[i]
                    == old(self).bombs_view()[i].handles
                &&& final(self).players_view() == replay_players(snap.players@, player_handles@)
                &&& final(self).bombs_view() == replay_bombs(snap.bombs@, bomb_handles@)
            }),
    {
        match check_world(snap) {
            Err(e) => {
                return Err(e);
            },
            Ok(()) => {},
        }
        let np_old = self.players.len();
        let mut torn_players: Vec<PlayerHandles> = Vec::new();
        let mut i: usize = 0;
        while i < np_old
            invariant
                np_old == self.players_view().len(),
                i <= np_old,
                torn_players@.len() == i,
                forall|k: int| 0 <= k < i ==> torn_players@[k] == self.players_view()[k].handles,
            decreases np_old - i,
        {
            torn_players.push(self.players[i].handles);
            i = i + 1;
        }
        let nb_old = self.bombs.len();
        let mut torn_bombs: Vec<BombHandles> = Vec::new();
        let mut i: usize = 0;
        while i < nb_old
            invariant
                nb_old == self.bombs_view().len(),
                i <= nb_old,
                torn_bombs@.len() == i,
                forall|k: int| 0 <= k < i ==> torn_bombs@[k] == self.bombs_view()[k].handles,
            decreases nb_old - i,
        {
            torn_bombs.push(self.bombs[i].handles);
            i = i + 1;
        }
        self.players.clear();
        self.bombs.clear();
        let np = snap.players.len();
        let mut i: usize = 0;
        while i < np
            invariant
                np == snap.players@.len(),
                player_handles@.len() == np,
                i <= np,
                self.players@.len() == i,
                self.bombs@.len() == 0,
                forall|k: int| 0 <= k < i ==> self.players@[k] == spec_player_rec(
                    snap.players@[k],
                    player_handles@[k],
                ),
            decreases np - i,
        {
            let p = &snap.players[i];
            self.players.push(
                PlayerRec {
                    id: p.id.clone(),
                    team: p.team.clone(),
                    radius: p.r,
                    handles: player_handles[i],
                },
            );
            i = i + 1;
        }
        let nb = snap.bombs.len();
        let mut i: usize = 0;
        while i < nb
            invariant
                nb == snap.bombs@.len(),
                bomb_handles@.len() == nb,
                i <= nb,
                self.bombs@.len() == i,
                self.players@.len() == snap.players@.len(),
                forall|k: int| 0 <= k < snap.players@.len() ==> self.players@[k]
                    == spec_player_rec(snap.players@[k], player_handles@[k]),
                forall|k: int| 0 <= k < i ==> self.bombs@[k] == spec_bomb_rec(
                    snap.bombs@[k],
                    bomb_handles@[k],
                ),
            decreases nb - i,
        {
            let b = &snap.bombs[i];
            self.bombs.push(
                BombRec {
                    id: b.id.clone(),
                    team: b.team.clone(),
                    radius: b.r,
                    handles: bomb_handles[i],
                },
            );
            i = i + 1;
        }
        proof {
            assert(self.players@ =~= replay_players(snap.players@, player_handles@));
            assert(self.bombs@ =~= replay_bombs(snap.bombs@, bomb_handles@));
        }
        Ok(WorldTeardown { players: torn_players, bombs: torn_bombs })
    }
}

} // verus!
