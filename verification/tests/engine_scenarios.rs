//! Scenario tests that pair the verified session with the real rigid-body
//! engine, plumbed together the same way a host would: the session decides,
//! the engine simulates.

use std::collections::HashMap;

use bombersplash_physics::scalar::Scalar;
use bombersplash_physics::types::{JsBomb, JsPlayer, JsVec, JsWall, Pose};
use bombersplash_physics::world::{
    BodySpawn, BombHandles, BombersplashWorld, PlayerHandles, COLLIDER_MARGIN_BITS,
};

use nphysics2d::force_generator::DefaultForceGeneratorSet;
use nphysics2d::joint::{CartesianConstraint, DefaultJointConstraintSet};
use nphysics2d::math::Velocity;
use nphysics2d::nalgebra::{Isometry2, Point2, UnitComplex, Vector2};
use nphysics2d::ncollide2d::shape::{Ball, Cuboid, ShapeHandle};
use nphysics2d::object::{
    BodyPartHandle, ColliderDesc, DefaultBodyHandle, DefaultBodySet, DefaultColliderSet,
    Ground, RigidBodyDesc,
};
use nphysics2d::world::{DefaultGeometricalWorld, DefaultMechanicalWorld};

const COLLIDER_MARGIN: f32 = f32::from_bits(COLLIDER_MARGIN_BITS);

fn f(s: Scalar) -> f32 {
    f32::from_bits(s.bits)
}

fn sc(v: f32) -> Scalar {
    Scalar::from_bits(v.to_bits())
}

fn vec2(x: f32, y: f32) -> JsVec {
    JsVec { x: sc(x), y: sc(y) }
}

fn player(id: &str, px: f32, py: f32, rot: f32, vx: f32, vy: f32, r: f32) -> JsPlayer {
    JsPlayer {
        id: id.to_string(),
        team: "red".to_string(),
        pos: vec2(px, py),
        rot: sc(rot),
        vel: vec2(vx, vy),
        r: sc(r),
    }
}

fn bomb(id: &str, px: f32, py: f32, rot: f32, vx: f32, vy: f32, r: f32) -> JsBomb {
    JsBomb {
        id: id.to_string(),
        team: "red".to_string(),
        pos: vec2(px, py),
        rot: sc(rot),
        vel: vec2(vx, vy),
        r: sc(r),
    }
}

struct Harness {
    session: BombersplashWorld,
    mechanical: DefaultMechanicalWorld<f32>,
    geometrical: DefaultGeometricalWorld<f32>,
    bodies: DefaultBodySet<f32>,
    colliders: DefaultColliderSet<f32>,
    constraints: DefaultJointConstraintSet<f32>,
    forces: DefaultForceGeneratorSet<f32>,
    ground: DefaultBodyHandle,
    body_map: HashMap<u64, DefaultBodyHandle>,
    next_token: u64,
}

impl Harness {
    fn new() -> Harness {
        let mut bodies = DefaultBodySet::new();
        let ground = bodies.insert(Ground::new());
        Harness {
            session: BombersplashWorld::new(),
            mechanical: DefaultMechanicalWorld::new(Vector2::new(0.0, 0.0)),
            geometrical: DefaultGeometricalWorld::new(),
            bodies,
            colliders: DefaultColliderSet::new(),
            constraints: DefaultJointConstraintSet::new(),
            forces: DefaultForceGeneratorSet::new(),
            ground,
            body_map: HashMap::new(),
            next_token: 1,
        }
    }

    fn step(&mut self, dt: f32) {
        self.mechanical.set_timestep(dt);
        self.mechanical.step(
            &mut self.geometrical,
            &mut self.bodies,
            &mut self.colliders,
            &mut self.constraints,
            &mut self.forces,
        );
    }

    fn add_wall(&mut self, wall: &JsWall) {
        let spawn = self.session.add_wall(wall).unwrap();
        let half_w = f(spawn.w) / 2.0 - COLLIDER_MARGIN;
        let half_h = f(spawn.h) / 2.0 - COLLIDER_MARGIN;
        let shape = ShapeHandle::new(Cuboid::new(Vector2::new(half_w, half_h)));
        let collider = ColliderDesc::new(shape)
            .margin(COLLIDER_MARGIN)
            .position(Isometry2::new(
                Vector2::new(f(spawn.pos.x), f(spawn.pos.y)),
                f(spawn.rot),
            ))
            .build(BodyPartHandle(self.ground, 0));
        let _ = self.colliders.insert(collider);
    }

    fn spawn_disk(&mut self, spawn: &BodySpawn) -> DefaultBodyHandle {
        let body = RigidBodyDesc::new()
            .position(Isometry2::new(
                Vector2::new(f(spawn.pose.pos.x), f(spawn.pose.pos.y)),
                f(spawn.pose.rot),
            ))
            .velocity(Velocity::linear(f(spawn.pose.vel.x), f(spawn.pose.vel.y)))
            .build();
        let handle = self.bodies.insert(body);
        let shape = ShapeHandle::new(Ball::new(f(spawn.radius)));
        let collider = ColliderDesc::new(shape)
            .density(1.0)
            .margin(COLLIDER_MARGIN)
            .build(BodyPartHandle(handle, 0));
        let _ = self.colliders.insert(collider);
        handle
    }

    fn add_player(&mut self, p: &JsPlayer) {
        let spawn = self.session.add_player(p).unwrap();
        let handle = self.spawn_disk(&spawn);
        let lock = CartesianConstraint::new(
            BodyPartHandle(self.ground, 0),
            BodyPartHandle(handle, 0),
            Point2::origin(),
            UnitComplex::identity(),
            Point2::origin(),
            UnitComplex::identity(),
        );
        let _ = self.constraints.insert(lock);
        let token = self.next_token;
        self.next_token += 3;
        self.body_map.insert(token, handle);
        self.session
            .commit_player(p, PlayerHandles { body: token, collider: token + 1, constraint: token + 2 })
            .unwrap();
    }

    fn add_bomb(&mut self, b: &JsBomb) {
        let spawn = self.session.add_bomb(b).unwrap();
        let handle = self.spawn_disk(&spawn);
        let token = self.next_token;
        self.next_token += 2;
        self.body_map.insert(token, handle);
        self.session
            .commit_bomb(b, BombHandles { body: token, collider: token + 1 })
            .unwrap();
    }

    fn read_pose(&self, token: u64) -> Pose {
        let handle = self.body_map[&token];
        let body = self.bodies.rigid_body(handle).unwrap();
        let iso = body.position();
        let vel = body.velocity().linear;
        Pose {
            pos: vec2(iso.translation.vector.x, iso.translation.vector.y),
            rot: sc(iso.rotation.angle()),
            vel: vec2(vel.x, vel.y),
        }
    }

    fn player_state(&self, id: &str) -> JsPlayer {
        let token = self.session.player_body(id).unwrap();
        self.session.get_player_state(id, self.read_pose(token)).unwrap()
    }

    fn bomb_state(&self, id: &str) -> JsBomb {
        let token = self.session.bomb_body(id).unwrap();
        self.session.get_bomb_state(id, self.read_pose(token)).unwrap()
    }
}

#[test]
fn free_flight_covers_velocity_times_time() {
    let mut h = Harness::new();
    h.add_bomb(&bomb("b1", 0.0, 0.0, 0.0, 1.0, 0.0, 0.3));
    let dt = 1.0 / 60.0;
    let n = 60;
    for _ in 0..n {
        h.step(dt);
    }
    let state = h.bomb_state("b1");
    let expected = 1.0 * n as f32 * dt;
    assert!((f(state.pos.x) - expected).abs() < 1e-3, "x = {}", f(state.pos.x));
    assert!(f(state.pos.y).abs() < 1e-4);
    assert!((f(state.vel.x) - 1.0).abs() < 1e-4);
}

#[test]
fn player_stops_at_wall() {
    let mut h = Harness::new();
    h.add_wall(&JsWall { pos: vec2(0.0, 0.0), rot: sc(0.0), w: sc(10.0), h: sc(1.0) });
    h.add_player(&player("p1", 0.0, -5.0, 0.0, 0.0, 5.0, 0.5));
    let dt = 1.0 / 60.0;
    for _ in 0..300 {
        h.step(dt);
    }
    let state = h.player_state("p1");
    // The player approached the wall from external y = -5 and must be
    // stopped at the wall boundary: center near -(wall half height + radius).
    assert!(f(state.pos.y) <= -0.9, "y = {}", f(state.pos.y));
    assert!(f(state.pos.y) >= -1.6, "y = {}", f(state.pos.y));
    assert!(f(state.pos.x).abs() < 1e-3, "x = {}", f(state.pos.x));
}

#[test]
fn rotation_lock_holds_for_players_not_bombs() {
    let mut h = Harness::new();
    h.add_wall(&JsWall { pos: vec2(0.0, 0.0), rot: sc(0.0), w: sc(10.0), h: sc(1.0) });
    // Both bodies strike the wall obliquely, which exerts friction torque.
    h.add_player(&player("p1", -2.0, -4.0, 0.0, 1.5, 5.0, 0.5));
    h.add_bomb(&bomb("b1", 2.0, -4.0, 0.0, 1.5, 5.0, 0.5));
    let dt = 1.0 / 60.0;
    for _ in 0..240 {
        h.step(dt);
    }
    let p = h.player_state("p1");
    let b = h.bomb_state("b1");
    // The constraint keeps the player's reported rotation at zero, up to
    // the iterative solver's small residual.
    assert!(f(p.rot).abs() < 0.01, "player rot = {}", f(p.rot));
    // The unconstrained bomb picked up real spin from the same collision.
    assert!(f(b.rot).abs() > 0.05, "bomb rot = {}", f(b.rot));
}
