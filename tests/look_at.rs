use player_controller::fixed::UNIT;
use player_controller::{Player, RayHit, Vec3};
use rapier3d::prelude::{
    ColliderBuilder, ColliderHandle, ColliderSet, Point, QueryFilter, QueryPipeline, Ray, Real, RigidBodyBuilder,
    RigidBodyHandle, RigidBodySet, Vector,
};

struct World {
    bodies: RigidBodySet,
    colliders: ColliderSet,
    query: QueryPipeline,
    player_collider: ColliderHandle,
    box_body: RigidBodyHandle,
}

fn world_with_box() -> World {
    let mut bodies = RigidBodySet::new();
    let mut colliders = ColliderSet::new();
    let box_body = bodies.insert(RigidBodyBuilder::fixed().build());
    colliders.insert_with_parent(ColliderBuilder::cuboid(1.0, 1.0, 1.0).build(), box_body, &mut bodies);
    let player_collider = colliders.insert(
        ColliderBuilder::ball(0.5).restitution(0.7).translation(Vector::new(0.0, 0.0, 5.0)).build(),
    );
    let mut query = QueryPipeline::new();
    query.update(&bodies, &colliders);
    World { bodies, colliders, query, player_collider, box_body }
}

fn cast(w: &World, dir: Vector<Real>) -> Option<RayHit> {
    let ray = Ray::new(Point::new(0.0, 0.0, 5.0), dir);
    let filter = QueryFilter::default().exclude_collider(w.player_collider);
    w.query.cast_ray(&w.bodies, &w.colliders, &ray, Real::MAX, true, filter).map(|(hit, toi)| {
        let p = ray.point_at(toi);
        let body = w.colliders.get(hit).unwrap().parent().unwrap();
        RayHit {
            point: Vec3::new(
                (p.x as f64 * 1e6).round() as i64,
                (p.y as f64 * 1e6).round() as i64,
                (p.z as f64 * 1e6).round() as i64,
            ),
            body,
        }
    })
}

fn player(w: &World) -> Player {
    Player::spawn(Vec3::new(0, 0, 5 * UNIT), 0, 1_570_796, w.player_collider).0
}

#[test]
fn look_at_hits_the_box_in_front() {
    let w = world_with_box();
    let mut p = player(&w);
    p.update_look_at(cast(&w, Vector::new(0.0, 0.0, -1.0)));
    let pt = p.look_at_point().unwrap();
    assert_eq!((pt.x, pt.y), (0, 0));
    assert!((pt.z - UNIT).abs() <= 10);
    assert_eq!(p.look_at_body(), Some(w.box_body));
}

#[test]
fn look_at_is_empty_when_unobstructed() {
    let w = world_with_box();
    let mut p = player(&w);
    p.update_look_at(cast(&w, Vector::new(0.0, 0.0, -1.0)));
    assert!(p.look_at_point().is_some());
    p.update_look_at(cast(&w, Vector::new(0.0, 1.0, 0.0)));
    assert_eq!(p.look_at_point(), None);
    assert_eq!(p.look_at_body(), None);
}
