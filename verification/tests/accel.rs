use raytracer::fx::FX_ONE;
use raytracer::vec3::Vec3;
use raytracer::ray::Ray;
use raytracer::sphere::Sphere;
use raytracer::object::{Object, HittableList, BvhNode, ConstantMedium};
use raytracer::perlin::{Perlin, perm_check};

fn fx(x: f64) -> i64 {
    (x * 65536.0).round() as i64
}

fn sphere_at(x: f64, z: f64, radius: f64, mat: usize) -> Object {
    Object::Sphere(Sphere::new(Vec3::new(fx(x), 0, fx(z)), fx(radius), mat))
}

fn scene_objects() -> Vec<Object> {
    vec![
        sphere_at(0.0, -10.0, 1.0, 0),
        sphere_at(3.0, -6.0, 1.0, 1),
        sphere_at(-3.0, -8.0, 1.5, 2),
        sphere_at(0.5, -20.0, 2.0, 3),
        sphere_at(-1.0, -4.0, 0.5, 4),
    ]
}

#[test]
fn bvh_input_check_accepts_and_rejects() {
    assert!(raytracer::bvh::bvh_input_check(&scene_objects(), 0, FX_ONE));
    // an empty list has no bounding box, so it is not a valid input
    let bad = vec![Object::List(HittableList::new())];
    assert!(!raytracer::bvh::bvh_input_check(&bad, 0, FX_ONE));
    // a built tree passes its own invariant check
    let tree = BvhNode::new(scene_objects(), 0, FX_ONE);
    assert!(raytracer::bvh::bvh_input_check(&vec![tree], 0, FX_ONE));
}

#[test]
fn bvh_matches_linear_scan() {
    let bvh = BvhNode::new(scene_objects(), 0, FX_ONE);
    let list = Object::List(HittableList { objects: scene_objects() });
    let origins = [
        Vec3::new(0, 0, fx(5.0)),
        Vec3::new(fx(3.0), 0, fx(5.0)),
        Vec3::new(fx(-3.0), 0, fx(5.0)),
        Vec3::new(fx(0.5), 0, fx(5.0)),
        Vec3::new(fx(-1.0), 0, fx(5.0)),
        Vec3::new(fx(9.0), 0, fx(5.0)),
    ];
    for o in origins.iter() {
        let r = Ray::new(*o, Vec3::new(0, 0, -FX_ONE), 0);
        let a = bvh.hit(&r, 0, fx(10000.0));
        let b = list.hit(&r, 0, fx(10000.0));
        match (a, b) {
            (Some(ha), Some(hb)) => {
                assert_eq!(ha.t, hb.t);
                assert_eq!(ha.p, hb.p);
                assert_eq!(ha.mat, hb.mat);
            },
            (None, None) => {},
            _ => panic!("hierarchy and scan disagree"),
        }
    }
    // slanted rays as well
    for k in 0..8 {
        let r = Ray::new(
            Vec3::new(fx(-4.0 + k as f64), fx(0.25), fx(6.0)),
            Vec3::new(fx(0.1), fx(-0.02), -FX_ONE),
            0,
        );
        let a = bvh.hit(&r, 0, fx(10000.0));
        let b = list.hit(&r, 0, fx(10000.0));
        assert_eq!(a.map(|h| (h.t, h.mat)), b.map(|h| (h.t, h.mat)));
    }
}

#[test]
fn bvh_single_object_is_that_object() {
    let bvh = BvhNode::new(vec![sphere_at(0.0, -10.0, 1.0, 7)], 0, FX_ONE);
    let r = Ray::new(Vec3::new(0, 0, 0), Vec3::new(0, 0, -FX_ONE), 0);
    let h = bvh.hit(&r, 0, fx(10000.0)).expect("must hit the only object");
    assert_eq!(h.mat, 7);
}

#[test]
fn list_scan_keeps_the_closest_hit() {
    let list = Object::List(HittableList {
        objects: vec![
            sphere_at(0.0, -20.0, 1.0, 0),
            sphere_at(0.0, -10.0, 1.0, 1),
            sphere_at(0.0, -15.0, 1.0, 2),
        ],
    });
    let r = Ray::new(Vec3::new(0, 0, 0), Vec3::new(0, 0, -FX_ONE), 0);
    let h = list.hit(&r, 0, fx(10000.0)).unwrap();
    assert_eq!(h.mat, 1);
}

#[test]
fn empty_list_has_no_box_and_no_hit() {
    let empty = HittableList::new();
    assert!(empty.bounding_box(0, FX_ONE).is_none());
    let obj = Object::List(HittableList::new());
    let r = Ray::new(Vec3::new(0, 0, 0), Vec3::new(0, 0, -FX_ONE), 0);
    assert!(obj.hit(&r, 0, fx(10000.0)).is_none());
}

#[test]
fn list_box_unions_members() {
    let list = HittableList {
        objects: vec![sphere_at(0.0, -10.0, 1.0, 0), sphere_at(3.0, -6.0, 1.0, 1)],
    };
    let bb = list.bounding_box(0, FX_ONE).unwrap();
    assert_eq!(bb.minimum.x, fx(-1.0));
    assert_eq!(bb.maximum.x, fx(4.0));
    assert_eq!(bb.minimum.z, fx(-11.0));
    assert_eq!(bb.maximum.z, fx(-5.0));
}

#[test]
fn medium_scatters_inside_or_passes() {
    let boundary = sphere_at(0.0, -10.0, 3.0, 0);
    let medium = Object::Medium(ConstantMedium::new1(boundary, fx(50.0), 5));
    let r = Ray::new(Vec3::new(0, 0, 0), Vec3::new(0, 0, -FX_ONE), 0);
    let mut hits = 0;
    for _ in 0..50 {
        if let Some(h) = medium.hit(&r, 0, fx(10000.0)) {
            hits += 1;
            assert_eq!(h.mat, 5);
            assert!(h.front_face);
            // the scattering point lies within the boundary crossing span
            assert!(h.t >= 0 && h.t <= fx(13.5));
        }
    }
    // a density this high scatters nearly every ray
    assert!(hits > 25, "only {hits} of 50 rays scattered");
    // a ray that misses the boundary never scatters
    let away = Ray::new(Vec3::new(0, 0, 0), Vec3::new(0, 0, FX_ONE), 0);
    assert!(medium.hit(&away, 0, fx(10000.0)).is_none());
}

#[test]
fn mats_below_checks_the_whole_tree() {
    let tree = BvhNode::new(scene_objects(), 0, FX_ONE);
    assert!(tree.mats_below(5));
    assert!(!tree.mats_below(3));
}

#[test]
fn perlin_tables_are_usable_and_noise_is_deterministic() {
    let p = Perlin::new();
    assert!(perm_check(&p.perm_x));
    assert!(perm_check(&p.perm_y));
    assert!(perm_check(&p.perm_z));
    let pt = Vec3::new(fx(1.3), fx(0.7), fx(2.9));
    assert_eq!(p.noise(pt), p.noise(pt));
    assert_eq!(p.turb(pt, 7), p.turb(pt, 7));
    assert!(p.turb(pt, 7) >= 0);
}
