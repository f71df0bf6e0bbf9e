use raytracer::fx::FX_ONE;
use raytracer::vec3::Vec3;
use raytracer::ray::Ray;
use raytracer::sphere::Sphere;
use raytracer::object::{Object, HittableList};
use raytracer::texture::{Texture, SolidColor, BaseColor, CheckerTexture, NoiseTexture,
    ImageTexture};
use raytracer::materia::{Material, Lambertian, Metal, Dielectric, DiffuseLight, Isotropic,
    schlick, random_cosine_direction};
use raytracer::pdf::{CosinePdf, HittablePdf, NonePdf, SinglePdf, MixturePdf};
use raytracer::camera::Camera;
use raytracer::integrator::{color, mats_check};
use raytracer::hittable::HitRecord;

fn fx(x: f64) -> i64 {
    (x * 65536.0).round() as i64
}

fn to_f(x: i64) -> f64 {
    x as f64 / 65536.0
}

#[test]
fn solid_and_base_textures_are_constant() {
    let c = Vec3::new(fx(0.2), fx(0.4), fx(0.6));
    let t = Texture::Solid(SolidColor::new(c));
    assert_eq!(t.value(0, 0, &Vec3::new(fx(9.0), 0, 0)), c);
    let b = Texture::Base(BaseColor::vectobase(c));
    assert_eq!(b.value(fx(0.5), fx(0.5), &Vec3::new(0, 0, 0)), c);
}

#[test]
fn checker_alternates_tiles() {
    let even = Vec3::new(FX_ONE, 0, 0);
    let odd = Vec3::new(0, FX_ONE, 0);
    let t = Texture::Checker(CheckerTexture::new(even, odd));
    // sin(10 * 0.157) is positive on all axes near pi/20
    let a = t.value(0, 0, &Vec3::new(fx(0.157), fx(0.157), fx(0.157)));
    // shifting one axis by half a period flips the sign once
    let b = t.value(0, 0, &Vec3::new(fx(0.157 + 0.3141), fx(0.157), fx(0.157)));
    assert_eq!(a, even);
    assert_eq!(b, odd);
}

#[test]
fn noise_texture_is_nonnegative_and_bounded() {
    let t = Texture::Noise(NoiseTexture::new1(fx(4.0)));
    for k in 0..20 {
        let p = Vec3::new(fx(0.3 * k as f64), fx(0.11 * k as f64), fx(0.7));
        let v = t.value(0, 0, &p);
        assert!(v.x >= 0 && v.y >= 0 && v.z >= 0);
        assert!(v.x <= FX_ONE + 16 && v.y <= FX_ONE + 16 && v.z <= FX_ONE + 16);
        assert_eq!(v.x, v.y);
        assert_eq!(v.y, v.z);
    }
}

#[test]
fn image_texture_nearest_pixel() {
    // a 2 x 1 raster: a pure red pixel then a pure blue one
    let data = vec![255u8, 0, 0, 0, 0, 255];
    let t = Texture::Image(ImageTexture::new(2, 1, data));
    let left = t.value(fx(0.1), fx(0.5), &Vec3::new(0, 0, 0));
    let right = t.value(fx(0.9), fx(0.5), &Vec3::new(0, 0, 0));
    assert_eq!(left, Vec3::new(FX_ONE, 0, 0));
    assert_eq!(right, Vec3::new(0, 0, FX_ONE));
    // coordinates outside [0,1] are clamped
    let clamped = t.value(fx(7.0), fx(-3.0), &Vec3::new(0, 0, 0));
    assert_eq!(clamped, Vec3::new(0, 0, FX_ONE));
}

#[test]
fn schlick_at_normal_incidence() {
    // cos = 1 kills the fifth-power term, leaving r0 squared
    assert_eq!(schlick(FX_ONE, fx(1.5)), 2621);
}

#[test]
fn emitted_is_unconditional_for_lights_only() {
    let glow = Vec3::new(fx(4.0), fx(4.0), fx(4.0));
    let light = Material::DiffuseLight(DiffuseLight::new1(glow));
    let lamb = Material::Lambertian(Lambertian::new(Vec3::new(fx(0.5), 0, 0)));
    let r = Ray::new(Vec3::new(0, 0, 0), Vec3::new(0, 0, -FX_ONE), 0);
    let mut rec = HitRecord::new(Vec3::new(0, 0, 0), Vec3::new(0, 0, FX_ONE), 0, 0, true);
    assert_eq!(light.emitted(&r, &rec, 0, 0, &rec.p), glow);
    // emission does not depend on the face orientation
    rec.front_face = false;
    assert_eq!(light.emitted(&r, &rec, 0, 0, &rec.p), glow);
    assert_eq!(lamb.emitted(&r, &rec, 0, 0, &rec.p), Vec3::new(0, 0, 0));
}

#[test]
fn scatter_behaviors_match_their_kinds() {
    let r = Ray::new(Vec3::new(0, 0, fx(5.0)), Vec3::new(0, 0, -FX_ONE), 3);
    let rec = HitRecord {
        p: Vec3::new(0, 0, fx(1.0)),
        normal: Vec3::new(0, 0, FX_ONE),
        t: fx(4.0),
        mat: 0,
        front_face: true,
        u: 0,
        v: 0,
    };
    let lamb = Material::Lambertian(Lambertian::new(Vec3::new(fx(0.5), fx(0.25), 0)));
    let s = lamb.scatter(&r, &rec).unwrap();
    assert!(!s.is_specular);
    assert_eq!(s.attenuation, Vec3::new(fx(0.5), fx(0.25), 0));
    assert_eq!(s.pdf_normal, rec.normal);

    let mirror = Material::Metal(Metal::new(Vec3::new(fx(0.9), fx(0.9), fx(0.9)), 0));
    let m = mirror.scatter(&r, &rec).unwrap();
    assert!(m.is_specular);
    assert_eq!(m.specular_ray.orig, rec.p);
    assert_eq!(m.specular_ray.time, r.time);
    // with zero fuzz the reflection about +z flips the direction exactly
    assert_eq!(m.specular_ray.dir, Vec3::new(0, 0, FX_ONE));

    let glass = Material::Dielectric(Dielectric::new(fx(1.5)));
    let g = glass.scatter(&r, &rec).unwrap();
    assert!(g.is_specular);
    assert_eq!(g.attenuation, Vec3::new(FX_ONE, FX_ONE, FX_ONE));

    let light = Material::DiffuseLight(DiffuseLight::new1(Vec3::new(FX_ONE, FX_ONE, FX_ONE)));
    assert!(light.scatter(&r, &rec).is_none());

    let fog = Material::Isotropic(Isotropic::new(Vec3::new(fx(0.3), fx(0.3), fx(0.3))));
    let f = fog.scatter(&r, &rec).unwrap();
    assert!(f.is_specular);
    assert!(f.specular_ray.dir.len_squared() < FX_ONE);
}

#[test]
fn metal_fuzz_is_capped() {
    let m = Metal::new(Vec3::new(0, 0, 0), fx(3.0));
    assert_eq!(m.fuzz, FX_ONE);
    let m2 = Metal::new(Vec3::new(0, 0, 0), fx(0.25));
    assert_eq!(m2.fuzz, fx(0.25));
}

#[test]
fn scattering_pdf_clips_below_surface() {
    let lamb = Material::Lambertian(Lambertian::new(Vec3::new(fx(0.5), 0, 0)));
    let rec = HitRecord {
        p: Vec3::new(0, 0, 0),
        normal: Vec3::new(0, 0, FX_ONE),
        t: 0,
        mat: 0,
        front_face: true,
        u: 0,
        v: 0,
    };
    let r = Ray::new(Vec3::new(0, 0, fx(5.0)), Vec3::new(0, 0, -FX_ONE), 0);
    let up = Ray::new(rec.p, Vec3::new(0, 0, FX_ONE), 0);
    let down = Ray::new(rec.p, Vec3::new(0, 0, -FX_ONE), 0);
    // straight along the normal: cos = 1, density 1/pi
    let v = lamb.scattering_pdf(&r, &rec, &up);
    assert!((to_f(v) - 1.0 / std::f64::consts::PI).abs() < 0.01);
    assert_eq!(lamb.scattering_pdf(&r, &rec, &down), 0);
}

#[test]
fn mixture_value_is_the_average_of_its_children() {
    let c0 = CosinePdf::new(&Vec3::new(0, 0, FX_ONE));
    let c1 = CosinePdf::new(&Vec3::new(FX_ONE, 0, 0));
    let d = Vec3::new(0, 0, FX_ONE);
    let v0 = c0.value(&d);
    let v1 = c1.value(&d);
    let mixed = MixturePdf::new(SinglePdf::Cosine(c0), SinglePdf::Cosine(c1));
    let vm = mixed.value(&d);
    let expect = raytracer::fx::fx_add(
        raytracer::fx::fx_mul(32768, v0),
        raytracer::fx::fx_mul(32768, v1),
    );
    assert_eq!(vm, expect);
    assert!((to_f(vm) - 0.5 * (to_f(v0) + to_f(v1))).abs() < 0.001);
}

#[test]
fn cosine_pdf_integrates_to_one() {
    // quadrature of max(0, cos) / pi over the sphere of directions
    let pdf = CosinePdf::new(&Vec3::new(0, 0, FX_ONE));
    let n_theta = 64;
    let n_phi = 64;
    let mut total = 0.0f64;
    for it in 0..n_theta {
        let theta = std::f64::consts::PI * (it as f64 + 0.5) / n_theta as f64;
        for ip in 0..n_phi {
            let phi = 2.0 * std::f64::consts::PI * (ip as f64 + 0.5) / n_phi as f64;
            let d = Vec3::new(
                fx(theta.sin() * phi.cos()),
                fx(theta.sin() * phi.sin()),
                fx(theta.cos()),
            );
            let w = theta.sin() * (std::f64::consts::PI / n_theta as f64)
                * (2.0 * std::f64::consts::PI / n_phi as f64);
            total += to_f(pdf.value(&d)) * w;
        }
    }
    assert!((total - 1.0).abs() < 0.05, "integral was {total}");
}

#[test]
fn cosine_pdf_samples_stay_on_the_upper_side() {
    for _ in 0..50 {
        let d = random_cosine_direction();
        assert!(d.z >= 0);
    }
}

#[test]
fn none_pdf_is_inert() {
    let n = NonePdf::new();
    assert_eq!(n.value(&Vec3::new(FX_ONE, 0, 0)), 0);
    assert_eq!(n.generate(), Vec3::new(0, 0, 0));
}

#[test]
fn hittable_pdf_points_at_the_shape() {
    let light = Object::Sphere(Sphere::new(Vec3::new(0, 0, fx(-10.0)), fx(2.0), 0));
    let p = HittablePdf::new(&light, Vec3::new(0, 0, 0));
    let toward = Vec3::new(0, 0, -FX_ONE);
    let away = Vec3::new(0, 0, FX_ONE);
    assert!(p.value(&toward) > 0);
    assert_eq!(p.value(&away), 0);
    // generated directions point into the visible cone
    for _ in 0..20 {
        let d = p.generate();
        assert!(d.z < 0);
    }
}

#[test]
fn camera_zero_aperture_keeps_the_origin() {
    let cam = Camera::new(
        Vec3::new(0, 0, fx(5.0)),
        Vec3::new(0, 0, 0),
        Vec3::new(0, FX_ONE, 0),
        fx(40.0),
        FX_ONE,
        0,
        fx(5.0),
        0,
        FX_ONE,
    );
    let r = cam.get_ray(fx(0.5), fx(0.5));
    assert_eq!(r.orig, Vec3::new(0, 0, fx(5.0)));
    assert!(0 <= r.time && r.time < FX_ONE);
    // the center ray points down the view axis
    assert!(r.dir.z < 0);
    assert!(r.dir.x.abs() < 200 && r.dir.y.abs() < 200);
}

#[test]
fn emissive_sphere_on_black_background() {
    // one emitting sphere, black background, a camera ray either covers the
    // silhouette (exactly the emitted color, depth 1 suffices) or misses
    // (exactly black)
    let glow = Vec3::new(fx(4.0), fx(2.0), fx(1.0));
    let mats = vec![Material::DiffuseLight(DiffuseLight::new1(glow))];
    let world = Object::Sphere(Sphere::new(Vec3::new(0, 0, fx(-10.0)), fx(2.0), 0));
    let lights = Object::List(HittableList { objects: vec![] });
    let background = Vec3::new(0, 0, 0);
    assert!(world.mats_below(mats.len()));
    assert!(mats_check(&mats));
    let covering = Ray::new(Vec3::new(0, 0, 0), Vec3::new(0, 0, -FX_ONE), 0);
    assert_eq!(color(&covering, &background, &world, &lights, 1, &mats), glow);
    let missing = Ray::new(Vec3::new(0, 0, 0), Vec3::new(0, FX_ONE, FX_ONE), 0);
    assert_eq!(
        color(&missing, &background, &world, &lights, 1, &mats),
        Vec3::new(0, 0, 0),
    );
    // deeper recursion changes nothing for a pure emitter
    assert_eq!(color(&covering, &background, &world, &lights, 10, &mats), glow);
}

#[test]
fn color_is_depth_limited_and_nonnegative() {
    let mats = vec![
        Material::Lambertian(Lambertian::new(Vec3::new(fx(0.7), fx(0.6), fx(0.5)))),
        Material::DiffuseLight(DiffuseLight::new1(Vec3::new(fx(7.0), fx(7.0), fx(7.0)))),
        Material::Metal(Metal::new(Vec3::new(fx(0.8), fx(0.8), fx(0.8)), fx(0.2))),
    ];
    let world = Object::List(HittableList {
        objects: vec![
            Object::Sphere(Sphere::new(Vec3::new(0, fx(-101.0), 0), fx(100.0), 0)),
            Object::Sphere(Sphere::new(Vec3::new(0, fx(5.0), 0), fx(1.0), 1)),
            Object::Sphere(Sphere::new(Vec3::new(fx(2.0), 0, 0), fx(1.0), 2)),
        ],
    });
    let lights = Object::Sphere(Sphere::new(Vec3::new(0, fx(5.0), 0), fx(1.0), 1));
    let background = Vec3::new(0, 0, 0);
    assert!(world.mats_below(mats.len()));
    assert!(mats_check(&mats));
    let r = Ray::new(Vec3::new(0, fx(1.0), fx(6.0)), Vec3::new(0, fx(-0.1), -FX_ONE), 0);
    assert_eq!(color(&r, &background, &world, &lights, 0, &mats), Vec3::new(0, 0, 0));
    for depth in 1..12 {
        for _ in 0..8 {
            let c = color(&r, &background, &world, &lights, depth, &mats);
            assert!(c.x >= 0 && c.y >= 0 && c.z >= 0, "negative radiance {c:?}");
        }
    }
}

#[test]
fn vanishing_mixture_density_contributes_nothing() {
    // a diffuse floor with an empty light list: whenever the mixture density
    // underflows to zero the integrator must fall back to the emission
    let mats = vec![Material::Lambertian(Lambertian::new(Vec3::new(fx(0.5), fx(0.5), fx(0.5))))];
    let world = Object::Sphere(Sphere::new(Vec3::new(0, 0, fx(-10.0)), fx(2.0), 0));
    let lights = Object::List(HittableList { objects: vec![] });
    let background = Vec3::new(fx(0.25), fx(0.25), fx(0.25));
    assert!(world.mats_below(mats.len()));
    assert!(mats_check(&mats));
    let r = Ray::new(Vec3::new(0, 0, 0), Vec3::new(0, 0, -FX_ONE), 0);
    for _ in 0..50 {
        let c = color(&r, &background, &world, &lights, 4, &mats);
        assert!(c.x >= 0 && c.y >= 0 && c.z >= 0);
    }
}

#[test]
fn sphere_light_density_matches_its_cone() {
    // the density toward a sphere is the reciprocal of the subtended solid
    // angle: for radius 2 at distance 10, cos(theta_max) = sqrt(1 - 4/100)
    let s = Sphere::new(Vec3::new(0, 0, fx(-10.0)), fx(2.0), 0);
    let v = s.pdf_value(&Vec3::new(0, 0, 0), &Vec3::new(0, 0, -FX_ONE));
    let ctm = (1.0f64 - 0.04).sqrt();
    let expect = 1.0 / (2.0 * std::f64::consts::PI * (1.0 - ctm));
    assert!((to_f(v) - expect).abs() / expect < 0.05, "density {}", to_f(v));
}
