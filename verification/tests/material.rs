use trt_core::hit::HitRecord;
use trt_core::material::dielectric::Dielectric;
use trt_core::material::diffuse_light::DiffuseLight;
use trt_core::material::isotropic::Isotropic;
use trt_core::material::lambertian::Lambertian;
use trt_core::material::metal::Metal;
use trt_core::material::Material;
use trt_core::random::{unit_of_word, Sampler};
use trt_core::ray::Ray;
use trt_core::scalar::Scalar;
use trt_core::scenes::{diffuse, glass, lamp};
use trt_core::texture::Texture;
use trt_core::utils::{
    ffmax, ffmin, fifth_power, get_sphere_uv, normal_reflectance, reflect, refract, refraction_discriminant,
    schlick,
};
use trt_core::vec3::Vec3;

fn sc(x: f64) -> Scalar {
    Scalar { raw: (x * 65536.0).round() as i64 }
}

fn fl(x: Scalar) -> f64 {
    x.raw as f64 / 65536.0
}

fn v(x: f64, y: f64, z: f64) -> Vec3 {
    Vec3::new(sc(x), sc(y), sc(z))
}

fn near(a: Vec3, b: Vec3, eps: f64) -> bool {
    (fl(a.x) - fl(b.x)).abs() < eps && (fl(a.y) - fl(b.y)).abs() < eps && (fl(a.z) - fl(b.z)).abs() < eps
}

fn white() -> Vec3 {
    v(1.0, 1.0, 1.0)
}

fn record<'a>(mat: &'a Material, p: Vec3, normal: Vec3) -> HitRecord<'a> {
    HitRecord { t: sc(1.0), p, normal, u: sc(0.25), v: sc(0.75), mat }
}

fn down() -> Ray {
    Ray { origin: v(0.0, 5.0, 0.0), direction: v(0.0, -1.0, 0.0), time: sc(0.5) }
}

#[test]
fn smaller_and_larger() {
    assert_eq!(ffmin(sc(1.0), sc(2.0)), sc(1.0));
    assert_eq!(ffmin(sc(2.0), sc(1.0)), sc(1.0));
    assert_eq!(ffmax(sc(1.0), sc(2.0)), sc(2.0));
    assert_eq!(ffmax(sc(-1.0), sc(-2.0)), sc(-1.0));
}

#[test]
fn reflection_mirrors_at_the_normal() {
    assert_eq!(reflect(v(1.0, -1.0, 0.0), v(0.0, 1.0, 0.0)), v(1.0, 1.0, 0.0));
    assert_eq!(reflect(v(0.0, -1.0, 0.0), v(0.0, 1.0, 0.0)), v(0.0, 1.0, 0.0));
    assert_eq!(reflect(v(1.0, 0.0, 0.0), v(0.0, 1.0, 0.0)), v(1.0, 0.0, 0.0));
}

#[test]
fn refraction_at_normal_incidence_goes_straight_on() {
    for ratio in [0.5, 0.6667, 1.0, 1.5, 2.5] {
        let r = refract(v(0.0, -1.0, 0.0), v(0.0, 1.0, 0.0), sc(ratio)).unwrap();
        assert_eq!(r, v(0.0, -1.0, 0.0));
    }
}

#[test]
fn refraction_follows_snell() {
    // 45 degrees into glass: sin(t) = sin(45) / 1.5
    let r = refract(v(1.0, -1.0, 0.0), v(0.0, 1.0, 0.0), sc(1.0 / 1.5)).unwrap();
    let sin_t = (0.5f64).sqrt() / 1.5;
    assert!(near(r, v(sin_t, -(1.0 - sin_t * sin_t).sqrt(), 0.0), 1e-3));
}

#[test]
fn total_internal_reflection_beyond_the_critical_angle() {
    // leaving glass at 60 degrees: sin(60) * 1.5 > 1
    assert!(refract(v(0.8660254, -0.5, 0.0), v(0.0, 1.0, 0.0), sc(1.5)).is_none());
    // leaving glass at 30 degrees: sin(30) * 1.5 < 1
    assert!(refract(v(0.5, -0.8660254, 0.0), v(0.0, 1.0, 0.0), sc(1.5)).is_some());
    assert_eq!(refraction_discriminant(sc(-1.0), sc(1.5)), sc(1.0));
    assert!(refraction_discriminant(sc(-0.5), sc(1.5)).raw < 0);
}

#[test]
fn a_discriminant_of_zero_still_refracts() {
    // a grazing ray at ratio one: the discriminant is exactly zero
    assert_eq!(refraction_discriminant(sc(0.0), sc(1.0)), sc(0.0));
    assert_eq!(refract(v(1.0, 0.0, 0.0), v(0.0, 1.0, 0.0), sc(1.0)), Some(v(1.0, 0.0, 0.0)));
    // nearly grazing: the squared cosine truncates to zero
    let nearly = Vec3::new(sc(1.0), Scalar { raw: -66 }, sc(0.0));
    assert!(refract(nearly, v(0.0, 1.0, 0.0), sc(1.0)).is_some());
    // at the critical angle and beyond it the ray is reflected
    assert!(refract(v(1.0, 0.0, 0.0), v(0.0, 1.0, 0.0), sc(1.5)).is_none());
}

#[test]
fn metal_keeps_the_time_of_the_ray() {
    let m = Metal::new(white(), sc(0.0));
    let owner = diffuse(0, 0, 0);
    let rec = record(&owner, v(0.0, 0.0, 0.0), v(0.0, 1.0, 0.0));
    let late = Ray { origin: v(0.0, 5.0, 0.0), direction: v(0.0, -1.0, 0.0), time: sc(2.5) };
    assert_eq!(m.scatter_with(&late, &rec, v(0.0, 0.0, 0.0)).unwrap().0.time, sc(2.5));
}

#[test]
fn entering_a_denser_medium_always_refracts() {
    let mut sampler = Sampler::seeded(5);
    for _ in 0..500 {
        let direction = trt_core::utils::centered(Vec3::random(&mut sampler));
        let ratio = Scalar { raw: sampler.uniform().raw + 1 };
        assert!(refract(direction, v(0.0, 1.0, 0.0), ratio).is_some());
    }
}

#[test]
fn schlick_at_normal_incidence() {
    assert_eq!(schlick(sc(1.0), sc(1.0)), sc(0.0));
    assert_eq!(normal_reflectance(sc(1.0)), sc(0.0));
    // ((1 - 1.5) / (1 + 1.5))^2 = 0.04
    assert!((fl(schlick(sc(1.0), sc(1.5))) - 0.04).abs() < 1e-4);
    assert_eq!(schlick(sc(1.0), sc(1.5)), normal_reflectance(sc(1.5)));
}

#[test]
fn schlick_at_grazing_incidence_is_one() {
    assert_eq!(schlick(sc(0.0), sc(1.5)), sc(1.0));
    assert_eq!(schlick(sc(0.0), sc(1.0)), sc(1.0));
}

#[test]
fn schlick_value_between() {
    // 0.04 + 0.96 * 0.5^5 = 0.07
    assert!((fl(schlick(sc(0.5), sc(1.5))) - 0.07).abs() < 1e-4);
    assert_eq!(fifth_power(sc(0.5)), sc(0.03125));
    assert_eq!(fifth_power(sc(2.0)), sc(32.0));
}

#[test]
fn schlick_grows_with_the_angle_of_incidence() {
    for index in [1.0, 1.3, 1.5, 2.4] {
        let mut last = schlick(sc(1.0), sc(index));
        let mut step = 99;
        while step >= 0 {
            let now = schlick(sc(step as f64 / 100.0), sc(index));
            assert!(now.raw >= last.raw);
            last = now;
            step -= 1;
        }
    }
}

#[test]
fn sphere_coordinates() {
    let (u, vv) = get_sphere_uv(v(1.0, 0.0, 0.0));
    assert!((fl(u) - 0.5).abs() < 1e-3 && (fl(vv) - 0.5).abs() < 1e-3);
    let (_, top) = get_sphere_uv(v(0.0, 1.0, 0.0));
    assert!((fl(top) - 1.0).abs() < 1e-3);
    let (_, bottom) = get_sphere_uv(v(0.0, -1.0, 0.0));
    assert!(fl(bottom).abs() < 1e-3);
    let (front, _) = get_sphere_uv(v(0.0, 0.0, 1.0));
    assert!((fl(front) - 0.25).abs() < 1e-3);
    let (back, _) = get_sphere_uv(v(0.0, 0.0, -1.0));
    assert!((fl(back) - 0.75).abs() < 1e-3);
    let mut sampler = Sampler::seeded(8);
    for _ in 0..500 {
        let p = trt_core::utils::centered(Vec3::random(&mut sampler)).unit();
        let (u, vv) = get_sphere_uv(p);
        assert!(0 <= u.raw && u.raw <= 65536 && 0 <= vv.raw && vv.raw <= 65536);
    }
}

#[test]
fn lambertian_new_keeps_the_albedo() {
    let m = Lambertian::new(7u32);
    assert_eq!(m.albedo, 7);
    let t = Lambertian::new(Texture::constant(v(0.1, 0.2, 0.3)));
    assert_eq!(t.albedo.value(sc(0.0), sc(0.0), v(0.0, 0.0, 0.0)), v(0.1, 0.2, 0.3));
}

#[test]
fn lambertian_scatters_toward_normal_plus_offset() {
    let m = Lambertian::new(Texture::constant(v(0.5, 0.25, 0.125)));
    let owner = diffuse(0, 0, 0);
    let rec = record(&owner, v(1.0, 2.0, 3.0), v(0.0, 1.0, 0.0));
    let (ray, attenuation) = m.scatter_with(&down(), &rec, v(0.25, 0.5, -0.25)).unwrap();
    assert_eq!(ray.origin, v(1.0, 2.0, 3.0));
    assert_eq!(ray.direction, v(0.25, 1.5, -0.25));
    assert_eq!(ray.time, sc(0.5));
    assert_eq!(attenuation, v(0.5, 0.25, 0.125));
}

#[test]
fn lambertian_always_scatters() {
    let m = Lambertian::new(Texture::constant(v(0.5, 0.5, 0.5)));
    let owner = diffuse(0, 0, 0);
    let rec = record(&owner, v(0.0, 0.0, 0.0), v(0.0, 1.0, 0.0));
    let mut sampler = Sampler::seeded(1);
    for _ in 0..200 {
        let (ray, attenuation) = m.scatter(&down(), &rec, &mut sampler).unwrap();
        assert_eq!(attenuation, v(0.5, 0.5, 0.5));
        let offset = ray.direction.minus(v(0.0, 1.0, 0.0));
        assert!(offset.dot(offset).raw < 65536);
    }
}

#[test]
fn metal_roughness_is_limited_to_the_unit_interval() {
    let owner = diffuse(0, 0, 0);
    let rec = record(&owner, v(0.0, 0.0, 0.0), v(0.0, 1.0, 0.0));
    let offset = v(0.5, 0.0, 0.0);
    let direction = |fuzz: f64| Metal::new(white(), sc(fuzz)).scatter_with(&down(), &rec, offset).unwrap().0.direction;
    assert_eq!(direction(0.0), v(0.0, 1.0, 0.0));
    assert_eq!(direction(0.5), v(0.25, 1.0, 0.0));
    assert_eq!(direction(1.0), v(0.5, 1.0, 0.0));
    assert_eq!(direction(10.0), v(0.5, 1.0, 0.0));
    assert_eq!(direction(-3.0), v(0.0, 1.0, 0.0));
}

#[test]
fn metal_reflects_and_attenuates_by_its_albedo() {
    let m = Metal::new(v(0.8, 0.6, 0.2), sc(0.0));
    let owner = diffuse(0, 0, 0);
    let rec = record(&owner, v(1.0, 0.0, 1.0), v(0.0, 1.0, 0.0));
    let slanted = Ray { origin: v(0.0, 1.0, 1.0), direction: v(3.0, -4.0, 0.0), time: sc(0.5) };
    let (ray, attenuation) = m.scatter_with(&slanted, &rec, v(0.0, 0.0, 0.0)).unwrap();
    assert_eq!(ray.origin, v(1.0, 0.0, 1.0));
    assert!(near(ray.direction, v(0.6, 0.8, 0.0), 1e-4));
    assert_eq!(ray.time, sc(0.5));
    assert_eq!(attenuation, v(0.8, 0.6, 0.2));
}

#[test]
fn metal_absorbs_what_would_go_below_the_surface() {
    let m = Metal::new(white(), sc(1.0));
    let owner = diffuse(0, 0, 0);
    let rec = record(&owner, v(0.0, 0.0, 0.0), v(0.0, 1.0, 0.0));
    let grazing = Ray { origin: v(-5.0, 0.5, 0.0), direction: v(1.0, -0.1, 0.0), time: sc(0.0) };
    assert!(m.scatter_with(&grazing, &rec, v(0.0, -0.9, 0.0)).is_none());
    assert!(m.scatter_with(&grazing, &rec, v(0.0, 0.9, 0.0)).is_some());
    // a ray that arrives from below is mirrored to below and absorbed
    let from_below = Ray { origin: v(0.0, -5.0, 0.0), direction: v(0.0, 1.0, 0.0), time: sc(0.0) };
    assert!(m.scatter_with(&from_below, &rec, v(0.0, 0.0, 0.0)).is_none());
}

#[test]
fn dielectric_never_absorbs() {
    let m = Dielectric { ref_idx: sc(1.5) };
    let owner = glass();
    let rec = record(&owner, v(0.0, 0.0, 0.0), v(0.0, 1.0, 0.0));
    let mut sampler = Sampler::seeded(3);
    for _ in 0..200 {
        let direction = trt_core::utils::centered(Vec3::random(&mut sampler));
        let ray = Ray { origin: v(0.0, 1.0, 0.0), direction, time: sc(0.25) };
        let (out, attenuation) = m.scatter(&ray, &rec, &mut sampler).unwrap();
        assert_eq!(attenuation, white());
        assert_eq!(out.origin, v(0.0, 0.0, 0.0));
        assert_eq!(out.time, sc(0.25));
    }
}

#[test]
fn dielectric_chooses_by_the_reflectance() {
    let m = Dielectric { ref_idx: sc(1.5) };
    let owner = glass();
    let rec = record(&owner, v(0.0, 0.0, 0.0), v(0.0, 1.0, 0.0));
    // entering at normal incidence: the reflectance is 0.04
    assert_eq!(m.incidence(&down(), &rec).outward_normal, v(0.0, 1.0, 0.0));
    assert_eq!(m.incidence(&down(), &rec).ni_over_nt.raw, 43690);
    assert_eq!(m.incidence(&down(), &rec).cosine, sc(1.0));
    let reflected = m.scatter_with(&down(), &rec, sc(0.01)).unwrap().0;
    assert_eq!(reflected.direction, v(0.0, 1.0, 0.0));
    let refracted = m.scatter_with(&down(), &rec, sc(0.5)).unwrap().0;
    assert_eq!(refracted.direction, v(0.0, -1.0, 0.0));
}

#[test]
fn dielectric_reflects_totally_beyond_the_critical_angle() {
    let m = Dielectric { ref_idx: sc(1.5) };
    let owner = glass();
    let rec = record(&owner, v(0.0, 0.0, 0.0), v(0.0, 1.0, 0.0));
    // leaving the glass upward at 60 degrees from the normal
    let leaving = Ray { origin: v(0.0, -1.0, 0.0), direction: v(0.8660254, 0.5, 0.0), time: sc(0.0) };
    let i = m.incidence(&leaving, &rec);
    assert_eq!(i.outward_normal, v(0.0, -1.0, 0.0));
    assert_eq!(i.ni_over_nt, sc(1.5));
    for chance in [0.0, 0.3, 0.999] {
        let out = m.scatter_with(&leaving, &rec, sc(chance)).unwrap().0;
        assert!(near(out.direction, v(0.8660254, -0.5, 0.0), 1e-3));
    }
}

#[test]
fn light_emits_and_never_scatters() {
    let m = lamp(4);
    let rec = record(&m, v(0.0, 0.0, 0.0), v(0.0, 1.0, 0.0));
    let mut sampler = Sampler::seeded(3);
    for _ in 0..50 {
        assert!(m.scatter(&down(), &rec, &mut sampler).is_none());
    }
    assert!(m.scatter_with(&down(), &rec, v(0.1, 0.1, 0.1), sc(0.5)).is_none());
    assert_eq!(m.emitted(sc(0.0), sc(0.0), v(0.0, 0.0, 0.0)), v(4.0, 4.0, 4.0));
    let light = DiffuseLight { emit: Texture::constant(v(1.0, 2.0, 3.0)) };
    assert_eq!(light.emitted(sc(0.5), sc(0.5), v(9.0, 9.0, 9.0)), v(1.0, 2.0, 3.0));
}

#[test]
fn other_materials_emit_nothing() {
    for m in [diffuse(50, 50, 50), glass(), Material::Metal(Metal::new(white(), sc(0.0)))] {
        assert_eq!(m.emitted(sc(0.0), sc(0.0), v(0.0, 0.0, 0.0)), v(0.0, 0.0, 0.0));
    }
}

#[test]
fn isotropic_scatters_into_the_drawn_direction() {
    let m = Isotropic { albedo: Texture::constant(v(0.2, 0.4, 0.9)) };
    let owner = diffuse(0, 0, 0);
    let rec = record(&owner, v(1.0, 2.0, 3.0), v(1.0, 0.0, 0.0));
    let (ray, attenuation) = m.scatter_with(&down(), &rec, v(0.1, -0.2, 0.3)).unwrap();
    assert_eq!(ray.origin, v(1.0, 2.0, 3.0));
    assert_eq!(ray.direction, v(0.1, -0.2, 0.3));
    assert_eq!(ray.time, sc(0.5));
    assert_eq!(attenuation, v(0.2, 0.4, 0.9));
    let mut sampler = Sampler::seeded(3);
    for _ in 0..100 {
        let (ray, _) = m.scatter(&down(), &rec, &mut sampler).unwrap();
        assert!(ray.direction.dot(ray.direction).raw < 65536);
    }
}

#[test]
fn material_dispatches_to_its_kind() {
    let owner = diffuse(0, 0, 0);
    let rec = record(&owner, v(0.0, 0.0, 0.0), v(0.0, 1.0, 0.0));
    let offset = v(0.25, 0.0, 0.0);
    let d = diffuse(50, 50, 50).scatter_with(&down(), &rec, offset, sc(0.5)).unwrap();
    assert_eq!(d.0.direction, v(0.25, 1.0, 0.0));
    assert_eq!(d.1, Vec3::splat(Scalar::ratio(50, 100)));
    let g = glass().scatter_with(&down(), &rec, offset, sc(0.5)).unwrap();
    assert_eq!(g.0.direction, v(0.0, -1.0, 0.0));
    let mut sampler = Sampler::seeded(1);
    assert!(diffuse(50, 50, 50).scatter(&down(), &rec, &mut sampler).is_some());
}

#[test]
fn scattering_uses_the_words_of_the_sampler_in_order() {
    let owner = diffuse(0, 0, 0);
    let rec = record(&owner, v(0.0, 0.0, 0.0), v(0.0, 1.0, 0.0));
    for m in [diffuse(50, 50, 50), glass(), lamp(2), Material::Metal(Metal::new(white(), sc(0.5)))] {
        let mut words = Sampler::seeded(41);
        let mut draws = Sampler::seeded(41);
        for _ in 0..50 {
            let got = m.scatter(&down(), &rec, &mut draws);
            let offset = trt_core::utils::random_in_unit_sphere(&mut words);
            let chance = unit_of_word(words.word());
            assert_eq!(got, m.scatter_with(&down(), &rec, offset, chance));
        }
        assert_eq!(draws.word(), words.word());
    }
}

#[test]
fn each_kind_scatters_with_the_point_or_the_chance_that_the_words_give() {
    let owner = diffuse(0, 0, 0);
    let rec = record(&owner, v(0.0, 0.0, 0.0), v(0.0, 1.0, 0.0));
    let mut words = Sampler::seeded(42);
    let mut draws = Sampler::seeded(42);
    let l = Lambertian::new(Texture::constant(v(0.5, 0.5, 0.5)));
    let offset = trt_core::utils::random_in_unit_sphere(&mut words);
    assert_eq!(l.scatter(&down(), &rec, &mut draws), l.scatter_with(&down(), &rec, offset));
    let m = Metal::new(white(), sc(1.0));
    let offset = trt_core::utils::random_in_unit_sphere(&mut words);
    assert_eq!(m.scatter(&down(), &rec, &mut draws), m.scatter_with(&down(), &rec, offset));
    let i = Isotropic { albedo: Texture::constant(v(0.5, 0.5, 0.5)) };
    let offset = trt_core::utils::random_in_unit_sphere(&mut words);
    assert_eq!(i.scatter(&down(), &rec, &mut draws), i.scatter_with(&down(), &rec, offset));
    let d = Dielectric { ref_idx: sc(1.5) };
    let chance = unit_of_word(words.word());
    assert_eq!(d.scatter(&down(), &rec, &mut draws), d.scatter_with(&down(), &rec, chance));
    assert_eq!(draws.word(), words.word());
}
