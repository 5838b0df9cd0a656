use space_render::color::Rgb;
use space_render::error::RenderError;
use space_render::ieee::{abs, magnitudes_equal, ONE_BITS};
use space_render::planet::sub::{gather_planets, PlanetSub};
use space_render::planet::{Atmosphere, Planet, PlanetData, PlanetList, MAX_PLANETS};
use space_render::star::sub::{gather_stars, StarSub};
use space_render::star::{Star, StarData, StarList, MAX_STARS};
use space_render::transform::SceneTransform;

fn b(x: f32) -> u32 {
    x.to_bits()
}

fn at(x: f32, y: f32, z: f32, scale: f32) -> SceneTransform {
    SceneTransform::uniform([b(x), b(y), b(z)], b(scale))
}

fn scaled(sx: f32, sy: f32, sz: f32) -> SceneTransform {
    let mut t = at(0.0, 0.0, 0.0, 1.0);
    t.columns[0][0] = b(sx);
    t.columns[1][1] = b(sy);
    t.columns[2][2] = b(sz);
    t
}

fn star(r: f32, g: f32, bl: f32) -> Star {
    Star::new(Rgb::new(b(r), b(g), b(bl)))
}

fn atmosphere(height: f32) -> Atmosphere {
    Atmosphere::new(b(height), Rgb::new(b(0.2), b(0.4), b(0.8)), b(0.5), b(1.0))
}

#[test]
fn abs_clears_the_sign() {
    assert_eq!(abs(b(-2.5)), b(2.5));
    assert_eq!(abs(b(2.5)), b(2.5));
    assert_eq!(abs(b(-0.0)), b(0.0));
}

#[test]
fn magnitudes_follow_float_equality() {
    assert!(magnitudes_equal(b(2.0), b(-2.0)));
    assert!(magnitudes_equal(b(0.0), b(-0.0)));
    assert!(!magnitudes_equal(b(1.0), b(1.0000001)));
    assert!(!magnitudes_equal(b(f32::NAN), b(f32::NAN)));
    assert!(magnitudes_equal(b(f32::INFINITY), b(f32::NEG_INFINITY)));
    for (x, y) in [(1.5f32, -1.5f32), (3.0, 4.0), (0.0, 1.0), (-7.25, -7.25)] {
        assert_eq!(magnitudes_equal(b(x), b(y)), x.abs() == y.abs());
    }
}

#[test]
fn uniform_scale_gives_radius() {
    let t = at(1.0, 2.0, 3.0, -4.0);
    assert_eq!(t.sphere_radius(0), Ok(b(4.0)));
    assert_eq!(t.translation(), [b(1.0), b(2.0), b(3.0)]);
    assert!(t.has_uniform_scale());
}

#[test]
fn unequal_scale_on_any_axis_pair_fails() {
    assert_eq!(scaled(1.0, 2.0, 1.0).sphere_radius(7), Err(RenderError::NonUniformScale { entity: 7 }));
    assert_eq!(scaled(1.0, 1.0, 2.0).sphere_radius(0), Err(RenderError::NonUniformScale { entity: 0 }));
    assert_eq!(scaled(2.0, 1.0, 1.0).sphere_radius(0), Err(RenderError::NonUniformScale { entity: 0 }));
    assert_eq!(scaled(f32::NAN, f32::NAN, f32::NAN).sphere_radius(0), Err(RenderError::NonUniformScale { entity: 0 }));
    assert_eq!(scaled(2.0, -2.0, 2.0).sphere_radius(0), Ok(b(2.0)));
}

#[test]
fn star_list_packs_every_count_up_to_capacity() {
    let records: Vec<StarData> = (0..MAX_STARS)
        .map(|i| StarData::new(&star(1.0, 0.5, 0.25), [b(i as f32), 0, 0], b(i as f32 + 1.0)))
        .collect();
    for n in 0..=MAX_STARS {
        let list = StarList::new(&records[..n]).unwrap();
        assert_eq!(list.count() as usize, n);
        let stars = list.stars();
        assert_eq!(&stars[..n], &records[..n]);
        for s in &stars[n..] {
            assert_eq!(*s, StarData::zeroed());
        }
    }
}

#[test]
fn star_list_over_capacity_fails() {
    let records = vec![StarData::zeroed(); MAX_STARS + 1];
    assert_eq!(StarList::new(&records), Err(RenderError::CapacityExceeded { count: 5, capacity: 4 }));
}

#[test]
fn planet_list_packs_and_refuses_overflow() {
    let record = PlanetData::new(&atmosphere(1.1), [b(1.0), b(2.0), b(3.0)], b(6.0));
    let eight = vec![record; MAX_PLANETS];
    let list = PlanetList::new(&eight).unwrap();
    assert_eq!(list.count(), 8);
    assert_eq!(list.planets(), [record; 8]);
    let nine = vec![record; MAX_PLANETS + 1];
    assert_eq!(PlanetList::new(&nine), Err(RenderError::CapacityExceeded { count: 9, capacity: 8 }));
    assert_eq!(PlanetList::default().count(), 0);
    assert_eq!(PlanetList::default().planets(), [PlanetData::zeroed(); 8]);
}

#[test]
fn planet_record_carries_the_atmosphere() {
    let a = atmosphere(1.25);
    let record = PlanetData::new(&a, [b(1.0), b(2.0), b(3.0)], b(6.0));
    assert_eq!(record.center, [b(1.0), b(2.0), b(3.0)]);
    assert_eq!(record.radius, b(6.0));
    assert_eq!(record.hue, [b(0.2), b(0.4), b(0.8)]);
    assert_eq!(record.atmosphere_height, b(1.25));
    assert_eq!(record.atmosphere_density, b(0.5));
    assert_eq!(a.height(), b(1.25));
    assert_eq!(a.density(), b(0.5));
    assert_eq!(a.hue(), Rgb::new(b(0.2), b(0.4), b(0.8)));
    let p = Planet::new(b(3.0), b(5.5));
    assert_eq!((p.radius(), p.density()), (b(3.0), b(5.5)));
}

#[test]
fn three_stars_gather_into_a_list_of_four() {
    let entries = vec![
        (star(1.0, 0.0, 0.0), at(1.0, 0.0, 0.0, 2.0)),
        (star(0.0, 1.0, 0.0), at(0.0, 1.0, 0.0, -3.0)),
        (star(0.0, 0.0, 1.0), at(0.0, 0.0, 1.0, 4.0)),
    ];
    let list = gather_stars(&entries).unwrap();
    let s0 = StarData { center: [b(1.0), b(0.0), b(0.0)], radius: b(2.0), color: [b(1.0), b(0.0), b(0.0)] };
    let s1 = StarData { center: [b(0.0), b(1.0), b(0.0)], radius: b(3.0), color: [b(0.0), b(1.0), b(0.0)] };
    let s2 = StarData { center: [b(0.0), b(0.0), b(1.0)], radius: b(4.0), color: [b(0.0), b(0.0), b(1.0)] };
    assert_eq!(list.count(), 3);
    assert_eq!(list.stars(), [s0, s1, s2, StarData::zeroed()]);
}

#[test]
fn nine_planets_fail_rather_than_truncate() {
    let entries: Vec<(Atmosphere, SceneTransform)> =
        (0..9).map(|i| (atmosphere(1.1), at(i as f32, 0.0, 0.0, 1.0))).collect();
    assert_eq!(gather_planets(&entries), Err(RenderError::CapacityExceeded { count: 9, capacity: 8 }));
    let list = gather_planets(&entries[..8]).unwrap();
    assert_eq!(list.count(), 8);
    assert_eq!(list.planets()[7].center, [b(7.0), b(0.0), b(0.0)]);
}

#[test]
fn five_stars_fail_rather_than_truncate() {
    let entries: Vec<(Star, SceneTransform)> = (0..5).map(|_| (Star::default(), at(0.0, 0.0, 0.0, 1.0))).collect();
    assert_eq!(gather_stars(&entries), Err(RenderError::CapacityExceeded { count: 5, capacity: 4 }));
}

#[test]
fn first_non_uniform_entity_is_reported_before_capacity() {
    let mut entries: Vec<(Star, SceneTransform)> = (0..6).map(|_| (Star::default(), at(0.0, 0.0, 0.0, 1.0))).collect();
    entries[2].1 = scaled(1.0, 1.0, 0.5);
    entries[4].1 = scaled(3.0, 1.0, 1.0);
    assert_eq!(gather_stars(&entries), Err(RenderError::NonUniformScale { entity: 2 }));
    let planets = vec![(atmosphere(1.0), at(0.0, 0.0, 0.0, 1.0)), (atmosphere(1.0), scaled(1.0, 2.0, 1.0))];
    assert_eq!(gather_planets(&planets), Err(RenderError::NonUniformScale { entity: 1 }));
}

#[test]
fn empty_scene_gathers_empty_lists() {
    let stars: Vec<(Star, SceneTransform)> = Vec::new();
    let list = gather_stars(&stars).unwrap();
    assert_eq!(list.count(), 0);
    assert_eq!(list.stars(), [StarData::zeroed(); 4]);
    assert_eq!(list, StarList::default());
}

#[test]
fn default_star_is_white() {
    assert_eq!(Star::default().color, Rgb::new(ONE_BITS, ONE_BITS, ONE_BITS));
    assert_eq!(ONE_BITS, 1.0f32.to_bits());
}

#[test]
fn star_sub_reports_slot_creation_once() {
    let entries = vec![(star(1.0, 1.0, 1.0), at(0.0, 0.0, 0.0, 1.0)); 3];
    let mut sub = StarSub::new();
    assert!(sub.is_empty());
    assert_eq!(sub.process(0, &entries), Ok(true));
    assert_eq!(sub.process(0, &entries), Ok(false));
    assert_eq!(sub.count(), 3);
    assert!(!sub.is_empty());
    assert_eq!(sub.process(1, &entries[..1]), Ok(true));
    assert_eq!(sub.count(), 1);
    assert_eq!(sub.data().count(), 1);
}

#[test]
fn failed_gathering_leaves_the_sub_unchanged() {
    let mut sub = PlanetSub::new();
    let good = vec![(atmosphere(1.0), at(0.0, 0.0, 0.0, 1.0)); 2];
    assert_eq!(sub.process(0, &good), Ok(true));
    let bad = vec![(atmosphere(1.0), scaled(1.0, 1.0, 2.0))];
    assert_eq!(sub.process(0, &bad), Err(RenderError::NonUniformScale { entity: 0 }));
    assert_eq!(sub.count(), 2);
    assert_eq!(sub.bind(1, 1), Err(RenderError::UnwrittenSlot { index: 1 }));
    assert!(sub.bind(0, 1).is_ok());
}

// Uniform scale is decided by exact IEEE-754 equality of the magnitudes, with
// no tolerance: a scale that differs in the last bit is not uniform.
#[test]
fn scale_comparison_has_no_tolerance() {
    let nearly = f32::from_bits(2.0f32.to_bits() + 1);
    let entries = vec![(Star::default(), scaled(2.0, 2.0, nearly))];
    assert_eq!(gather_stars(&entries), Err(RenderError::NonUniformScale { entity: 0 }));
    let exact = vec![(Star::default(), scaled(2.0, -2.0, 2.0))];
    assert_eq!(gather_stars(&exact).unwrap().stars()[0].radius, b(2.0));
}
