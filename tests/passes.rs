use space_render::color::Rgb;
use space_render::command::{PassCommand, PrepareResult, RenderOrder};
use space_render::cosmos::pass::{CosmosRender, DrawCosmosDesc};
use space_render::cosmos::{Cosmos, StarData, StarPoint};
use space_render::error::RenderError;
use space_render::planet::pass::{AtmosphereRender, DrawAtmosphereDesc};
use space_render::planet::Atmosphere;
use space_render::star::pass::{DrawStarDesc, StarRender};
use space_render::star::sub::gather_stars;
use space_render::star::{Star, StarList};
use space_render::util::shader_buffer::DynamicShaderBuffer;
use space_render::transform::SceneTransform;

fn b(x: f32) -> u32 {
    x.to_bits()
}

fn at(x: f32, scale: f32) -> SceneTransform {
    SceneTransform::uniform([b(x), 0, 0], b(scale))
}

fn point(i: u32) -> StarPoint {
    StarPoint { spherical_coords: [i, i + 1], color: Rgb::new(1, 2, 3), radius: i * 10 }
}

fn star_binds(index: usize) -> Vec<PassCommand> {
    vec![
        PassCommand::BindPipeline,
        PassCommand::BindEnvironment { set_id: 0 },
        PassCommand::BindFrameSlot { set_id: 1, index },
    ]
}

#[test]
fn three_stars_end_to_end() {
    let entries = vec![
        (Star::default(), at(1.0, 1.0)),
        (Star::default(), at(2.0, 2.0)),
        (Star::default(), at(3.0, 3.0)),
    ];
    let list = gather_stars(&entries).unwrap();
    assert_eq!(list.count(), 3);
    let mut pool: DynamicShaderBuffer<StarList> = DynamicShaderBuffer::new();
    assert!(pool.write(0, &[list]));
    assert!(!pool.write(0, &[gather_stars(&entries).unwrap()]));
    let mut pass = DrawStarDesc::new().build();
    assert_eq!(pass.prepare(0, &entries), Ok(PrepareResult::DrawRecord));
    let mut expected = star_binds(0);
    expected.push(PassCommand::BindTexture { set_id: 2, index: 0 });
    expected.push(PassCommand::Draw { instances: 3 });
    assert_eq!(pass.draw_inline(0, Some(0)), Ok(expected));
    assert_eq!(pass.prepare(0, &entries), Ok(PrepareResult::DrawRecord));
}

#[test]
fn star_pass_skips_draw_until_texture_loaded() {
    let entries = vec![(Star::default(), at(1.0, 1.0))];
    let mut pass = DrawStarDesc::new().build();
    pass.prepare(1, &entries).unwrap();
    assert_eq!(pass.draw_inline(1, None), Ok(star_binds(1)));
}

#[test]
fn star_pass_without_stars_draws_nothing() {
    let mut pass = DrawStarDesc::new().build();
    assert_eq!(pass.draw_inline(0, Some(0)), Ok(vec![]));
    pass.prepare(0, &[]).unwrap();
    assert_eq!(pass.draw_inline(0, Some(0)), Ok(vec![]));
}

#[test]
fn star_pass_refuses_unwritten_frame() {
    let entries = vec![(Star::default(), at(1.0, 1.0))];
    let mut pass = DrawStarDesc::new().build();
    pass.prepare(0, &entries).unwrap();
    assert_eq!(pass.draw_inline(1, Some(0)), Err(RenderError::UnwrittenSlot { index: 1 }));
}

#[test]
fn atmosphere_pass_draws_one_quad() {
    let atmosphere = Atmosphere::new(b(1.2), Rgb::new(0, 0, 0), b(0.3), b(1.0));
    let planets = vec![(atmosphere, at(0.0, 5.0)), (atmosphere, at(9.0, 2.0))];
    let stars = vec![(Star::default(), at(100.0, 10.0))];
    let mut pass = DrawAtmosphereDesc::new().build();
    assert_eq!(pass.draw_inline(0), Ok(vec![]));
    assert_eq!(pass.prepare(0, &planets, &stars), Ok(PrepareResult::DrawRecord));
    assert_eq!(
        pass.draw_inline(0),
        Ok(vec![
            PassCommand::BindPipeline,
            PassCommand::BindEnvironment { set_id: 0 },
            PassCommand::BindFrameSlot { set_id: 1, index: 0 },
            PassCommand::BindFrameSlot { set_id: 2, index: 0 },
            PassCommand::Draw { instances: 1 },
        ])
    );
}

#[test]
fn atmosphere_pass_reports_bad_content() {
    let atmosphere = Atmosphere::new(b(1.2), Rgb::new(0, 0, 0), b(0.3), b(1.0));
    let mut squashed = at(0.0, 5.0);
    squashed.columns[1][1] = b(4.0);
    let mut pass = DrawAtmosphereDesc::new().build();
    assert_eq!(
        pass.prepare(0, &[(atmosphere, squashed)], &[]),
        Err(RenderError::NonUniformScale { entity: 0 })
    );
    let five_stars = vec![(Star::default(), at(0.0, 1.0)); 5];
    assert_eq!(
        pass.prepare(0, &[(atmosphere, at(0.0, 1.0))], &five_stars),
        Err(RenderError::CapacityExceeded { count: 5, capacity: 4 })
    );
    assert_eq!(pass.draw_inline(0), Err(RenderError::UnwrittenSlot { index: 0 }));
}

#[test]
fn sky_pass_uploads_once_per_frame_slot() {
    let mut sky = Cosmos::new(vec![point(1), point(2)]);
    let mut pass = DrawCosmosDesc::new().build();
    assert_eq!(pass.prepare(0, &mut sky), PrepareResult::DrawRecord);
    assert!(!sky.changed);
    assert_eq!(pass.prepare(0, &mut sky), PrepareResult::DrawReuse);
    assert_eq!(pass.prepare(1, &mut sky), PrepareResult::DrawRecord);
    assert_eq!(
        pass.draw_inline(1),
        Ok(vec![
            PassCommand::BindPipeline,
            PassCommand::BindEnvironment { set_id: 0 },
            PassCommand::BindFrameSlot { set_id: 1, index: 1 },
            PassCommand::Draw { instances: 2 },
        ])
    );
}

#[test]
fn sky_pass_rebuilds_on_change() {
    let mut sky = Cosmos::new(vec![point(1)]);
    let mut pass = DrawCosmosDesc::new().build();
    pass.prepare(0, &mut sky);
    pass.prepare(1, &mut sky);
    sky.set_stars(vec![point(3), point(4), point(5)]);
    assert_eq!(pass.prepare(0, &mut sky), PrepareResult::DrawRecord);
    assert_eq!(pass.draw_inline(1), Err(RenderError::UnwrittenSlot { index: 1 }));
    match pass.draw_inline(0).unwrap().last() {
        Some(PassCommand::Draw { instances }) => assert_eq!(*instances, 3),
        other => panic!("unexpected {:?}", other),
    }
}

#[test]
fn sky_pass_without_field_draws_nothing() {
    let mut sky = Cosmos::new(vec![point(1)]);
    let mut pass = DrawCosmosDesc::new().build();
    pass.prepare(0, &mut sky);
    assert_eq!(pass.prepare_without_sky(), PrepareResult::DrawRecord);
    assert_eq!(pass.draw_inline(0), Ok(vec![]));
}

#[test]
fn sky_record_from_point() {
    let record = StarData::from(point(2));
    assert_eq!(record, StarData { spherical_coords: [2, 3], color: [1, 2, 3], scale: 20 });
}

#[test]
fn plugins_declare_their_place() {
    let mut cosmos = CosmosRender::new(Some(Cosmos::new(vec![])));
    assert!(cosmos.take_sky().is_some());
    assert!(cosmos.take_sky().is_none());
    assert_eq!(cosmos.order(), RenderOrder::AfterOpaque);
    assert_eq!(AtmosphereRender::default().order(), RenderOrder::BeforeTransparent);
    let stars = StarRender::new(String::from("texture/star.png"));
    assert_eq!(stars.flash_path(), "texture/star.png");
    assert_eq!(stars.order(), RenderOrder::DisplayPostEffects);
    assert_eq!(StarRender::default().flash_path(), "");
    assert_eq!(DrawStarDesc::new(), DrawStarDesc);
    assert_eq!(DrawAtmosphereDesc::new(), DrawAtmosphereDesc);
    assert_eq!(DrawCosmosDesc::new(), DrawCosmosDesc);
}
