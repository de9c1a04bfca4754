use alkahest_shadowkeep::channels::Vec4Bits;
use alkahest_shadowkeep::externs::ExternIndex;
use alkahest_shadowkeep::globals::GlobalPipelines;
use alkahest_shadowkeep::inputs::{
    prepare_preserved_transparents, ConstantInput, InputSource, TextureInput, ViewInputs,
};
use alkahest_shadowkeep::manager::AssetDiagnosticSummary;
use alkahest_shadowkeep::steps::{RendererEra, Surface};
use alkahest_shadowkeep::submit::{RenderFlags, Renderer};

fn renderer(era: RendererEra) -> Renderer {
    Renderer {
        era,
        flags: RenderFlags {
            global_lighting: false,
            buffer_provenance: false,
            global_lighting_ab: false,
            exposure_ab: false,
            final_combine_no_film_curve: false,
            sky_diagnostics: false,
            sky_objects_ab: false,
        },
        pipelines: GlobalPipelines::load_shadowkeep(&[]),
        assets: AssetDiagnosticSummary {
            queued: 0,
            loading: 0,
            ready: 0,
            failed: 0,
            fallback: 0,
        },
    }
}

fn lanes(bits: Vec4Bits) -> [f32; 4] {
    [bits.x, bits.y, bits.z, bits.w].map(f32::from_bits)
}

fn constant(inputs: &ViewInputs, block: ExternIndex, field: &str) -> [f32; 4] {
    let found: Vec<&ConstantInput> = inputs
        .constants
        .iter()
        .filter(|input| input.block == block && input.field == field)
        .collect();
    assert_eq!(found.len(), 1, "{field}");
    lanes(found[0].value)
}

fn texture(inputs: &ViewInputs, block: ExternIndex, field: &str) -> Option<InputSource> {
    let found: Vec<&TextureInput> = inputs
        .textures
        .iter()
        .filter(|input| input.block == block && input.field == field)
        .collect();
    assert!(found.len() <= 1, "{field}");
    found.first().map(|input| input.source)
}

#[test]
fn every_view_shares_frame_and_water_inputs() {
    for era in [RendererEra::Shadowkeep, RendererEra::Current] {
        let inputs = renderer(era).prepare_externs();
        assert_eq!(constant(&inputs, ExternIndex::Frame, "exposure_time")[0], 0.016666668);
        let water = [
            ("unk10", 0.045),
            ("unk14", 1.0),
            ("unk18", 0.0),
            ("unk1c", 20.0),
            ("unk20", 600.0),
            ("unk24", 0.5),
            ("unk28", 2.0),
            ("unk2c", 0.0),
            ("unk30", 7.7),
        ];
        for (field, value) in water {
            assert_eq!(constant(&inputs, ExternIndex::WaterDisplacement, field)[0], value);
        }
        assert_eq!(
            texture(&inputs, ExternIndex::Frame, "iridescence_lookup"),
            Some(InputSource::IridescenceLookup)
        );
        assert_eq!(
            texture(&inputs, ExternIndex::GlobalLighting, "unk08"),
            Some(InputSource::White)
        );
        assert_eq!(inputs.atmosphere.len(), 22);
    }
}

#[test]
fn preserved_views_keep_neutral_lighting() {
    let inputs = renderer(RendererEra::Shadowkeep).prepare_externs();
    let lighting = ExternIndex::GlobalLighting;
    assert_eq!(constant(&inputs, lighting, "unk10"), [1.0; 4]);
    assert_eq!(constant(&inputs, lighting, "unk30"), [0.0, 0.0, -1.0, 0.0]);
    assert_eq!(constant(&inputs, lighting, "unk50"), [0.0; 4]);
    assert_eq!(constant(&inputs, lighting, "unk70"), [1.0; 4]);
    assert_eq!(constant(&inputs, lighting, "unk80"), [1.0; 4]);
    assert_eq!(constant(&inputs, lighting, "unk94")[0], -0.5);
    assert_eq!(
        constant(&inputs, ExternIndex::Atmosphere, "unk110"),
        constant(&inputs, lighting, "unk30")
    );
    assert!(inputs.channels.is_empty());
    assert!(inputs.registers.is_empty());
}

#[test]
fn current_views_read_named_channels() {
    let inputs = renderer(RendererEra::Current).prepare_externs();
    let lighting = ExternIndex::GlobalLighting;
    assert_eq!(constant(&inputs, lighting, "unka0")[0], 0.20);
    assert_eq!(constant(&inputs, lighting, "unkb0"), [0.01, 0.01, -0.5, -0.5]);
    assert_eq!(constant(&inputs, lighting, "unkc0"), [0.02, -2.0, 0.0, 0.0]);
    assert_eq!(constant(&inputs, lighting, "unkd0"), [0.00333, -2.33333, 0.0, 0.0]);
    let named: Vec<(&str, &str, Option<&str>, bool)> = inputs
        .channels
        .iter()
        .map(|input| (input.field, input.channel, input.scale, input.whole))
        .collect();
    assert_eq!(
        named,
        [
            ("unk10", "sun_color", Some("sun_intensity"), true),
            ("unk30", "sun_light_direction", None, true),
            ("unk50", "sun_ambient_direction", None, true),
            ("unk70", "up_ambient_color", Some("up_ambient_intensity"), true),
            ("unk80", "down_ambient_color", Some("down_ambient_intensity"), true),
            ("unk90", "up_ambient_sharpness", None, false),
            ("unk94", "down_ambient_sharpness", None, false),
            ("unk110", "sun_light_direction", None, true),
        ]
    );
    assert_eq!(inputs.channels[7].block, ExternIndex::Atmosphere);
    assert_eq!(texture(&inputs, ExternIndex::ShadowMask, "unk00"), None);
}

#[test]
fn current_transparent_registers_hold_their_values() {
    let registers: Vec<[f32; 4]> = renderer(RendererEra::Current)
        .prepare_externs()
        .registers
        .into_iter()
        .map(lanes)
        .collect();
    assert_eq!(registers.len(), 37);
    assert_eq!(
        registers[..22],
        [
            [0.00227, 0.00896, 0.32782, 0.6419],
            [0.0026, 4.86115, 0.00198, 0.00002],
            [0.9158, 233.93063, 0.51102, 0.08905],
            [147.09909, 0.55492, 0.52397, 0.00],
            [0.00, 0.64794, 0.14063, 0.01563],
            [0.0; 4],
            [1.38137, 2.08133, 0.85451, 0.4165],
            [0.90933, 0.90933, 0.90933, 0.90933],
            [132.92885, 66.40444, 56.85342, 0.00],
            [132.92885, 66.40444, 1000.00, 0.0001],
            [131.92885, 65.40444, 55.85342, 0.67843],
            [131.92885, 65.40444, 999.00, 5.50],
            [0.00, 0.50, 25.57599, 0.00],
            [0.0; 4],
            [0.025, 10000.00, -9999.00, 1.00],
            [1.00, 1.00, 1.00, 0.00],
            [0.0; 4],
            [10.92799, 7.10136, 6.25467, 0.00],
            [0.00376, 0.00, 0.00, 0.00],
            [0.00, 0.00753, 0.00, 0.00],
            [0.00, 0.00, 0.01759, 0.00],
            [-1.13485, 6.87303, -0.33715, 1.00],
        ]
    );
    for register in &registers[22..36] {
        assert_eq!(*register, [0.0; 4]);
    }
    assert_eq!(registers[36], [1.0, 0.0, 0.0, 0.0]);
}

#[test]
fn main_views_replace_atmosphere_and_picture_constants() {
    let inputs = renderer(RendererEra::Current).prepare_main_view_externs(false);
    let atmosphere = [
        ("unk1ec", 150.0),
        ("unk1c4", 600.0),
        ("unk150", -0.97563),
        ("unk154", 0.00386),
        ("unk1b4", 0.94444),
        ("unk1b8", 1.00),
        ("unk1bc", 0.00427),
        ("unk1e0", 0.00),
        ("unk1e4", 0.00386),
        ("unk1e8", 0.00427),
    ];
    for (field, value) in atmosphere {
        assert_eq!(constant(&inputs, ExternIndex::Atmosphere, field)[0], value);
    }
    assert_eq!(
        constant(&inputs, ExternIndex::Atmosphere, "unk110"),
        [0.99605, 0.03099, -0.0832, 0.00]
    );
    assert_eq!(constant(&inputs, ExternIndex::Atmosphere, "unk1d0"), [0.0; 4]);
    let area = ExternIndex::ScreenArea;
    assert_eq!(constant(&inputs, area, "unk7c")[0], 0.9968);
    assert_eq!(constant(&inputs, area, "unk80")[0], 0.1);
    assert_eq!(constant(&inputs, area, "unk90"), [32.0, 1024.0, 0.0, 0.0]);
    assert_eq!(constant(&inputs, area, "unka0"), [0.03125, -5.0, 14.0, 2.5]);
    assert_eq!(constant(&inputs, area, "unkb0")[0], 0.5);
    assert_eq!(constant(&inputs, area, "unkb4")[0], 2.0);
    assert_eq!(constant(&inputs, area, "unke0"), [0.25, -0.225, 0.40, 0.96]);
    assert_eq!(constant(&inputs, area, "unkf0"), [0.13281, 0.23611, 0.00, 0.00]);
    assert_eq!(constant(&inputs, area, "unk140")[0], 0.05);
    assert_eq!(constant(&inputs, area, "unk150"), [0.3, 0.5, 0.0, 0.02]);
    assert_eq!(constant(&inputs, area, "unk160"), [0.3, 0.5, 0.0, 0.5]);
    let transparent = ExternIndex::Transparent;
    assert_eq!(constant(&inputs, transparent, "unk70"), [0.22882, 0.00, 1.00, 45.00]);
    assert_eq!(constant(&inputs, transparent, "unk80"), [0.00, 0.00, 1.17485, 2.86546]);
    assert_eq!(constant(&inputs, transparent, "unk90"), [0.00, 0.00, 2.10913, 5.14044]);
    assert_eq!(constant(&inputs, transparent, "unka0"), [0.00, 0.00, 3.46762, 8.41667]);
    assert_eq!(constant(&inputs, transparent, "unkb0"), [0.0; 4]);
    assert_eq!(inputs.constants.len(), 28);
}

#[test]
fn main_views_pick_shadow_and_bloom_inputs() {
    let surface = |surface| Some(InputSource::Surface { surface });
    let current = renderer(RendererEra::Current).prepare_main_view_externs(true);
    let mask = ExternIndex::ShadowMask;
    assert_eq!(texture(&current, mask, "unk00"), surface(Surface::ShadowMask));
    assert_eq!(texture(&current, mask, "unk08"), None);
    assert_eq!(texture(&current, mask, "unk10"), surface(Surface::UberDepthHalf));
    assert_eq!(
        texture(&current, ExternIndex::ScreenArea, "unk40"),
        surface(Surface::BloomFinal)
    );
    assert_eq!(
        texture(&current, ExternIndex::Decal, "normals_read"),
        surface(Surface::NormalRead)
    );
    assert_eq!(
        texture(&current, ExternIndex::Cubemaps, "unk00"),
        surface(Surface::VertexAo)
    );
    let preserved = renderer(RendererEra::Shadowkeep).prepare_main_view_externs(false);
    for field in ["unk00", "unk08", "unk10"] {
        assert_eq!(texture(&preserved, mask, field), Some(InputSource::White));
    }
    assert_eq!(
        texture(&preserved, ExternIndex::ScreenArea, "unk40"),
        Some(InputSource::TemporaryBloom)
    );
    assert_eq!(
        texture(&preserved, ExternIndex::ScreenArea, "unk30"),
        Some(InputSource::Absent)
    );
}

#[test]
fn preserved_transparents_start_from_one() {
    let inputs = prepare_preserved_transparents();
    let transparent = ExternIndex::Transparent;
    for field in ["unk70", "unk80", "unk90", "unka0", "unkb0"] {
        assert_eq!(constant(&inputs, transparent, field), [1.0; 4]);
    }
    let read = InputSource::Surface {
        surface: Surface::ShadingResultRead,
    };
    assert_eq!(texture(&inputs, transparent, "unk48"), Some(read));
    assert_eq!(texture(&inputs, transparent, "unk60"), Some(read));
    assert_eq!(texture(&inputs, transparent, "unk20"), Some(InputSource::Grey));
    assert_eq!(texture(&inputs, transparent, "unk50"), Some(InputSource::Black));
    assert_eq!(
        texture(&inputs, transparent, "unk00"),
        Some(InputSource::Surface {
            surface: Surface::SkyLookupFar
        })
    );
    assert_eq!(inputs.textures.len(), 13);
}
