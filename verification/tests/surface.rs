//! Behavior of the per-column stratification model.

use decor::surface::{Beach, Biome, Stack, Surface, SurfaceConfig};

const SAND: u32 = 1;
const GRAVEL: u32 = 2;
const DEEP: u32 = 3;
const BIOME_TOP: u32 = 4;
const BIOME_FILL: u32 = 5;
const LAST_FILL: u32 = 6;

fn config() -> SurfaceConfig<u32> {
    SurfaceConfig {
        sea_level: 63,
        sand: SAND,
        gravel: GRAVEL,
        deep_fill: DEEP,
    }
}

fn biome() -> Biome<u32> {
    Biome {
        top: Some(BIOME_TOP),
        fill: BIOME_FILL,
    }
}

fn stack(depth: i32, beach: Beach) -> Stack<u32> {
    Stack {
        depth,
        beach,
        biome: biome(),
    }
}

fn last() -> Surface<u32> {
    Surface {
        top: None,
        fill: LAST_FILL,
    }
}

#[test]
fn submerged_top_always_equals_fill() {
    let cfg = config();
    for y in [0u32, 30, 59, 60, 61, 62] {
        for beach in [Beach::Sand, Beach::Gravel, Beach::Biome] {
            for depth in [-1i32, 0, 1, 10] {
                let s = stack(depth, beach).surface(&cfg, y, &last());
                assert_eq!(s.top, Some(s.fill), "y={y} beach={beach:?} depth={depth}");
            }
        }
    }
}

#[test]
fn bottomed_out_layer_fills_with_deep_fill() {
    let cfg = config();
    for y in [0u32, 50, 61, 63, 70, 127] {
        for depth in [i32::MIN, -5, 0] {
            let s = stack(depth, Beach::Sand).surface(&cfg, y, &last());
            assert_eq!(s.fill, DEEP, "y={y} depth={depth}");
            if y >= 63 {
                assert_eq!(s.top, None);
            } else {
                assert_eq!(s.top, Some(DEEP));
            }
        }
    }
}

#[test]
fn sand_beach_yields_sand_capped_by_sand() {
    let cfg = config();
    // the whole beach band [60, 65]
    for y in 60u32..=65 {
        let s = stack(4, Beach::Sand).surface(&cfg, y, &last());
        assert_eq!(s.top, Some(SAND), "y={y}");
        assert_eq!(s.fill, SAND, "y={y}");
    }
}

#[test]
fn gravel_beach_yields_uncapped_gravel_when_exposed() {
    let cfg = config();
    for y in 63u32..=65 {
        let s = stack(4, Beach::Gravel).surface(&cfg, y, &last());
        assert_eq!(s.top, None, "y={y}");
        assert_eq!(s.fill, GRAVEL, "y={y}");
    }
    // submerged part of the band: the fill still caps it
    let s = stack(4, Beach::Gravel).surface(&cfg, 61, &last());
    assert_eq!(s.top, Some(GRAVEL));
    assert_eq!(s.fill, GRAVEL);
}

#[test]
fn biome_beach_defers_to_the_biome_descriptor() {
    let cfg = config();
    let s = stack(4, Beach::Biome).surface(&cfg, 64, &last());
    assert_eq!(s.top, Some(BIOME_TOP));
    assert_eq!(s.fill, BIOME_FILL);
    let direct = Beach::Biome.surface(&cfg, &biome());
    assert_eq!(direct.top, Some(BIOME_TOP));
    assert_eq!(direct.fill, BIOME_FILL);
}

#[test]
fn outside_the_band_fill_is_inherited_from_the_layer_above() {
    let cfg = config();
    let s = stack(4, Beach::Sand).surface(&cfg, 100, &last());
    assert_eq!(s.top, Some(BIOME_TOP));
    assert_eq!(s.fill, LAST_FILL);
    // below sea level the inherited fill also caps
    let deep_column = stack(4, Beach::Sand).surface(&cfg, 40, &last());
    assert_eq!(deep_column.top, Some(LAST_FILL));
    assert_eq!(deep_column.fill, LAST_FILL);
}

#[test]
fn band_edges_follow_the_configured_sea_level() {
    let cfg = SurfaceConfig {
        sea_level: 20,
        sand: SAND,
        gravel: GRAVEL,
        deep_fill: DEEP,
    };
    // band is [17, 22]: inside it the sand rule applies, outside not
    let inside = stack(4, Beach::Sand).surface(&cfg, 22, &last());
    assert_eq!(inside.top, Some(SAND));
    assert_eq!(inside.fill, SAND);
    let outside = stack(4, Beach::Sand).surface(&cfg, 23, &last());
    assert_eq!(outside.top, Some(BIOME_TOP));
    assert_eq!(outside.fill, LAST_FILL);
}
