//! Per-column stratification: which block caps a column ("top") and which
//! fills it ("fill"), as a function of remaining layer depth, elevation and
//! biome, with special handling near a configured sea level.

use vstd::prelude::*;

verus! {

/// What a (column, depth) query produces: the capping block (`None` when the
/// fill itself should cap) and the block filling the body of the layer.
/// Produced fresh per query; never retained.
pub struct Surface<B> {
    pub top: Option<B>,
    pub fill: B,
}

/// The surface descriptor a biome supplies: its own top and fill blocks.
/// Biome data is owned outside this library; only the descriptor is read.
pub struct Biome<B> {
    pub top: Option<B>,
    pub fill: B,
}

/// Which beach variant applies to a column inside the beach band.
#[derive(Clone, Copy, PartialEq, Eq, Structural, Debug)]
pub enum Beach {
    Sand,
    Gravel,
    Biome,
}

/// Injected stratification constants: the reference elevation and the block
/// identities the rules write. The beach band is `[sea_level - 3,
/// sea_level + 2]`; the deep fill is the bedrock-equivalent material a
/// bottomed-out layer produces.
pub struct SurfaceConfig<B> {
    pub sea_level: u32,
    pub sand: B,
    pub gravel: B,
    pub deep_fill: B,
}

impl<B> SurfaceConfig<B> {
    /// The beach band around `sea_level` can be computed without leaving `u32`.
    pub open spec fn valid(self) -> bool {
        3 <= self.sea_level <= u32::MAX - 2
    }
}

/// Whether elevation `y` falls within the beach band around the sea level.
pub open spec fn in_beach_band<B>(config: SurfaceConfig<B>, y: u32) -> bool {
    config.sea_level - 3 <= y <= config.sea_level + 2
}

/// The surface each beach variant produces: sand capped by sand, uncapped
/// gravel, or the biome's own descriptor.
pub open spec fn spec_beach_surface<B>(
    beach: Beach,
    config: SurfaceConfig<B>,
    biome: Biome<B>,
) -> Surface<B> {
    match beach {
        Beach::Sand => Surface { top: Some(config.sand), fill: config.sand },
        Beach::Gravel => Surface { top: None, fill: config.gravel },
        Beach::Biome => Surface { top: biome.top, fill: biome.fill },
    }
}

/// Per-column descriptor: the signed remaining thickness of the current
/// layer, which beach variant applies, and the biome's surface descriptor.
/// Layers are consumed top to bottom by an external carving loop.
pub struct Stack<B> {
    pub depth: i32,
    pub beach: Beach,
    pub biome: Biome<B>,
}

/// The stratification decision for one query: a bottomed-out layer produces
/// the deep fill; the beach band produces the beach variant's surface; any
/// other elevation caps with the biome's top and inherits the previous
/// layer's fill. Below sea level the cap is then forced to equal the fill,
/// since a submerged column presents a flat material.
pub open spec fn spec_surface<B>(
    stack: Stack<B>,
    config: SurfaceConfig<B>,
    y: u32,
    last: Surface<B>,
) -> Surface<B> {
    let s = if stack.depth <= 0 {
        Surface { top: None, fill: config.deep_fill }
    } else if in_beach_band(config, y) {
        spec_beach_surface(stack.beach, config, stack.biome)
    } else {
        Surface { top: stack.biome.top, fill: last.fill }
    };
    if y < config.sea_level {
        Surface { top: Some(s.fill), fill: s.fill }
    } else {
        s
    }
}

impl Beach {
    /// The surface this beach variant produces, before the submersion rule.
    pub fn surface<B: Copy>(&self, config: &SurfaceConfig<B>, biome: &Biome<B>) -> (r: Surface<B>)
        ensures
            r == spec_beach_surface(*self, *config, *biome),
    {
        match *self {
            Beach::Sand => Surface { top: Some(config.sand), fill: config.sand },
            Beach::Gravel => Surface { top: None, fill: config.gravel },
            Beach::Biome => Surface { top: biome.top, fill: biome.fill },
        }
    }
}

impl<B: Copy> Stack<B> {
    /// Decide which block caps and which fills the voxel at elevation `y`,
    /// given the surface produced for the layer above. A pure function of its
    /// arguments: no mutation, reproducible on equal inputs.
    pub fn surface(&self, config: &SurfaceConfig<B>, y: u32, last: &Surface<B>) -> (r: Surface<B>)
        requires
            config.valid(),
        ensures
            r == spec_surface(*self, *config, y, *last),
    {
        let s = if self.depth <= 0 {
            Surface { top: None, fill: config.deep_fill }
        } else if y >= config.sea_level - 3 && y <= config.sea_level + 2 {
            self.beach.surface(config, &self.biome)
        } else {
            Surface { top: self.biome.top, fill: last.fill }
        };
        if y < config.sea_level {
            Surface { top: Some(s.fill), fill: s.fill }
        } else {
            s
        }
    }
}

/// Law: below sea level the cap always equals the fill, whatever branch
/// produced the surface — submerged columns present a flat material.
pub proof fn lemma_submerged_top_equals_fill<B>(
    stack: Stack<B>,
    config: SurfaceConfig<B>,
    y: u32,
    last: Surface<B>,
)
    requires
        y < config.sea_level,
    ensures
        spec_surface(stack, config, y, last).top == Some(spec_surface(stack, config, y, last).fill),
{
}

/// Law: a bottomed-out layer fills with the deep fill block whatever `y` is;
/// at or above sea level the result is exactly the uncapped deep-fill
/// surface, and below it the submersion rule caps it with the deep fill.
pub proof fn lemma_deep_fill<B>(stack: Stack<B>, config: SurfaceConfig<B>, y: u32, last: Surface<B>)
    requires
        stack.depth <= 0,
    ensures
        spec_surface(stack, config, y, last).fill == config.deep_fill,
        y >= config.sea_level ==> spec_surface(stack, config, y, last) == (Surface {
            top: None::<B>,
            fill: config.deep_fill,
        }),
{
}

/// Law: anywhere in the beach band, a live layer with the sand variant yields
/// sand capped by sand — the submersion rule changes nothing, since the cap
/// already equals the fill.
pub proof fn lemma_beach_sand<B>(
    stack: Stack<B>,
    config: SurfaceConfig<B>,
    y: u32,
    last: Surface<B>,
)
    requires
        stack.depth > 0,
        in_beach_band(config, y),
        stack.beach == Beach::Sand,
    ensures
        spec_surface(stack, config, y, last) == (Surface {
            top: Some(config.sand),
            fill: config.sand,
        }),
{
}

/// Law: in the beach band at or above sea level, a live layer with the gravel
/// variant yields uncapped gravel. Below sea level the submersion rule caps
/// it with gravel instead, so the uncapped form holds only where the column
/// is exposed.
pub proof fn lemma_beach_gravel<B>(
    stack: Stack<B>,
    config: SurfaceConfig<B>,
    y: u32,
    last: Surface<B>,
)
    requires
        stack.depth > 0,
        in_beach_band(config, y),
        y >= config.sea_level,
        stack.beach == Beach::Gravel,
    ensures
        spec_surface(stack, config, y, last) == (Surface {
            top: None::<B>,
            fill: config.gravel,
        }),
{
}

} // verus!
