//! The frame compositor: the grid layers of a session, one per render pass,
//! and the passes issued for each frame.
use vstd::prelude::*;
use crate::cli::{Channel, Cli, channel_code, resolved};
use crate::frac::{Frac, lt};
use crate::mesh::{Descriptor, sum};
use crate::pipeline::{ConfigError, PipelineConfig, configured, make};

verus! {

/// One grid together with the pipeline that draws it.
#[derive(Copy, Clone, Debug)]
pub struct Layer {
    pub desc: Descriptor,
    pub pipeline: PipelineConfig,
}

/// What a render pass does with an attachment before it draws.
#[derive(Copy, Clone, PartialEq, Eq, Structural, Debug)]
pub enum LoadOp {
    /// Clear to the attachment's clear value.
    Clear,
    /// Keep what earlier passes left.
    Load,
}

/// One render pass of a frame.
#[derive(Copy, Clone, PartialEq, Eq, Structural, Debug)]
pub struct PassPlan {
    /// Index of the layer drawn.
    pub layer: usize,
    /// Channel code of that layer's grid.
    pub channel: i32,
    pub color: LoadOp,
    pub depth: LoadOp,
    /// Vertices drawn, from index 0.
    pub vertices: u32,
}

/// The layers of a session, chosen once at start-up.
#[derive(Clone, Debug)]
pub struct Scene {
    /// Channel code selected for the session.
    pub channel: i32,
    pub layers: Vec<Layer>,
}

/// The session's grid for the settings `args`: their resolution, spanning
/// -1 to +1 on both axes.
pub open spec fn session_grid(args: Cli, channel: int, zdisplace: Frac) -> Descriptor {
    let q = (resolved(args.xres, args.resolution) - 1) as u32;
    let r = (resolved(args.yres, args.resolution) - 1) as u32;
    Descriptor {
        quads_in_row: q,
        rows_of_quads: r,
        xoffset: Frac { num: -1i32, den: 1 },
        yoffset: Frac { num: -1i32, den: 1 },
        xscale: Frac { num: 2, den: q },
        yscale: Frac { num: 2, den: r },
        channel: channel as i32,
        zdisplace,
    }
}

/// `k` times `gap`.
pub open spec fn scaled(gap: Frac, k: int) -> Frac {
    Frac { num: (k * gap.num) as i32, den: gap.den }
}

/// The grid for `args` has few enough vertices for one draw call.
pub open spec fn grid_fits(args: Cli) -> bool {
    (resolved(args.xres, args.resolution) - 1) * (resolved(args.yres, args.resolution) - 1) * 6
        <= u32::MAX
}

/// A gap whose double still fits the fraction's numerator.
pub open spec fn gap_ok(gap: Frac) -> bool {
    gap.wf() && -0x4000_0000 <= gap.num < 0x4000_0000
}

impl Scene {
    /// The session shows the red, green and blue composite.
    pub open spec fn is_composite(self) -> bool {
        self.channel == channel_code(Channel::Rgb)
    }

    pub open spec fn wf(self) -> bool {
        &&& self.layers@.len() == (if self.is_composite() { 3int } else { 1int })
        &&& forall|i: int| 0 <= i < self.layers@.len() ==> (#[trigger] self.layers@[i]).desc.wf()
    }

    /// This scene is the one set up for the settings `args` with the layer
    /// gap `gap`: in composite mode one layer per colour, red, green, blue,
    /// each raised `gap` above the one before and writing its own colour; else
    /// one layer of the selected channel that writes every colour.
    pub open spec fn built_from(self, args: Cli, gap: Frac) -> bool {
        let code = channel_code(args.channel);
        &&& self.channel == code
        &&& if code == channel_code(Channel::Rgb) {
            &&& self.layers@.len() == 3
            &&& forall|k: int|
                0 <= k < 3 ==> {
                    &&& (#[trigger] self.layers@[k]).desc == session_grid(args, k + 1, scaled(gap, k))
                    &&& configured(self.layers@[k].pipeline, args, k + 1)
                }
        } else {
            &&& self.layers@.len() == 1
            &&& self.layers@[0].desc == session_grid(args, code, Frac { num: 0, den: 1 })
            &&& configured(self.layers@[0].pipeline, args, channel_code(Channel::All))
        }
    }

    /// The pass that draws layer `i`: depth is cleared before the first pass
    /// only; colour is cleared before the first pass of a composite and
    /// otherwise kept.
    pub open spec fn pass_of(self, i: int) -> PassPlan {
        PassPlan {
            layer: i as usize,
            channel: self.layers@[i].desc.channel,
            color: if self.is_composite() && i == 0 { LoadOp::Clear } else { LoadOp::Load },
            depth: if i == 0 { LoadOp::Clear } else { LoadOp::Load },
            vertices: self.layers@[i].desc.vertex_count() as u32,
        }
    }

    /// Sets up the layers for the settings `args`; `gap` separates the
    /// composite's layers in depth, and `line_supported` tells whether the
    /// device rasterises lines.
    pub fn new(args: &Cli, gap: Frac, line_supported: bool) -> (r: Result<Scene, ConfigError>)
        requires
            gap_ok(gap),
        ensures
            r == Err::<Scene, ConfigError>(ConfigError::GridTooLarge) <==> !grid_fits(*args),
            r == Err::<Scene, ConfigError>(ConfigError::LineModeUnsupported) <==> (grid_fits(*args)
                && args.wire && !line_supported),
            r is Ok <==> (grid_fits(*args) && (!args.wire || line_supported)),
            r matches Ok(s) ==> s.wf() && s.built_from(*args, gap),
    {
        let xres = args.xres();
        let yres = args.yres();
        proof {
            assert(((xres - 1) as u128) * ((yres - 1) as u128) * 6 <= 0x6_0000_0000_0000_0000)
                by (nonlinear_arith)
                requires
                    xres <= u32::MAX,
                    yres <= u32::MAX,
                    xres >= 1,
                    yres >= 1,
            ;
        }
        if ((xres - 1) as u128) * ((yres - 1) as u128) * 6 > u32::MAX as u128 {
            return Err(ConfigError::GridTooLarge);
        }
        let channel = args.channel();
        let zero = Frac::whole(0);
        let base = Descriptor::default(xres, yres, channel, zero);
        let mut layers: Vec<Layer> = Vec::new();
        if Channel::is_rgb(channel) {
            let red = Channel::red();
            let green = Channel::green();
            let blue = Channel::blue();
            let level = Frac::new(0, gap.den);
            layers.push(Layer { desc: base.another(red, level), pipeline: make(args, red) });
            layers.push(Layer { desc: base.another(green, gap), pipeline: make(args, green) });
            let twice = Frac::new(2 * gap.num, gap.den);
            layers.push(Layer { desc: base.another(blue, twice), pipeline: make(args, blue) });
            proof {
                assert(scaled(gap, 0) == level);
                assert(scaled(gap, 1) == gap);
                assert(scaled(gap, 2) == twice);
            }
        } else {
            layers.push(Layer { desc: base, pipeline: make(args, Channel::All.channel()) });
        }
        match layers[0].pipeline.check(line_supported) {
            Ok(()) => Ok(Scene { channel, layers }),
            Err(e) => Err(e),
        }
    }

    /// The render passes of one frame, in order: one per layer.
    pub fn frame_plan(&self) -> (r: Vec<PassPlan>)
        requires
            self.wf(),
        ensures
            r@.len() == self.layers@.len(),
            forall|i: int| 0 <= i < r@.len() ==> r@[i] == #[trigger] self.pass_of(i),
    {
        let composite = Channel::is_rgb(self.channel);
        let mut plan: Vec<PassPlan> = Vec::new();
        let mut i: usize = 0;
        while i < self.layers.len()
            invariant
                self.wf(),
                composite == self.is_composite(),
                i <= self.layers@.len(),
                plan@.len() == i,
                forall|j: int| 0 <= j < i ==> plan@[j] == #[trigger] self.pass_of(j),
            decreases self.layers@.len() - i,
        {
            let desc = &self.layers[i].desc;
            let pass = PassPlan {
                layer: i,
                channel: desc.channel,
                color: if composite && i == 0 { LoadOp::Clear } else { LoadOp::Load },
                depth: if i == 0 { LoadOp::Clear } else { LoadOp::Load },
                vertices: desc.nverts(),
            };
            plan.push(pass);
            i += 1;
        }
        plan
    }
}

/// In a composite scene every vertex index lands on the same (x, y) in all
/// three layers, and at equal sampled elevation the layers' heights are
/// strictly ordered as their depth offsets are: red below green below blue
/// for a positive gap, the reverse for a negative one.
pub proof fn lemma_composite_depth_order(
    s: Scene,
    args: Cli,
    gap: Frac,
    vertex: int,
    elevation: Frac,
)
    requires
        gap_ok(gap),
        gap.num != 0,
        elevation.wf(),
        s.wf(),
        s.built_from(args, gap),
        s.is_composite(),
        0 <= vertex < s.layers@[0].desc.vertex_count(),
    ensures
        s.layers@[1].desc.position_of(vertex) == s.layers@[0].desc.position_of(vertex),
        s.layers@[2].desc.position_of(vertex) == s.layers@[0].desc.position_of(vertex),
        ({
            let z0 = sum(elevation, s.layers@[0].desc.zdisplace);
            let z1 = sum(elevation, s.layers@[1].desc.zdisplace);
            let z2 = sum(elevation, s.layers@[2].desc.zdisplace);
            &&& gap.num > 0 ==> lt(z0.0, z0.1, z1.0, z1.1) && lt(z1.0, z1.1, z2.0, z2.1)
            &&& gap.num < 0 ==> lt(z1.0, z1.1, z0.0, z0.1) && lt(z2.0, z2.1, z1.0, z1.1)
        }),
{
    let l0 = s.layers@[0];
    let l1 = s.layers@[1];
    let l2 = s.layers@[2];
    assert(l0.desc == session_grid(args, 1, scaled(gap, 0)));
    assert(l1.desc == session_grid(args, 2, scaled(gap, 1)));
    assert(l2.desc == session_grid(args, 3, scaled(gap, 2)));
    let en = elevation.num as int;
    let ed = elevation.den as int;
    let gn = gap.num as int;
    let gd = gap.den as int;
    let z0 = sum(elevation, l0.desc.zdisplace);
    let z1 = sum(elevation, l1.desc.zdisplace);
    let z2 = sum(elevation, l2.desc.zdisplace);
    assert(z0 == (en * gd + 0 * ed, ed * gd));
    assert(z1 == (en * gd + gn * ed, ed * gd));
    assert(z2 == (en * gd + (2 * gn) * ed, ed * gd));
    if gn > 0 {
        assert((en * gd + 0 * ed) * (ed * gd) < (en * gd + gn * ed) * (ed * gd))
            by (nonlinear_arith)
            requires
                gn > 0,
                ed > 0,
                gd > 0,
        ;
        assert((en * gd + gn * ed) * (ed * gd) < (en * gd + (2 * gn) * ed) * (ed * gd))
            by (nonlinear_arith)
            requires
                gn > 0,
                ed > 0,
                gd > 0,
        ;
    } else {
        assert((en * gd + gn * ed) * (ed * gd) < (en * gd + 0 * ed) * (ed * gd))
            by (nonlinear_arith)
            requires
                gn < 0,
                ed > 0,
                gd > 0,
        ;
        assert((en * gd + (2 * gn) * ed) * (ed * gd) < (en * gd + gn * ed) * (ed * gd))
            by (nonlinear_arith)
            requires
                gn < 0,
                ed > 0,
                gd > 0,
        ;
    }
}

} // verus!
