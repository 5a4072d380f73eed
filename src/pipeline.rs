//! Settings of the graphics pipeline built for one channel: entry points,
//! fill mode, colour write mask and depth test.
use vstd::prelude::*;
use crate::cli::{Channel, Cli, PolygonMode, WriteMask, write_mask_of};

verus! {

/// Why a viewing session cannot start.
#[derive(Copy, Clone, PartialEq, Eq, Structural, Debug)]
pub enum ConfigError {
    /// Line fill mode was asked for on a device without line rasterisation.
    LineModeUnsupported,
    /// The grid has more vertices than one draw call can address.
    GridTooLarge,
}

/// Everything that varies between the pipelines of one session. The vertex
/// stage reads no vertex buffers; triangles are a plain list, not culled,
/// and blending replaces the target.
#[derive(Copy, Clone, Debug)]
pub struct PipelineConfig {
    pub vertex_entry: &'static str,
    pub fragment_entry: &'static str,
    pub polygon_mode: PolygonMode,
    pub write_mask: WriteMask,
    /// Depth values are written.
    pub depth_write: bool,
    /// A fragment passes the depth test when it is nearer than what is stored.
    pub depth_less: bool,
}

/// `p` is the pipeline for the display settings `args`, writing the channel
/// with code `chan`.
pub open spec fn configured(p: PipelineConfig, args: Cli, chan: int) -> bool {
    &&& p.vertex_entry@ == "vs_main"@
    &&& p.fragment_entry@ == (if args.wire { "fs_wire"@ } else { "fs_fill"@ })
    &&& p.polygon_mode == (if args.wire { PolygonMode::Line } else { PolygonMode::Fill })
    &&& p.write_mask == write_mask_of(chan)
    &&& p.depth_write
    &&& p.depth_less
}

/// The pipeline settings for the display settings `args` and channel code
/// `chan`.
pub fn make(args: &Cli, chan: i32) -> (r: PipelineConfig)
    ensures
        configured(r, *args, chan as int),
{
    PipelineConfig {
        vertex_entry: "vs_main",
        fragment_entry: args.frag_entry(),
        polygon_mode: args.polygon_mode(),
        write_mask: Channel::color_writes(chan),
        depth_write: true,
        depth_less: true,
    }
}

impl PipelineConfig {
    /// Whether the device can build this pipeline: line fill needs line
    /// rasterisation.
    pub fn check(&self, line_supported: bool) -> (r: Result<(), ConfigError>)
        ensures
            r is Err <==> (self.polygon_mode == PolygonMode::Line && !line_supported),
            r is Err ==> r == Err::<(), ConfigError>(ConfigError::LineModeUnsupported),
    {
        match self.polygon_mode {
            PolygonMode::Line => if line_supported {
                Ok(())
            } else {
                Err(ConfigError::LineModeUnsupported)
            },
            PolygonMode::Fill => Ok(()),
        }
    }
}

} // verus!
