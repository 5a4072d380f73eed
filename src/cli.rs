//! Viewer settings: the colour channel to display, grid resolution and
//! fill mode, with the pipeline choices that follow from them.
use vstd::prelude::*;

verus! {

/// The image channel that drives elevation, or the three-layer composite.
#[derive(Copy, Clone, PartialEq, Eq, Structural, PartialOrd, Ord, Debug, Default)]
pub enum Channel {
    #[default]
    All,
    Red,
    Green,
    Blue,
    Grey,
    Rgb,
}

/// Integer code of a channel as the shaders see it.
pub open spec fn channel_code(c: Channel) -> int {
    match c {
        Channel::All => 0,
        Channel::Red => 1,
        Channel::Green => 2,
        Channel::Blue => 3,
        Channel::Grey => 4,
        Channel::Rgb => 5,
    }
}

/// Which colour components a pass may write.
#[derive(Copy, Clone, PartialEq, Eq, Structural, Debug)]
pub struct WriteMask {
    pub red: bool,
    pub green: bool,
    pub blue: bool,
    pub alpha: bool,
}

/// The write mask for a channel code: one component for red, green and blue,
/// everything for any other code.
pub open spec fn write_mask_of(chan: int) -> WriteMask {
    if chan == 1 {
        WriteMask { red: true, green: false, blue: false, alpha: false }
    } else if chan == 2 {
        WriteMask { red: false, green: true, blue: false, alpha: false }
    } else if chan == 3 {
        WriteMask { red: false, green: false, blue: true, alpha: false }
    } else {
        WriteMask { red: true, green: true, blue: true, alpha: true }
    }
}

impl Channel {
    pub fn channel(&self) -> (r: i32)
        ensures
            r == channel_code(*self),
    {
        match self {
            Channel::All => 0,
            Channel::Red => 1,
            Channel::Green => 2,
            Channel::Blue => 3,
            Channel::Grey => 4,
            Channel::Rgb => 5,
        }
    }

    pub fn red() -> (r: i32)
        ensures
            r == channel_code(Channel::Red),
    {
        Channel::Red.channel()
    }

    pub fn green() -> (r: i32)
        ensures
            r == channel_code(Channel::Green),
    {
        Channel::Green.channel()
    }

    pub fn blue() -> (r: i32)
        ensures
            r == channel_code(Channel::Blue),
    {
        Channel::Blue.channel()
    }

    /// Whether a channel code selects the red/green/blue composite.
    pub fn is_rgb(channel: i32) -> (r: bool)
        ensures
            r == (channel == channel_code(Channel::Rgb)),
    {
        channel == Channel::Rgb.channel()
    }

    pub fn color_writes(chan: i32) -> (r: WriteMask)
        ensures
            r == write_mask_of(chan as int),
    {
        match chan {
            1 => WriteMask { red: true, green: false, blue: false, alpha: false },
            2 => WriteMask { red: false, green: true, blue: false, alpha: false },
            3 => WriteMask { red: false, green: false, blue: true, alpha: false },
            _ => WriteMask { red: true, green: true, blue: true, alpha: true },
        }
    }
}

/// Rasterisation of the generated triangles.
#[derive(Copy, Clone, PartialEq, Eq, Structural, Debug)]
pub enum PolygonMode {
    Fill,
    Line,
}

/// The smallest grid resolution, in vertices per axis.
pub const MIN_RES: u32 = 11;

/// The resolution used for one axis: the axis's own value when it is above
/// the minimum, else the shared value when that is, else the minimum.
pub open spec fn resolved(axis: u32, shared: u32) -> u32 {
    if axis > MIN_RES {
        axis
    } else if shared > MIN_RES {
        shared
    } else {
        MIN_RES
    }
}

/// Settings of a viewing session, as resolved from the command line.
#[derive(Clone, Debug)]
pub struct Cli {
    /// File name of the image to view.
    pub image_name: String,
    /// Wire-frame display.
    pub wire: bool,
    /// Channel to display.
    pub channel: Channel,
    /// Resolution of the grid in both x and y.
    pub resolution: u32,
    /// X resolution of the grid.
    pub xres: u32,
    /// Y resolution of the grid.
    pub yres: u32,
}

impl Cli {
    pub fn new(
        image_name: String,
        wire: bool,
        channel: Channel,
        resolution: u32,
        xres: u32,
        yres: u32,
    ) -> (r: Cli)
        ensures
            r.image_name@ == image_name@,
            r.wire == wire,
            r.channel == channel,
            r.resolution == resolution,
            r.xres == xres,
            r.yres == yres,
    {
        Cli { image_name, wire, channel, resolution, xres, yres }
    }

    pub fn image_name(&self) -> (r: &String)
        ensures
            r@ == self.image_name@,
    {
        &self.image_name
    }

    pub fn polygon_mode(&self) -> (r: PolygonMode)
        ensures
            r == (if self.wire { PolygonMode::Line } else { PolygonMode::Fill }),
    {
        if self.wire {
            PolygonMode::Line
        } else {
            PolygonMode::Fill
        }
    }

    /// Name of the fragment entry point for the display mode.
    pub fn frag_entry(&self) -> (r: &'static str)
        ensures
            r@ == (if self.wire { "fs_wire"@ } else { "fs_fill"@ }),
    {
        if self.wire {
            "fs_wire"
        } else {
            "fs_fill"
        }
    }

    pub fn channel(&self) -> (r: i32)
        ensures
            r == channel_code(self.channel),
    {
        self.channel.channel()
    }

    pub fn xres(&self) -> (r: u32)
        ensures
            r == resolved(self.xres, self.resolution),
            r >= MIN_RES,
    {
        if self.xres > MIN_RES {
            self.xres
        } else if self.resolution > MIN_RES {
            self.resolution
        } else {
            MIN_RES
        }
    }

    pub fn yres(&self) -> (r: u32)
        ensures
            r == resolved(self.yres, self.resolution),
            r >= MIN_RES,
    {
        if self.yres > MIN_RES {
            self.yres
        } else if self.resolution > MIN_RES {
            self.resolution
        } else {
            MIN_RES
        }
    }
}

} // verus!
