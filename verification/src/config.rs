use vstd::prelude::*;

verus! {

/// Number of distinct values of one DMX channel.
pub const VALUE_SIZE: usize = 256;

/// Number of channels in one universe.
pub const UNIVERSE_SIZE: usize = 512;

/// Number of universes the image has a row for.
pub const MAX_UNIVERSES: usize = 512;

/// Number of byte components stored per cell.
pub const CHANNELS: usize = 4;

/// Bytes in one row of the image.
pub const DMX_WIDTH: usize = 2048;

/// Rows of the image.
pub const DMX_HEIGHT: usize = 512;

/// Bytes in the whole image.
pub const DMX_SIZE: usize = 1048576;

/// Cells in one row of the image.
pub const IMAGE_WIDTH: usize = 512;

/// Rows of the image, one per universe.
pub const IMAGE_HEIGHT: usize = 512;

/// Cells in the whole image.
pub const IMAGE_SIZE: usize = 262144;

/// Address the listener binds by default.
pub const NETWORK_ADDRESS: &'static str = "0.0.0.0";

/// Port the listener binds by default.
pub const NETWORK_PORT: u16 = 6454;

/// The sizes are tied to one another: a row holds one universe, each channel
/// of it spread over `CHANNELS` bytes, and there is one row per universe.
pub proof fn lemma_sizes_agree()
    ensures
        DMX_WIDTH == UNIVERSE_SIZE * CHANNELS,
        DMX_HEIGHT == MAX_UNIVERSES,
        DMX_SIZE == DMX_WIDTH * DMX_HEIGHT,
        IMAGE_WIDTH == UNIVERSE_SIZE,
        IMAGE_HEIGHT == MAX_UNIVERSES,
        IMAGE_SIZE == IMAGE_WIDTH * IMAGE_HEIGHT,
{
}

#[derive(Debug, Clone, PartialEq, Eq)]
pub struct Network {
    pub address: String,
    pub port: u16,
}

#[derive(Debug, Clone, PartialEq, Eq)]
pub enum Channel {
    Dimmer(usize),
    Red(usize),
    Green(usize),
    Blue(usize),
    Shutter(usize),
}

#[derive(Debug, Clone, PartialEq, Eq)]
pub struct Profile {
    pub name: String,
    pub channels: Vec<Channel>,
}

#[derive(Debug, Clone, PartialEq, Eq)]
pub struct MappingGroup {
    pub profile: String,
    pub patch: Patch,
}

#[derive(Debug, Clone, PartialEq, Eq)]
pub struct Mapping {
    pub from: MappingGroup,
    pub to: MappingGroup,
    pub count: usize,
}

#[derive(Debug, Clone, PartialEq, Eq)]
pub struct Position {
    pub x: usize,
    pub y: usize,
}

#[derive(Debug, Clone, PartialEq, Eq)]
pub struct Size {
    pub width: usize,
    pub height: usize,
}

#[derive(Debug, Clone, PartialEq, Eq)]
pub struct Grid {
    pub rows: usize,
    pub columns: usize,
}

#[derive(Debug, Clone, PartialEq, Eq)]
pub enum Direction {
    Horizontal,
    Vertical,
}

#[derive(Debug, Clone, PartialEq, Eq)]
pub struct Layout {
    pub direction: Direction,
    pub count: usize,
}

#[derive(Debug, Clone, PartialEq, Eq)]
pub struct Patch {
    pub universe: usize,
    pub address: usize,
}

#[derive(Debug, Clone, PartialEq, Eq)]
pub enum Mode {
    Dimmer,
    Rgb,
}

#[derive(Debug, Clone, PartialEq, Eq)]
pub struct Fixture {
    pub position: Position,
    pub size: Size,
    pub grid: Grid,
    pub mode: Mode,
    pub layout: Layout,
}

#[derive(Debug, Clone, PartialEq, Eq)]
pub struct Output {
    pub name: String,
    pub width: usize,
    pub height: usize,
    pub fixtures: Vec<Fixture>,
}

#[derive(Debug, Clone, PartialEq, Eq)]
pub struct Config {
    pub network: Network,
    pub profiles: Vec<Profile>,
    pub mappings: Vec<Mapping>,
    pub outputs: Vec<Output>,
}

/// A configuration held as a shared resource of the host application.
#[derive(Debug, Clone, PartialEq, Eq)]
pub struct ConfigResource(pub Config);

/// Number of pixels of the sample profile; each has a red, a green and a
/// blue channel.
pub const SAMPLE_PIXELS: usize = 48;

/// The `k`-th channel of the sample profile: pixel `k / 3`, with the colours
/// in the order red, green, blue.
pub open spec fn sample_channel(k: int) -> Channel {
    if k % 3 == 0 {
        Channel::Red((k / 3) as usize)
    } else if k % 3 == 1 {
        Channel::Green((k / 3) as usize)
    } else {
        Channel::Blue((k / 3) as usize)
    }
}

/// The channels of the sample profile.
pub open spec fn sample_channels() -> Seq<Channel> {
    Seq::new(3 * SAMPLE_PIXELS as nat, |k: int| sample_channel(k))
}

/// The one mapping group of the sample: the strip profile patched at
/// universe 0, address 1.
pub open spec fn is_sample_group(g: MappingGroup) -> bool {
    &&& g.profile@ == "Brigthstripe"@
    &&& g.patch == Patch { universe: 0, address: 1 }
}

/// The one fixture of the sample output.
pub open spec fn is_sample_fixture(f: Fixture) -> bool {
    &&& f.position == Position { x: 0, y: 0 }
    &&& f.size == Size { width: 100, height: 10 }
    &&& f.grid == Grid { rows: 14, columns: 2 }
    &&& f.mode == Mode::Rgb
    &&& f.layout == Layout { direction: Direction::Horizontal, count: 48 }
}

/// What the sample configuration holds, field by field.
pub open spec fn is_sample_config(c: Config) -> bool {
    &&& c.network.address@ == "0.0.0.0"@
    &&& c.network.port == 6454
    &&& c.profiles@.len() == 1
    &&& c.profiles@[0].name@ == "Brightstripe"@
    &&& c.profiles@[0].channels@ == sample_channels()
    &&& c.mappings@.len() == 1
    &&& is_sample_group(c.mappings@[0].from)
    &&& is_sample_group(c.mappings@[0].to)
    &&& c.mappings@[0].count == 28
    &&& c.outputs@.len() == 1
    &&& c.outputs@[0].name@ == "Main"@
    &&& c.outputs@[0].width == 960
    &&& c.outputs@[0].height == 540
    &&& c.outputs@[0].fixtures@.len() == 1
    &&& is_sample_fixture(c.outputs@[0].fixtures@[0])
}

/// The red, green and blue channels of pixels `0..SAMPLE_PIXELS`, pixel by
/// pixel.
fn sample_profile_channels() -> (channels: Vec<Channel>)
    ensures
        channels@ == sample_channels(),
{
    let mut channels: Vec<Channel> = Vec::new();
    let mut i: usize = 0;
    while i < SAMPLE_PIXELS
        invariant
            i <= SAMPLE_PIXELS,
            channels@.len() == 3 * i,
            forall|k: int| 0 <= k < channels@.len() ==> channels@[k] == sample_channel(k),
        decreases SAMPLE_PIXELS - i,
    {
        channels.push(Channel::Red(i));
        channels.push(Channel::Green(i));
        channels.push(Channel::Blue(i));
        i += 1;
    }
    assert(channels@ =~= sample_channels());
    channels
}

/// A configuration to start from: the default network endpoint, one RGB
/// strip profile, one mapping of it onto itself and one output with a single
/// fixture.
pub fn sample_config() -> (config: Config)
    ensures
        is_sample_config(config),
{
    let mut profiles: Vec<Profile> = Vec::new();
    profiles.push(Profile { name: "Brightstripe".to_owned(), channels: sample_profile_channels() });
    let mut mappings: Vec<Mapping> = Vec::new();
    mappings.push(
        Mapping {
            from: MappingGroup {
                profile: "Brigthstripe".to_owned(),
                patch: Patch { universe: 0, address: 1 },
            },
            to: MappingGroup {
                profile: "Brigthstripe".to_owned(),
                patch: Patch { universe: 0, address: 1 },
            },
            count: 28,
        },
    );
    let mut fixtures: Vec<Fixture> = Vec::new();
    fixtures.push(
        Fixture {
            position: Position { x: 0, y: 0 },
            size: Size { width: 100, height: 10 },
            grid: Grid { rows: 14, columns: 2 },
            mode: Mode::Rgb,
            layout: Layout { direction: Direction::Horizontal, count: 48 },
        },
    );
    let mut outputs: Vec<Output> = Vec::new();
    outputs.push(Output { name: "Main".to_owned(), width: 960, height: 540, fixtures });
    Config {
        network: Network { address: NETWORK_ADDRESS.to_owned(), port: NETWORK_PORT },
        profiles,
        mappings,
        outputs,
    }
}

} // verus!
