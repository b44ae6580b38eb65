//! Ingestion of ArtNet DMX frames into a shared universe image.
//!
//! Datagrams are decoded and validated into [`DmxData`] frames, handed over a
//! bounded channel, and written row by row into a [`DmxImage`] in which every
//! DMX channel value is replicated over the four components of one cell.

pub mod config;
pub mod network;
pub mod shader;



pub use crate::config::{
    sample_config, Channel, Config, ConfigResource, Direction, Fixture, Grid, Layout, Mapping,
    MappingGroup, Mode, Network, Output, Patch, Position, Profile, Size, CHANNELS, DMX_HEIGHT,
    DMX_SIZE, DMX_WIDTH, IMAGE_HEIGHT, IMAGE_SIZE, IMAGE_WIDTH, MAX_UNIVERSES, NETWORK_ADDRESS,
    NETWORK_PORT, SAMPLE_PIXELS, UNIVERSE_SIZE, VALUE_SIZE,
};
pub use crate::network::{
    accept_datagram, on_datagram, setup_network, validate, DmxData, Dropped, ListenerAction,
    OutputCommand, StreamReceiver,
    FRAME_QUEUE_CAPACITY, MAX_DATAGRAM_SIZE,
};
pub use crate::shader::{generate_dmx_image, update_shader, DmxImage};
