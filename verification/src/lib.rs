//! Decision logic of a voice bot's audio plumbing: the raw audio format that the
//! capture and playback pipelines negotiate, the element chains they are built
//! from, the bus watch that runs a pipeline until it ends, the routing of incoming
//! voice packets to playback slots, the handling of captured samples, and the
//! configuration of the positional-audio spatializer.
pub mod bus;
pub mod caps;
pub mod pipeline;
pub mod router;
pub mod sample;
pub mod spatial;

pub use bus::{BusMessage, BusWatch, ErrorReport, LoopError, WatchAction, WatchEvent};
pub use caps::{voice_caps, AudioCaps, ChannelLayout, SampleFormat};
pub use pipeline::{capture_chain, playback_chain, playback_chains, Chain, ElementKind, MissingElement};
pub use router::{slot_of_session, InputTaskError, RouteAction, RouteEvent, VoxRouter, VOICE_SLOTS};
pub use sample::{on_sample, on_sent, Flow, SampleAction};
pub use spatial::{voice_spatializer, Attenuation, SourceSetup, SpatializerConfig};
