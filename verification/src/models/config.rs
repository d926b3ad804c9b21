use vstd::prelude::*;

verus! {

/// Where custom voice channels are spawned: the category that receives the
/// new channels and the voice channel whose join triggers a spawn.
#[derive(Debug, Clone, Copy, PartialEq, Eq)]
pub struct CustomVoice {
    pub category_id: u64,
    pub voice_channel_id: u64,
}

/// Starboard settings of one server.
#[derive(Debug, Clone)]
pub struct Starboard {
    /// Channel that receives forwarded messages.
    pub forward_channel_id: u64,
    /// Channels whose messages are never forwarded.
    pub channels_whitelist: Vec<u64>,
    /// Number of reactions a message needs to be forwarded.
    pub reaction_threshold: usize,
}

/// Starboard settings as values.
pub struct StarboardView {
    pub forward_channel_id: u64,
    pub channels_whitelist: Seq<u64>,
    pub reaction_threshold: usize,
}

impl View for Starboard {
    type V = StarboardView;

    open spec fn view(&self) -> StarboardView {
        StarboardView {
            forward_channel_id: self.forward_channel_id,
            channels_whitelist: self.channels_whitelist@,
            reaction_threshold: self.reaction_threshold,
        }
    }
}

} // verus!
