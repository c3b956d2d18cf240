//! The addressable feed slots and the output geometry they share.

use vstd::prelude::*;

verus! {

/// Mathematical image of one feed slot.
pub ghost struct ChannelView {
    /// 0-based index into the registry.
    pub id: int,
    /// The identifier the external mixing engine uses for this feed.
    pub snowmix_id: int,
    /// Display name.
    pub label: Seq<char>,
    pub is_preview: bool,
    pub is_program: bool,
    pub is_dsk: bool,
}

/// One feed slot of the registry: a stable local id, the engine-side id,
/// a display name, and three independent bus-role flags.
pub struct Channel {
    pub id: usize,
    pub snowmix_id: u64,
    pub label: String,
    pub is_preview: bool,
    pub is_program: bool,
    pub is_dsk: bool,
}

impl View for Channel {
    type V = ChannelView;

    open spec fn view(&self) -> ChannelView {
        ChannelView {
            id: self.id as int,
            snowmix_id: self.snowmix_id as int,
            label: self.label@,
            is_preview: self.is_preview,
            is_program: self.is_program,
            is_dsk: self.is_dsk,
        }
    }
}

impl Clone for Channel {
    fn clone(&self) -> (r: Self)
        ensures
            r@ == self@,
    {
        Channel {
            id: self.id,
            snowmix_id: self.snowmix_id,
            label: self.label.clone(),
            is_preview: self.is_preview,
            is_program: self.is_program,
            is_dsk: self.is_dsk,
        }
    }
}

/// Mathematical image of the output geometry.
pub ghost struct VideoConfigView {
    pub width: int,
    pub height: int,
    pub framerate: Seq<char>,
}

/// Output geometry and frame rate (the rate as a rational string such as
/// "30/1"), supplied at controller construction and shared read-only with
/// the monitor sessions the controller creates.
pub struct VideoConfig {
    pub width: u32,
    pub height: u32,
    pub framerate: String,
}

impl View for VideoConfig {
    type V = VideoConfigView;

    open spec fn view(&self) -> VideoConfigView {
        VideoConfigView { width: self.width as int, height: self.height as int, framerate: self.framerate@ }
    }
}

impl Clone for VideoConfig {
    fn clone(&self) -> (r: Self)
        ensures
            r@ == self@,
    {
        VideoConfig { width: self.width, height: self.height, framerate: self.framerate.clone() }
    }
}

} // verus!
