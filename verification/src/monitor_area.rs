//! The operator-facing monitor tile: a label and the feed path it
//! previews. The widget toolkit, the drawing surface and the playback
//! pipeline live outside; this module keeps the tile's state and decides,
//! per event, for which path a monitor session must be (re)created.

use vstd::prelude::*;

verus! {

/// The events a monitor tile reacts to: its drawing surface became real,
/// or the operator assigned it a label and a feed path.
pub enum MonitorAreaMsg {
    Realized,
    SetLabelAndPath(String, String),
}

/// The state of one monitor tile.
pub struct MonitorAreaModel {
    pub label: String,
    pub feed_path: String,
}

/// One monitor tile. The drawing surface and the playback session that
/// renders into it belong to the caller; the tile holds the state they
/// are built from.
pub struct MonitorArea {
    pub model: MonitorAreaModel,
}

impl MonitorArea {
    /// The initial model of a tile: no label, no feed path.
    pub fn model() -> (m: MonitorAreaModel)
        ensures
            m.label@ == Seq::<char>::empty(),
            m.feed_path@ == Seq::<char>::empty(),
    {
        MonitorAreaModel { label: String::new(), feed_path: String::new() }
    }

    /// A fresh, blank tile.
    pub fn new() -> (area: MonitorArea)
        ensures
            area.model.label@ == Seq::<char>::empty(),
            area.model.feed_path@ == Seq::<char>::empty(),
    {
        MonitorArea { model: MonitorArea::model() }
    }

    /// Renames the tile and repoints it at a feed path, without asking
    /// for a new session.
    pub fn set_name_and_path(&mut self, label: &str, feed_path: &str)
        ensures
            final(self).model.label@ == label@,
            final(self).model.feed_path@ == feed_path@,
    {
        self.model.label = String::from_str(label);
        self.model.feed_path = String::from_str(feed_path);
    }

    /// Applies one event and returns the feed path for which the caller
    /// must create a monitor session: on realization the tile's current
    /// path, on an assignment the new one, which also replaces the
    /// stored label and path.
    pub fn update(&mut self, event: MonitorAreaMsg) -> (monitor_path: String)
        ensures
            event is Realized ==> final(self).model.label@ == old(self).model.label@
                && final(self).model.feed_path@ == old(self).model.feed_path@
                && monitor_path@ == old(self).model.feed_path@,
            event matches MonitorAreaMsg::SetLabelAndPath(l, p) ==> final(self).model.label@
                == l@ && final(self).model.feed_path@ == p@ && monitor_path@ == p@,
    {
        match event {
            MonitorAreaMsg::Realized => self.model.feed_path.clone(),
            MonitorAreaMsg::SetLabelAndPath(label, path) => {
                self.model.label = label;
                self.model.feed_path = path.clone();
                path
            },
        }
    }
}

} // verus!
