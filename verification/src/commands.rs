//! The wire form of the commands sent to the external mixing engine.
//!
//! Each command is one line of text. The spec functions here pin the
//! exact character sequence of every command the controller can emit;
//! the builders construct those lines and are proved to match.

use vstd::prelude::*;
use crate::numeral::dec_of;
use crate::numeral::delta_str;
use crate::numeral::u64_to_string;
use crate::numeral::delta_string;

verus! {

/// `vfeed alpha <engine id> <slot>`: route the feed onto a compositing
/// slot (0 = preview layer, 1 = program layer).
pub open spec fn cmd_route(snowmix_id: nat, slot: nat) -> Seq<char> {
    "vfeed alpha "@ + dec_of(snowmix_id) + " "@ + dec_of(slot)
}

/// `tcl eval SetFeedToOverlay <program> <preview> <dsk list>`: recompute
/// the overlay composition. The DSK list may be empty, in which case the
/// command ends in a space, exactly as emitted on the wire.
pub open spec fn cmd_overlay(program_sid: nat, preview_sid: nat, dsk_list: Seq<char>) -> Seq<char> {
    "tcl eval SetFeedToOverlay "@ + dec_of(program_sid) + " "@ + dec_of(preview_sid) + " "@ + dsk_list
}

/// `vfeed move alpha <engine id> <delta> <frames>`: animate the feed's
/// alpha in `frames` steps of size `delta` (the crossfade increment,
/// rendered as a decimal fraction of 1/frames).
pub open spec fn cmd_move(snowmix_id: nat, frames: nat) -> Seq<char> {
    "vfeed move alpha "@ + dec_of(snowmix_id) + " "@ + delta_str(frames) + " "@ + dec_of(frames)
}

/// Builds one routing command line.
pub fn build_route_cmd(snowmix_id: u64, slot: u64) -> (s: String)
    ensures
        s@ == cmd_route(snowmix_id as nat, slot as nat),
{
    let mut s = String::from_str("vfeed alpha ");
    s.append(u64_to_string(snowmix_id).as_str());
    s.append(" ");
    s.append(u64_to_string(slot).as_str());
    proof {
        assert(s@ =~= cmd_route(snowmix_id as nat, slot as nat));
    }
    s
}

/// Builds one overlay-recompute command line.
pub fn build_overlay_cmd(program_sid: u64, preview_sid: u64, dsk_list: &String) -> (s: String)
    ensures
        s@ == cmd_overlay(program_sid as nat, preview_sid as nat, dsk_list@),
{
    let mut s = String::from_str("tcl eval SetFeedToOverlay ");
    s.append(u64_to_string(program_sid).as_str());
    s.append(" ");
    s.append(u64_to_string(preview_sid).as_str());
    s.append(" ");
    s.append(dsk_list.as_str());
    proof {
        assert(s@ =~= cmd_overlay(program_sid as nat, preview_sid as nat, dsk_list@));
    }
    s
}

/// Builds one crossfade command line.
pub fn build_move_cmd(snowmix_id: u64, frames: u64) -> (s: String)
    requires
        1 <= frames,
    ensures
        s@ == cmd_move(snowmix_id as nat, frames as nat),
{
    let mut s = String::from_str("vfeed move alpha ");
    s.append(u64_to_string(snowmix_id).as_str());
    s.append(" ");
    s.append(delta_string(frames).as_str());
    s.append(" ");
    s.append(u64_to_string(frames).as_str());
    proof {
        assert(s@ =~= cmd_move(snowmix_id as nat, frames as nat));
    }
    s
}

} // verus!
