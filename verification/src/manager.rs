//! The bus-switching state machine and crossfade transition controller.
//!
//! A `Manager` owns the fixed channel registry and decides which feed is
//! on air (program), which is staged (preview) and which are keyed
//! overlays (DSK). Every bus-affecting operation returns the protocol
//! command lines it emits, in order; the caller forwards them to the
//! mixing engine over its connection.

use vstd::prelude::*;
use crate::channel::Channel;
use crate::channel::ChannelView;
use crate::channel::VideoConfig;
use crate::channel::VideoConfigView;
use crate::commands::build_move_cmd;
use crate::commands::build_overlay_cmd;
use crate::commands::build_route_cmd;
use crate::commands::cmd_move;
use crate::numeral::dec_of;
use crate::numeral::lemma_dec_of_nonempty;
use crate::numeral::u64_to_string;

verus! {

/// No two distinct channels hold the program role.
pub open spec fn at_most_one_program(s: Seq<ChannelView>) -> bool {
    forall|i: int, j: int|
        0 <= i < s.len() && 0 <= j < s.len() && s[i].is_program && s[j].is_program ==> i == j
}

/// No two distinct channels hold the preview role.
pub open spec fn at_most_one_preview(s: Seq<ChannelView>) -> bool {
    forall|i: int, j: int|
        0 <= i < s.len() && 0 <= j < s.len() && s[i].is_preview && s[j].is_preview ==> i == j
}

/// Registry order is id order, and the engine-side id is the local id
/// plus one.
pub open spec fn well_indexed(s: Seq<ChannelView>) -> bool {
    forall|i: int| 0 <= i < s.len() ==> s[i].id == i && s[i].snowmix_id == i + 1
}

/// Some channel holds the program role.
pub open spec fn has_program(s: Seq<ChannelView>) -> bool {
    exists|i: int| 0 <= i < s.len() && s[i].is_program
}

/// Some channel holds the preview role.
pub open spec fn has_preview(s: Seq<ChannelView>) -> bool {
    exists|i: int| 0 <= i < s.len() && s[i].is_preview
}

/// The index of the program channel (meaningful under `has_program`).
pub open spec fn program_idx(s: Seq<ChannelView>) -> int {
    choose|i: int| 0 <= i < s.len() && s[i].is_program
}

/// The index of the preview channel (meaningful under `has_preview`).
pub open spec fn preview_idx(s: Seq<ChannelView>) -> int {
    choose|i: int| 0 <= i < s.len() && s[i].is_preview
}

/// The registry after the program role moves to `id`: exactly the channel
/// at `id` holds the role, every other flag is untouched. Out of range,
/// the registry is unchanged.
pub open spec fn with_program(s: Seq<ChannelView>, id: int) -> Seq<ChannelView> {
    if 0 <= id < s.len() {
        Seq::new(s.len(), |j: int| ChannelView { is_program: j == id, ..s[j] })
    } else {
        s
    }
}

/// The registry after the preview role moves to `id`.
pub open spec fn with_preview(s: Seq<ChannelView>, id: int) -> Seq<ChannelView> {
    if 0 <= id < s.len() {
        Seq::new(s.len(), |j: int| ChannelView { is_preview: j == id, ..s[j] })
    } else {
        s
    }
}

/// The registry after the DSK flag of the channel at `id` is set to
/// `value`; out of range, unchanged.
pub open spec fn with_dsk(s: Seq<ChannelView>, id: int, value: bool) -> Seq<ChannelView> {
    if 0 <= id < s.len() {
        s.update(id, ChannelView { is_dsk: value, ..s[id] })
    } else {
        s
    }
}

/// The engine ids of the DSK channels, in registry order, space-joined;
/// empty when no channel is keyed.
pub open spec fn dsk_join(s: Seq<ChannelView>) -> Seq<char>
    decreases s.len(),
{
    if s.len() == 0 {
        Seq::empty()
    } else {
        let rest = dsk_join(s.drop_last());
        let c = s.last();
        if c.is_dsk {
            if rest.len() == 0 {
                dec_of(c.snowmix_id as nat)
            } else {
                rest + seq![' '] + dec_of(c.snowmix_id as nat)
            }
        } else {
            rest
        }
    }
}

/// One bus-update protocol round for the registry `s`: route the preview
/// feed onto slot 0, the program feed onto slot 1, then recompute the
/// overlay. Empty when either role is unset, so a partial configuration
/// stays silent.
pub open spec fn bus_round(s: Seq<ChannelView>) -> Seq<Seq<char>> {
    if has_program(s) && has_preview(s) {
        let p_sid = s[program_idx(s)].snowmix_id as nat;
        let v_sid = s[preview_idx(s)].snowmix_id as nat;
        seq![
            crate::commands::cmd_route(v_sid, 0),
            crate::commands::cmd_route(p_sid, 1),
            crate::commands::cmd_overlay(p_sid, v_sid, dsk_join(s)),
        ]
    } else {
        Seq::<Seq<char>>::empty()
    }
}

/// The commands a program change to `id` emits: a bus round over the new
/// registry when `id` is in range, nothing otherwise.
pub open spec fn program_change_cmds(s: Seq<ChannelView>, id: int) -> Seq<Seq<char>> {
    if 0 <= id < s.len() {
        bus_round(with_program(s, id))
    } else {
        Seq::<Seq<char>>::empty()
    }
}

/// The commands a preview change to `id` emits.
pub open spec fn preview_change_cmds(s: Seq<ChannelView>, id: int) -> Seq<Seq<char>> {
    if 0 <= id < s.len() {
        bus_round(with_preview(s, id))
    } else {
        Seq::<Seq<char>>::empty()
    }
}

/// The crossfade length in frames for a duration in milliseconds at
/// `fps` frames per second: the ceiling of duration times rate, floored
/// to one whole step so a zero duration still moves.
pub open spec fn frames_of(duration_ms: nat, fps: nat) -> nat {
    let exact = duration_ms * fps;
    let up = if exact % 1000 == 0 {
        exact / 1000
    } else {
        exact / 1000 + 1
    };
    if up < 1 {
        1
    } else {
        up
    }
}

/// A channel holding the program role pins `program_idx`.
pub proof fn lemma_program_idx_is(s: Seq<ChannelView>, i: int)
    requires
        at_most_one_program(s),
        0 <= i < s.len(),
        s[i].is_program,
    ensures
        has_program(s),
        program_idx(s) == i,
{
    assert(has_program(s));
    let j = program_idx(s);
    assert(0 <= j < s.len() && s[j].is_program);
}

/// A channel holding the preview role pins `preview_idx`.
pub proof fn lemma_preview_idx_is(s: Seq<ChannelView>, i: int)
    requires
        at_most_one_preview(s),
        0 <= i < s.len(),
        s[i].is_preview,
    ensures
        has_preview(s),
        preview_idx(s) == i,
{
    assert(has_preview(s));
    let j = preview_idx(s);
    assert(0 <= j < s.len() && s[j].is_preview);
}

/// When no channel is keyed, the DSK list is empty.
pub proof fn lemma_dsk_join_empty(s: Seq<ChannelView>)
    requires
        forall|i: int| 0 <= i < s.len() ==> !s[i].is_dsk,
    ensures
        dsk_join(s).len() == 0,
    decreases s.len(),
{
    if s.len() > 0 {
        lemma_dsk_join_empty(s.drop_last());
    }
}

/// Mathematical image of the whole controller.
pub ghost struct ManagerView {
    pub channels: Seq<ChannelView>,
    pub monitors: Seq<Seq<char>>,
    pub framerate: int,
    pub video_config: VideoConfigView,
}

/// The bus controller: registry, transition frame rate, output geometry,
/// and the socket paths of the monitor sessions it has asked for.
pub struct Manager {
    channels: Vec<Channel>,
    monitors: Vec<String>,
    framerate: u64,
    video_config: VideoConfig,
}

impl View for Manager {
    type V = ManagerView;

    closed spec fn view(&self) -> ManagerView {
        ManagerView {
            channels: self.channels@.map_values(|c: Channel| c@),
            monitors: self.monitors@.map_values(|m: String| m@),
            framerate: self.framerate as int,
            video_config: self.video_config@,
        }
    }
}

impl Manager {
    /// Controller invariant: the registry is indexed in order and at most
    /// one channel holds each exclusive role.
    pub open spec fn wf(&self) -> bool {
        &&& well_indexed(self@.channels)
        &&& at_most_one_program(self@.channels)
        &&& at_most_one_preview(self@.channels)
    }

    /// Builds a controller over `channel_count` fresh channels, none of
    /// them holding any role, labelled by their engine id. The connection
    /// to the engine belongs to the caller; the controller only computes
    /// what to send over it.
    pub fn new(config: &VideoConfig, channel_count: usize, framerate: u64) -> (m: Manager)
        ensures
            m.wf(),
            m@.channels.len() == channel_count,
            forall|j: int|
                0 <= j < channel_count ==> m@.channels[j] == (ChannelView {
                    id: j,
                    snowmix_id: j + 1,
                    label: dec_of((j + 1) as nat),
                    is_preview: false,
                    is_program: false,
                    is_dsk: false,
                }),
            m@.monitors.len() == 0,
            m@.framerate == framerate,
            m@.video_config == config@,
    {
        let mut channels: Vec<Channel> = Vec::new();
        let mut i: usize = 0;
        while i < channel_count
            invariant
                i <= channel_count,
                channels@.len() == i,
                forall|j: int|
                    0 <= j < i ==> channels@[j]@ == (ChannelView {
                        id: j,
                        snowmix_id: j + 1,
                        label: dec_of((j + 1) as nat),
                        is_preview: false,
                        is_program: false,
                        is_dsk: false,
                    }),
            decreases channel_count - i,
        {
            let sid = (i as u64) + 1;
            channels.push(Channel {
                id: i,
                snowmix_id: sid,
                label: u64_to_string(sid),
                is_preview: false,
                is_program: false,
                is_dsk: false,
            });
            i = i + 1;
        }
        Manager {
            channels,
            monitors: Vec::new(),
            framerate,
            video_config: config.clone(),
        }
    }

    /// A copy of the registry, for display surfaces that render channel
    /// state without touching the controller.
    pub fn get_channels_copy(&self) -> (r: Vec<Channel>)
        ensures
            r@.map_values(|c: Channel| c@) == self@.channels,
    {
        let mut r: Vec<Channel> = Vec::new();
        let mut i: usize = 0;
        while i < self.channels.len()
            invariant
                i <= self.channels.len(),
                r@.len() == i,
                forall|j: int|
                    0 <= j < i ==> r@.map_values(|c: Channel| c@)[j] == self@.channels[j],
            decreases self.channels.len() - i,
        {
            r.push(self.channels[i].clone());
            i = i + 1;
        }
        proof {
            assert(r@.map_values(|c: Channel| c@) =~= self@.channels);
        }
        r
    }

    /// The index of the channel on program, if any.
    pub fn get_program(&self) -> (r: Option<usize>)
        ensures
            match r {
                Some(i) => 0 <= i < self@.channels.len() && self@.channels[i as int].is_program,
                None => !has_program(self@.channels),
            },
    {
        let mut i: usize = 0;
        while i < self.channels.len()
            invariant
                i <= self.channels.len(),
                forall|j: int| 0 <= j < i ==> !self@.channels[j].is_program,
            decreases self.channels.len() - i,
        {
            if self.channels[i].is_program {
                return Some(i);
            }
            i = i + 1;
        }
        None
    }

    /// The index of the channel on preview, if any.
    pub fn get_preview(&self) -> (r: Option<usize>)
        ensures
            match r {
                Some(i) => 0 <= i < self@.channels.len() && self@.channels[i as int].is_preview,
                None => !has_preview(self@.channels),
            },
    {
        let mut i: usize = 0;
        while i < self.channels.len()
            invariant
                i <= self.channels.len(),
                forall|j: int| 0 <= j < i ==> !self@.channels[j].is_preview,
            decreases self.channels.len() - i,
        {
            if self.channels[i].is_preview {
                return Some(i);
            }
            i = i + 1;
        }
        None
    }

    /// The space-joined engine ids of the keyed channels, in registry
    /// order; empty when none is keyed.
    pub fn build_dsks_feeds_list(&self) -> (r: String)
        ensures
            r@ == dsk_join(self@.channels),
    {
        let ghost cs = self@.channels;
        let mut acc = String::new();
        let mut any = false;
        let mut i: usize = 0;
        while i < self.channels.len()
            invariant
                i <= self.channels.len(),
                cs == self@.channels,
                acc@ == dsk_join(cs.take(i as int)),
                any == (acc@.len() > 0),
            decreases self.channels.len() - i,
        {
            if self.channels[i].is_dsk {
                if any {
                    acc.append(" ");
                }
                let num = u64_to_string(self.channels[i].snowmix_id);
                acc.append(num.as_str());
                any = true;
                proof {
                    lemma_dec_of_nonempty(self@.channels[i as int].snowmix_id as nat);
                }
            }
            proof {
                reveal_strlit(" ");
                assert(cs.take(i + 1).drop_last() =~= cs.take(i as int));
                assert(cs.take(i + 1).last() == cs[i as int]);
                assert(acc@ =~= dsk_join(cs.take(i + 1)));
            }
            i = i + 1;
        }
        proof {
            assert(cs.take(cs.len() as int) =~= cs);
        }
        acc
    }

    /// One bus-update protocol round for the current registry: nothing
    /// when program or preview is unset, else the two routing commands
    /// followed by the overlay recompute, which must come last because it
    /// depends on the routing.
    pub fn update_main_bus(&self) -> (cmds: Vec<String>)
        requires
            self.wf(),
        ensures
            cmds.deep_view() == bus_round(self@.channels),
    {
        let program_id = match self.get_program() {
            Some(i) => i,
            None => {
                let r: Vec<String> = Vec::new();
                proof {
                    assert(r.deep_view() =~= bus_round(self@.channels));
                }
                return r;
            },
        };
        let preview_id = match self.get_preview() {
            Some(i) => i,
            None => {
                let r: Vec<String> = Vec::new();
                proof {
                    assert(r.deep_view() =~= bus_round(self@.channels));
                }
                return r;
            },
        };
        let program_sid = self.channels[program_id].snowmix_id;
        let preview_sid = self.channels[preview_id].snowmix_id;
        let dsk_feeds_list = self.build_dsks_feeds_list();
        let mut cmds: Vec<String> = Vec::new();
        cmds.push(build_route_cmd(preview_sid, 0));
        cmds.push(build_route_cmd(program_sid, 1));
        cmds.push(build_overlay_cmd(program_sid, preview_sid, &dsk_feeds_list));
        proof {
            lemma_program_idx_is(self@.channels, program_id as int);
            lemma_preview_idx_is(self@.channels, preview_id as int);
            assert(cmds.deep_view() =~= bus_round(self@.channels));
        }
        cmds
    }

    /// Moves the program role without emitting anything; `take` relies on
    /// this to keep a swap down to a single protocol round.
    fn set_program_without_update(&mut self, channel_id: usize)
        requires
            old(self).wf(),
        ensures
            final(self).wf(),
            final(self)@ == (ManagerView {
                channels: with_program(old(self)@.channels, channel_id as int),
                ..old(self)@
            }),
    {
        if channel_id >= self.channels.len() {
            proof {
                assert(self@ =~= (ManagerView {
                    channels: with_program(old(self)@.channels, channel_id as int),
                    ..old(self)@
                }));
            }
            return;
        }
        match self.get_program() {
            Some(i) => {
                self.channels[i].is_program = false;
            },
            None => {},
        }
        self.channels[channel_id].is_program = true;
        proof {
            assert(self@.channels =~= with_program(old(self)@.channels, channel_id as int));
            assert(self@ =~= (ManagerView {
                channels: with_program(old(self)@.channels, channel_id as int),
                ..old(self)@
            }));
        }
    }

    /// Puts the channel at `channel_id` on program and emits one bus
    /// round. Out of range, a silent no-op: the registry is unchanged and
    /// nothing is sent.
    pub fn set_program(&mut self, channel_id: usize) -> (cmds: Vec<String>)
        requires
            old(self).wf(),
        ensures
            final(self).wf(),
            final(self)@ == (ManagerView {
                channels: with_program(old(self)@.channels, channel_id as int),
                ..old(self)@
            }),
            cmds.deep_view() == program_change_cmds(old(self)@.channels, channel_id as int),
    {
        if channel_id >= self.channels.len() {
            let r: Vec<String> = Vec::new();
            proof {
                assert(self@ =~= (ManagerView {
                    channels: with_program(old(self)@.channels, channel_id as int),
                    ..old(self)@
                }));
                assert(r.deep_view() =~= program_change_cmds(old(self)@.channels, channel_id as int));
            }
            return r;
        }
        self.set_program_without_update(channel_id);
        self.update_main_bus()
    }

    /// Puts the channel at `channel_id` on preview and emits one bus
    /// round. Out of range, a silent no-op.
    pub fn set_preview(&mut self, channel_id: usize) -> (cmds: Vec<String>)
        requires
            old(self).wf(),
        ensures
            final(self).wf(),
            final(self)@ == (ManagerView {
                channels: with_preview(old(self)@.channels, channel_id as int),
                ..old(self)@
            }),
            cmds.deep_view() == preview_change_cmds(old(self)@.channels, channel_id as int),
    {
        if channel_id >= self.channels.len() {
            let r: Vec<String> = Vec::new();
            proof {
                assert(self@ =~= (ManagerView {
                    channels: with_preview(old(self)@.channels, channel_id as int),
                    ..old(self)@
                }));
                assert(r.deep_view() =~= preview_change_cmds(old(self)@.channels, channel_id as int));
            }
            return r;
        }
        match self.get_preview() {
            Some(i) => {
                self.channels[i].is_preview = false;
            },
            None => {},
        }
        self.channels[channel_id].is_preview = true;
        proof {
            assert(self@.channels =~= with_preview(old(self)@.channels, channel_id as int));
            assert(self@ =~= (ManagerView {
                channels: with_preview(old(self)@.channels, channel_id as int),
                ..old(self)@
            }));
        }
        self.update_main_bus()
    }

    /// Swaps program and preview: the staged feed goes on air, the live
    /// one is staged. A silent no-op when either role is unset. The
    /// program flag moves without an emission of its own, so exactly one
    /// bus round goes out — emitting twice would show the engine a
    /// transient, visually wrong intermediate state.
    pub fn take(&mut self) -> (cmds: Vec<String>)
        requires
            old(self).wf(),
        ensures
            final(self).wf(),
            !(has_program(old(self)@.channels) && has_preview(old(self)@.channels)) ==> {
                &&& final(self)@ == old(self)@
                &&& cmds@.len() == 0
            },
            has_program(old(self)@.channels) && has_preview(old(self)@.channels) ==> {
                let p = program_idx(old(self)@.channels);
                let v = preview_idx(old(self)@.channels);
                &&& final(self)@ == (ManagerView {
                    channels: with_preview(with_program(old(self)@.channels, v), p),
                    ..old(self)@
                })
                &&& has_program(final(self)@.channels) && program_idx(final(self)@.channels) == v
                &&& has_preview(final(self)@.channels) && preview_idx(final(self)@.channels) == p
                &&& cmds.deep_view() == bus_round(final(self)@.channels)
                &&& cmds@.len() == 3
            },
    {
        let current_program_id = match self.get_program() {
            Some(i) => i,
            None => {
                let r: Vec<String> = Vec::new();
                return r;
            },
        };
        let current_preview_id = match self.get_preview() {
            Some(i) => i,
            None => {
                let r: Vec<String> = Vec::new();
                return r;
            },
        };
        proof {
            lemma_program_idx_is(self@.channels, current_program_id as int);
            lemma_preview_idx_is(self@.channels, current_preview_id as int);
        }
        self.set_program_without_update(current_preview_id);
        let cmds = self.set_preview(current_program_id);
        proof {
            let p = program_idx(old(self)@.channels);
            let v = preview_idx(old(self)@.channels);
            assert(self@.channels[v].is_program);
            assert(self@.channels[p].is_preview);
            lemma_program_idx_is(self@.channels, v);
            lemma_preview_idx_is(self@.channels, p);
            assert(bus_round(self@.channels).len() == 3);
            assert(cmds.deep_view().len() == cmds@.len());
        }
        cmds
    }

    /// Performs the initial bus assignment of a session: channel 0 on
    /// program, channel 1 on preview. The caller is expected to have
    /// logged the engine's status line first; the returned commands are
    /// those of the two assignments.
    pub fn start(&mut self) -> (cmds: Vec<String>)
        requires
            old(self).wf(),
        ensures
            final(self).wf(),
            final(self)@ == (ManagerView {
                channels: with_preview(with_program(old(self)@.channels, 0), 1),
                ..old(self)@
            }),
            cmds.deep_view() == program_change_cmds(old(self)@.channels, 0) + preview_change_cmds(
                with_program(old(self)@.channels, 0),
                1,
            ),
    {
        let mut cmds = self.set_program(0);
        let mut more = self.set_preview(1);
        cmds.append(&mut more);
        proof {
            assert(cmds.deep_view() =~= program_change_cmds(old(self)@.channels, 0)
                + preview_change_cmds(with_program(old(self)@.channels, 0), 1));
        }
        cmds
    }

    /// Runs a timed crossfade from program to preview, ending in a take.
    /// A silent no-op when either role is unset: no command goes out, no
    /// wait is asked for, the registry is untouched — an incomplete bus
    /// state never causes a partial protocol emission. Otherwise the
    /// returned plan holds the single move command to send first, the
    /// wall-clock wait in milliseconds that lets the engine step through
    /// the fade, and the commands of the closing take. The frame count is
    /// the ceiling of duration times frame rate, floored to one step so a
    /// zero duration cannot divide by zero and still completes the take.
    pub fn transition(&mut self, duration_ms: u64) -> (plan: TransitionPlan)
        requires
            old(self).wf(),
            duration_ms * old(self)@.framerate <= u64::MAX,
        ensures
            final(self).wf(),
            !(has_program(old(self)@.channels) && has_preview(old(self)@.channels)) ==> {
                &&& final(self)@ == old(self)@
                &&& plan.fade_commands@.len() == 0
                &&& plan.wait_ms == 0
                &&& plan.take_commands@.len() == 0
            },
            has_program(old(self)@.channels) && has_preview(old(self)@.channels) ==> {
                let p = program_idx(old(self)@.channels);
                let v = preview_idx(old(self)@.channels);
                let fr = frames_of(duration_ms as nat, old(self)@.framerate as nat);
                &&& 1 <= fr
                &&& plan.fade_commands.deep_view() == seq![
                    cmd_move(old(self)@.channels[v].snowmix_id as nat, fr),
                ]
                &&& plan.wait_ms == duration_ms
                &&& final(self)@ == (ManagerView {
                    channels: with_preview(with_program(old(self)@.channels, v), p),
                    ..old(self)@
                })
                &&& plan.take_commands.deep_view() == bus_round(final(self)@.channels)
                &&& plan.take_commands@.len() == 3
            },
    {
        let program_id = match self.get_program() {
            Some(i) => i,
            None => {
                return TransitionPlan {
                    fade_commands: Vec::new(),
                    wait_ms: 0,
                    take_commands: Vec::new(),
                };
            },
        };
        let preview_id = match self.get_preview() {
            Some(i) => i,
            None => {
                return TransitionPlan {
                    fade_commands: Vec::new(),
                    wait_ms: 0,
                    take_commands: Vec::new(),
                };
            },
        };
        proof {
            lemma_program_idx_is(self@.channels, program_id as int);
            lemma_preview_idx_is(self@.channels, preview_id as int);
        }
        let exact = duration_ms * self.framerate;
        let mut frames = exact / 1000;
        if exact % 1000 != 0 {
            frames = frames + 1;
        }
        if frames == 0 {
            frames = 1;
        }
        let snowmix_id = self.channels[preview_id].snowmix_id;
        let mut fade_commands: Vec<String> = Vec::new();
        fade_commands.push(build_move_cmd(snowmix_id, frames));
        proof {
            assert(fade_commands.deep_view() =~= seq![
                cmd_move(
                    old(self)@.channels[preview_idx(old(self)@.channels)].snowmix_id as nat,
                    frames_of(duration_ms as nat, old(self)@.framerate as nat),
                ),
            ]);
        }
        let take_commands = self.take();
        TransitionPlan { fade_commands, wait_ms: duration_ms, take_commands }
    }

    /// Sets or clears the DSK flag of the channel at `channel_id`; the
    /// flag is independent of the program and preview roles. Out of
    /// range, a silent no-op.
    pub fn set_dsk(&mut self, channel_id: usize, value: bool)
        requires
            old(self).wf(),
        ensures
            final(self).wf(),
            final(self)@ == (ManagerView {
                channels: with_dsk(old(self)@.channels, channel_id as int, value),
                ..old(self)@
            }),
    {
        if channel_id >= self.channels.len() {
            proof {
                assert(self@ =~= (ManagerView {
                    channels: with_dsk(old(self)@.channels, channel_id as int, value),
                    ..old(self)@
                }));
            }
            return;
        }
        self.channels[channel_id].is_dsk = value;
        proof {
            assert(self@.channels =~= with_dsk(old(self)@.channels, channel_id as int, value));
            assert(self@ =~= (ManagerView {
                channels: with_dsk(old(self)@.channels, channel_id as int, value),
                ..old(self)@
            }));
        }
    }

    /// Retains the socket path of one more monitor session. The caller
    /// builds and starts the real session for this path with the
    /// controller's video configuration; the controller only remembers
    /// it for shutdown. Deliberately no dedup: the same path twice means
    /// two independent sessions.
    pub fn create_monitor(&mut self, socket_path: String)
        ensures
            final(self)@ == (ManagerView {
                monitors: old(self)@.monitors.push(socket_path@),
                ..old(self)@
            }),
    {
        self.monitors.push(socket_path);
        proof {
            assert(self@.monitors =~= old(self)@.monitors.push(socket_path@));
            assert(self@ == (ManagerView {
                monitors: old(self)@.monitors.push(socket_path@),
                ..old(self)@
            }));
        }
    }

    /// Shuts the controller down: hands every retained monitor path back
    /// so the caller can stop its sessions, in creation order, and then
    /// close the engine connection. The retained collection is emptied.
    pub fn quit(&mut self) -> (stopped: Vec<String>)
        ensures
            final(self)@ == (ManagerView {
                monitors: Seq::<Seq<char>>::empty(),
                ..old(self)@
            }),
            stopped@.map_values(|m: String| m@) == old(self)@.monitors,
    {
        let mut stopped: Vec<String> = Vec::new();
        core::mem::swap(&mut stopped, &mut self.monitors);
        proof {
            assert(self@.monitors =~= Seq::<Seq<char>>::empty());
            assert(self@ == (ManagerView {
                monitors: Seq::<Seq<char>>::empty(),
                ..old(self)@
            }));
        }
        stopped
    }

    /// How many monitor sessions the controller has retained.
    pub fn monitor_count(&self) -> (n: usize)
        ensures
            n == self@.monitors.len(),
    {
        self.monitors.len()
    }

    /// How many channels the registry holds.
    pub fn channel_count(&self) -> (n: usize)
        ensures
            n == self@.channels.len(),
    {
        self.channels.len()
    }
}

/// What one crossfade asks of the caller: send the fade commands, wait
/// `wait_ms` of wall clock while the engine steps the fade, then send
/// the take commands.
pub struct TransitionPlan {
    pub fade_commands: Vec<String>,
    pub wait_ms: u64,
    pub take_commands: Vec<String>,
}

} // verus!
