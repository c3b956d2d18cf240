use playout_core::Channel;
use playout_core::Manager;
use playout_core::VideoConfig;

fn config() -> VideoConfig {
    VideoConfig { width: 1280, height: 720, framerate: String::from("30/1") }
}

fn fresh(channel_count: usize) -> Manager {
    Manager::new(&config(), channel_count, 30)
}

fn program_holders(channels: &[Channel]) -> Vec<usize> {
    channels.iter().filter(|c| c.is_program).map(|c| c.id).collect()
}

fn preview_holders(channels: &[Channel]) -> Vec<usize> {
    channels.iter().filter(|c| c.is_preview).map(|c| c.id).collect()
}

#[test]
fn new_registry_is_indexed_and_roleless() {
    let m = fresh(8);
    let channels = m.get_channels_copy();
    assert_eq!(channels.len(), 8);
    for (i, c) in channels.iter().enumerate() {
        assert_eq!(c.id, i);
        assert_eq!(c.snowmix_id as usize, i + 1);
        assert_eq!(c.label, format!("{}", i + 1));
        assert!(!c.is_program);
        assert!(!c.is_preview);
        assert!(!c.is_dsk);
    }
}

#[test]
fn set_program_out_of_range_is_silent_noop() {
    let mut m = fresh(8);
    m.start();
    let before = m.get_channels_copy();
    let cmds = m.set_program(8);
    assert!(cmds.is_empty());
    let after = m.get_channels_copy();
    for (b, a) in before.iter().zip(after.iter()) {
        assert_eq!(b.is_program, a.is_program);
        assert_eq!(b.is_preview, a.is_preview);
        assert_eq!(b.is_dsk, a.is_dsk);
    }
}

#[test]
fn set_preview_out_of_range_is_silent_noop() {
    let mut m = fresh(8);
    m.start();
    let before = m.get_channels_copy();
    let cmds = m.set_preview(100);
    assert!(cmds.is_empty());
    let after = m.get_channels_copy();
    for (b, a) in before.iter().zip(after.iter()) {
        assert_eq!(b.is_program, a.is_program);
        assert_eq!(b.is_preview, a.is_preview);
        assert_eq!(b.is_dsk, a.is_dsk);
    }
}

#[test]
fn roles_stay_exclusive_over_any_call_sequence() {
    let mut m = fresh(8);
    let calls: [(bool, usize); 10] =
        [(true, 3), (false, 5), (true, 3), (true, 0), (false, 0), (true, 7), (false, 7), (true, 2), (false, 1), (false, 6)];
    for (is_program, id) in calls {
        if is_program {
            m.set_program(id);
        } else {
            m.set_preview(id);
        }
        let channels = m.get_channels_copy();
        assert!(program_holders(&channels).len() <= 1);
        assert!(preview_holders(&channels).len() <= 1);
    }
}

#[test]
fn set_program_moves_the_role() {
    let mut m = fresh(8);
    m.set_program(3);
    assert_eq!(program_holders(&m.get_channels_copy()), vec![3]);
    m.set_program(6);
    assert_eq!(program_holders(&m.get_channels_copy()), vec![6]);
    assert_eq!(m.get_program(), Some(6));
    assert_eq!(m.get_preview(), None);
}

#[test]
fn set_preview_moves_the_role() {
    let mut m = fresh(8);
    m.set_preview(1);
    m.set_preview(4);
    assert_eq!(preview_holders(&m.get_channels_copy()), vec![4]);
    assert_eq!(m.get_preview(), Some(4));
    assert_eq!(m.get_program(), None);
}

#[test]
fn dsk_is_independent_of_program_and_preview() {
    let mut m = fresh(8);
    m.start();
    m.set_dsk(0, true);
    let channels = m.get_channels_copy();
    assert!(channels[0].is_program);
    assert!(channels[0].is_dsk);
    assert!(channels[1].is_preview);
    assert_eq!(program_holders(&channels), vec![0]);
}

#[test]
fn set_dsk_out_of_range_is_silent_noop() {
    let mut m = fresh(4);
    m.set_dsk(4, true);
    assert!(m.get_channels_copy().iter().all(|c| !c.is_dsk));
}

#[test]
fn channel_count_is_configurable() {
    let m = fresh(3);
    assert_eq!(m.channel_count(), 3);
    assert_eq!(m.get_channels_copy().len(), 3);
}
