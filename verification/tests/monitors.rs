use playout_core::Manager;
use playout_core::MonitorArea;
use playout_core::MonitorAreaMsg;
use playout_core::VideoConfig;

fn config() -> VideoConfig {
    VideoConfig { width: 1280, height: 720, framerate: String::from("30/1") }
}

#[test]
fn create_monitor_accumulates_without_dedup() {
    let mut m = Manager::new(&config(), 8, 30);
    assert_eq!(m.monitor_count(), 0);
    m.create_monitor(String::from("/tmp/feed-a"));
    m.create_monitor(String::from("/tmp/feed-a"));
    m.create_monitor(String::from("/tmp/feed-b"));
    assert_eq!(m.monitor_count(), 3);
}

#[test]
fn quit_hands_back_every_monitor_in_creation_order() {
    let mut m = Manager::new(&config(), 8, 30);
    m.create_monitor(String::from("/tmp/feed-a"));
    m.create_monitor(String::from("/tmp/feed-b"));
    let stopped = m.quit();
    assert_eq!(stopped, vec![String::from("/tmp/feed-a"), String::from("/tmp/feed-b")]);
    assert_eq!(m.monitor_count(), 0);
}

#[test]
fn monitor_area_starts_blank() {
    let area = MonitorArea::new();
    assert_eq!(area.model.label, "");
    assert_eq!(area.model.feed_path, "");
}

#[test]
fn monitor_area_set_name_and_path() {
    let mut area = MonitorArea::new();
    area.set_name_and_path("Camera 1", "/tmp/feed-1");
    assert_eq!(area.model.label, "Camera 1");
    assert_eq!(area.model.feed_path, "/tmp/feed-1");
}

#[test]
fn monitor_area_assignment_event_repoints_the_tile() {
    let mut area = MonitorArea::new();
    let path = area.update(MonitorAreaMsg::SetLabelAndPath(
        String::from("Camera 2"),
        String::from("/tmp/feed-2"),
    ));
    assert_eq!(path, "/tmp/feed-2");
    assert_eq!(area.model.label, "Camera 2");
    assert_eq!(area.model.feed_path, "/tmp/feed-2");
}

#[test]
fn monitor_area_realize_event_reuses_the_stored_path() {
    let mut area = MonitorArea::new();
    area.set_name_and_path("Camera 3", "/tmp/feed-3");
    let path = area.update(MonitorAreaMsg::Realized);
    assert_eq!(path, "/tmp/feed-3");
    assert_eq!(area.model.label, "Camera 3");
    assert_eq!(area.model.feed_path, "/tmp/feed-3");
}

#[test]
fn video_config_is_shared_by_value() {
    let c = config();
    let d = c.clone();
    assert_eq!(d.width, 1280);
    assert_eq!(d.height, 720);
    assert_eq!(d.framerate, "30/1");
}
