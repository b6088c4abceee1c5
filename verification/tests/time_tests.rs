use rusty_browser::history::{HistoryConfig, HistoryEntry, HistoryManager};
use rusty_browser::render::GpuFrame;

const DAY: i128 = 86_400_000_000_000;

fn history() -> HistoryManager {
    let mut config = HistoryConfig::with_db_path("times.redb".to_string());
    config.max_entries = 100;
    HistoryManager::new(config)
}

#[test]
fn visits_before_the_epoch_keep_their_time() {
    let mut m = history();
    let e = m.add_visit_at(HistoryEntry::new_at(1, "https://old.example", "Old", -5 * DAY), -5 * DAY).unwrap();
    assert_eq!(e.visit_time, -5 * DAY);
    assert_eq!(m.get_entry_by_url("https://old.example").unwrap().visit_time, -5 * DAY);
    // the visit index keys a time before the epoch at 0
    let visits = m.get_all_visits();
    assert_eq!(visits.len(), 1);
    assert_eq!(visits[0].timestamp, 0);
    // the bookmark file dates it at 0
    assert!(m.export_to_html().contains("ADD_DATE=\"0\""));
}

#[test]
fn range_query_uses_index_keys() {
    let mut m = history();
    m.add_visit_at(HistoryEntry::new_at(1, "https://old.example", "Old", -5 * DAY), -5 * DAY).unwrap();
    m.add_visit_at(HistoryEntry::new_at(2, "https://new.example", "New", 3 * DAY), 3 * DAY).unwrap();
    let hits = m.get_by_time_range(-10 * DAY, -DAY).unwrap();
    assert_eq!(hits.len(), 1);
    assert_eq!(hits[0].url, "https://old.example");
    assert!(m.get_by_time_range(DAY, -DAY).is_err());
}

#[test]
fn clearing_compares_real_times_before_the_epoch() {
    let mut m = history();
    m.add_visit_at(HistoryEntry::new_at(1, "https://a.example", "A", -5 * DAY), -5 * DAY).unwrap();
    m.add_visit_at(HistoryEntry::new_at(2, "https://b.example", "B", -DAY), -DAY).unwrap();
    // at the epoch, entries older than two days go: only the one from five days before
    assert_eq!(m.clear_older_than_at(2 * 86_400, 0), 1);
    assert!(m.get_entry_by_url("https://a.example").is_none());
    assert!(m.get_entry_by_url("https://b.example").is_some());
}

#[test]
fn render_time_across_the_epoch() {
    let mut f = GpuFrame::new(0);
    f.mark_rendering_at(-1_500);
    f.mark_ready_at(2_500);
    assert_eq!(f.render_time(), Some(4_000));
    let mut g = GpuFrame::new(1);
    g.mark_rendering_at(i128::MIN);
    g.mark_ready_at(i128::MAX);
    assert_eq!(g.render_time(), Some(u128::MAX));
    let mut h = GpuFrame::new(2);
    h.mark_rendering_at(10);
    h.mark_ready_at(5);
    assert_eq!(h.render_time(), Some(0));
}
