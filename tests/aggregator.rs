use nest_display::display::{AggregatorState, DisplayAggregator};
use nest_display::{DisplayUpdate, TwoStringPrint};

#[derive(Default)]
struct Screen {
    shown: Vec<(String, String)>,
}

impl TwoStringPrint for Screen {
    fn print_two(&mut self, s1: &str, s2: &str) {
        self.shown.push((s1.to_string(), s2.to_string()));
    }
}

fn first(s: &str) -> DisplayUpdate {
    DisplayUpdate::First(s.to_string())
}

fn second(s: &str) -> DisplayUpdate {
    DisplayUpdate::Second(s.to_string())
}

#[test]
fn latest_update_of_each_kind_wins() {
    let mut agg = DisplayAggregator::new(Screen::default());
    let stopped = agg.tick(vec![first("a"), second("x"), first("b"), second("y"), first("c")]);
    assert!(!stopped);
    assert_eq!(agg.line1(), "c");
    assert_eq!(agg.line2(), "y");
    let screen = agg.into_display();
    assert_eq!(screen.shown, vec![("c".to_string(), "y".to_string())]);
}

#[test]
fn lines_persist_across_ticks() {
    let mut agg = DisplayAggregator::new(Screen::default());
    agg.tick(vec![first("a"), second("x")]);
    agg.tick(vec![]);
    agg.tick(vec![second("z")]);
    assert_eq!(agg.line1(), "a");
    assert_eq!(agg.line2(), "z");
    let screen = agg.into_display();
    assert_eq!(
        screen.shown,
        vec![("a".to_string(), "x".to_string()), ("a".to_string(), "z".to_string())]
    );
}

#[test]
fn shutdown_renders_once_more_and_stops() {
    let mut agg = DisplayAggregator::new(Screen::default());
    agg.tick(vec![first("t"), second("n")]);
    agg.request_shutdown();
    agg.request_shutdown();
    assert!(!agg.is_stopped());
    let stopped = agg.tick(vec![]);
    assert!(stopped);
    assert!(agg.is_stopped());
    let screen = agg.into_display();
    assert_eq!(
        screen.shown,
        vec![("t".to_string(), "n".to_string()), ("t".to_string(), "n".to_string())]
    );
}

#[test]
fn shutdown_drains_pending_updates_first() {
    let mut agg = DisplayAggregator::new(Screen::default());
    agg.request_shutdown();
    assert!(agg.tick(vec![first("last")]));
    let screen = agg.into_display();
    assert_eq!(screen.shown, vec![("last".to_string(), String::new())]);
}

#[test]
fn new_aggregator_is_running_and_blank() {
    let agg = DisplayAggregator::new(Screen::default());
    assert_eq!(agg.line1(), "");
    assert_eq!(agg.line2(), "");
    assert!(!agg.is_stopped());
    let _ = AggregatorState::Running;
}
