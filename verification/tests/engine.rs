use barr::aggregator::Aggregator;
use barr::{Action, Barr, Event, Handler, Task, Widget, WidgetOutput};
use std::time::Duration;

struct Counter {
    name: &'static str,
    every: Duration,
    polls: u32,
}

impl Counter {
    fn boxed(name: &'static str, every: Duration) -> Handler {
        Box::new(Counter { name, every, polls: 0 })
    }
}

impl Widget for Counter {
    fn get_output(&mut self) -> WidgetOutput {
        self.polls += 1;
        WidgetOutput {
            text: format!("{}{}", self.name, self.polls),
            use_default_background: false,
            use_default_foreground: false,
        }
    }

    fn interval(&self) -> Duration {
        self.every
    }
}

fn separator(slot: usize) -> String {
    if slot % 2 == 0 {
        "<span background='white' foreground='#0F1419'>\u{e0b0}</span>".to_string()
    } else {
        "<span background='#0F1419' foreground='white'>\u{e0b0}</span>".to_string()
    }
}

fn wait_of(action: Action) -> Duration {
    match action {
        Action::Wait(pause) => pause,
        Action::Forward(_, _) => panic!("a wait was expected"),
    }
}

#[test]
fn registry_starts_empty() {
    let barr = Barr::new();
    assert_eq!(barr.len(), 0);
    let (tasks, table) = barr.run();
    assert_eq!(tasks.len(), 0);
    assert_eq!(table.len(), 0);
}

#[test]
fn default_registry_is_empty() {
    assert_eq!(Barr::default().len(), 0);
}

#[test]
fn slots_follow_registration_order() {
    let mut barr = Barr::new();
    barr.add_widget(Counter::boxed("a", Duration::from_secs(1)));
    barr.add_widget(Counter::boxed("b", Duration::from_secs(2)));
    barr.add_widget(Counter::boxed("c", Duration::from_secs(3)));
    assert_eq!(barr.len(), 3);
    let (tasks, table) = barr.run();
    assert_eq!(table.len(), 3);
    assert_eq!(table.line(), "");
    let slots: Vec<usize> = tasks.iter().map(|task| task.index()).collect();
    assert_eq!(slots, vec![0, 1, 2]);
    let pauses: Vec<Duration> = tasks.iter().map(|task| task.interval()).collect();
    assert_eq!(
        pauses,
        vec![Duration::from_secs(1), Duration::from_secs(2), Duration::from_secs(3)]
    );
}

#[test]
fn poll_decorates_for_the_slot() {
    let mut barr = Barr::new();
    barr.add_widget(Counter::boxed("a", Duration::from_secs(1)));
    barr.add_widget(Counter::boxed("b", Duration::from_secs(1)));
    let (mut tasks, _) = barr.run();
    assert_eq!(tasks[0].poll(), (0, "a1".to_string()));
    assert_eq!(tasks[1].poll(), (1, format!("{}b1", separator(1))));
    assert_eq!(tasks[0].poll(), (0, "a2".to_string()));
}

#[test]
fn loop_sleeps_before_the_first_poll() {
    let mut barr = Barr::new();
    barr.add_widget(Counter::boxed("a", Duration::from_millis(250)));
    let (mut tasks, _) = barr.run();
    assert_eq!(wait_of(tasks[0].start()), Duration::from_millis(250));
}

#[test]
fn every_wait_is_the_interval_of_the_source() {
    let mut barr = Barr::new();
    barr.add_widget(Counter::boxed("a", Duration::from_millis(1500)));
    let (mut tasks, _) = barr.run();
    let task = &mut tasks[0];
    assert_eq!(task.interval(), Duration::from_millis(1500));
    assert_eq!(wait_of(task.start()), Duration::from_millis(1500));
    task.step(Event::Woke);
    assert_eq!(wait_of(task.step(Event::Sent)), Duration::from_millis(1500));
    assert_eq!(wait_of(task.step(Event::Sent)), Duration::from_millis(1500));
}

#[test]
fn loop_alternates_wait_and_poll() {
    let mut barr = Barr::new();
    barr.add_widget(Counter::boxed("a", Duration::from_secs(5)));
    let (mut tasks, _) = barr.run();
    let task = &mut tasks[0];
    assert_eq!(wait_of(task.start()), Duration::from_secs(5));
    match task.step(Event::Woke) {
        Action::Forward(slot, text) => {
            assert_eq!(slot, 0);
            assert_eq!(text, "a1");
        }
        Action::Wait(_) => panic!("the source was due"),
    }
    assert_eq!(wait_of(task.step(Event::Sent)), Duration::from_secs(5));
    match task.step(Event::Woke) {
        Action::Forward(_, text) => assert_eq!(text, "a2"),
        Action::Wait(_) => panic!("the source was due"),
    }
}

#[test]
fn source_is_never_polled_twice_in_a_row() {
    let mut barr = Barr::new();
    barr.add_widget(Counter::boxed("a", Duration::from_secs(1)));
    let (mut tasks, _) = barr.run();
    let task = &mut tasks[0];
    task.start();
    assert!(matches!(task.step(Event::Woke), Action::Forward(_, _)));
    // a second wake-up before the update was forwarded polls nothing
    assert_eq!(wait_of(task.step(Event::Woke)), Duration::from_secs(1));
    match task.step(Event::Woke) {
        Action::Forward(_, text) => assert_eq!(text, "a2"),
        Action::Wait(_) => panic!("the source was due"),
    }
}

#[test]
fn forwarding_report_without_poll_is_answered_by_a_wait() {
    let mut barr = Barr::new();
    barr.add_widget(Counter::boxed("a", Duration::from_secs(1)));
    let (mut tasks, _) = barr.run();
    let task = &mut tasks[0];
    task.start();
    assert_eq!(wait_of(task.step(Event::Sent)), Duration::from_secs(1));
    assert!(matches!(task.step(Event::Woke), Action::Forward(_, _)));
}

fn run_until(tasks: &mut Vec<Task>, table: &mut Aggregator, end: Duration) -> Vec<String> {
    let mut due: Vec<Duration> = Vec::new();
    for task in tasks.iter_mut() {
        due.push(wait_of(task.start()));
    }
    let mut published = Vec::new();
    loop {
        let mut next: Option<usize> = None;
        for slot in 0..due.len() {
            if due[slot] <= end && next.map_or(true, |other| due[slot] < due[other]) {
                next = Some(slot);
            }
        }
        let slot = match next {
            Some(slot) => slot,
            None => return published,
        };
        let now = due[slot];
        match tasks[slot].step(Event::Woke) {
            Action::Forward(index, text) => published.push(table.receive(index, text)),
            Action::Wait(_) => panic!("the source was due"),
        }
        due[slot] = now + wait_of(tasks[slot].step(Event::Sent));
    }
}

#[test]
fn three_sources_over_two_seconds() {
    let mut barr = Barr::new();
    barr.add_widget(Counter::boxed("a", Duration::from_secs(1)));
    barr.add_widget(Counter::boxed("b", Duration::from_secs(2)));
    barr.add_widget(Counter::boxed("c", Duration::from_secs(1)));
    let (mut tasks, mut table) = barr.run();
    let published = run_until(&mut tasks, &mut table, Duration::from_secs(2));
    assert!(published.len() >= 3);
    assert_eq!(published.len(), 5);
    assert_eq!(published[0], "a1");
    assert_eq!(published[1], format!("a1{}c1", separator(2)));
    let last = format!("a2{}b1{}c2", separator(1), separator(2));
    assert_eq!(published[4], last);
    assert_eq!(table.line(), last);
}

#[test]
fn sources_run_on_unrelated_clocks() {
    let mut barr = Barr::new();
    barr.add_widget(Counter::boxed("a", Duration::from_secs(1)));
    barr.add_widget(Counter::boxed("b", Duration::from_secs(5)));
    let (mut tasks, mut table) = barr.run();
    let published = run_until(&mut tasks, &mut table, Duration::from_secs(5));
    assert_eq!(published.len(), 6);
    assert_eq!(table.line(), format!("a5{}b1", separator(1)));
}
