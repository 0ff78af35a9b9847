use integration_stub::{invoke, Entry, Harness, Stage, Step};

fn expected(calls: &[Entry]) -> Vec<&'static str> {
    calls.iter().map(|entry| entry.message()).collect()
}

#[test]
fn one_record_per_call_in_call_order() {
    let calls: Vec<Entry> = vec![
        Entry::Main,
        Entry::Greeting,
        Entry::Greeting,
        Entry::Main,
        Entry::Greeting,
    ];
    let mut host = Harness::new();

    let statuses: Vec<i32> = host.replay(&calls);

    assert_eq!(statuses, vec![42, 42, 42, 42, 42]);
    assert_eq!(*host.records(), expected(&calls));
    assert_eq!(
        *host.records(),
        vec![
            "Hello world from Rust's `app_main()`!",
            "Hello from Rust!",
            "Hello from Rust!",
            "Hello world from Rust's `app_main()`!",
            "Hello from Rust!",
        ]
    );
}

#[test]
fn replay_of_nothing_changes_nothing() {
    let mut host = Harness::new();

    let statuses: Vec<i32> = host.replay(&Vec::new());

    assert!(statuses.is_empty());
    assert!(host.records().is_empty());
    assert_eq!(host.stage(), Stage::Uninitialized);
}

#[test]
fn replay_agrees_with_single_calls() {
    let calls: Vec<Entry> = vec![Entry::Greeting, Entry::Main, Entry::Greeting, Entry::Main];
    let mut whole = Harness::new();
    let mut single = Harness::new();

    whole.replay(&calls);
    for entry in calls.iter() {
        single.call(*entry);
    }

    assert_eq!(whole.records(), single.records());
    assert_eq!(whole.stage(), single.stage());
}

#[test]
fn greetings_before_the_first_start_are_dropped() {
    let calls: Vec<Entry> = vec![Entry::Greeting, Entry::Greeting, Entry::Main, Entry::Greeting];
    let mut host = Harness::new();

    let statuses: Vec<i32> = host.replay(&calls);

    assert_eq!(statuses, vec![42, 42, 42, 42]);
    assert_eq!(*host.records(), expected(&calls[2..]));
}

#[test]
fn start_can_be_repeated() {
    let mut host = Harness::new();

    let statuses: Vec<i32> = host.replay(&vec![Entry::Main; 6]);

    assert_eq!(statuses, vec![42; 6]);
    assert_eq!(host.stage(), Stage::Initialized);
    assert_eq!(*host.records(), vec!["Hello world from Rust's `app_main()`!"; 6]);
    assert_eq!(host.call(Entry::Greeting), 42);
    assert_eq!(host.records().len(), 7);
    assert_eq!(host.records()[6], "Hello from Rust!");
}

#[test]
fn every_greeting_after_start_is_captured() {
    let mut host = Harness::new();
    host.call(Entry::Main);

    let statuses: Vec<i32> = host.replay(&vec![Entry::Greeting; 5]);

    assert_eq!(statuses, vec![42; 5]);
    assert_eq!(host.records().len(), 6);
    assert_eq!(host.records()[1..], vec!["Hello from Rust!"; 5]);
}

#[test]
fn captured_records_are_never_lost() {
    let mut host = Harness::new();
    host.replay(&vec![Entry::Main, Entry::Greeting]);
    let before: Vec<&'static str> = host.records().clone();

    host.replay(&vec![Entry::Greeting, Entry::Main, Entry::Greeting]);

    assert_eq!(host.records()[..before.len()], before);
    assert_eq!(host.records().len(), before.len() + 3);
}

#[test]
fn patch_installer_changes_nothing_observable() {
    let mut host = Harness::new();

    host.perform(Step::LinkPatches);

    assert_eq!(host.stage(), Stage::Uninitialized);
    assert!(host.records().is_empty());
}

#[test]
fn installing_the_sink_captures_nothing_by_itself() {
    let mut host = Harness::new();

    host.perform(Step::InstallLogger);

    assert_eq!(host.stage(), Stage::Initialized);
    assert!(host.records().is_empty());

    host.perform(Step::InstallLogger);

    assert_eq!(host.stage(), Stage::Initialized);
    assert!(host.records().is_empty());
}

#[test]
fn record_emitted_without_a_sink_is_dropped() {
    let mut host = Harness::new();

    host.perform(Step::Inform(Entry::Main));
    host.perform(Step::Inform(Entry::Greeting));

    assert!(host.records().is_empty());
    assert_eq!(host.stage(), Stage::Uninitialized);
}

#[test]
fn record_emitted_with_a_sink_is_captured() {
    let mut host = Harness::new();
    host.perform(Step::InstallLogger);

    host.perform(Step::Inform(Entry::Greeting));
    host.perform(Step::Inform(Entry::Main));

    assert_eq!(
        *host.records(),
        vec!["Hello from Rust!", "Hello world from Rust's `app_main()`!"]
    );
}

#[test]
fn perform_all_agrees_with_call() {
    for entry in [Entry::Main, Entry::Greeting] {
        let mut by_steps = Harness::new();
        let mut by_call = Harness::new();

        by_steps.perform_all(&invoke(entry).calls);
        by_call.call(entry);

        assert_eq!(by_steps.records(), by_call.records());
        assert_eq!(by_steps.stage(), by_call.stage());
    }
}

#[test]
fn order_of_the_startup_calls_matters() {
    let mut host = Harness::new();

    host.perform_all(&vec![Step::Inform(Entry::Main), Step::InstallLogger, Step::LinkPatches]);

    assert_eq!(host.stage(), Stage::Initialized);
    assert!(host.records().is_empty());
}
