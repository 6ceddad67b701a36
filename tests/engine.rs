use burberry::engine::{
    on_receive, ConfigError, Engine, EngineError, Launch, LaunchStep, Received, StepOutcome,
    TaskAction,
};

fn engine(collectors: usize, strategies: usize, executors: usize) -> Engine<u8, u16, u32> {
    let mut e = Engine::new();
    for i in 0..collectors {
        e.add_collector(i as u8);
    }
    for i in 0..strategies {
        e.add_strategy(i as u16);
    }
    for i in 0..executors {
        e.add_executor(i as u32);
    }
    e
}

fn run_to_end(launch: &mut Launch) -> Vec<LaunchStep> {
    let mut steps = Vec::new();
    loop {
        let step = launch.advance(StepOutcome::Completed);
        if step == LaunchStep::Finished {
            return steps;
        }
        steps.push(step);
    }
}

#[test]
fn new_engine_has_default_capacities_and_no_components() {
    let e: Engine<u8, u8, u8> = Engine::new();
    assert_eq!(e.event_channel_capacity(), 512);
    assert_eq!(e.action_channel_capacity(), 512);
    assert_eq!(e.collector_count(), 0);
    assert_eq!(e.strategy_count(), 0);
    assert_eq!(e.executor_count(), 0);
}

#[test]
fn capacities_are_set_independently() {
    let e: Engine<u8, u8, u8> = Engine::new().with_event_channel_capacity(2);
    assert_eq!(e.event_channel_capacity(), 2);
    assert_eq!(e.action_channel_capacity(), 512);
    let e = e.with_action_channel_capacity(1);
    assert_eq!(e.event_channel_capacity(), 2);
    assert_eq!(e.action_channel_capacity(), 1);
}

#[test]
fn components_are_counted_and_kept_in_order() {
    let e = engine(3, 2, 1);
    assert_eq!(e.collector_count(), 3);
    assert_eq!(e.strategy_count(), 2);
    assert_eq!(e.executor_count(), 1);
    let (c, s, x) = e.into_parts();
    assert_eq!(c, vec![0, 1, 2]);
    assert_eq!(s, vec![0, 1]);
    assert_eq!(x, vec![0]);
}

#[test]
fn launch_without_executors_is_a_config_error() {
    let e = engine(1, 1, 0);
    assert_eq!(
        e.launch().err(),
        Some(EngineError::Config(ConfigError::NoExecutors))
    );
}

#[test]
fn launch_without_collectors_is_a_config_error() {
    assert_eq!(engine(0, 1, 1).launch().err(), Some(EngineError::Config(ConfigError::NoCollectors)));
}

#[test]
fn launch_without_strategies_is_a_config_error() {
    assert_eq!(engine(1, 0, 1).launch().err(), Some(EngineError::Config(ConfigError::NoStrategies)));
}

#[test]
fn launch_of_an_empty_engine_names_the_executors_first() {
    assert_eq!(engine(0, 0, 0).launch().err(), Some(EngineError::Config(ConfigError::NoExecutors)));
}

#[test]
fn single_component_startup_order() {
    let mut launch = engine(1, 1, 1).launch().ok().unwrap();
    assert_eq!(
        run_to_end(&mut launch),
        vec![
            LaunchStep::SubscribeExecutor(0),
            LaunchStep::SyncStrategy(0),
            LaunchStep::SpawnExecutor(0),
            LaunchStep::SpawnStrategy(0),
            LaunchStep::SpawnCollector(0),
        ]
    );
    assert_eq!(launch.advance(StepOutcome::Completed), LaunchStep::Finished);
}

#[test]
fn startup_subscribes_executors_then_syncs_then_spawns() {
    let mut launch = engine(2, 2, 2).launch().ok().unwrap();
    let steps = run_to_end(&mut launch);
    assert_eq!(
        steps,
        vec![
            LaunchStep::SubscribeExecutor(0),
            LaunchStep::SubscribeExecutor(1),
            LaunchStep::SyncStrategy(0),
            LaunchStep::SyncStrategy(1),
            LaunchStep::SpawnExecutor(0),
            LaunchStep::SpawnExecutor(1),
            LaunchStep::SpawnStrategy(0),
            LaunchStep::SpawnStrategy(1),
            LaunchStep::SpawnCollector(0),
            LaunchStep::SpawnCollector(1),
        ]
    );
}

#[test]
fn every_sync_comes_before_the_strategy_task() {
    let mut launch = engine(3, 4, 2).launch().ok().unwrap();
    let steps = run_to_end(&mut launch);
    assert_eq!(steps.len(), 2 * 2 + 2 * 4 + 3);
    for s in 0..4 {
        let sync = steps.iter().position(|x| *x == LaunchStep::SyncStrategy(s)).unwrap();
        let spawn = steps.iter().position(|x| *x == LaunchStep::SpawnStrategy(s)).unwrap();
        assert!(sync < spawn);
    }
    let last_sync = steps
        .iter()
        .rposition(|x| matches!(x, LaunchStep::SyncStrategy(_)))
        .unwrap();
    let first_spawn = steps
        .iter()
        .position(|x| {
            matches!(
                x,
                LaunchStep::SpawnExecutor(_)
                    | LaunchStep::SpawnStrategy(_)
                    | LaunchStep::SpawnCollector(_)
            )
        })
        .unwrap();
    assert!(last_sync < first_spawn);
}

#[test]
fn failed_sync_aborts_with_init_error_before_any_task() {
    let mut launch = engine(1, 2, 1).launch().ok().unwrap();
    assert_eq!(launch.advance(StepOutcome::Completed), LaunchStep::SubscribeExecutor(0));
    assert_eq!(launch.advance(StepOutcome::Completed), LaunchStep::SyncStrategy(0));
    assert_eq!(
        launch.advance(StepOutcome::SyncFailed),
        LaunchStep::Abort(EngineError::Init)
    );
    assert_eq!(launch.advance(StepOutcome::Completed), LaunchStep::Finished);
    assert_eq!(launch.advance(StepOutcome::SyncFailed), LaunchStep::Finished);
}

#[test]
fn finished_startup_stays_finished() {
    let mut launch = engine(1, 1, 1).launch().ok().unwrap();
    let _ = run_to_end(&mut launch);
    assert_eq!(launch.advance(StepOutcome::Completed), LaunchStep::Finished);
    assert_eq!(launch.advance(StepOutcome::SyncFailed), LaunchStep::Finished);
}

#[test]
fn received_item_is_handled() {
    assert_eq!(on_receive(Received::Item(7u64)), TaskAction::Handle(7u64));
}

#[test]
fn lag_is_reported_with_its_count() {
    assert_eq!(on_receive(Received::<u64>::Lagged(8)), TaskAction::ReportLag(8));
}

#[test]
fn lag_reports_and_items_account_for_every_event() {
    // A subscriber of a two-slot bus that fell behind while ten events were sent.
    let received = vec![
        Received::Lagged(8),
        Received::Item(9u64),
        Received::Item(10u64),
    ];
    let mut seen = 0u64;
    let mut skipped = 0u64;
    for r in received {
        match on_receive(r) {
            TaskAction::Handle(_) => seen += 1,
            TaskAction::ReportLag(n) => skipped += n,
            TaskAction::Stop => break,
        }
    }
    assert!(skipped >= 1);
    assert_eq!(seen + skipped, 10);
}

#[test]
fn closed_bus_stops_the_task() {
    assert_eq!(on_receive(Received::<u64>::Closed), TaskAction::Stop);
}

#[test]
fn default_engine_is_a_new_engine() {
    let e: Engine<u8, u8, u8> = Engine::default();
    assert_eq!(e.event_channel_capacity(), 512);
    assert_eq!(e.action_channel_capacity(), 512);
    assert_eq!(e.strategy_count(), 0);
    assert_eq!(e.executor_count(), 0);
}
