use solaredge2mqtt::scheduler::Scheduler;
use solaredge2mqtt::scheduler::SchedulerPhase;
use solaredge2mqtt::scheduler::TickAction;
use solaredge2mqtt::solaredge::FetchError;
use solaredge2mqtt::solaredge::Item;
use solaredge2mqtt::solaredge::SiteCurrentPowerFlow;
use solaredge2mqtt::state::generate_state_message;

fn snapshot(pv: i64, load: i64, grid: i64) -> SiteCurrentPowerFlow {
    SiteCurrentPowerFlow {
        update_refresh_rate: 3,
        unit: "kW".to_string(),
        connections: vec![],
        grid: Item {
            status: "Active".to_string(),
            current_power: grid,
        },
        load: Item {
            status: "Active".to_string(),
            current_power: load,
        },
        pv: Item {
            status: "Active".to_string(),
            current_power: pv,
        },
    }
}

#[test]
fn derive_positive_pv_flows_to_load() {
    // pv=5, load=3, grid=-2 (in thousandths of a kW)
    let state = generate_state_message(snapshot(5000, 3000, -2000));
    assert_eq!(state.pv_to_load, 5000);
    assert_eq!(state.load_to_grid, 0);
    assert_eq!(state.grid_to_load, 0);
    assert_eq!(state.pv, 5000);
    assert_eq!(state.load, 3000);
    assert_eq!(state.grid, -2000);
}

#[test]
fn derive_zero_pv_grid_feeds_load() {
    // pv=0, load=4, grid=4
    let state = generate_state_message(snapshot(0, 4000, 4000));
    assert_eq!(state.pv_to_load, 0);
    assert_eq!(state.load_to_grid, 0);
    assert_eq!(state.grid_to_load, 4000);
}

#[test]
fn derive_negative_pv_load_below_pv() {
    // pv=-1, load=-3, grid=2: load < pv, so load_to_grid = load - pv = -2
    let state = generate_state_message(snapshot(-1000, -3000, 2000));
    assert_eq!(state.pv_to_load, 0);
    assert_eq!(state.load_to_grid, -2000);
    assert_eq!(state.grid_to_load, 0);
}

#[test]
fn derive_negative_pv_load_above_pv() {
    // pv=-1, load=0: load >= pv, so grid_to_load = pv - load = -1
    let state = generate_state_message(snapshot(-1000, 0, 500));
    assert_eq!(state.pv_to_load, 0);
    assert_eq!(state.load_to_grid, 0);
    assert_eq!(state.grid_to_load, -1000);
}

#[test]
fn derive_mirrors_raw_readings() {
    let state = generate_state_message(snapshot(123, -456, 789));
    assert_eq!(state.pv, 123);
    assert_eq!(state.load, -456);
    assert_eq!(state.grid, 789);
}

#[test]
fn scheduler_starts_idle_then_polls() {
    let mut scheduler = Scheduler::new();
    assert_eq!(scheduler.phase, SchedulerPhase::Idle);
    scheduler.start_polling();
    assert_eq!(scheduler.phase, SchedulerPhase::Polling);
}

#[test]
fn tick_publishes_on_success() {
    let mut scheduler = Scheduler::new();
    scheduler.start_polling();
    let action = scheduler.on_tick(Ok(snapshot(5000, 3000, -2000)));
    match action {
        TickAction::Publish(state) => assert_eq!(state.pv_to_load, 5000),
        TickAction::Skip => panic!("successful fetch must publish"),
    }
}

#[test]
fn tick_skips_on_failure() {
    let mut scheduler = Scheduler::new();
    scheduler.start_polling();
    let action = scheduler.on_tick(Err(FetchError::NetworkError));
    assert_eq!(action, TickAction::Skip);
}

#[test]
fn failed_tick_does_not_block_the_next() {
    // Tick N fails; tick N+1 must still fetch and publish as if N never
    // happened.
    let mut scheduler = Scheduler::new();
    scheduler.start_polling();
    let first = scheduler.on_tick(Err(FetchError::NetworkError));
    assert_eq!(first, TickAction::Skip);
    assert_eq!(scheduler.phase, SchedulerPhase::Polling);
    let second = scheduler.on_tick(Ok(snapshot(0, 4000, 4000)));
    let mut fresh = Scheduler::new();
    fresh.start_polling();
    let fresh_action = fresh.on_tick(Ok(snapshot(0, 4000, 4000)));
    assert_eq!(second, fresh_action);
    match second {
        TickAction::Publish(state) => assert_eq!(state.grid_to_load, 4000),
        TickAction::Skip => panic!("successful fetch must publish"),
    }
}
