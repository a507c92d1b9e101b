use uqdev::run_tests::router::{RouterAction, RouterEvent, RouterManager, RouterState};
use uqdev::run_tests::types::{NetworkRouter, NetworkRouterDefects};

fn manager() -> RouterManager {
    RouterManager::new(NetworkRouter { port: 9001, defects: NetworkRouterDefects::NoDefects }, 5)
}

#[test]
fn new_router_runs() {
    let manager = manager();
    assert_eq!(manager.state, RouterState::Running);
    assert_eq!(manager.grace_secs, 5);
    assert_eq!(manager.router.port, 9001);
    assert_eq!(manager.router.defects, NetworkRouterDefects::NoDefects);
}

#[test]
fn router_exits_within_the_grace_period() {
    let (manager, action) = manager().step(RouterEvent::ShutdownRequested);
    assert_eq!(action, RouterAction::Cancel { grace_secs: 5 });
    assert_eq!(manager.state, RouterState::Stopping);
    let (manager, action) = manager.step(RouterEvent::Exited);
    assert_eq!(action, RouterAction::Nothing);
    assert_eq!(manager.state, RouterState::Stopped);
}

#[test]
fn router_is_killed_when_the_grace_period_ends() {
    let (manager, _) = manager().step(RouterEvent::ShutdownRequested);
    let (manager, action) = manager.step(RouterEvent::GraceElapsed);
    assert_eq!(action, RouterAction::Kill);
    assert_eq!(manager.state, RouterState::Killed);
    let (manager, action) = manager.step(RouterEvent::Exited);
    assert_eq!(action, RouterAction::Nothing);
    assert_eq!(manager.state, RouterState::Stopped);
}

#[test]
fn second_shutdown_request_does_nothing() {
    let (manager, _) = manager().step(RouterEvent::ShutdownRequested);
    let (manager, action) = manager.step(RouterEvent::ShutdownRequested);
    assert_eq!(action, RouterAction::Nothing);
    assert_eq!(manager.state, RouterState::Stopping);
}

#[test]
fn running_router_is_not_killed_by_a_stray_timer() {
    let (manager, action) = manager().step(RouterEvent::GraceElapsed);
    assert_eq!(action, RouterAction::Nothing);
    assert_eq!(manager.state, RouterState::Running);
}

#[test]
fn stopped_router_stays_stopped() {
    let (manager, _) = manager().step(RouterEvent::Exited);
    assert_eq!(manager.state, RouterState::Stopped);
    let (manager, action) = manager.step(RouterEvent::ShutdownRequested);
    assert_eq!(action, RouterAction::Nothing);
    assert_eq!(manager.state, RouterState::Stopped);
    let (manager, action) = manager.step(RouterEvent::GraceElapsed);
    assert_eq!(action, RouterAction::Nothing);
    assert_eq!(manager.state, RouterState::Stopped);
}
