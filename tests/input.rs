use apiary::input::{dispatch_input, route_input, InputAction, InputKind, KeyCode};
use apiary::scene::{Scene, SceneManager};
use legion::{Resources, World};
use winit::event::Event;

struct Seen(u32);

struct InputScene;

impl Scene for InputScene {
    fn update(&mut self, _world: &mut World, _resources: &mut Resources) {}

    fn cleanup(&mut self, _world: &mut World, _resources: &Resources) {}

    fn process_input(&mut self, _world: &mut World, resources: &Resources, _event: &Event<()>) {
        resources.get_mut::<Seen>().unwrap().0 += 1;
    }
}

fn setup() -> (SceneManager, World, Resources) {
    let mut manager = SceneManager::new();
    manager.set_scene(Box::new(InputScene));
    let mut resources = Resources::default();
    resources.insert(Seen(0));
    (manager, World::default(), resources)
}

#[test]
fn close_request_stops() {
    let action = route_input(false, InputKind::CloseRequested);
    assert_eq!(action, InputAction::Exit);
    assert!(!action.keeps_running());
}

#[test]
fn escape_stops_and_m_shows_metrics() {
    assert_eq!(route_input(false, InputKind::KeyPressed(KeyCode::Escape)), InputAction::Exit);
    assert_eq!(route_input(false, InputKind::KeyPressed(KeyCode::M)), InputAction::ShowMetrics);
    assert!(InputAction::ShowMetrics.keeps_running());
    assert_eq!(route_input(false, InputKind::KeyPressed(KeyCode::Other)), InputAction::Forward);
    assert_eq!(route_input(false, InputKind::Other), InputAction::Forward);
}

#[test]
fn captured_events_go_nowhere() {
    assert_eq!(route_input(true, InputKind::CloseRequested), InputAction::Captured);
    assert_eq!(route_input(true, InputKind::KeyPressed(KeyCode::Escape)), InputAction::Captured);
    assert!(InputAction::Captured.keeps_running());
}

#[test]
fn dispatch_close_reports_stop_without_scene_input() {
    let (mut manager, mut world, resources) = setup();
    let event: Event<()> = Event::UserEvent(());
    let action = dispatch_input(
        &mut manager,
        &mut world,
        &resources,
        &event,
        InputKind::CloseRequested,
        false,
    );
    assert!(!action.keeps_running());
    assert_eq!(resources.get::<Seen>().unwrap().0, 0);
}

#[test]
fn dispatch_key_reaches_scene_once() {
    let (mut manager, mut world, resources) = setup();
    let event: Event<()> = Event::UserEvent(());
    let action = dispatch_input(
        &mut manager,
        &mut world,
        &resources,
        &event,
        InputKind::KeyPressed(KeyCode::Other),
        false,
    );
    assert_eq!(action, InputAction::Forward);
    assert!(action.keeps_running());
    assert_eq!(resources.get::<Seen>().unwrap().0, 1);
}

#[test]
fn dispatch_captured_or_metrics_skips_scene() {
    let (mut manager, mut world, resources) = setup();
    let event: Event<()> = Event::UserEvent(());
    let a = dispatch_input(&mut manager, &mut world, &resources, &event, InputKind::Other, true);
    assert_eq!(a, InputAction::Captured);
    let b = dispatch_input(
        &mut manager,
        &mut world,
        &resources,
        &event,
        InputKind::KeyPressed(KeyCode::M),
        false,
    );
    assert_eq!(b, InputAction::ShowMetrics);
    assert_eq!(resources.get::<Seen>().unwrap().0, 0);
}
