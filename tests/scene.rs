use apiary::scene::{Scene, SceneManager};
use legion::{Resources, World};
use winit::event::Event;

/// Counts its hook calls in resources of its own.
struct Updates(u32);
struct Cleanups(u32);
struct Inputs(u32);

struct CountingScene;

impl Scene for CountingScene {
    fn update(&mut self, world: &mut World, resources: &mut Resources) {
        resources.get_mut::<Updates>().unwrap().0 += 1;
        world.push((1u32,));
    }

    fn cleanup(&mut self, _world: &mut World, resources: &Resources) {
        resources.get_mut::<Cleanups>().unwrap().0 += 1;
    }

    fn process_input(&mut self, _world: &mut World, resources: &Resources, _event: &Event<()>) {
        resources.get_mut::<Inputs>().unwrap().0 += 1;
    }
}

/// Ignores cleanup and input.
struct PlainScene;

impl Scene for PlainScene {
    fn update(&mut self, _world: &mut World, resources: &mut Resources) {
        resources.get_mut::<Updates>().unwrap().0 += 10;
    }

    fn cleanup(&mut self, _world: &mut World, _resources: &Resources) {}

    fn process_input(&mut self, _world: &mut World, _resources: &Resources, _event: &Event<()>) {}
}

fn counters() -> Resources {
    let mut resources = Resources::default();
    resources.insert(Updates(0));
    resources.insert(Cleanups(0));
    resources.insert(Inputs(0));
    resources
}

#[test]
fn update_without_scene_is_noop() {
    let mut manager = SceneManager::default();
    let mut world = World::default();
    world.push((3u32,));
    let id = world.id();
    let mut resources = counters();
    manager.update_scene(&mut world, &mut resources);
    assert_eq!(world.len(), 1);
    assert_eq!(world.id(), id);
    assert_eq!(resources.get::<Updates>().unwrap().0, 0);
    assert!(!manager.has_current_scene());
    assert!(!manager.has_next_scene());
}

#[test]
fn set_scene_then_update_runs_it_once() {
    let mut manager = SceneManager::new();
    let mut world = World::default();
    let mut resources = counters();
    manager.set_scene(Box::new(CountingScene));
    assert!(manager.has_current_scene());
    manager.update_scene(&mut world, &mut resources);
    assert_eq!(resources.get::<Updates>().unwrap().0, 1);
    assert_eq!(world.len(), 1);
    assert!(!manager.has_next_scene());
}

#[test]
fn cleanup_gives_fresh_empty_world() {
    let mut manager = SceneManager::new();
    let mut world = World::default();
    let mut resources = counters();
    manager.set_scene(Box::new(CountingScene));
    manager.update_scene(&mut world, &mut resources);
    manager.update_scene(&mut world, &mut resources);
    assert_eq!(world.len(), 2);
    let before = world.id();
    let ended = manager.try_cleanup_current_scene(&mut world, &resources);
    assert!(ended.is_some());
    assert_eq!(resources.get::<Cleanups>().unwrap().0, 1);
    assert_eq!(world.len(), 0);
    assert_ne!(world.id(), before);
    assert!(!manager.has_current_scene());
    manager.update_scene(&mut world, &mut resources);
    assert_eq!(resources.get::<Updates>().unwrap().0, 2);
}

#[test]
fn cleanup_without_scene_still_resets_world() {
    let mut manager = SceneManager::new();
    let mut world = World::default();
    world.push((1u32,));
    let before = world.id();
    let resources = counters();
    let ended = manager.try_cleanup_current_scene(&mut world, &resources);
    assert!(ended.is_none());
    assert!(world.is_empty());
    assert_ne!(world.id(), before);
    assert_eq!(resources.get::<Cleanups>().unwrap().0, 0);
}

#[test]
fn waiting_scene_survives_cleanup_and_can_be_entered() {
    let mut manager = SceneManager::new();
    let mut world = World::default();
    let mut resources = counters();
    manager.set_scene(Box::new(CountingScene));
    manager.request_scene_change(Box::new(PlainScene));
    assert!(manager.has_next_scene());
    manager.try_cleanup_current_scene(&mut world, &resources);
    assert!(manager.has_next_scene());
    assert!(!manager.has_current_scene());
    manager.go_next_scene();
    assert!(manager.has_current_scene());
    assert!(!manager.has_next_scene());
    manager.update_scene(&mut world, &mut resources);
    assert_eq!(resources.get::<Updates>().unwrap().0, 10);
}

#[test]
fn go_next_scene_without_waiting_scene_keeps_current() {
    let mut manager = SceneManager::new();
    let mut world = World::default();
    let mut resources = counters();
    manager.set_scene(Box::new(CountingScene));
    manager.go_next_scene();
    assert!(manager.has_current_scene());
    manager.update_scene(&mut world, &mut resources);
    assert_eq!(resources.get::<Updates>().unwrap().0, 1);
}

#[test]
fn process_input_reaches_scene_or_nothing() {
    let mut manager = SceneManager::new();
    let mut world = World::default();
    let resources = counters();
    let event: Event<()> = Event::UserEvent(());
    manager.process_input(&mut world, &resources, &event);
    assert_eq!(resources.get::<Inputs>().unwrap().0, 0);
    manager.set_scene(Box::new(CountingScene));
    manager.process_input(&mut world, &resources, &event);
    assert_eq!(resources.get::<Inputs>().unwrap().0, 1);
    manager.set_scene(Box::new(PlainScene));
    manager.process_input(&mut world, &resources, &event);
    assert_eq!(resources.get::<Inputs>().unwrap().0, 1);
}

#[test]
fn registry_shared_borrows_coexist_and_missing_type_fails() {
    let mut resources = Resources::default();
    resources.insert(Updates(7));
    {
        let a = resources.get::<Updates>();
        let b = resources.get::<Updates>();
        assert_eq!(a.unwrap().0, 7);
        assert_eq!(b.unwrap().0, 7);
    }
    assert!(resources.get::<Cleanups>().is_none());
    assert!(resources.get_mut::<Inputs>().is_none());
    resources.get_mut::<Updates>().unwrap().0 = 8;
    assert_eq!(resources.get::<Updates>().unwrap().0, 8);
}

#[test]
fn set_scene_replaces_active_scene_without_cleanup() {
    let mut manager = SceneManager::with_current(Some(Box::new(CountingScene)));
    assert!(manager.has_current_scene());
    assert!(!manager.has_next_scene());
    let mut world = World::default();
    let mut resources = counters();
    manager.set_scene(Box::new(PlainScene));
    manager.update_scene(&mut world, &mut resources);
    assert_eq!(resources.get::<Updates>().unwrap().0, 10);
    assert_eq!(resources.get::<Cleanups>().unwrap().0, 0);
    let empty = SceneManager::with_current(None);
    assert!(!empty.has_current_scene());
}
