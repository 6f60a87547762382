//! Scenes and the manager that holds the active one.
use vstd::prelude::*;

use legion::{Resources, World};
use winit::event::Event;

use crate::world::{fresh_world, id_of_world, world_entities, world_id};

verus! {

#[verifier::external_type_specification]
#[verifier::external_body]
#[verifier::reject_recursive_types(T)]
pub struct ExEvent<'a, T: 'static>(winit::event::Event<'a, T>);

/// A replaceable unit of per-frame simulation and input behaviour.
///
/// Each hook counts its own runs: an implementation says, through the three spec
/// functions, how many times each hook has run on it, and each hook adds one to its
/// own count and leaves the other two as they were. The counts default to zero, which
/// no verified hook can keep, so a verified implementation overrides them (from a ghost
/// field, say); an implementation outside verification is taken at its word.
pub trait Scene {
    /// How many times `update` has run on this scene.
    open spec fn updates(&self) -> nat {
        0
    }

    /// How many times `cleanup` has run on this scene.
    open spec fn cleanups(&self) -> nat {
        0
    }

    /// How many times `process_input` has run on this scene.
    open spec fn inputs(&self) -> nat {
        0
    }

    /// One step of simulation, with exclusive access to the world and the registry.
    fn update(&mut self, world: &mut World, resources: &mut Resources)
        ensures
            final(self).updates() == old(self).updates() + 1,
            final(self).cleanups() == old(self).cleanups(),
            final(self).inputs() == old(self).inputs(),
    ;

    /// Called once when the scene ends, before the world is replaced.
    fn cleanup(&mut self, world: &mut World, resources: &Resources)
        ensures
            final(self).updates() == old(self).updates(),
            final(self).cleanups() == old(self).cleanups() + 1,
            final(self).inputs() == old(self).inputs(),
    ;

    /// Reacts to one input event.
    fn process_input(&mut self, world: &mut World, resources: &Resources, event: &Event<()>)
        ensures
            final(self).updates() == old(self).updates(),
            final(self).cleanups() == old(self).cleanups(),
            final(self).inputs() == old(self).inputs() + 1,
    ;
}

/// Holds the active scene, if any, and a slot for the scene that should follow it.
pub struct SceneManager {
    current_scene: Option<Box<dyn Scene>>,
    next_scene: Option<Box<dyn Scene>>,
}

impl SceneManager {
    /// The active scene.
    pub closed spec fn current(&self) -> Option<Box<dyn Scene>> {
        self.current_scene
    }

    /// The scene waiting to follow the active one.
    pub closed spec fn next(&self) -> Option<Box<dyn Scene>> {
        self.next_scene
    }

    pub open spec fn has_current(&self) -> bool {
        self.current() is Some
    }

    pub open spec fn has_next(&self) -> bool {
        self.next() is Some
    }

    /// A manager with no scene.
    pub fn new() -> (r: SceneManager)
        ensures
            r.current() is None,
            r.next() is None,
    {
        SceneManager { current_scene: None, next_scene: None }
    }

    /// A manager whose active scene is `current`, if any, with no scene waiting.
    pub fn with_current(current: Option<Box<dyn Scene>>) -> (r: SceneManager)
        ensures
            r.current() == current,
            r.next() is None,
    {
        SceneManager { current_scene: current, next_scene: None }
    }

    /// Makes `scene` the active scene. A scene that was active is dropped without its
    /// cleanup hook.
    pub fn set_scene(&mut self, scene: Box<dyn Scene>)
        ensures
            final(self).current() == Some(scene),
            final(self).next() == old(self).next(),
    {
        // Built apart from the field so that no unsizing coercion stands between the
        // argument and the stored box.
        let current = Option::Some(scene);
        self.current_scene = current;
    }

    /// Puts `scene` in the slot for the scene that follows the active one.
    pub fn request_scene_change(&mut self, scene: Box<dyn Scene>)
        ensures
            final(self).current() == old(self).current(),
            final(self).next() == Some(scene),
    {
        let next = Option::Some(scene);
        self.next_scene = next;
    }

    /// Makes the waiting scene, if there is one, the active scene and empties its slot;
    /// with no waiting scene nothing changes.
    pub fn go_next_scene(&mut self)
        ensures
            old(self).has_next() ==> final(self).current() == old(self).next(),
            old(self).has_next() ==> final(self).next() is None,
            !old(self).has_next() ==> *final(self) == *old(self),
    {
        if self.next_scene.is_some() {
            self.current_scene = self.next_scene.take();
        }
    }

    /// Whether a scene is active.
    pub fn has_current_scene(&self) -> (r: bool)
        ensures
            r == self.has_current(),
    {
        self.current_scene.is_some()
    }

    /// Whether a scene is waiting to follow the active one.
    pub fn has_next_scene(&self) -> (r: bool)
        ensures
            r == self.has_next(),
    {
        self.next_scene.is_some()
    }

    /// Runs one update of the active scene; does nothing when there is none.
    pub fn update_scene(&mut self, world: &mut World, resources: &mut Resources)
        ensures
            !old(self).has_current() ==> {
                &&& *final(self) == *old(self)
                &&& *final(world) == *old(world)
                &&& *final(resources) == *old(resources)
            },
            final(self).has_current() == old(self).has_current(),
            old(self).has_current() ==> final(self).current()->0.updates()
                == old(self).current()->0.updates() + 1,
            old(self).has_current() ==> final(self).current()->0.cleanups()
                == old(self).current()->0.cleanups(),
            old(self).has_current() ==> final(self).current()->0.inputs()
                == old(self).current()->0.inputs(),
            final(self).next() == old(self).next(),
    {
        if let Some(scene) = &mut self.current_scene {
            scene.update(world, resources);
        }
    }

    /// Hands `event` to the active scene; does nothing when there is none.
    pub fn process_input(&mut self, world: &mut World, resources: &Resources, event: &Event<()>)
        ensures
            !old(self).has_current() ==> *final(self) == *old(self),
            !old(self).has_current() ==> *final(world) == *old(world),
            final(self).has_current() == old(self).has_current(),
            old(self).has_current() ==> final(self).current()->0.inputs()
                == old(self).current()->0.inputs() + 1,
            old(self).has_current() ==> final(self).current()->0.updates()
                == old(self).current()->0.updates(),
            old(self).has_current() ==> final(self).current()->0.cleanups()
                == old(self).current()->0.cleanups(),
            final(self).next() == old(self).next(),
    {
        if let Some(current_scene) = &mut self.current_scene {
            current_scene.process_input(world, resources, event);
        }
    }

    /// Ends the active scene: runs its cleanup hook, replaces the world by a new, empty
    /// one, and leaves no scene active. A waiting scene stays where it is. The ended
    /// scene, after its cleanup, is handed back (`None` when no scene was active).
    pub fn try_cleanup_current_scene(&mut self, world: &mut World, resources: &Resources) -> (ended:
        Option<Box<dyn Scene>>)
        ensures
            final(self).current() is None,
            final(self).next() == old(self).next(),
            world_entities(*final(world)).is_empty(),
            world_id(*final(world)) != world_id(*old(world)),
            ended is Some == old(self).has_current(),
            old(self).has_current() ==> ended->0.cleanups() == old(self).current()->0.cleanups()
                + 1,
            old(self).has_current() ==> ended->0.updates() == old(self).current()->0.updates(),
            old(self).has_current() ==> ended->0.inputs() == old(self).current()->0.inputs(),
    {
        let before = id_of_world(world);
        if let Some(scene) = &mut self.current_scene {
            scene.cleanup(world, resources);
        }
        *world = fresh_world(before);
        self.current_scene.take()
    }
}

impl Default for SceneManager {
    fn default() -> (r: SceneManager)
        ensures
            r.current() is None,
            r.next() is None,
    {
        SceneManager::new()
    }
}

} // verus!
