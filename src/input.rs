//! Routing of raw input events: what the shell does itself, and what it hands to the
//! active scene.
use vstd::prelude::*;

use legion::{Resources, World};
use winit::event::Event;

use crate::scene::SceneManager;

verus! {

/// The keys that the shell reacts to by itself.
#[derive(Clone, Copy, Debug, PartialEq, Eq, Structural)]
pub enum KeyCode {
    /// Closes the application.
    Escape,
    /// Prints the asset manager's metrics.
    M,
    Other,
}

/// What an input event is, as far as routing goes.
#[derive(Clone, Copy, Debug, PartialEq, Eq, Structural)]
pub enum InputKind {
    /// The window was asked to close.
    CloseRequested,
    /// A key went down.
    KeyPressed(KeyCode),
    Other,
}

/// What becomes of an input event.
#[derive(Clone, Copy, Debug, PartialEq, Eq, Structural)]
pub enum InputAction {
    /// The overlay took the event; nothing else sees it.
    Captured,
    /// The application should stop.
    Exit,
    /// The shell prints resource metrics; the scene does not see the event.
    ShowMetrics,
    /// The active scene and the input tracker get the event.
    Forward,
}

impl InputAction {
    /// Whether the host loop should keep going after this event.
    pub fn keeps_running(&self) -> (r: bool)
        ensures
            r == !(*self is Exit),
    {
        match self {
            InputAction::Exit => false,
            _ => true,
        }
    }
}

/// The routing rule: an event the overlay captured goes nowhere else; a close request
/// or an Escape press stops the application; an M press shows metrics; everything else
/// is forwarded.
pub open spec fn route(captured: bool, kind: InputKind) -> InputAction {
    if captured {
        InputAction::Captured
    } else {
        match kind {
            InputKind::CloseRequested => InputAction::Exit,
            InputKind::KeyPressed(KeyCode::Escape) => InputAction::Exit,
            InputKind::KeyPressed(KeyCode::M) => InputAction::ShowMetrics,
            _ => InputAction::Forward,
        }
    }
}

/// Decides what becomes of an event of the given kind, `captured` telling whether the
/// overlay took it.
pub fn route_input(captured: bool, kind: InputKind) -> (r: InputAction)
    ensures
        r == route(captured, kind),
{
    if captured {
        return InputAction::Captured;
    }
    match kind {
        InputKind::CloseRequested => InputAction::Exit,
        InputKind::KeyPressed(KeyCode::Escape) => InputAction::Exit,
        InputKind::KeyPressed(KeyCode::M) => InputAction::ShowMetrics,
        _ => InputAction::Forward,
    }
}

/// Routes `event`, of the given kind, and hands it to the active scene when the rule
/// says to forward it. The caller performs what the returned action asks of the host
/// (stopping, printing metrics, feeding the input tracker).
pub fn dispatch_input(
    scene_manager: &mut SceneManager,
    world: &mut World,
    resources: &Resources,
    event: &Event<()>,
    kind: InputKind,
    captured: bool,
) -> (r: InputAction)
    ensures
        r == route(captured, kind),
        r != InputAction::Forward ==> *final(scene_manager) == *old(scene_manager),
        r != InputAction::Forward ==> *final(world) == *old(world),
        final(scene_manager).has_current() == old(scene_manager).has_current(),
        r == InputAction::Forward && old(scene_manager).has_current()
            ==> final(scene_manager).current()->0.inputs()
            == old(scene_manager).current()->0.inputs() + 1,
        r == InputAction::Forward && old(scene_manager).has_current()
            ==> final(scene_manager).current()->0.updates()
            == old(scene_manager).current()->0.updates(),
        r == InputAction::Forward && old(scene_manager).has_current()
            ==> final(scene_manager).current()->0.cleanups()
            == old(scene_manager).current()->0.cleanups(),
        final(scene_manager).next() == old(scene_manager).next(),
{
    let action = route_input(captured, kind);
    if action == InputAction::Forward {
        scene_manager.process_input(world, resources, event);
    }
    action
}

} // verus!
