//! One frame of the shell, as the steps that the library owns: advancing time,
//! deciding whether to report the rate, ending a scene that is to be replaced, running
//! the active scene, and copying the options for the renderer. The caller performs the
//! steps in between (asset ticks, the overlay bracket, extraction and rendering) in the
//! order that the method documents give.
use vstd::prelude::*;

use legion::{Resources, World};
use winit::event::Event;

use crate::input::{dispatch_input, route, InputAction, InputKind};
use crate::options::{render_settings, DebugUiState, RenderOptions, RenderSettings};
use crate::scene::{Scene, SceneManager};
use crate::time::{
    periodic_step, span_between, Duration, Instant, PeriodicEvent, TimeState, TimeView, UpdateRate,
    NANOS_PER_SEC,
};
use crate::world::{world_entities, world_id};

verus! {

/// How often the smoothed update rate is reported, in nanoseconds.
pub const PRINT_TIME_INTERVAL_NANOS: u64 = NANOS_PER_SEC;

/// What the start of a frame asks of the caller.
pub struct FrameStart {
    /// The smoothed update rate, when it is time to report it.
    pub print_rate: Option<UpdateRate>,
    /// Whether the scene was ended and the world replaced, so that the renderer should
    /// drop its per-frame temporary work.
    pub scene_reset: bool,
    /// The scene that was ended, after its cleanup hook ran; the caller drops it.
    pub ended_scene: Option<Box<dyn Scene>>,
}

/// The state that the shell keeps from frame to frame.
pub struct ApiaryApp {
    pub resources: Resources,
    pub world: World,
    pub render_options: RenderOptions,
    pub debug_ui_state: DebugUiState,
    pub scene_manager: SceneManager,
    pub print_time_event: PeriodicEvent,
    pub time_state: TimeState,
}

impl ApiaryApp {
    /// A shell whose clock starts at `now`, running `scene` on `world`.
    pub fn new(
        now: Instant,
        resources: Resources,
        world: World,
        scene: Box<dyn Scene>,
        render_options: RenderOptions,
    ) -> (r: ApiaryApp)
        ensures
            r.time_state.context() == TimeView::start(now.nanos as nat),
            r.time_state.previous_reading() == now.nanos,
            r.print_time_event.last_fired() is None,
            r.scene_manager.current() == Some(scene),
            r.scene_manager.next() is None,
            r.resources == resources,
            r.world == world,
            r.render_options == render_options,
            r.debug_ui_state == (DebugUiState {
                show_render_options: false,
                show_asset_list: false,
                show_tonemap_debug: false,
            }),
    {
        // Wrapped here rather than at a call, where the box would pass through an
        // unsizing coercion that hides which scene it holds.
        let current = Option::Some(scene);
        let scene_manager = SceneManager::with_current(current);
        ApiaryApp {
            resources,
            world,
            render_options,
            debug_ui_state: DebugUiState::default(),
            scene_manager,
            print_time_event: PeriodicEvent::new(),
            time_state: TimeState::new(now),
        }
    }

    /// First steps of a frame, given the clock reading `now`: records the time elapsed
    /// since the previous reading; hands back the smoothed rate when a second has
    /// passed since it was last reported; and, when a scene is waiting, ends the active
    /// one (running its cleanup hook), replaces the world by a new, empty one, and makes
    /// the waiting scene active.
    ///
    /// After this the caller drops the renderer's temporary work if `scene_reset`, ticks
    /// the asset services, opens the overlay frame, and calls `simulate`.
    pub fn begin_frame(&mut self, now: Instant) -> (r: FrameStart)
        requires
            old(self).time_state.context().current_instant + span_between(
                old(self).time_state.previous_reading(),
                now.nanos as nat,
            ) <= u64::MAX,
            old(self).time_state.context().update_count < u64::MAX,
        ensures
            final(self).time_state.context() == old(self).time_state.context().next(
                span_between(old(self).time_state.previous_reading(), now.nanos as nat),
            ),
            final(self).time_state.previous_reading() == now.nanos,
            (r.print_rate is Some, final(self).print_time_event.last_fired()) == periodic_step(
                old(self).print_time_event.last_fired(),
                final(self).time_state.context().current_instant,
                PRINT_TIME_INTERVAL_NANOS as nat,
            ),
            r.print_rate is Some ==> r.print_rate->0.micro_hz
                == final(self).time_state.context().updates_per_second_smoothed,
            r.scene_reset == old(self).scene_manager.has_next(),
            r.scene_reset ==> final(self).scene_manager.current() == old(
                self,
            ).scene_manager.next(),
            r.scene_reset ==> final(self).scene_manager.next() is None,
            r.scene_reset ==> world_entities(final(self).world).is_empty(),
            r.scene_reset ==> world_id(final(self).world) != world_id(old(self).world),
            r.ended_scene is Some == (r.scene_reset && old(self).scene_manager.has_current()),
            r.ended_scene is Some ==> r.ended_scene->0.cleanups() == old(
                self,
            ).scene_manager.current()->0.cleanups() + 1,
            r.ended_scene is Some ==> r.ended_scene->0.updates() == old(
                self,
            ).scene_manager.current()->0.updates(),
            r.ended_scene is Some ==> r.ended_scene->0.inputs() == old(
                self,
            ).scene_manager.current()->0.inputs(),
            !r.scene_reset ==> final(self).scene_manager == old(self).scene_manager,
            !r.scene_reset ==> final(self).world == old(self).world,
            final(self).render_options == old(self).render_options,
            final(self).debug_ui_state == old(self).debug_ui_state,
    {
        self.time_state.update(now);

        let fired = self.print_time_event.try_take_event(
            self.time_state.current_instant(),
            Duration::from_nanos(PRINT_TIME_INTERVAL_NANOS),
        );
        let print_rate = if fired {
            Some(self.time_state.updates_per_second_smoothed())
        } else {
            None
        };

        let scene_reset = self.scene_manager.has_next_scene();
        let mut ended_scene = None;
        if scene_reset {
            ended_scene =
            self.scene_manager.try_cleanup_current_scene(&mut self.world, &self.resources);
            self.scene_manager.go_next_scene();
        }
        FrameStart { print_rate, scene_reset, ended_scene }
    }

    /// Runs the active scene once, then returns the settings that the rendering side
    /// should take for this frame.
    ///
    /// After this the caller closes the overlay frame, extracts the resources and the
    /// world, and starts rendering with `time_state.previous_update_time()`.
    pub fn simulate(&mut self) -> (r: RenderSettings)
        ensures
            r.pipeline == final(self).render_options.pipeline_options_of(),
            r.mesh == final(self).render_options.mesh_options_of(),
            r.enable_visibility_update == final(self).render_options.enable_visibility_update,
            r.collect_tonemap_debug_data == final(self).debug_ui_state.show_tonemap_debug,
            !old(self).scene_manager.has_current() ==> final(self).scene_manager == old(self).scene_manager,
            !old(self).scene_manager.has_current() ==> final(self).world == old(self).world,
            final(self).scene_manager.has_current() == old(self).scene_manager.has_current(),
            old(self).scene_manager.has_current() ==> final(self).scene_manager.current()->0.updates()
                == old(self).scene_manager.current()->0.updates() + 1,
            old(self).scene_manager.has_current() ==> final(self).scene_manager.current()->0.cleanups()
                == old(self).scene_manager.current()->0.cleanups(),
            old(self).scene_manager.has_current() ==> final(self).scene_manager.current()->0.inputs()
                == old(self).scene_manager.current()->0.inputs(),
            final(self).scene_manager.next() == old(self).scene_manager.next(),
            final(self).time_state == old(self).time_state,
            final(self).print_time_event == old(self).print_time_event,
            final(self).render_options == old(self).render_options,
            final(self).debug_ui_state == old(self).debug_ui_state,
    {
        self.scene_manager.update_scene(&mut self.world, &mut self.resources);
        render_settings(&self.render_options, &self.debug_ui_state)
    }

    /// Routes one input event of the given kind (`captured`: the overlay took it), and
    /// hands it to the active scene when it is forwarded.
    pub fn process_input(&mut self, event: &Event<()>, kind: InputKind, captured: bool) -> (r:
        InputAction)
        ensures
            r == route(captured, kind),
            r != InputAction::Forward ==> final(self).scene_manager == old(self).scene_manager,
            r != InputAction::Forward ==> final(self).world == old(self).world,
            final(self).scene_manager.has_current() == old(self).scene_manager.has_current(),
            r == InputAction::Forward && old(self).scene_manager.has_current()
                ==> final(self).scene_manager.current()->0.inputs()
                == old(self).scene_manager.current()->0.inputs() + 1,
            r == InputAction::Forward && old(self).scene_manager.has_current()
                ==> final(self).scene_manager.current()->0.updates()
                == old(self).scene_manager.current()->0.updates(),
            r == InputAction::Forward && old(self).scene_manager.has_current()
                ==> final(self).scene_manager.current()->0.cleanups()
                == old(self).scene_manager.current()->0.cleanups(),
            final(self).scene_manager.next() == old(self).scene_manager.next(),
            final(self).time_state == old(self).time_state,
    {
        dispatch_input(
            &mut self.scene_manager,
            &mut self.world,
            &self.resources,
            event,
            kind,
            captured,
        )
    }

    /// Whether a scene is waiting to replace the active one.
    pub fn has_next_scene(&self) -> (r: bool)
        ensures
            r == self.scene_manager.has_next(),
    {
        self.scene_manager.has_next_scene()
    }
}

} // verus!
