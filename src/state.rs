//! The two independent two-state machines that gate each tick, and the
//! controller that holds them.
use vstd::prelude::*;

verus! {

/// Whether the physics advances.
#[derive(Clone, Copy, Debug, PartialEq, Eq, Hash, Structural)]
pub enum SimulationState {
    Stopped,
    Running,
}

/// Whether trails are recorded and drawn.
#[derive(Clone, Copy, Debug, PartialEq, Eq, Hash, Structural)]
pub enum TrailState {
    Hide,
    Show,
}

impl SimulationState {
    /// The other state: the target of the single transition.
    pub open spec fn toggled(self) -> SimulationState {
        match self {
            SimulationState::Stopped => SimulationState::Running,
            SimulationState::Running => SimulationState::Stopped,
        }
    }

    /// The state the machine starts in.
    pub fn initial() -> (r: SimulationState)
        ensures
            r == SimulationState::Stopped,
    {
        SimulationState::Stopped
    }

    /// The single transition: Stopped and Running swap.
    pub fn toggle(self) -> (r: SimulationState)
        ensures
            r == self.toggled(),
    {
        match self {
            SimulationState::Stopped => SimulationState::Running,
            SimulationState::Running => SimulationState::Stopped,
        }
    }
}

impl TrailState {
    /// The other state: the target of the single transition.
    pub open spec fn toggled(self) -> TrailState {
        match self {
            TrailState::Show => TrailState::Hide,
            TrailState::Hide => TrailState::Show,
        }
    }

    /// The state the machine starts in.
    pub fn initial() -> (r: TrailState)
        ensures
            r == TrailState::Show,
    {
        TrailState::Show
    }

    /// The single transition: Show and Hide swap.
    pub fn toggle(self) -> (r: TrailState)
        ensures
            r == self.toggled(),
    {
        match self {
            TrailState::Show => TrailState::Hide,
            TrailState::Hide => TrailState::Show,
        }
    }
}

/// Toggling a run state twice gives back the state it started from.
pub proof fn lemma_simulation_toggle_twice(s: SimulationState)
    ensures
        s.toggled().toggled() == s,
{
}

/// Toggling a trail state twice gives back the state it started from.
pub proof fn lemma_trail_toggle_twice(s: TrailState)
    ensures
        s.toggled().toggled() == s,
{
}

/// The input events that drive the state machines.
#[derive(Clone, Copy, Debug, PartialEq, Eq, Structural)]
pub enum InputEvent {
    /// The run/stop key was pressed.
    ToggleRun,
    /// The show/hide-trails key was pressed.
    ToggleTrail,
}

/// Both state machines, explicit and passed to whatever runs a tick.
#[derive(Clone, Copy, Debug, PartialEq, Eq, Structural)]
pub struct Controller {
    pub run: SimulationState,
    pub trail: TrailState,
}

impl Controller {
    /// Whether the force pass and the integrator run in this state.
    pub open spec fn physics_on(self) -> bool {
        self.run == SimulationState::Running
    }

    /// Whether trails are recorded in this state: both gates must be open.
    pub open spec fn trails_on(self) -> bool {
        self.run == SimulationState::Running && self.trail == TrailState::Show
    }

    /// The state after one input event: only the machine the event names moves.
    pub open spec fn after(self, e: InputEvent) -> Controller {
        match e {
            InputEvent::ToggleRun => Controller { run: self.run.toggled(), ..self },
            InputEvent::ToggleTrail => Controller { trail: self.trail.toggled(), ..self },
        }
    }

    /// Stopped, with trails shown.
    pub fn new() -> (r: Controller)
        ensures
            r.run == SimulationState::Stopped,
            r.trail == TrailState::Show,
    {
        Controller { run: SimulationState::initial(), trail: TrailState::initial() }
    }

    /// Applies one input event.
    pub fn handle(&mut self, e: InputEvent)
        ensures
            *final(self) == old(self).after(e),
    {
        match e {
            InputEvent::ToggleRun => {
                self.run = self.run.toggle();
            },
            InputEvent::ToggleTrail => {
                self.trail = self.trail.toggle();
            },
        }
    }

    /// Whether the force pass and the integrator run this tick.
    pub fn physics_enabled(&self) -> (r: bool)
        ensures
            r == self.physics_on(),
    {
        self.run == SimulationState::Running
    }

    /// Whether trails are recorded this frame.
    pub fn trails_enabled(&self) -> (r: bool)
        ensures
            r == self.trails_on(),
    {
        self.run == SimulationState::Running && self.trail == TrailState::Show
    }
}

/// The same event twice leaves the controller as it was.
pub proof fn lemma_event_twice(c: Controller, e: InputEvent)
    ensures
        c.after(e).after(e) == c,
{
}

} // verus!
