use vstd::prelude::*;

verus! {

/// Where a session stands.
#[derive(Debug, Clone, Copy, PartialEq, Eq, Structural)]
pub enum PipelineState {
    Idle,
    Configuring,
    Running,
    Stopping,
    Faulted,
}

/// The stages of a pipeline, in the order in which they are brought up: a
/// stage never comes up before everything downstream of it can take its
/// output.
#[derive(Debug, Clone, Copy, PartialEq, Eq, Structural)]
pub enum Stage {
    Transport,
    Encoder,
    Capture,
    Audio,
}

/// One thing a lifecycle asks of the collaborators.
#[derive(Debug, Clone, Copy, PartialEq, Eq, Structural)]
pub enum Step {
    /// Initialize and start the stage.
    BringUp(Stage),
    /// Move what is still buffered through the encoder and the transport.
    Drain,
    /// Stop the stage and let go of it.
    Shutdown(Stage),
}

/// What a lifecycle is working towards.
#[derive(Debug, Clone, Copy, PartialEq, Eq, Structural)]
pub enum Goal {
    /// Nothing: the next move is the host's.
    Rest,
    /// All stages of the configuration up.
    Up,
    /// No stage held.
    Down,
}

/// The stage at a position of the bring-up order.
pub open spec fn stage_at(index: nat) -> Stage {
    if index == 0 {
        Stage::Transport
    } else if index == 1 {
        Stage::Encoder
    } else if index == 2 {
        Stage::Capture
    } else {
        Stage::Audio
    }
}

/// How many stages a pipeline has, with or without audio.
pub open spec fn stage_count(audio: bool) -> nat {
    if audio {
        4
    } else {
        3
    }
}

/// Whether a step succeeds when exactly the stages in `healthy` can be
/// brought up. Draining and shutting down are best effort and never fail
/// the lifecycle.
pub open spec fn step_succeeds(step: Step, healthy: Set<Stage>) -> bool {
    match step {
        Step::BringUp(stage) => healthy.contains(stage),
        _ => true,
    }
}

/// How many stages come up, in order, before the first that is not in
/// `healthy`; the number of stages if all are.
pub open spec fn stages_up_before_failure(audio: bool, healthy: Set<Stage>) -> nat {
    if !healthy.contains(Stage::Transport) {
        0
    } else if !healthy.contains(Stage::Encoder) {
        1
    } else if !healthy.contains(Stage::Capture) {
        2
    } else if audio && !healthy.contains(Stage::Audio) {
        3
    } else {
        stage_count(audio)
    }
}

/// The first `count` stages brought up in order.
pub open spec fn bring_ups(count: nat) -> Seq<Step> {
    Seq::new(count, |i: int| Step::BringUp(stage_at(i as nat)))
}

/// The first `count` stages shut down, the last of them first.
pub open spec fn shutdowns(count: nat) -> Seq<Step> {
    Seq::new(count, |i: int| Step::Shutdown(stage_at((count - 1 - i) as nat)))
}

/// The steps that let go of `held` stages in reverse order, with a drain
/// once the capture stages are down if `drain` asks for one.
pub open spec fn teardown(held: nat, drain: bool) -> Seq<Step> {
    if drain && held >= 2 {
        shutdowns(held).take(held - 2) + seq![Step::Drain] + shutdowns(held).skip(held - 2)
    } else {
        shutdowns(held)
    }
}

/// The state of a lifecycle as a value.
pub struct LifecycleView {
    pub state: PipelineState,
    pub goal: Goal,
    /// Whether the configuration has an audio stage.
    pub audio: bool,
    /// How many stages are held; they are the first `held` of the bring-up order.
    pub held: nat,
    /// Whether a teardown under way has no drain left to do.
    pub drained: bool,
}

impl LifecycleView {
    /// A lifecycle before its first configuration.
    pub open spec fn idle() -> Self {
        LifecycleView {
            state: PipelineState::Idle,
            goal: Goal::Rest,
            audio: false,
            held: 0,
            drained: false,
        }
    }

    /// A lifecycle that runs the stages of a configuration with or without
    /// audio.
    pub open spec fn running(audio: bool) -> Self {
        LifecycleView {
            state: PipelineState::Running,
            goal: Goal::Rest,
            audio,
            held: stage_count(audio),
            drained: false,
        }
    }

    /// A lifecycle that is faulted and holds nothing.
    pub open spec fn faulted(audio: bool) -> Self {
        LifecycleView {
            state: PipelineState::Faulted,
            goal: Goal::Rest,
            audio,
            held: 0,
            drained: true,
        }
    }

    /// The states a lifecycle can be in.
    pub open spec fn wf(self) -> bool {
        &&& self.held <= 4
        &&& match self.goal {
            Goal::Rest => match self.state {
                PipelineState::Idle => self == LifecycleView::idle(),
                PipelineState::Configuring => self.held == 0 && !self.drained,
                PipelineState::Running => self == LifecycleView::running(self.audio),
                PipelineState::Stopping => false,
                PipelineState::Faulted => self == LifecycleView::faulted(self.audio),
            },
            Goal::Up => {
                &&& self.state == PipelineState::Configuring
                &&& self.held < stage_count(self.audio)
                &&& !self.drained
            },
            Goal::Down => {
                &&& self.held > 0
                &&& match self.state {
                    PipelineState::Stopping => true,
                    PipelineState::Configuring => self.drained,
                    PipelineState::Faulted => self.drained,
                    _ => false,
                }
            },
        }
    }

    /// Where a lifecycle may come to rest once every step it asks for is
    /// taken: a start, and a replacement, end running or faulted; a stop ends
    /// idle; the teardown of a faulted lifecycle leaves it faulted.
    pub open spec fn may_settle_to(self, end: Self) -> bool {
        match self.goal {
            Goal::Rest => end == self,
            Goal::Up => end == LifecycleView::running(self.audio) || end == LifecycleView::faulted(
                self.audio,
            ),
            Goal::Down => match self.state {
                PipelineState::Stopping => end == LifecycleView::idle(),
                PipelineState::Faulted => end == LifecycleView::faulted(self.audio),
                _ => end == LifecycleView::running(self.audio) || end == LifecycleView::faulted(
                    self.audio,
                ),
            },
        }
    }

    /// The step that has to be taken next, if any.
    pub open spec fn next_step(self) -> Option<Step> {
        match self.goal {
            Goal::Rest => None,
            Goal::Up => Some(Step::BringUp(stage_at(self.held))),
            Goal::Down => if self.held == 2 && !self.drained {
                Some(Step::Drain)
            } else {
                Some(Step::Shutdown(stage_at((self.held - 1) as nat)))
            },
        }
    }

    /// The lifecycle after `step` was taken with the given result. A step
    /// other than the one asked for changes nothing.
    pub open spec fn after_step(self, step: Step, succeeded: bool) -> Self {
        if self.next_step() != Some(step) {
            self
        } else {
            match step {
                Step::BringUp(_) => if !succeeded {
                    LifecycleView {
                        state: PipelineState::Faulted,
                        goal: if self.held > 0 {
                            Goal::Down
                        } else {
                            Goal::Rest
                        },
                        drained: true,
                        ..self
                    }
                } else if self.held + 1 == stage_count(self.audio) {
                    LifecycleView {
                        state: PipelineState::Running,
                        goal: Goal::Rest,
                        held: self.held + 1,
                        ..self
                    }
                } else {
                    LifecycleView { held: self.held + 1, ..self }
                },
                Step::Drain => LifecycleView { drained: true, ..self },
                Step::Shutdown(_) => if self.held > 1 {
                    LifecycleView { held: (self.held - 1) as nat, ..self }
                } else {
                    match self.state {
                        PipelineState::Stopping => LifecycleView::idle(),
                        PipelineState::Configuring => LifecycleView {
                            goal: Goal::Up,
                            held: 0,
                            drained: false,
                            ..self
                        },
                        _ => LifecycleView { goal: Goal::Rest, held: 0, ..self },
                    }
                },
            }
        }
    }

    /// A configuration is taken only by an idle lifecycle.
    pub open spec fn after_configure(self, audio: bool) -> Self {
        if self.state == PipelineState::Idle {
            LifecycleView {
                state: PipelineState::Configuring,
                goal: Goal::Rest,
                audio,
                held: 0,
                drained: false,
            }
        } else {
            self
        }
    }

    /// Whether a request to start is taken: only with a configuration in
    /// hand and nothing under way.
    pub open spec fn can_start(self) -> bool {
        self.state == PipelineState::Configuring && self.goal == Goal::Rest
    }

    pub open spec fn after_start_request(self) -> Self {
        if self.can_start() {
            LifecycleView { goal: Goal::Up, ..self }
        } else {
            self
        }
    }

    /// A request to stop is taken in every state. With nothing held the
    /// lifecycle is idle at once; otherwise what is held is let go first,
    /// after a drain if the pipeline was running.
    pub open spec fn after_stop_request(self) -> Self {
        if self.held == 0 {
            LifecycleView::idle()
        } else {
            LifecycleView {
                state: PipelineState::Stopping,
                goal: Goal::Down,
                drained: self.state != PipelineState::Running,
                ..self
            }
        }
    }

    /// A new configuration is taken only by a running lifecycle: the stages
    /// are let go, without a drain, and brought up again.
    pub open spec fn after_reconfigure_request(self, audio: bool) -> Self {
        if self.state == PipelineState::Running {
            LifecycleView {
                state: PipelineState::Configuring,
                goal: Goal::Down,
                audio,
                drained: true,
                ..self
            }
        } else {
            self
        }
    }

    /// An unrecoverable failure is taken in every state: what is held is
    /// let go without a drain.
    pub open spec fn after_fault(self) -> Self {
        LifecycleView {
            state: PipelineState::Faulted,
            goal: if self.held > 0 {
                Goal::Down
            } else {
                Goal::Rest
            },
            drained: true,
            ..self
        }
    }

    /// A bound on the number of steps until the lifecycle rests.
    pub open spec fn effort(self) -> nat {
        match self.goal {
            Goal::Rest => 0,
            Goal::Up => (2 * stage_count(self.audio) - self.held) as nat,
            Goal::Down => self.held + (if self.drained {
                0nat
            } else {
                1nat
            }) + (if self.state == PipelineState::Configuring {
                2 * stage_count(self.audio) + 1
            } else {
                0nat
            }),
        }
    }

    /// The lifecycle at rest after every step it asks for was taken, when
    /// exactly the stages in `healthy` can be brought up.
    pub open spec fn settled(self, healthy: Set<Stage>) -> Self
        decreases self.effort(),
    {
        if self.wf() && self.next_step() is Some {
            let step = self.next_step()->Some_0;
            self.after_step(step, step_succeeds(step, healthy)).settled(healthy)
        } else {
            self
        }
    }

    /// The steps taken on the way to [`Self::settled`], in order.
    pub open spec fn steps_taken(self, healthy: Set<Stage>) -> Seq<Step>
        decreases self.effort(),
    {
        if self.wf() && self.next_step() is Some {
            let step = self.next_step()->Some_0;
            seq![step] + self.after_step(step, step_succeeds(step, healthy)).steps_taken(healthy)
        } else {
            Seq::<Step>::empty()
        }
    }
}

/// The control state of a session: which state it is in, which stages it
/// holds and which step it needs next.
///
/// A lifecycle makes no call itself. Its owner takes each step it asks for
/// and reports the result with [`Lifecycle::record`], until no step is left.
#[derive(Debug, Clone, Copy, PartialEq, Eq)]
pub struct Lifecycle {
    state: PipelineState,
    goal: Goal,
    audio: bool,
    held: u8,
    drained: bool,
}

impl View for Lifecycle {
    type V = LifecycleView;

    closed spec fn view(&self) -> LifecycleView {
        LifecycleView {
            state: self.state,
            goal: self.goal,
            audio: self.audio,
            held: self.held as nat,
            drained: self.drained,
        }
    }
}

fn stage_of(index: u8) -> (stage: Stage)
    ensures
        stage == stage_at(index as nat),
{
    if index == 0 {
        Stage::Transport
    } else if index == 1 {
        Stage::Encoder
    } else if index == 2 {
        Stage::Capture
    } else {
        Stage::Audio
    }
}

impl Lifecycle {
    pub fn new() -> (lifecycle: Self)
        ensures
            lifecycle@ == LifecycleView::idle(),
            lifecycle@.wf(),
    {
        Lifecycle {
            state: PipelineState::Idle,
            goal: Goal::Rest,
            audio: false,
            held: 0,
            drained: false,
        }
    }

    pub fn state(&self) -> (state: PipelineState)
        ensures
            state == self@.state,
    {
        self.state
    }

    /// How many stages are held.
    pub fn held(&self) -> (held: u8)
        ensures
            held == self@.held,
    {
        self.held
    }

    /// Whether `stage` is held: stages are held in bring-up order.
    pub fn holds(&self, stage: Stage) -> (held: bool)
        ensures
            held <==> exists|i: nat| i < self@.held && stage_at(i) == stage,
    {
        let position: u8 = match stage {
            Stage::Transport => 0,
            Stage::Encoder => 1,
            Stage::Capture => 2,
            Stage::Audio => 3,
        };
        proof {
            if position < self.held {
                assert(stage_at(position as nat) == stage);
            }
        }
        position < self.held
    }

    pub fn is_resting(&self) -> (resting: bool)
        ensures
            resting <==> self@.goal == Goal::Rest,
    {
        self.goal == Goal::Rest
    }

    /// The step to take next; `None` when the lifecycle rests.
    pub fn next_step(&self) -> (step: Option<Step>)
        requires
            self@.wf(),
        ensures
            step == self@.next_step(),
    {
        match self.goal {
            Goal::Rest => None,
            Goal::Up => Some(Step::BringUp(stage_of(self.held))),
            Goal::Down => {
                if self.held == 2 && !self.drained {
                    Some(Step::Drain)
                } else {
                    Some(Step::Shutdown(stage_of(self.held - 1)))
                }
            },
        }
    }

    /// Records that `step` was taken and whether it succeeded.
    pub fn record(&mut self, step: Step, succeeded: bool)
        requires
            old(self)@.wf(),
        ensures
            final(self)@ == old(self)@.after_step(step, succeeded),
            final(self)@.wf(),
            old(self)@.next_step() == Some(step) ==> final(self)@.effort() < old(self)@.effort(),
    {
        let expected = self.next_step();
        let asked = match expected {
            Some(next) => next == step,
            None => false,
        };
        if !asked {
            return ;
        }
        match step {
            Step::BringUp(_) => {
                let count: u8 = if self.audio {
                    4
                } else {
                    3
                };
                if !succeeded {
                    self.state = PipelineState::Faulted;
                    self.goal = if self.held > 0 {
                        Goal::Down
                    } else {
                        Goal::Rest
                    };
                    self.drained = true;
                } else if self.held + 1 == count {
                    self.state = PipelineState::Running;
                    self.goal = Goal::Rest;
                    self.held = self.held + 1;
                } else {
                    self.held = self.held + 1;
                }
            },
            Step::Drain => {
                self.drained = true;
            },
            Step::Shutdown(_) => {
                if self.held > 1 {
                    self.held = self.held - 1;
                } else {
                    match self.state {
                        PipelineState::Stopping => {
                            self.state = PipelineState::Idle;
                            self.goal = Goal::Rest;
                            self.audio = false;
                            self.held = 0;
                            self.drained = false;
                        },
                        PipelineState::Configuring => {
                            self.goal = Goal::Up;
                            self.held = 0;
                            self.drained = false;
                        },
                        _ => {
                            self.goal = Goal::Rest;
                            self.held = 0;
                        },
                    }
                }
            },
        }
    }

    /// Takes a configuration, with or without an audio stage, if the
    /// lifecycle is idle; tells whether it did.
    pub fn configure(&mut self, audio: bool) -> (taken: bool)
        requires
            old(self)@.wf(),
        ensures
            final(self)@ == old(self)@.after_configure(audio),
            final(self)@.wf(),
            taken <==> old(self)@.state == PipelineState::Idle,
    {
        if self.state == PipelineState::Idle {
            self.state = PipelineState::Configuring;
            self.goal = Goal::Rest;
            self.audio = audio;
            self.held = 0;
            self.drained = false;
            true
        } else {
            false
        }
    }

    /// Sets out to bring the stages up, if a configuration is in hand and
    /// nothing is under way; tells whether it did.
    pub fn request_start(&mut self) -> (taken: bool)
        requires
            old(self)@.wf(),
        ensures
            final(self)@ == old(self)@.after_start_request(),
            final(self)@.wf(),
            taken <==> old(self)@.can_start(),
    {
        if self.state == PipelineState::Configuring && self.goal == Goal::Rest {
            self.goal = Goal::Up;
            true
        } else {
            false
        }
    }

    /// Sets out to let go of everything held and become idle.
    pub fn request_stop(&mut self)
        requires
            old(self)@.wf(),
        ensures
            final(self)@ == old(self)@.after_stop_request(),
            final(self)@.wf(),
    {
        if self.held == 0 {
            self.state = PipelineState::Idle;
            self.goal = Goal::Rest;
            self.audio = false;
            self.drained = false;
        } else {
            self.drained = self.state != PipelineState::Running;
            self.state = PipelineState::Stopping;
            self.goal = Goal::Down;
        }
    }

    /// Sets out to replace the running stages by ones for a new
    /// configuration, if the lifecycle is running; tells whether it did.
    pub fn request_reconfigure(&mut self, audio: bool) -> (taken: bool)
        requires
            old(self)@.wf(),
        ensures
            final(self)@ == old(self)@.after_reconfigure_request(audio),
            final(self)@.wf(),
            taken <==> old(self)@.state == PipelineState::Running,
    {
        if self.state == PipelineState::Running {
            self.state = PipelineState::Configuring;
            self.goal = Goal::Down;
            self.audio = audio;
            self.drained = true;
            true
        } else {
            false
        }
    }

    /// Takes note of an unrecoverable failure.
    pub fn fault(&mut self)
        requires
            old(self)@.wf(),
        ensures
            final(self)@ == old(self)@.after_fault(),
            final(self)@.wf(),
    {
        self.state = PipelineState::Faulted;
        self.goal = if self.held > 0 {
            Goal::Down
        } else {
            Goal::Rest
        };
        self.drained = true;
    }
}

/// Every step a lifecycle asks for keeps it among the states a lifecycle
/// can be in and brings it closer to rest.
pub proof fn law_steps_lead_to_rest(v: LifecycleView, succeeded: bool)
    requires
        v.wf(),
        v.next_step() is Some,
    ensures
        v.after_step(v.next_step()->Some_0, succeeded).wf(),
        v.after_step(v.next_step()->Some_0, succeeded).effort() < v.effort(),
{
}

/// A step never opens a way to rest somewhere that was not open before.
pub proof fn law_steps_stay_on_course(v: LifecycleView, succeeded: bool, end: LifecycleView)
    requires
        v.wf(),
        v.next_step() is Some,
        v.after_step(v.next_step()->Some_0, succeeded).may_settle_to(end),
    ensures
        v.may_settle_to(end),
{
}

/// Taking every step a lifecycle asks for brings it to rest, whatever the
/// stages do, and to rest where [`LifecycleView::may_settle_to`] says.
pub proof fn law_settling_comes_to_rest(v: LifecycleView, healthy: Set<Stage>)
    requires
        v.wf(),
    ensures
        v.settled(healthy).wf(),
        v.settled(healthy).goal == Goal::Rest,
        v.may_settle_to(v.settled(healthy)),
        v.steps_taken(healthy).len() <= v.effort(),
    decreases v.effort(),
{
    if v.next_step() is Some {
        let step = v.next_step()->Some_0;
        let next = v.after_step(step, step_succeeds(step, healthy));
        law_steps_lead_to_rest(v, step_succeeds(step, healthy));
        law_settling_comes_to_rest(next, healthy);
        law_steps_stay_on_course(v, step_succeeds(step, healthy), next.settled(healthy));
    }
}

/// A freshly configured pipeline that is started ends up running exactly
/// when every stage of its configuration comes up, each brought up once
/// and in order. Otherwise it ends up faulted and holds nothing: the stages
/// before the failing one are shut down once each, the last of them first,
/// and the stages after it are never touched.
pub proof fn law_start_runs_iff_every_stage_comes_up(audio: bool, healthy: Set<Stage>)
    ensures
        ({
            let begun = LifecycleView::idle().after_configure(audio).after_start_request();
            let end = begun.settled(healthy);
            let steps = begun.steps_taken(healthy);
            let count = stage_count(audio);
            let up = stages_up_before_failure(audio, healthy);
            &&& up <= count
            &&& up == count <==> forall|i: nat| i < count ==> healthy.contains(#[trigger] stage_at(i))
            &&& end.goal == Goal::Rest
            &&& end.state == PipelineState::Running <==> up == count
            &&& up == count ==> end.held == count && steps == bring_ups(count)
            &&& up < count ==> {
                &&& end.state == PipelineState::Faulted
                &&& end.held == 0
                &&& !healthy.contains(stage_at(up))
                &&& steps == bring_ups(up + 1) + shutdowns(up)
            }
        }),
{
    let begun = LifecycleView::idle().after_configure(audio).after_start_request();
    let steps = begun.steps_taken(healthy);
    let count = stage_count(audio);
    let up = stages_up_before_failure(audio, healthy);
    reveal_with_fuel(LifecycleView::settled, 9);
    reveal_with_fuel(LifecycleView::steps_taken, 9);
    assert(stage_at(0) == Stage::Transport);
    assert(stage_at(1) == Stage::Encoder);
    assert(stage_at(2) == Stage::Capture);
    assert(stage_at(3) == Stage::Audio);
    if up == count {
        assert(steps =~= bring_ups(count));
    } else {
        assert(steps =~= bring_ups(up + 1) + shutdowns(up));
    }
}

/// A request to stop ends in the idle state from every state, in at most
/// five steps and whatever the stages do: the stages held are shut down
/// once each, the last brought up first, and a running pipeline is drained
/// after its capture stages are down.
pub proof fn law_stop_ends_idle(v: LifecycleView, healthy: Set<Stage>)
    requires
        v.wf(),
    ensures
        v.after_stop_request().settled(healthy) == LifecycleView::idle(),
        v.after_stop_request().steps_taken(healthy) == teardown(
            v.held,
            v.state == PipelineState::Running,
        ),
        v.after_stop_request().steps_taken(healthy).len() <= 5,
{
    let asked = v.after_stop_request();
    reveal_with_fuel(LifecycleView::settled, 7);
    reveal_with_fuel(LifecycleView::steps_taken, 7);
    assert(asked.steps_taken(healthy) =~= teardown(v.held, v.state == PipelineState::Running));
}

/// A second request to stop changes nothing and asks for no step.
pub proof fn law_second_stop_changes_nothing(v: LifecycleView, healthy: Set<Stage>)
    requires
        v.wf(),
    ensures
        ({
            let once = v.after_stop_request().settled(healthy);
            &&& once.after_stop_request() == once
            &&& once.after_stop_request().steps_taken(healthy) == Seq::<Step>::empty()
            &&& once.after_stop_request().settled(healthy) == once
        }),
{
    law_stop_ends_idle(v, healthy);
}

/// A running pipeline that is given a new configuration lets go of its
/// stages, without a drain, and then fares as a freshly started one: it runs
/// with the new configuration if every stage comes up and is faulted,
/// holding nothing, if one does not. It never goes back to the old
/// configuration.
pub proof fn law_reconfigure_restarts_or_faults(v: LifecycleView, audio: bool, healthy: Set<Stage>)
    requires
        v.wf(),
        v.state == PipelineState::Running,
    ensures
        ({
            let asked = v.after_reconfigure_request(audio);
            let end = asked.settled(healthy);
            let fresh = LifecycleView::idle().after_configure(audio).after_start_request();
            &&& end == fresh.settled(healthy)
            &&& asked.steps_taken(healthy) == teardown(v.held, false) + fresh.steps_taken(healthy)
        }),
{
    let asked = v.after_reconfigure_request(audio);
    let fresh = LifecycleView::idle().after_configure(audio).after_start_request();
    reveal_with_fuel(LifecycleView::settled, 6);
    reveal_with_fuel(LifecycleView::steps_taken, 6);
    let a1 = asked.after_step(asked.next_step()->Some_0, true);
    let a2 = a1.after_step(a1.next_step()->Some_0, true);
    let a3 = a2.after_step(a2.next_step()->Some_0, true);
    if v.held == 4 {
        let a4 = a3.after_step(a3.next_step()->Some_0, true);
        assert(a4 == fresh);
    } else {
        assert(a3 == fresh);
    }
    assert(asked.steps_taken(healthy) =~= teardown(v.held, false) + fresh.steps_taken(healthy));
}


/// The moves from one state to another that a lifecycle can make in one
/// request or step: an idle lifecycle is configured; a configured one comes
/// to run, is stopped or fails; a running one is stopped, reconfigured or
/// fails; a stopping one becomes idle; a faulted one is left only by a
/// stop. A failure can strike in every state.
pub open spec fn may_follow(from: PipelineState, to: PipelineState) -> bool {
    from == to || to == PipelineState::Faulted || match from {
        PipelineState::Idle => to == PipelineState::Configuring,
        PipelineState::Configuring => to == PipelineState::Running || to == PipelineState::Idle
            || to == PipelineState::Stopping,
        PipelineState::Running => to == PipelineState::Stopping || to
            == PipelineState::Configuring,
        PipelineState::Stopping => to == PipelineState::Idle,
        PipelineState::Faulted => to == PipelineState::Idle || to == PipelineState::Stopping,
    }
}

/// Whatever is asked of a lifecycle and whatever its steps come to, its
/// state changes only along the moves of [`may_follow`], and it stays among
/// the states a lifecycle can be in.
pub proof fn law_states_change_as_charted(
    v: LifecycleView,
    step: Step,
    succeeded: bool,
    audio: bool,
)
    requires
        v.wf(),
    ensures
        v.after_step(step, succeeded).wf(),
        may_follow(v.state, v.after_step(step, succeeded).state),
        v.after_configure(audio).wf(),
        may_follow(v.state, v.after_configure(audio).state),
        v.after_start_request().wf(),
        v.after_start_request().state == v.state,
        v.after_stop_request().wf(),
        may_follow(v.state, v.after_stop_request().state),
        v.after_reconfigure_request(audio).wf(),
        may_follow(v.state, v.after_reconfigure_request(audio).state),
        v.after_fault().wf(),
        v.after_fault().state == PipelineState::Faulted,
{
}

/// A faulted lifecycle stays faulted whatever is asked of it and whatever
/// its steps come to, until it is asked to stop.
pub proof fn law_only_a_stop_leaves_faulted(
    v: LifecycleView,
    step: Step,
    succeeded: bool,
    audio: bool,
)
    requires
        v.wf(),
        v.state == PipelineState::Faulted,
    ensures
        v.after_step(step, succeeded).state == PipelineState::Faulted,
        v.after_configure(audio) == v,
        v.after_start_request() == v,
        v.after_reconfigure_request(audio) == v,
        v.after_fault().state == PipelineState::Faulted,
        v.after_stop_request().state != PipelineState::Faulted,
{
}

/// Stages are brought up only on the way from a configuration to running,
/// and a stage is asked to work only while it is held: a lifecycle asks for
/// a stage to be brought up only in the configuring state, and only for the
/// stage that follows the ones it holds.
pub proof fn law_stages_come_up_only_while_configuring(v: LifecycleView, stage: Stage)
    requires
        v.wf(),
        v.next_step() == Some(Step::BringUp(stage)),
    ensures
        v.state == PipelineState::Configuring,
        stage == stage_at(v.held),
        v.held < stage_count(v.audio),
{
}


} // verus!
