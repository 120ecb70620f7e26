//! The render node: what it does in one frame, one action at a time.
//!
//! The node itself touches neither the engine nor the GPU. It names the next
//! action; the host performs it and reports back; the node then names the
//! action after that. A frame starts at [`RayTracerNode::start`] and is over
//! when the action is [`NodeAction::Finish`].
//!
//! The inputs are resolved in a fixed order and the first one that is not
//! ready ends the frame: nothing is bound and no pass is begun on a frame
//! that is skipped. Only a line buffer without a binding is reported.

use vstd::prelude::*;

verus! {

/// How a frame ended.
#[derive(Clone, Copy, Debug, PartialEq, Eq, Structural)]
pub enum Outcome {
    /// The full-screen pass was issued.
    Drawn,
    /// An input was not ready; nothing was bound and nothing was drawn.
    Skipped,
}

/// One draw of a render pass.
#[derive(Clone, Copy, Debug, PartialEq, Eq, Structural)]
pub struct DrawCall {
    /// The index at which the bind group is set.
    pub bind_group: u32,
    /// The number of vertices, from vertex 0 on.
    pub vertices: u32,
    /// The number of instances, from instance 0 on.
    pub instances: u32,
}

impl DrawCall {
    /// The draw that covers the whole view with a single triangle: three
    /// vertices without a vertex buffer, one instance, the bind group at
    /// index 0.
    pub open spec fn fullscreen_spec() -> DrawCall {
        DrawCall { bind_group: 0, vertices: 3, instances: 1 }
    }

    /// The draw that covers the whole view with a single triangle.
    #[verifier::when_used_as_spec(fullscreen_spec)]
    pub fn fullscreen() -> (call: DrawCall)
        ensures
            call == DrawCall::fullscreen_spec(),
    {
        DrawCall { bind_group: 0, vertices: 3, instances: 1 }
    }
}

/// What the node asks its host to do next.
#[derive(Clone, Copy, Debug, PartialEq, Eq, Structural)]
pub enum NodeAction {
    /// Look up the compiled pipeline.
    ResolvePipeline,
    /// Take the view's post-process pair: the source holds the image so
    /// far, the destination receives the output of this pass.
    PreparePostProcess,
    /// Look up the binding of the player uniform.
    ResolveUniform,
    /// Look up the binding of the line buffer.
    ResolveLines,
    /// Report that the line buffer has no binding.
    ReportMissingLines,
    /// Create the bind group from the source texture, the sampler, the
    /// uniform binding and the line binding, in this order.
    CreateBindGroup,
    /// Begin a render pass that writes the destination only, set the
    /// pipeline and the bind group, and issue the draw.
    Draw(DrawCall),
    /// The frame is over.
    Finish(Outcome),
}

impl NodeAction {
    /// The actions that look something up; the host answers them with
    /// found or missing.
    pub open spec fn is_lookup(self) -> bool {
        self == NodeAction::ResolvePipeline || self == NodeAction::ResolveUniform || self
            == NodeAction::ResolveLines
    }

    /// The actions that create or use a GPU resource of this pass.
    pub open spec fn is_gpu_work(self) -> bool {
        self == NodeAction::CreateBindGroup || self is Draw
    }
}

/// Where the node stands within a frame: the action it has asked for and
/// whose reply it awaits.
#[derive(Clone, Copy, Debug, PartialEq, Eq, Structural)]
pub enum NodeState {
    /// The frame has begun; the pipeline is being looked up.
    AwaitPipeline,
    /// The pipeline is there; the post-process pair is being taken.
    AwaitPostProcess,
    /// The binding of the player uniform is being looked up.
    AwaitUniform,
    /// The binding of the line buffer is being looked up.
    AwaitLines,
    /// The line buffer has no binding; this is being reported.
    AwaitReport,
    /// Every input is there; the bind group is being created.
    AwaitBindGroup,
    /// The pass is being drawn.
    AwaitDraw,
    /// The frame is over.
    Done(Outcome),
}

impl NodeState {
    /// The action that the host is to perform in this state.
    pub open spec fn action_spec(self) -> NodeAction {
        match self {
            NodeState::AwaitPipeline => NodeAction::ResolvePipeline,
            NodeState::AwaitPostProcess => NodeAction::PreparePostProcess,
            NodeState::AwaitUniform => NodeAction::ResolveUniform,
            NodeState::AwaitLines => NodeAction::ResolveLines,
            NodeState::AwaitReport => NodeAction::ReportMissingLines,
            NodeState::AwaitBindGroup => NodeAction::CreateBindGroup,
            NodeState::AwaitDraw => NodeAction::Draw(DrawCall::fullscreen_spec()),
            NodeState::Done(outcome) => NodeAction::Finish(outcome),
        }
    }

    /// The state after the host's reply. A lookup that found its resource
    /// leads to the next input, one that did not ends the frame: silently
    /// for the pipeline and the uniform, after a report for the lines. The
    /// other actions cannot fail and their reply is not read. A frame that
    /// is over stays over.
    pub open spec fn step_spec(self, found: bool) -> NodeState {
        match self {
            NodeState::AwaitPipeline => if found {
                NodeState::AwaitPostProcess
            } else {
                NodeState::Done(Outcome::Skipped)
            },
            NodeState::AwaitPostProcess => NodeState::AwaitUniform,
            NodeState::AwaitUniform => if found {
                NodeState::AwaitLines
            } else {
                NodeState::Done(Outcome::Skipped)
            },
            NodeState::AwaitLines => if found {
                NodeState::AwaitBindGroup
            } else {
                NodeState::AwaitReport
            },
            NodeState::AwaitReport => NodeState::Done(Outcome::Skipped),
            NodeState::AwaitBindGroup => NodeState::AwaitDraw,
            NodeState::AwaitDraw => NodeState::Done(Outcome::Drawn),
            NodeState::Done(outcome) => NodeState::Done(outcome),
        }
    }

    /// How far the frame has come: no state is left for one of lower rank.
    pub open spec fn rank(self) -> nat {
        match self {
            NodeState::AwaitPipeline => 0,
            NodeState::AwaitPostProcess => 1,
            NodeState::AwaitUniform => 2,
            NodeState::AwaitLines => 3,
            NodeState::AwaitReport => 4,
            NodeState::AwaitBindGroup => 4,
            NodeState::AwaitDraw => 5,
            NodeState::Done(_) => 6,
        }
    }

    /// The action that the host is to perform in this state.
    #[verifier::when_used_as_spec(action_spec)]
    pub fn action(self) -> (action: NodeAction)
        ensures
            action == self.action_spec(),
    {
        match self {
            NodeState::AwaitPipeline => NodeAction::ResolvePipeline,
            NodeState::AwaitPostProcess => NodeAction::PreparePostProcess,
            NodeState::AwaitUniform => NodeAction::ResolveUniform,
            NodeState::AwaitLines => NodeAction::ResolveLines,
            NodeState::AwaitReport => NodeAction::ReportMissingLines,
            NodeState::AwaitBindGroup => NodeAction::CreateBindGroup,
            NodeState::AwaitDraw => NodeAction::Draw(DrawCall::fullscreen()),
            NodeState::Done(outcome) => NodeAction::Finish(outcome),
        }
    }

    /// Takes the host's reply to the pending action and moves on. `found`
    /// is read only where the action was a lookup.
    #[verifier::when_used_as_spec(step_spec)]
    pub fn step(self, found: bool) -> (next: NodeState)
        ensures
            next == self.step_spec(found),
            !(self is Done) ==> next.rank() > self.rank(),
            self is Done ==> next == self,
    {
        match self {
            NodeState::AwaitPipeline => {
                if found {
                    NodeState::AwaitPostProcess
                } else {
                    NodeState::Done(Outcome::Skipped)
                }
            },
            NodeState::AwaitPostProcess => NodeState::AwaitUniform,
            NodeState::AwaitUniform => {
                if found {
                    NodeState::AwaitLines
                } else {
                    NodeState::Done(Outcome::Skipped)
                }
            },
            NodeState::AwaitLines => {
                if found {
                    NodeState::AwaitBindGroup
                } else {
                    NodeState::AwaitReport
                }
            },
            NodeState::AwaitReport => NodeState::Done(Outcome::Skipped),
            NodeState::AwaitBindGroup => NodeState::AwaitDraw,
            NodeState::AwaitDraw => NodeState::Done(Outcome::Drawn),
            NodeState::Done(outcome) => NodeState::Done(outcome),
        }
    }

    /// Whether the frame is over, and how it ended.
    pub fn outcome(self) -> (outcome: Option<Outcome>)
        ensures
            outcome == (match self {
                NodeState::Done(o) => Some(o),
                _ => None::<Outcome>,
            }),
    {
        match self {
            NodeState::Done(o) => Some(o),
            _ => None,
        }
    }
}

/// What the host would find if it looked: whether the pipeline is compiled,
/// whether the player uniform has a binding, whether the line buffer has one.
#[derive(Clone, Copy, Debug, PartialEq, Eq, Structural)]
pub struct Readiness {
    pub pipeline: bool,
    pub uniform: bool,
    pub lines: bool,
}

impl Readiness {
    /// Every input is ready.
    pub open spec fn complete(self) -> bool {
        self.pipeline && self.uniform && self.lines
    }

    /// The reply that a host with this readiness gives in `state`.
    pub open spec fn reply_spec(self, state: NodeState) -> bool {
        match state {
            NodeState::AwaitPipeline => self.pipeline,
            NodeState::AwaitUniform => self.uniform,
            NodeState::AwaitLines => self.lines,
            _ => true,
        }
    }

    /// The reply that a host with this readiness gives in `state`: what the
    /// lookup finds, and `true` for an action that is no lookup.
    #[verifier::when_used_as_spec(reply_spec)]
    pub fn reply(self, state: NodeState) -> (found: bool)
        ensures
            found == self.reply_spec(state),
    {
        match state {
            NodeState::AwaitPipeline => self.pipeline,
            NodeState::AwaitUniform => self.uniform,
            NodeState::AwaitLines => self.lines,
            _ => true,
        }
    }
}

/// The actions of a whole frame, in the order in which they are issued, for
/// a host with the given readiness.
pub open spec fn frame(ready: Readiness) -> Seq<NodeAction> {
    if !ready.pipeline {
        seq![NodeAction::ResolvePipeline, NodeAction::Finish(Outcome::Skipped)]
    } else if !ready.uniform {
        seq![
            NodeAction::ResolvePipeline,
            NodeAction::PreparePostProcess,
            NodeAction::ResolveUniform,
            NodeAction::Finish(Outcome::Skipped),
        ]
    } else if !ready.lines {
        seq![
            NodeAction::ResolvePipeline,
            NodeAction::PreparePostProcess,
            NodeAction::ResolveUniform,
            NodeAction::ResolveLines,
            NodeAction::ReportMissingLines,
            NodeAction::Finish(Outcome::Skipped),
        ]
    } else {
        seq![
            NodeAction::ResolvePipeline,
            NodeAction::PreparePostProcess,
            NodeAction::ResolveUniform,
            NodeAction::ResolveLines,
            NodeAction::CreateBindGroup,
            NodeAction::Draw(DrawCall::fullscreen_spec()),
            NodeAction::Finish(Outcome::Drawn),
        ]
    }
}

/// The actions that are issued from `state` on, when each reply is the one
/// that `ready` gives, up to and including the end of the frame.
pub open spec fn trace(state: NodeState, ready: Readiness) -> Seq<NodeAction>
    decreases 6 - state.rank(),
{
    if state is Done {
        seq![state.action_spec()]
    } else {
        seq![state.action_spec()] + trace(state.step_spec(ready.reply_spec(state)), ready)
    }
}

/// The render node. It keeps nothing between frames.
#[derive(Clone, Copy, Debug, PartialEq, Eq, Structural)]
pub struct RayTracerNode;

impl Default for RayTracerNode {
    fn default() -> (node: RayTracerNode)
        ensures
            node == RayTracerNode,
    {
        RayTracerNode
    }
}

impl RayTracerNode {
    /// The state in which every frame starts.
    pub open spec fn start_spec() -> NodeState {
        NodeState::AwaitPipeline
    }

    /// The state in which every frame starts: the pipeline is looked up
    /// first.
    #[verifier::when_used_as_spec(start_spec)]
    pub fn start() -> (state: NodeState)
        ensures
            state == NodeState::AwaitPipeline,
    {
        NodeState::AwaitPipeline
    }

    /// Plays one frame against a host with the given readiness and returns
    /// the actions in the order in which the node issues them.
    pub fn run(&self, ready: Readiness) -> (actions: Vec<NodeAction>)
        ensures
            actions@ == frame(ready),
    {
        let mut actions: Vec<NodeAction> = Vec::new();
        let mut state = RayTracerNode::start();
        proof {
            law_steps_make_the_frame(ready);
        }
        while state.outcome().is_none()
            invariant
                actions@ + trace(state, ready) == frame(ready),
            decreases 6 - state.rank(),
        {
            actions.push(state.action());
            state = state.step(ready.reply(state));
        }
        actions.push(state.action());
        actions
    }
}

/// `action` occurs in `actions` at one place and no other.
pub open spec fn issued_once(actions: Seq<NodeAction>, action: NodeAction) -> bool {
    exists|i: int|
        0 <= i < actions.len() && #[trigger] actions[i] == action && forall|j: int|
            0 <= j < actions.len() && #[trigger] actions[j] == action ==> j == i
}

/// Stepping through a frame issues exactly the actions of [`frame`]: the
/// node, started afresh and answered by a host with readiness `ready`, asks
/// for `frame(ready)` and nothing else.
pub proof fn law_steps_make_the_frame(ready: Readiness)
    ensures
        trace(RayTracerNode::start_spec(), ready) == frame(ready),
{
    reveal_with_fuel(trace, 8);
}

/// Every step of a frame that is not over brings it nearer to its end, so
/// that a frame is over after at most six replies; the reply to an action
/// that is no lookup does not matter.
pub proof fn law_frames_end(state: NodeState, found: bool)
    ensures
        !(state is Done) ==> state.rank() < state.step_spec(found).rank() <= 6,
        state is Done <==> state.rank() == 6,
        state is Done ==> state.step_spec(found) == state,
        !state.action_spec().is_lookup() ==> state.step_spec(found) == state.step_spec(true),
{
}

/// A frame ends once, with its last action, and it ends drawn exactly when
/// the pipeline, the uniform binding and the line binding were all ready.
pub proof fn law_drawn_iff_ready(ready: Readiness)
    ensures
        frame(ready).len() >= 2,
        frame(ready).last() == NodeAction::Finish(
            if ready.complete() {
                Outcome::Drawn
            } else {
                Outcome::Skipped
            },
        ),
        forall|i: int| 0 <= i < frame(ready).len() - 1 ==> !(#[trigger] frame(ready)[i] is Finish),
{
}

/// A frame that is skipped leaves the GPU alone: the bind group is created
/// and the pass is begun only after all three lookups have succeeded, each
/// once, the bind group first, and the draw is the full-screen triangle.
pub proof fn law_gpu_work_needs_every_input(ready: Readiness)
    ensures
        !ready.complete() ==> forall|i: int|
            0 <= i < frame(ready).len() ==> !(#[trigger] frame(ready)[i]).is_gpu_work(),
        ready.complete() ==> {
            &&& frame(ready)[0] == NodeAction::ResolvePipeline
            &&& frame(ready)[2] == NodeAction::ResolveUniform
            &&& frame(ready)[3] == NodeAction::ResolveLines
            &&& frame(ready)[4] == NodeAction::CreateBindGroup
            &&& frame(ready)[5] == NodeAction::Draw(DrawCall::fullscreen_spec())
            &&& issued_once(frame(ready), NodeAction::CreateBindGroup)
            &&& issued_once(frame(ready), NodeAction::Draw(DrawCall::fullscreen_spec()))
        },
{
    if ready.complete() {
        assert(frame(ready)[4] == NodeAction::CreateBindGroup);
        assert(frame(ready)[5] == NodeAction::Draw(DrawCall::fullscreen_spec()));
    }
}

/// Skip ordering. When the node looks for the binding of the line buffer
/// and there is none, it creates no bind group and begins no pass, and it
/// reports the missing binding exactly once before the frame ends.
pub proof fn law_skip_ordering(ready: Readiness)
    requires
        ready.pipeline,
        ready.uniform,
        !ready.lines,
    ensures
        forall|i: int|
            0 <= i < frame(ready).len() ==> !(#[trigger] frame(ready)[i]).is_gpu_work(),
        issued_once(frame(ready), NodeAction::ReportMissingLines),
        frame(ready).last() == NodeAction::Finish(Outcome::Skipped),
{
    assert(frame(ready)[4] == NodeAction::ReportMissingLines);
}

/// Only the line buffer is reported. A frame reports a missing binding if
/// and only if the pipeline and the uniform were ready and the line buffer
/// was not; a frame that ends on the pipeline or on the uniform is silent.
pub proof fn law_report_only_for_lines(ready: Readiness)
    ensures
        frame(ready).contains(NodeAction::ReportMissingLines) <==> ready.pipeline && ready.uniform
            && !ready.lines,
{
    if ready.pipeline && ready.uniform && !ready.lines {
        assert(frame(ready)[4] == NodeAction::ReportMissingLines);
    }
}

/// The inputs are looked up in a fixed order, each at most once, and a
/// later one only after the earlier ones were found.
pub proof fn law_lookups_in_order(ready: Readiness)
    ensures
        frame(ready)[0] == NodeAction::ResolvePipeline,
        frame(ready).contains(NodeAction::PreparePostProcess) <==> ready.pipeline,
        frame(ready).contains(NodeAction::ResolveUniform) <==> ready.pipeline,
        frame(ready).contains(NodeAction::ResolveLines) <==> ready.pipeline && ready.uniform,
        forall|i: int, j: int|
            0 <= i < j < frame(ready).len() ==> #[trigger] frame(ready)[i] != #[trigger] frame(
                ready,
            )[j],
{
    if ready.pipeline {
        assert(frame(ready)[1] == NodeAction::PreparePostProcess);
        assert(frame(ready)[2] == NodeAction::ResolveUniform);
        if ready.uniform {
            assert(frame(ready)[3] == NodeAction::ResolveLines);
        }
    }
}

} // verus!
