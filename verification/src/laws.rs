//! What holds of a window over its whole life.
//!
//! A life is a sequence of inputs. What each of them does is what the functions of
//! `WindowHandler` promise; here it is put together, and what follows for every life is proved.

use crate::editor::{open_plan, OpenStep};
use crate::event::{
    Code, Effect, Event, HostWindowEvent, Key, KeyboardEvent, MouseEvent, WindowEvent, WindowInfo,
};
use crate::geometry::{LogicalPosition, LogicalSize, PhysicalLength, PhysicalSize, Scalar};
use crate::handler::{
    event_effects, frame_plan, resize_effects, size_after_event, FrameStep, HandlerView,
};
use crate::keys::slint_text;
use vstd::prelude::*;

verus! {

/// One call that a window receives, or one of a host on the size on record.
///
/// What the handlers of the shell do during a frame, other than asking for sizes, stands as
/// inputs of its own: before the frame what they do before the resizes are processed, after it
/// what comes later.
pub enum Input<F> {
    /// `WindowHandler::on_event`
    Event(Event<F, Seq<char>>),
    /// `WindowHandler::resize`
    Resize {
        width: u32,
        height: u32,
    },
    /// `WindowHandler::queue_resize`
    QueueResize {
        width: u32,
        height: u32,
    },
    /// `WindowHandler::process_pending_resizes`
    ProcessPendingResizes,
    /// `WindowHandler::set_prevent_key_event_propagation`
    SetPreventKeyEventPropagation(bool),
    /// `SlintEditorState::set`, to a state of this size
    Restore {
        width: u32,
        height: u32,
    },
    /// `WindowHandler::on_frame`, with each step carried out: `WindowHandler::component_shown` is
    /// called when the component was shown, `WindowHandler::process_pending_resizes` when it is
    /// the turn of that step. Before it, the sizes in `queued` are asked for.
    Frame {
        queued: Seq<(u32, u32)>,
    },
    /// The same, but that the frame fails once that many steps have been carried out. The two
    /// steps that call the window count as carried out when that call has returned, even if the
    /// shell fails at what the call asked for.
    FailedFrame {
        done: nat,
        queued: Seq<(u32, u32)>,
    },
}

impl<F> Input<F> {
    /// The sizes that are asked for during a frame.
    pub open spec fn queued_in_frame(self) -> Seq<(u32, u32)> {
        match self {
            Input::Frame { queued } => queued,
            Input::FailedFrame { queued, .. } => queued,
            _ => seq![],
        }
    }
}

/// A window, and the size on record for it.
pub struct Situation<F> {
    pub handler: HandlerView<F>,
    pub size: (u32, u32),
}

impl<F> Situation<F> {
    /// A window just opened at the size on record.
    pub open spec fn opened(width: u32, height: u32, scale_factor: Scalar<F>) -> Self {
        Situation {
            handler: HandlerView::opened(width, height, scale_factor),
            size: (width, height),
        }
    }

    /// The situation after an input.
    pub open spec fn after(self, input: Input<F>) -> Self {
        match input {
            Input::Event(event) => Situation {
                handler: self.handler.after_event(event),
                size: size_after_event(self.size, event),
            },
            Input::Resize { width, height } => Situation {
                handler: self.handler.resized(width, height),
                size: (width, height),
            },
            Input::QueueResize { width, height } => Situation {
                handler: self.handler.with_pending_resize(width, height),
                ..self
            },
            Input::ProcessPendingResizes => self.processed(),
            Input::SetPreventKeyEventPropagation(is_enabled) => Situation {
                handler: HandlerView {
                    prevent_key_event_propagation: is_enabled,
                    ..self.handler
                },
                ..self
            },
            Input::Restore { width, height } => Situation { size: (width, height), ..self },
            Input::Frame { .. } | Input::FailedFrame { .. } => {
                let steps = self.frame_steps(input);
                let shown = if steps.contains(FrameStep::ShowComponent) {
                    Situation { handler: self.handler.with_component_shown(), ..self }
                } else {
                    self
                };
                let asked = shown.queueing(input.queued_in_frame());
                if steps.contains(FrameStep::ProcessPendingResizes) {
                    asked.processed()
                } else {
                    asked
                }
            },
        }
    }

    /// The situation after the pending resizes were processed.
    pub open spec fn processed(self) -> Self {
        Situation {
            handler: self.handler.with_resizes_processed(),
            size: match self.handler.latest_resize() {
                Some(size) => size,
                None => self.size,
            },
        }
    }

    /// What the shell is asked to do when the pending resizes are processed.
    pub open spec fn processing_effects(self) -> Seq<Effect<F, Seq<char>>> {
        match self.handler.latest_resize() {
            Some((width, height)) => resize_effects(width, height),
            None => seq![],
        }
    }

    /// The situation after several sizes were asked for.
    pub open spec fn queueing(self, sizes: Seq<(u32, u32)>) -> Self {
        Situation {
            handler: HandlerView {
                pending_resizes: self.handler.pending_resizes + sizes,
                ..self.handler
            },
            ..self
        }
    }

    /// What the shell is asked to do by an input.
    pub open spec fn effects(self, input: Input<F>) -> Seq<Effect<F, Seq<char>>> {
        match input {
            Input::Event(event) => event_effects(event, self.handler.last_cursor_pos),
            Input::Resize { width, height } => resize_effects(width, height),
            Input::ProcessPendingResizes => self.processing_effects(),
            Input::Frame { .. } | Input::FailedFrame { .. } => if self.frame_steps(input).contains(
                FrameStep::ProcessPendingResizes,
            ) {
                self.queueing(input.queued_in_frame()).processing_effects()
            } else {
                seq![]
            },
            _ => seq![],
        }
    }

    /// What is carried out to draw a frame, if the input asks for one.
    pub open spec fn frame_steps(self, input: Input<F>) -> Seq<FrameStep> {
        let plan = frame_plan(self.handler.window_shown);
        match input {
            Input::Frame { .. } => plan,
            Input::FailedFrame { done, .. } => if done < plan.len() {
                plan.take(done as int)
            } else {
                plan
            },
            _ => seq![],
        }
    }

    /// The situation after several inputs.
    pub open spec fn run(self, inputs: Seq<Input<F>>) -> Self
        decreases inputs.len(),
    {
        if inputs.len() == 0 {
            self
        } else {
            self.run(inputs.drop_last()).after(inputs.last())
        }
    }

    /// What the shell is asked to do by several inputs.
    pub open spec fn run_effects(self, inputs: Seq<Input<F>>) -> Seq<Effect<F, Seq<char>>>
        decreases inputs.len(),
    {
        if inputs.len() == 0 {
            seq![]
        } else {
            self.run_effects(inputs.drop_last()) + self.run(inputs.drop_last()).effects(
                inputs.last(),
            )
        }
    }

    /// What is carried out to draw the frames that several inputs ask for.
    pub open spec fn run_frame_steps(self, inputs: Seq<Input<F>>) -> Seq<FrameStep>
        decreases inputs.len(),
    {
        if inputs.len() == 0 {
            seq![]
        } else {
            self.run_frame_steps(inputs.drop_last()) + self.run(inputs.drop_last()).frame_steps(
                inputs.last(),
            )
        }
    }
}

/// The scale factor that Slint knows after it was told `initial` and the effects were carried out.
pub open spec fn known_scale<F>(initial: Scalar<F>, effects: Seq<Effect<F, Seq<char>>>) -> Scalar<F>
    decreases effects.len(),
{
    if effects.len() == 0 {
        initial
    } else {
        match effects.last() {
            Effect::Dispatch(WindowEvent::ScaleFactorChanged { scale_factor }) => scale_factor,
            _ => known_scale(initial, effects.drop_last()),
        }
    }
}

/// Whether the effect sends Slint a size.
pub open spec fn sends_size<F>(effect: Effect<F, Seq<char>>) -> bool {
    effect matches Effect::Dispatch(WindowEvent::Resized { .. })
}

/// The position that the cursor was last reported at.
pub open spec fn last_reported_cursor<F>(inputs: Seq<Input<F>>) -> LogicalPosition<F>
    decreases inputs.len(),
{
    if inputs.len() == 0 {
        LogicalPosition { x: Scalar::Whole(0), y: Scalar::Whole(0) }
    } else {
        match inputs.last() {
            Input::Event(Event::Mouse(MouseEvent::CursorMoved { x, y })) => LogicalPosition {
                x: Scalar::Given(x),
                y: Scalar::Given(y),
            },
            _ => last_reported_cursor(inputs.drop_last()),
        }
    }
}

/// The inputs that ask for the sizes, one after the other.
pub open spec fn queue_all<F>(sizes: Seq<(u32, u32)>) -> Seq<Input<F>> {
    sizes.map_values(
        |size: (u32, u32)| Input::<F>::QueueResize { width: size.0, height: size.1 },
    )
}

/// How often a step occurs.
pub open spec fn occurrences(steps: Seq<FrameStep>, step: FrameStep) -> nat
    decreases steps.len(),
{
    if steps.len() == 0 {
        0
    } else {
        occurrences(steps.drop_last(), step) + if steps.last() == step {
            1nat
        } else {
            0nat
        }
    }
}

/// How many frames are drawn without failing.
pub open spec fn frames<F>(inputs: Seq<Input<F>>) -> nat
    decreases inputs.len(),
{
    if inputs.len() == 0 {
        0
    } else {
        frames(inputs.drop_last()) + if inputs.last() is Frame {
            1nat
        } else {
            0nat
        }
    }
}

/// In every life of a window the adapter has the scale factor of the window, and Slint, which
/// is told the scale factor when the window is opened, knows it.
pub proof fn law_one_scale_factor<F>(
    width: u32,
    height: u32,
    scale_factor: Scalar<F>,
    inputs: Seq<Input<F>>,
)
    ensures
        ({
            let start = Situation::opened(width, height, scale_factor);
            let end = start.run(inputs);
            &&& end.handler.adapter.scale_factor == end.handler.scale_factor
            &&& known_scale(scale_factor, start.run_effects(inputs)) == end.handler.scale_factor
        }),
    decreases inputs.len(),
{
    if inputs.len() > 0 {
        let start = Situation::opened(width, height, scale_factor);
        law_one_scale_factor(width, height, scale_factor, inputs.drop_last());
        let before = start.run(inputs.drop_last());
        let effects = before.effects(inputs.last());
        lemma_known_scale(scale_factor, start.run_effects(inputs.drop_last()), effects);
        lemma_scale_after(before, inputs.last());
    }
}

/// What Slint knows after two lists of effects is what it knows after the second, from what it
/// knew after the first.
proof fn lemma_known_scale<F>(
    initial: Scalar<F>,
    first: Seq<Effect<F, Seq<char>>>,
    second: Seq<Effect<F, Seq<char>>>,
)
    ensures
        known_scale(initial, first + second) == known_scale(known_scale(initial, first), second),
    decreases second.len(),
{
    if second.len() == 0 {
        assert(first + second =~= first);
    } else {
        assert((first + second).drop_last() =~= first + second.drop_last());
        lemma_known_scale(initial, first, second.drop_last());
    }
}

/// An input that changes the scale factor of the window tells Slint.
proof fn lemma_scale_after<F>(before: Situation<F>, input: Input<F>)
    ensures
        known_scale(before.handler.scale_factor, before.effects(input)) == before.after(
            input,
        ).handler.scale_factor,
{
    reveal_with_fuel(known_scale, 5);
    let effects = before.effects(input);
    if effects.len() == 4 {
        assert(effects.drop_last().drop_last().drop_last().drop_last() =~= seq![]);
    }
}

/// Whenever Slint is sent a size, it already knows the scale factor that the window then has.
pub proof fn law_scale_factor_before_size<F>(
    width: u32,
    height: u32,
    scale_factor: Scalar<F>,
    inputs: Seq<Input<F>>,
    input: Input<F>,
    i: int,
)
    requires
        ({
            let effects = Situation::opened(width, height, scale_factor).run(inputs).effects(input);
            0 <= i < effects.len() && sends_size(effects[i])
        }),
    ensures
        ({
            let start = Situation::opened(width, height, scale_factor);
            let before = start.run(inputs);
            let told = start.run_effects(inputs) + before.effects(input).take(i);
            known_scale(scale_factor, told) == before.after(input).handler.scale_factor
        }),
{
    let start = Situation::opened(width, height, scale_factor);
    let before = start.run(inputs);
    law_one_scale_factor(width, height, scale_factor, inputs);
    lemma_known_scale(scale_factor, start.run_effects(inputs), before.effects(input).take(i));
    reveal_with_fuel(known_scale, 3);
    assert(i == 0 || i == 1);
    if i == 1 {
        assert(before.effects(input).take(i).drop_last() =~= seq![]);
    }
}

/// While a window is opened, the context is current before anything else is done; Slint learns
/// the scale factor before the size; and both, where to find OpenGL, and which adapter and
/// platform to use, before the component is created.
pub proof fn law_open_order<F>(width: u32, height: u32, scale_factor: Scalar<F>, i: int, j: int)
    requires
        0 <= i < open_plan(width, height, scale_factor).len(),
        0 <= j < open_plan(width, height, scale_factor).len(),
    ensures
        ({
            let plan = open_plan(width, height, scale_factor);
            &&& plan[i] == OpenStep::<F>::MakeContextCurrent && i != j ==> i < j
            &&& plan[i] == OpenStep::<F>::CreateComponent && i != j ==> j < i
            &&& plan[i] == OpenStep::Dispatch(WindowEvent::<F, String>::ScaleFactorChanged {
                scale_factor,
            }) && (plan[j] matches OpenStep::Dispatch(WindowEvent::Resized { .. })) ==> i < j
        }),
        open_plan(width, height, scale_factor).contains(
            OpenStep::Dispatch(WindowEvent::ScaleFactorChanged { scale_factor }),
        ),
        open_plan(width, height, scale_factor).contains(
            OpenStep::Dispatch(WindowEvent::Resized { size: LogicalSize::of_whole(width, height) }),
        ),
        open_plan(width, height, scale_factor).contains(OpenStep::LoadGlFunctions),
        open_plan(width, height, scale_factor).contains(OpenStep::RegisterAdapter),
        open_plan(width, height, scale_factor).contains(OpenStep::InstallPlatform),
{
    let plan = open_plan(width, height, scale_factor);
    assert(plan[1] == OpenStep::<F>::LoadGlFunctions);
    assert(plan[2] == OpenStep::<F>::RegisterAdapter);
    assert(plan[3] == OpenStep::<F>::InstallPlatform);
    assert(plan[4] == OpenStep::Dispatch(
        WindowEvent::<F, String>::ScaleFactorChanged { scale_factor },
    ));
    assert(plan[5] == OpenStep::Dispatch(
        WindowEvent::<F, String>::Resized { size: LogicalSize::of_whole(width, height) },
    ));
}

/// Of several sizes that were asked for, the latest is applied as if it had been asked for
/// alone, and nothing of the others is left.
pub proof fn law_latest_resize_wins<F>(before: Situation<F>, sizes: Seq<(u32, u32)>)
    requires
        sizes.len() > 0,
    ensures
        ({
            let queued = before.run(queue_all(sizes));
            let (width, height) = sizes.last();
            let resized = before.after(Input::Resize { width, height });
            &&& queued.after(Input::ProcessPendingResizes) == Situation {
                handler: HandlerView { pending_resizes: seq![], ..resized.handler },
                ..resized
            }
            &&& queued.effects(Input::ProcessPendingResizes) == resize_effects::<F>(width, height)
        }),
{
    lemma_queue_all(before, sizes);
}

/// Asking for sizes does nothing but put them in the queue.
proof fn lemma_queue_all<F>(before: Situation<F>, sizes: Seq<(u32, u32)>)
    ensures
        before.run(queue_all(sizes)) == before.queueing(sizes),
    decreases sizes.len(),
{
    if sizes.len() == 0 {
        assert(before.handler.pending_resizes + sizes =~= before.handler.pending_resizes);
    } else {
        assert(queue_all::<F>(sizes).drop_last() =~= queue_all(sizes.drop_last()));
        lemma_queue_all(before, sizes.drop_last());
        assert((before.handler.pending_resizes + sizes.drop_last()).push(sizes.last())
            =~= before.handler.pending_resizes + sizes);
    }
}

/// A size that was asked for before a frame, or during it before its resizes are processed, is
/// applied in that frame. Of several it is the latest; it is applied once, before anything is
/// drawn; and none is left. If no size was asked for, nothing is resized.
pub proof fn law_queued_resize_is_applied_in_the_frame<F>(
    before: Situation<F>,
    queued: Seq<(u32, u32)>,
)
    ensures
        ({
            let input = Input::Frame { queued };
            let sizes = before.handler.pending_resizes + queued;
            let steps = before.frame_steps(input);
            let drawn = before.after(input);
            &&& drawn.handler.pending_resizes == Seq::<(u32, u32)>::empty()
            &&& sizes.len() > 0 ==> {
                let (width, height) = sizes.last();
                &&& drawn.size == (width, height)
                &&& drawn.handler.adapter == before.handler.resized(width, height).adapter
                &&& before.effects(input) == resize_effects::<F>(width, height)
            }
            &&& sizes.len() == 0 ==> {
                &&& drawn.size == before.size
                &&& drawn.handler.adapter == before.handler.adapter
                &&& before.effects(input) == Seq::<Effect<F, Seq<char>>>::empty()
            }
            &&& occurrences(steps, FrameStep::ProcessPendingResizes) == 1
            &&& occurrences(steps, FrameStep::Render) == 1
            &&& precedes(steps, FrameStep::ProcessPendingResizes, FrameStep::Render)
        }),
{
    lemma_plan_resizes(before.handler.window_shown);
    lemma_frame_occurrences(before.handler.window_shown, FrameStep::ProcessPendingResizes);
    lemma_frame_occurrences(before.handler.window_shown, FrameStep::Render);
    law_frame_order(before.handler.window_shown);
    assert(before.after(Input::Frame { queued }).handler.pending_resizes =~= seq![]);
}

/// To ask for sizes during a frame is the same as to ask for them just before it.
pub proof fn law_queued_during_or_before_frame<F>(before: Situation<F>, queued: Seq<(u32, u32)>)
    ensures
        ({
            let earlier = before.run(queue_all(queued));
            &&& earlier.after(Input::Frame { queued: seq![] }) == before.after(
                Input::Frame { queued },
            )
            &&& earlier.effects(Input::Frame { queued: seq![] }) == before.effects(
                Input::Frame { queued },
            )
        }),
{
    lemma_queue_all(before, queued);
    assert(before.handler.pending_resizes + queued + Seq::<(u32, u32)>::empty()
        =~= before.handler.pending_resizes + queued);
}

/// Once the sizes that were asked for have been processed, there is nothing to process until
/// another is asked for.
pub proof fn law_processed_once<F>(before: Situation<F>)
    ensures
        ({
            let processed = before.after(Input::ProcessPendingResizes);
            &&& processed.handler.pending_resizes == Seq::<(u32, u32)>::empty()
            &&& processed.after(Input::ProcessPendingResizes) == processed
            &&& processed.effects(Input::ProcessPendingResizes) == Seq::<
                Effect<F, Seq<char>>,
            >::empty()
        }),
{
    assert(before.after(Input::ProcessPendingResizes).handler.pending_resizes =~= seq![]);
}

/// The last of several resizes is all that counts.
pub proof fn law_resize_overrides<F>(
    before: Situation<F>,
    first: (u32, u32),
    second: (u32, u32),
)
    ensures
        before.after(Input::Resize { width: first.0, height: first.1 }).after(
            Input::Resize { width: second.0, height: second.1 },
        ) == before.after(Input::Resize { width: second.0, height: second.1 }),
{
}

/// A report of the window that gives back the size just set leaves the record as it is, whatever
/// scale factor and physical size come with it.
pub proof fn law_echo_keeps_size<F>(
    before: Situation<F>,
    width: u32,
    height: u32,
    info: WindowInfo<F>,
)
    requires
        info.whole_width == width,
        info.whole_height == height,
    ensures
        before.after(Input::Resize { width, height }).after(
            Input::Event(Event::Window(HostWindowEvent::Resized(info))),
        ).size == (width, height),
{
}

/// The size on record changes only with a resize, with a queued resize being applied, be it in a
/// frame or otherwise, with a report of the window itself, or when the host restores it.
pub proof fn law_size_changes_only_by_resizing<F>(before: Situation<F>, input: Input<F>)
    requires
        before.after(input).size != before.size,
    ensures
        ({
            ||| input is Resize
            ||| input is ProcessPendingResizes && before.handler.pending_resizes.len() > 0
            ||| input matches Input::Event(Event::Window(HostWindowEvent::Resized(_)))
            ||| input is Restore
            ||| {
                &&& before.frame_steps(input).contains(FrameStep::ProcessPendingResizes)
                &&& before.handler.pending_resizes.len() + input.queued_in_frame().len() > 0
            }
        }),
{
}

/// When the host restores a size, that size is on record, and nothing else changes.
pub proof fn law_restored_size_is_on_record<F>(before: Situation<F>, width: u32, height: u32)
    ensures
        ({
            let restored = before.after(Input::Restore { width, height });
            &&& restored.size == (width, height)
            &&& restored.handler == before.handler
            &&& before.effects(Input::Restore { width, height }) == Seq::<
                Effect<F, Seq<char>>,
            >::empty()
        }),
{
}

/// Whether the situation is what a report of the window leads to.
pub open spec fn stems_from<F>(situation: Situation<F>, info: WindowInfo<F>) -> bool {
    &&& situation.handler.scale_factor == Scalar::Given(info.scale)
    &&& situation.handler.adapter.physical_size == PhysicalSize::<F> {
        width: PhysicalLength::Given(info.physical_width),
        height: PhysicalLength::Given(info.physical_height),
    }
    &&& situation.size == (info.whole_width, info.whole_height)
}

/// Unless the host restores a size meanwhile, the framebuffer size, the scale factor and the size
/// on record do not drift apart: in every life of a window, either the framebuffer has the size on
/// record at the scale of the window, or all three are what the window reported at one time, or
/// the size on record is one that the host restored.
pub proof fn law_adapter_agrees_with_record<F>(
    width: u32,
    height: u32,
    scale_factor: Scalar<F>,
    inputs: Seq<Input<F>>,
)
    ensures
        ({
            let end = Situation::opened(width, height, scale_factor).run(inputs);
            ||| end.handler.adapter.physical_size == PhysicalSize::of_logical(
                end.size.0,
                end.size.1,
                end.handler.scale_factor,
            )
            ||| exists|info: WindowInfo<F>|
                inputs.contains(Input::Event(Event::Window(HostWindowEvent::Resized(info))))
                    && stems_from(end, info)
            ||| inputs.contains(Input::Restore { width: end.size.0, height: end.size.1 })
        }),
    decreases inputs.len(),
{
    if inputs.len() > 0 {
        let start = Situation::opened(width, height, scale_factor);
        let earlier = inputs.drop_last();
        law_adapter_agrees_with_record(width, height, scale_factor, earlier);
        let before = start.run(earlier);
        let end = start.run(inputs);
        match inputs.last() {
            Input::Event(Event::Window(HostWindowEvent::Resized(info))) => {
                assert(stems_from(end, info));
            },
            Input::Restore { .. } => {
                assert(inputs[inputs.len() - 1] == inputs.last());
            },
            _ => {
                let restored = Input::Restore { width: before.size.0, height: before.size.1 };
                if earlier.contains(restored) {
                    let k = choose|k: int| 0 <= k < earlier.len() && earlier[k] == restored;
                    assert(inputs[k] == restored);
                }
                if exists|info: WindowInfo<F>|
                    earlier.contains(Input::Event(Event::Window(HostWindowEvent::Resized(info))))
                        && stems_from(before, info) {
                    let info = choose|info: WindowInfo<F>|
                        earlier.contains(
                            Input::Event(Event::Window(HostWindowEvent::Resized(info))),
                        ) && stems_from(before, info);
                    let input = Input::Event(Event::Window(HostWindowEvent::Resized(info)));
                    let k = choose|k: int| 0 <= k < earlier.len() && earlier[k] == input;
                    assert(inputs[k] == input);
                    if end.handler.adapter == before.handler.adapter && end.size == before.size {
                        assert(stems_from(end, info));
                    }
                }
            },
        }
    }
}

/// Every size that the window is given is also put on record, so that the host saves it and
/// the next window is opened with it.
pub proof fn law_window_size_is_on_record<F>(before: Situation<F>, input: Input<F>, i: int)
    requires
        0 <= i < before.effects(input).len(),
        before.effects(input)[i] is ResizeWindow,
    ensures
        before.effects(input)[i] matches Effect::ResizeWindow { width, height } && before.after(
            input,
        ).size == (width, height),
{
}

/// Whether a step is for a window that has not been shown.
pub open spec fn until_shown(step: FrameStep) -> bool {
    ||| step is LoadGlFunctions
    ||| step is CreateRenderer
    ||| step is ShowComponent
    ||| step is RunSetupHandler
}

/// Whether no frame fails.
pub open spec fn never_fails<F>(inputs: Seq<Input<F>>) -> bool {
    forall|i: int| 0 <= i < inputs.len() ==> !(#[trigger] inputs[i] is FailedFrame)
}

/// In the life of a window in which no frame fails, OpenGL is wired up for drawing, the renderer
/// is created, and the component is shown and set up once, in the first frame, and never if no
/// frame is drawn. Everything else, such as calling the other handler and swapping the buffers,
/// is done once a frame.
pub proof fn law_once_or_every_frame<F>(
    width: u32,
    height: u32,
    scale_factor: Scalar<F>,
    inputs: Seq<Input<F>>,
    step: FrameStep,
)
    requires
        never_fails(inputs),
    ensures
        ({
            let start = Situation::opened(width, height, scale_factor);
            let times = occurrences(start.run_frame_steps(inputs), step);
            &&& start.run(inputs).handler.window_shown <==> frames(inputs) > 0
            &&& times == if !until_shown(step) {
                frames(inputs)
            } else if frames(inputs) > 0 {
                1nat
            } else {
                0nat
            }
        }),
    decreases inputs.len(),
{
    if inputs.len() > 0 {
        let start = Situation::opened(width, height, scale_factor);
        assert(inputs.last() == inputs[inputs.len() - 1]);
        law_once_or_every_frame(width, height, scale_factor, inputs.drop_last(), step);
        let before = start.run(inputs.drop_last());
        lemma_occurrences_add(
            start.run_frame_steps(inputs.drop_last()),
            before.frame_steps(inputs.last()),
            step,
        );
        lemma_frame_occurrences(before.handler.window_shown, step);
        lemma_plan_shows(before.handler.window_shown);
    }
}

/// In every life of a window, with frames that fail or without, the window is marked as shown
/// exactly if the component was shown, as it was if any frame was drawn without failing; it is
/// shown at most once, set up at most once, and never set up without having been shown.
pub proof fn law_shown_once<F>(
    width: u32,
    height: u32,
    scale_factor: Scalar<F>,
    inputs: Seq<Input<F>>,
)
    ensures
        ({
            let start = Situation::opened(width, height, scale_factor);
            let steps = start.run_frame_steps(inputs);
            let shown = occurrences(steps, FrameStep::ShowComponent);
            &&& shown == if start.run(inputs).handler.window_shown {
                1nat
            } else {
                0nat
            }
            &&& frames(inputs) > 0 ==> shown == 1
            &&& occurrences(steps, FrameStep::RunSetupHandler) <= shown
            &&& occurrences(steps, FrameStep::CreateRenderer) >= shown
        }),
    decreases inputs.len(),
{
    if inputs.len() > 0 {
        let start = Situation::opened(width, height, scale_factor);
        law_shown_once(width, height, scale_factor, inputs.drop_last());
        let before = start.run(inputs.drop_last());
        let first = start.run_frame_steps(inputs.drop_last());
        let second = before.frame_steps(inputs.last());
        lemma_occurrences_add(first, second, FrameStep::ShowComponent);
        lemma_occurrences_add(first, second, FrameStep::RunSetupHandler);
        lemma_occurrences_add(first, second, FrameStep::CreateRenderer);
        lemma_part_of_frame(before, inputs.last());
        lemma_plan_shows(before.handler.window_shown);
    }
}

/// A component that has been shown is set up next, unless the frame fails at that very point.
pub proof fn law_set_up_after_showing<F>(before: Situation<F>, input: Input<F>, i: int)
    requires
        0 <= i < before.frame_steps(input).len() - 1,
        before.frame_steps(input)[i] == FrameStep::ShowComponent,
    ensures
        before.frame_steps(input)[i + 1] == FrameStep::RunSetupHandler,
{
}

/// A frame that fails before the component has been shown leaves the window as it was, but for
/// sizes that were asked for: no handler was called, no resize was applied, and the next frame
/// starts over.
pub proof fn law_failed_frame_starts_over<F>(
    before: Situation<F>,
    done: nat,
    queued: Seq<(u32, u32)>,
)
    requires
        !before.handler.window_shown,
        !before.frame_steps(Input::FailedFrame { done, queued }).contains(FrameStep::ShowComponent),
    ensures
        ({
            let input = Input::FailedFrame { done, queued };
            let steps = before.frame_steps(input);
            let next = before.after(input).frame_steps(Input::Frame { queued: seq![] });
            &&& before.after(input) == before.run(queue_all(queued))
            &&& before.effects(input) == Seq::<Effect<F, Seq<char>>>::empty()
            &&& !steps.contains(FrameStep::RunSetupHandler)
            &&& !steps.contains(FrameStep::RunEventLoopHandler)
            &&& !steps.contains(FrameStep::ProcessPendingResizes)
            &&& next.contains(FrameStep::ShowComponent)
            &&& next.contains(FrameStep::RunSetupHandler)
        }),
{
    let plan = frame_plan(false);
    let steps = before.frame_steps(Input::FailedFrame { done, queued });
    assert(plan[3] == FrameStep::ShowComponent);
    assert(plan[4] == FrameStep::RunSetupHandler);
    if steps.len() > 3 {
        assert(steps[3] == FrameStep::ShowComponent);
    }
    lemma_queue_all(before, queued);
}

/// A frame of a window that was shown, or one that finds no context to make current, changes
/// nothing that the window knows if it fails before the resizes were processed, but for sizes
/// that were asked for.
pub proof fn law_failed_frame_keeps_window<F>(
    before: Situation<F>,
    done: nat,
    queued: Seq<(u32, u32)>,
)
    requires
        before.handler.window_shown || done == 0,
        !before.frame_steps(Input::FailedFrame { done, queued }).contains(
            FrameStep::ProcessPendingResizes,
        ),
    ensures
        before.after(Input::FailedFrame { done, queued }) == before.run(queue_all(queued)),
        before.effects(Input::FailedFrame { done, queued }) == Seq::<
            Effect<F, Seq<char>>,
        >::empty(),
{
    lemma_plan_shows(before.handler.window_shown);
    lemma_queue_all(before, queued);
    let plan = frame_plan(before.handler.window_shown);
    let steps = before.frame_steps(Input::FailedFrame { done, queued });
    assert forall|i: int| 0 <= i < steps.len() implies steps[i] != FrameStep::ShowComponent by {
        assert(steps[i] == plan[i]);
    }
}

/// A frame that fails after the resizes were processed leaves the window as a frame does that
/// does not fail.
pub proof fn law_failure_after_resizing<F>(
    before: Situation<F>,
    done: nat,
    queued: Seq<(u32, u32)>,
)
    requires
        before.frame_steps(Input::FailedFrame { done, queued }).contains(
            FrameStep::ProcessPendingResizes,
        ),
    ensures
        before.after(Input::FailedFrame { done, queued }) == before.after(Input::Frame { queued }),
        before.effects(Input::FailedFrame { done, queued }) == before.effects(
            Input::Frame { queued },
        ),
{
    let plan = frame_plan(before.handler.window_shown);
    let steps = before.frame_steps(Input::FailedFrame { done, queued });
    lemma_plan_shows(before.handler.window_shown);
    lemma_plan_resizes(before.handler.window_shown);
    let k = choose|k: int| 0 <= k < steps.len() && steps[k] == FrameStep::ProcessPendingResizes;
    assert(steps[k] == plan[k]);
    if before.handler.window_shown {
        assert forall|i: int| 0 <= i < steps.len() implies steps[i] != FrameStep::ShowComponent by {
            assert(steps[i] == plan[i]);
        }
    } else {
        assert(steps[3] == plan[3]);
    }
}

/// A step occurs in two lists as often as in both together.
proof fn lemma_occurrences_add(first: Seq<FrameStep>, second: Seq<FrameStep>, step: FrameStep)
    ensures
        occurrences(first + second, step) == occurrences(first, step) + occurrences(second, step),
    decreases second.len(),
{
    if second.len() == 0 {
        assert(first + second =~= first);
    } else {
        assert((first + second).drop_last() =~= first + second.drop_last());
        lemma_occurrences_add(first, second.drop_last(), step);
    }
}

/// A step occurs once in a frame, or not at all.
proof fn lemma_frame_occurrences(window_shown: bool, step: FrameStep)
    ensures
        occurrences(frame_plan(window_shown), step) == if window_shown && until_shown(step) {
            0nat
        } else {
            1nat
        },
{
    reveal_with_fuel(occurrences, 13);
    let plan = frame_plan(window_shown);
    if window_shown {
        assert(plan =~= seq![
            FrameStep::MakeContextCurrent,
            FrameStep::RunEventLoopHandler,
            FrameStep::UpdateTimersAndAnimations,
            FrameStep::ProcessPendingResizes,
            FrameStep::RequestRedraw,
            FrameStep::QueryNextTimerUpdate,
            FrameStep::Render,
            FrameStep::SwapBuffers,
        ]);
    } else {
        assert(plan =~= seq![
            FrameStep::MakeContextCurrent,
            FrameStep::LoadGlFunctions,
            FrameStep::CreateRenderer,
            FrameStep::ShowComponent,
            FrameStep::RunSetupHandler,
            FrameStep::RunEventLoopHandler,
            FrameStep::UpdateTimersAndAnimations,
            FrameStep::ProcessPendingResizes,
            FrameStep::RequestRedraw,
            FrameStep::QueryNextTimerUpdate,
            FrameStep::Render,
            FrameStep::SwapBuffers,
        ]);
    }
}

/// The component is shown in a frame exactly if it was not before.
proof fn lemma_plan_shows(window_shown: bool)
    ensures
        frame_plan(window_shown).contains(FrameStep::ShowComponent) <==> !window_shown,
{
    if !window_shown {
        assert(frame_plan(false)[3] == FrameStep::ShowComponent);
    }
}

/// The resizes are processed in every frame.
proof fn lemma_plan_resizes(window_shown: bool)
    ensures
        frame_plan(window_shown).contains(FrameStep::ProcessPendingResizes),
{
    let k = if window_shown {
        3
    } else {
        7
    };
    assert(frame_plan(window_shown)[k] == FrameStep::ProcessPendingResizes);
}

/// What is carried out of a frame holds no setup without showing, and no showing without a
/// renderer; and it holds a showing exactly if the window is marked as shown by it.
#[verifier::spinoff_prover]
proof fn lemma_part_of_frame<F>(before: Situation<F>, input: Input<F>)
    ensures
        ({
            let steps = before.frame_steps(input);
            let shown = occurrences(steps, FrameStep::ShowComponent);
            &&& shown == if steps.contains(FrameStep::ShowComponent) {
                1nat
            } else {
                0nat
            }
            &&& steps.contains(FrameStep::ShowComponent) ==> !before.handler.window_shown
            &&& occurrences(steps, FrameStep::RunSetupHandler) <= shown
            &&& occurrences(steps, FrameStep::CreateRenderer) >= shown
        }),
{
    let plan = frame_plan(before.handler.window_shown);
    let steps = before.frame_steps(input);
    let rest = plan.skip(steps.len() as int);
    lemma_plan_shows(before.handler.window_shown);
    if input is Frame || input is FailedFrame {
        assert(plan =~= steps + rest);
        lemma_occurrences_add(steps, rest, FrameStep::ShowComponent);
        lemma_occurrences_add(steps, rest, FrameStep::RunSetupHandler);
        lemma_frame_occurrences(before.handler.window_shown, FrameStep::ShowComponent);
        lemma_frame_occurrences(before.handler.window_shown, FrameStep::RunSetupHandler);
        if occurrences(steps, FrameStep::ShowComponent) > 0 {
            lemma_occurs(steps, FrameStep::ShowComponent);
        }
        if steps.contains(FrameStep::ShowComponent) {
            let k = choose|k: int| 0 <= k < steps.len() && steps[k] == FrameStep::ShowComponent;
            assert(plan[k] == FrameStep::ShowComponent);
            assert(steps[k - 1] == plan[k - 1]);
            assert(plan[k - 1] == FrameStep::CreateRenderer);
            lemma_occurs_at(steps, k);
            lemma_occurs_at(steps, k - 1);
        } else if occurrences(steps, FrameStep::RunSetupHandler) > 0 {
            lemma_occurs(steps, FrameStep::RunSetupHandler);
            let k = choose|k: int| 0 <= k < steps.len() && steps[k] == FrameStep::RunSetupHandler;
            assert(plan[k] == FrameStep::RunSetupHandler);
            assert(steps[k - 1] == plan[k - 1]);
            assert(plan[k - 1] == FrameStep::ShowComponent);
        }
    }
}

/// What is somewhere occurs.
proof fn lemma_occurs_at(steps: Seq<FrameStep>, k: int)
    requires
        0 <= k < steps.len(),
    ensures
        occurrences(steps, steps[k]) > 0,
    decreases steps.len(),
{
    if k < steps.len() - 1 {
        lemma_occurs_at(steps.drop_last(), k);
    }
}

/// Whether every occurrence of `first` comes before every occurrence of `second`.
pub open spec fn precedes(steps: Seq<FrameStep>, first: FrameStep, second: FrameStep) -> bool {
    forall|i: int, j: int|
        0 <= i < steps.len() && 0 <= j < steps.len() && #[trigger] steps[i] == first
            && #[trigger] steps[j] == second ==> i < j
}

/// Every frame starts by making the context current and ends by swapping the buffers. In
/// between, the component is set up before the other handler sees it, the timers run after that
/// handler, and the resizes are processed after both and before anything is drawn.
pub proof fn law_frame_order(window_shown: bool)
    ensures
        ({
            let plan = frame_plan(window_shown);
            &&& plan.len() > 0
            &&& plan.first() == FrameStep::MakeContextCurrent
            &&& plan.last() == FrameStep::SwapBuffers
            &&& precedes(plan, FrameStep::LoadGlFunctions, FrameStep::CreateRenderer)
            &&& precedes(plan, FrameStep::CreateRenderer, FrameStep::ShowComponent)
            &&& precedes(plan, FrameStep::ShowComponent, FrameStep::RunSetupHandler)
            &&& precedes(plan, FrameStep::RunSetupHandler, FrameStep::RunEventLoopHandler)
            &&& precedes(plan, FrameStep::RunEventLoopHandler, FrameStep::ProcessPendingResizes)
            &&& precedes(plan, FrameStep::RunEventLoopHandler, FrameStep::UpdateTimersAndAnimations)
            &&& precedes(
                plan,
                FrameStep::UpdateTimersAndAnimations,
                FrameStep::ProcessPendingResizes,
            )
            &&& precedes(plan, FrameStep::ProcessPendingResizes, FrameStep::RequestRedraw)
            &&& precedes(plan, FrameStep::RequestRedraw, FrameStep::QueryNextTimerUpdate)
            &&& precedes(plan, FrameStep::QueryNextTimerUpdate, FrameStep::Render)
            &&& precedes(plan, FrameStep::RequestRedraw, FrameStep::Render)
        }),
{
}

/// Nothing is drawn before there is a renderer: in the life of a window, a renderer was created
/// before each time something is drawn.
pub proof fn law_renderer_before_rendering<F>(
    width: u32,
    height: u32,
    scale_factor: Scalar<F>,
    inputs: Seq<Input<F>>,
    i: int,
)
    requires
        ({
            let steps = Situation::opened(width, height, scale_factor).run_frame_steps(inputs);
            0 <= i < steps.len() && steps[i] == FrameStep::Render
        }),
    ensures
        Situation::opened(width, height, scale_factor).run_frame_steps(inputs).take(i).contains(
            FrameStep::CreateRenderer,
        ),
    decreases inputs.len(),
{
    let start = Situation::opened(width, height, scale_factor);
    let earlier = inputs.drop_last();
    let first = start.run_frame_steps(earlier);
    let before = start.run(earlier);
    let second = before.frame_steps(inputs.last());
    let steps = start.run_frame_steps(inputs);
    if i < first.len() {
        law_renderer_before_rendering(width, height, scale_factor, earlier, i);
        assert(steps.take(i) =~= first.take(i));
    } else {
        law_shown_once(width, height, scale_factor, earlier);
        if before.handler.window_shown {
            lemma_occurs(first, FrameStep::CreateRenderer);
            let k = choose|k: int| 0 <= k < first.len() && first[k] == FrameStep::CreateRenderer;
            assert(steps.take(i)[k] == FrameStep::CreateRenderer);
        } else {
            assert(second[2] == FrameStep::CreateRenderer);
            assert(steps.take(i)[first.len() as int + 2] == FrameStep::CreateRenderer);
        }
    }
}

/// What occurs is somewhere.
proof fn lemma_occurs(steps: Seq<FrameStep>, step: FrameStep)
    requires
        occurrences(steps, step) > 0,
    ensures
        exists|k: int| 0 <= k < steps.len() && steps[k] == step,
    decreases steps.len(),
{
    if steps.last() == step {
        assert(steps[steps.len() - 1] == step);
    } else {
        lemma_occurs(steps.drop_last(), step);
        let k = choose|k: int|
            0 <= k < steps.drop_last().len() && steps.drop_last()[k] == step;
        assert(steps[k] == step);
    }
}

/// The cursor position that goes with a press or release of a button is the one reported last,
/// whatever else happened since; the top left corner, if none was.
pub proof fn law_cursor_is_remembered<F>(
    width: u32,
    height: u32,
    scale_factor: Scalar<F>,
    inputs: Seq<Input<F>>,
)
    ensures
        Situation::opened(width, height, scale_factor).run(inputs).handler.last_cursor_pos
            == last_reported_cursor(inputs),
    decreases inputs.len(),
{
    if inputs.len() > 0 {
        law_cursor_is_remembered(width, height, scale_factor, inputs.drop_last());
    }
}

/// A mouse event is kept from the host exactly if Slint is told of it, and then of that alone.
pub proof fn law_mouse_captured_iff_dispatched<F>(before: Situation<F>, event: MouseEvent<F>)
    ensures
        ({
            let effects = before.effects(Input::Event(Event::Mouse(event)));
            let status = before.handler.event_status(Event::Mouse(event));
            &&& effects.len() == if status is Captured {
                1nat
            } else {
                0nat
            }
            &&& effects.len() == 1 ==> effects[0] is Dispatch
        }),
{
}

/// Keeping keys from the host does not keep them from Slint: Slint is told the same either way.
pub proof fn law_prevention_does_not_change_what_slint_is_told<F>(
    before: Situation<F>,
    is_enabled: bool,
    event: Event<F, Seq<char>>,
)
    ensures
        ({
            let set = before.after(Input::SetPreventKeyEventPropagation(is_enabled));
            &&& set.effects(Input::Event(event)) == before.effects(Input::Event(event))
            &&& !(event is Keyboard) ==> set.handler.event_status(event)
                == before.handler.event_status(event)
            &&& event is Keyboard ==> (set.handler.event_status(event) is Captured <==> is_enabled
                && set.effects(Input::Event(event)).len() == 1)
        }),
{
}

/// A key that no text stands for goes back to the host, and Slint is not told.
pub proof fn law_key_without_text_is_ignored<F>(
    before: Situation<F>,
    event: KeyboardEvent<Seq<char>>,
)
    requires
        slint_text(event.key, event.code).len() == 0,
    ensures
        before.effects(Input::Event(Event::Keyboard(event))) == Seq::<
            Effect<F, Seq<char>>,
        >::empty(),
        before.handler.event_status(Event::Keyboard(event)) is Ignored,
{
}

/// A text that a key types is passed on as it is, wherever the key sits.
pub proof fn law_typed_text_is_kept(text: Seq<char>, code: Code)
    ensures
        slint_text(Key::Character(text), code) == text,
{
}

/// Keys at different places are never confused: the texts of two different special keys
/// differ, and each special key has one.
pub proof fn law_special_keys_are_told_apart(first: Code, second: Code)
    requires
        first != second,
        first !is Other,
    ensures
        slint_text(Key::Named, first).len() == 1,
        slint_text(Key::Named, first) != slint_text(Key::Named, second),
{
    assert(slint_text(Key::Named, first).len() == 1);
    if second !is Other {
        assert(slint_text(Key::Named, first)[0] != slint_text(Key::Named, second)[0]);
    }
}

} // verus!
