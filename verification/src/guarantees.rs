//! What each operation is for, said of its inputs and of what comes out.
//!
//! The statements here spell out the values that the window, Slint and the host get to see.

use crate::editor::{femtovg_gl_config, open_plan, OpenStep};
use crate::event::{
    effect_views, Code, Effect, Event, HostWindowEvent, Key, KeyState, KeyboardEvent,
    MouseButton, MouseEvent, PointerEventButton, ScrollDelta, WindowEvent, WindowInfo,
};
use crate::geometry::{LogicalPosition, LogicalSize, PhysicalLength, PhysicalSize, Scalar};
use crate::handler::{FrameStep, HandlerView};
use crate::keys::{slint_text, special_key_at, SpecialKey};
use crate::laws::{last_reported_cursor, law_cursor_is_remembered, Input, Situation};
use vstd::prelude::*;

verus! {

/// How many of the items are of the chosen sort.
pub open spec fn count<A>(items: Seq<A>, chosen: spec_fn(A) -> bool) -> nat
    decreases items.len(),
{
    if items.len() == 0 {
        0
    } else {
        count(items.drop_last(), chosen) + if chosen(items.last()) {
            1nat
        } else {
            0nat
        }
    }
}

/// Whether exactly one of the items is of the chosen sort, and it is this one.
pub open spec fn only<A>(items: Seq<A>, chosen: spec_fn(A) -> bool, item: A) -> bool {
    &&& count(items, chosen) == 1
    &&& chosen(item)
    &&& items.contains(item)
}

/// Whether every item of the one sort comes before every item of the other.
pub open spec fn all_before<A>(
    items: Seq<A>,
    first: spec_fn(A) -> bool,
    second: spec_fn(A) -> bool,
) -> bool {
    forall|i: int, j: int|
        0 <= i < items.len() && 0 <= j < items.len() && first(#[trigger] items[i]) && second(
            #[trigger] items[j],
        ) ==> i < j
}

/// Sends Slint a size.
pub open spec fn is_size<F>() -> spec_fn(Effect<F, Seq<char>>) -> bool {
    |effect: Effect<F, Seq<char>>| effect matches Effect::Dispatch(WindowEvent::Resized { .. })
}

/// Sends Slint a scale factor.
pub open spec fn is_scale<F>() -> spec_fn(Effect<F, Seq<char>>) -> bool {
    |effect: Effect<F, Seq<char>>|
        effect matches Effect::Dispatch(WindowEvent::ScaleFactorChanged { .. })
}

/// Asks for drawing.
pub open spec fn is_redraw<F>() -> spec_fn(Effect<F, Seq<char>>) -> bool {
    |effect: Effect<F, Seq<char>>| effect is RequestRedraw
}

/// Asks the host.
pub open spec fn is_host_request<F>() -> spec_fn(Effect<F, Seq<char>>) -> bool {
    |effect: Effect<F, Seq<char>>| effect is RequestHostResize
}

/// Gives the window a size.
pub open spec fn is_window_resize<F>() -> spec_fn(Effect<F, Seq<char>>) -> bool {
    |effect: Effect<F, Seq<char>>| effect is ResizeWindow
}

/// A resize, to whatever size, reaches everyone once: Slint is sent that size and asked to draw,
/// the host is asked to follow, and the window is given that size, in this order; nobody is told
/// anything else.
pub proof fn law_resize_reaches_everyone<F>(before: Situation<F>, width: u32, height: u32)
    ensures
        ({
            let effects = before.effects(Input::Resize { width, height });
            let size = LogicalSize { width: Scalar::Whole(width), height: Scalar::Whole(height) };
            &&& only(effects, is_size(), Effect::Dispatch(WindowEvent::Resized { size }))
            &&& only(effects, is_redraw(), Effect::RequestRedraw)
            &&& only(effects, is_host_request(), Effect::RequestHostResize)
            &&& only(effects, is_window_resize(), Effect::ResizeWindow { width, height })
            &&& effects.len() == 4
            &&& all_before(effects, is_size(), is_redraw())
            &&& all_before(effects, is_redraw(), is_host_request())
            &&& all_before(effects, is_host_request(), is_window_resize())
        }),
{
    reveal_with_fuel(count, 5);
    let effects = before.effects(Input::Resize { width, height });
    assert(effects.drop_last().drop_last().drop_last().drop_last() =~= seq![]);
    assert(effects[0] is Dispatch && effects[1] is RequestRedraw);
    assert(effects[2] is RequestHostResize && effects[3] is ResizeWindow);
}

/// A resize puts the size on record, gives the framebuffer that size at the scale factor of the
/// window, and changes nothing else that the window knows.
pub proof fn law_resize_is_recorded<F>(before: Situation<F>, width: u32, height: u32)
    ensures
        ({
            let after = before.after(Input::Resize { width, height });
            let scale_factor = before.handler.scale_factor;
            let adapter = after.handler.adapter;
            &&& after.size == (width, height)
            &&& adapter.physical_size.width == PhysicalLength::Scaled {
                logical: width,
                scale_factor,
            }
            &&& adapter.physical_size.height == PhysicalLength::Scaled {
                logical: height,
                scale_factor,
            }
            &&& adapter.scale_factor == scale_factor
            &&& after.handler == HandlerView { adapter, ..before.handler }
        }),
{
}

/// When the pending resizes are processed, the latest is carried out exactly as if the window
/// were resized to that size; with none pending, nothing happens.
pub proof fn law_processing_is_resizing<F>(before: Situation<F>)
    ensures
        ({
            let pending = before.handler.pending_resizes;
            let input = Input::ProcessPendingResizes;
            &&& pending.len() > 0 ==> {
                let (width, height) = pending[pending.len() - 1];
                let resized = before.after(Input::Resize { width, height });
                &&& before.handler.latest_resize() == Some((width, height))
                &&& before.effects(input) == before.effects(Input::Resize { width, height })
                &&& before.after(input).size == resized.size
                &&& before.after(input).handler.pending_resizes.len() == 0
                &&& before.after(input).handler == HandlerView {
                    pending_resizes: before.after(input).handler.pending_resizes,
                    ..resized.handler
                }
            }
            &&& pending.len() == 0 ==> {
                &&& before.handler.latest_resize() is None
                &&& before.effects(input).len() == 0
                &&& before.after(input) == before
            }
        }),
{
}

/// A size that is asked for goes to the end of the queue, and nothing else happens.
pub proof fn law_queueing_only_queues<F>(before: Situation<F>, width: u32, height: u32)
    ensures
        ({
            let input = Input::QueueResize { width, height };
            let after = before.after(input);
            let pending = before.handler.pending_resizes;
            let queue = after.handler.pending_resizes;
            &&& queue.len() == pending.len() + 1
            &&& queue[pending.len() as int] == (width, height)
            &&& forall|i: int| 0 <= i < pending.len() ==> #[trigger] queue[i] == pending[i]
            &&& after.handler == HandlerView { pending_resizes: queue, ..before.handler }
            &&& after.size == before.size
            &&& before.effects(input).len() == 0
        }),
{
}

/// The event that reports the window's size and scale.
pub open spec fn report<F>(info: WindowInfo<F>) -> Event<F, Seq<char>> {
    Event::Window(HostWindowEvent::Resized(info))
}

/// A report of the window, whatever it holds, makes Slint be sent the reported scale factor once,
/// and then the reported logical size once, width as width and height as height. Neither the host
/// nor the window is asked for anything, so that a report cannot set off another.
pub proof fn law_report_reaches_slint<F>(before: Situation<F>, info: WindowInfo<F>)
    ensures
        ({
            let effects = before.effects(Input::Event(report(info)));
            let size = LogicalSize {
                width: Scalar::Given(info.logical_width),
                height: Scalar::Given(info.logical_height),
            };
            let scale_factor = Scalar::Given(info.scale);
            &&& only(
                effects,
                is_scale(),
                Effect::Dispatch(WindowEvent::ScaleFactorChanged { scale_factor }),
            )
            &&& only(effects, is_size(), Effect::Dispatch(WindowEvent::Resized { size }))
            &&& effects.len() == 2
            &&& all_before(effects, is_scale(), is_size())
            &&& before.handler.event_status(report(info)) is Captured
        }),
{
    reveal_with_fuel(count, 3);
    let effects = before.effects(Input::Event(report(info)));
    assert(effects.drop_last().drop_last() =~= seq![]);
    assert(effects[0] is Dispatch && effects[1] is Dispatch);
}

/// A report of the window is taken over: its scale factor by the window and the adapter, its
/// physical size by the adapter, its logical size, in whole pixels, by the record. Nothing else
/// changes.
pub proof fn law_report_is_recorded<F>(before: Situation<F>, info: WindowInfo<F>)
    ensures
        ({
            let after = before.after(Input::Event(report(info)));
            let scale_factor = after.handler.scale_factor;
            let adapter = after.handler.adapter;
            &&& after.size == (info.whole_width, info.whole_height)
            &&& scale_factor == Scalar::Given(info.scale)
            &&& adapter.scale_factor == Scalar::Given(info.scale)
            &&& adapter.physical_size.width == PhysicalLength::<F>::Given(info.physical_width)
            &&& adapter.physical_size.height == PhysicalLength::<F>::Given(info.physical_height)
            &&& after.handler == HandlerView { scale_factor, adapter, ..before.handler }
        }),
{
}

/// The other events of the window do nothing and go back to the host.
pub proof fn law_focus_is_ignored<F>(before: Situation<F>, event: HostWindowEvent<F>)
    requires
        !(event is Resized),
    ensures
        before.effects(Input::Event(Event::Window(event))).len() == 0,
        before.after(Input::Event(Event::Window(event))) == before,
        before.handler.event_status(Event::Window(event)) is Ignored,
{
}

/// The size that Slint knows after it was sent `initial` and the effects were carried out.
pub open spec fn known_size<F>(
    initial: LogicalSize<F>,
    effects: Seq<Effect<F, Seq<char>>>,
) -> LogicalSize<F>
    decreases effects.len(),
{
    if effects.len() == 0 {
        initial
    } else {
        match effects.last() {
            Effect::Dispatch(WindowEvent::Resized { size }) => size,
            _ => known_size(initial, effects.drop_last()),
        }
    }
}

/// Whether the size that Slint knows and the size of the framebuffer are the same size: either
/// whole logical pixels and those at the scale factor of the window, or both from one report.
pub open spec fn same_size<F>(
    known: LogicalSize<F>,
    situation: Situation<F>,
    inputs: Seq<Input<F>>,
) -> bool {
    let physical = situation.handler.adapter.physical_size;
    ||| exists|width: u32, height: u32|
        {
            &&& #[trigger] whole_size(known, width, height)
            &&& #[trigger] scaled_size(physical, width, height, situation.handler.scale_factor)
        }
    ||| exists|info: WindowInfo<F>|
        {
            &&& inputs.contains(Input::Event(report(info)))
            &&& #[trigger] reported_size(known, physical, info)
        }
}

/// A logical and a physical size that are both the reported ones.
pub open spec fn reported_size<F>(
    logical: LogicalSize<F>,
    physical: PhysicalSize<F>,
    info: WindowInfo<F>,
) -> bool {
    &&& logical.width == Scalar::Given(info.logical_width)
    &&& logical.height == Scalar::Given(info.logical_height)
    &&& physical.width == PhysicalLength::<F>::Given(info.physical_width)
    &&& physical.height == PhysicalLength::<F>::Given(info.physical_height)
}

/// A size of whole logical pixels.
pub open spec fn whole_size<F>(size: LogicalSize<F>, width: u32, height: u32) -> bool {
    &&& size.width == Scalar::<F>::Whole(width)
    &&& size.height == Scalar::<F>::Whole(height)
}

/// A logical size at a scale factor.
pub open spec fn scaled_size<F>(
    size: PhysicalSize<F>,
    width: u32,
    height: u32,
    scale_factor: Scalar<F>,
) -> bool {
    &&& size.width == PhysicalLength::Scaled { logical: width, scale_factor }
    &&& size.height == PhysicalLength::Scaled { logical: height, scale_factor }
}

/// What Slint knows after two lists of effects is what it knows after the second, from what it
/// knew after the first.
proof fn lemma_known_size<F>(
    initial: LogicalSize<F>,
    first: Seq<Effect<F, Seq<char>>>,
    second: Seq<Effect<F, Seq<char>>>,
)
    ensures
        known_size(initial, first + second) == known_size(known_size(initial, first), second),
    decreases second.len(),
{
    if second.len() == 0 {
        assert(first + second =~= first);
    } else {
        assert((first + second).drop_last() =~= first + second.drop_last());
        lemma_known_size(initial, first, second.drop_last());
    }
}

/// Over the whole life of a window, the size that Slint knows is the size that the framebuffer
/// has.
pub proof fn law_slint_and_framebuffer_agree<F>(
    width: u32,
    height: u32,
    scale_factor: Scalar<F>,
    inputs: Seq<Input<F>>,
)
    ensures
        ({
            let start = Situation::opened(width, height, scale_factor);
            let initial = LogicalSize {
                width: Scalar::<F>::Whole(width),
                height: Scalar::<F>::Whole(height),
            };
            same_size(known_size(initial, start.run_effects(inputs)), start.run(inputs), inputs)
        }),
    decreases inputs.len(),
{
    let start = Situation::opened(width, height, scale_factor);
    let initial = LogicalSize {
        width: Scalar::<F>::Whole(width),
        height: Scalar::<F>::Whole(height),
    };
    if inputs.len() == 0 {
        assert(whole_size(initial, width, height));
        assert(scaled_size(start.handler.adapter.physical_size, width, height, scale_factor));
    } else {
        let earlier = inputs.drop_last();
        let input = inputs.last();
        law_slint_and_framebuffer_agree(width, height, scale_factor, earlier);
        let before = start.run(earlier);
        let told = known_size(initial, start.run_effects(earlier));
        lemma_known_size(initial, start.run_effects(earlier), before.effects(input));
        lemma_same_size_after(told, before, earlier, input);
        assert(earlier.push(input) =~= inputs);
    }
}

/// An input that changes the size of the framebuffer tells Slint.
proof fn lemma_same_size_after<F>(
    told: LogicalSize<F>,
    before: Situation<F>,
    earlier: Seq<Input<F>>,
    input: Input<F>,
)
    requires
        same_size(told, before, earlier),
    ensures
        same_size(
            known_size(told, before.effects(input)),
            before.after(input),
            earlier.push(input),
        ),
{
    reveal_with_fuel(known_size, 5);
    let effects = before.effects(input);
    let known = known_size(told, effects);
    let after = before.after(input);
    let inputs = earlier.push(input);
    let asked = before.handler.pending_resizes + input.queued_in_frame();
    if input is Resize || effects.len() == 4 {
        assert(effects.drop_last().drop_last().drop_last() =~= seq![effects[0]]);
        let (width, height) = match input {
            Input::Resize { width, height } => (width, height),
            _ => asked.last(),
        };
        if input is ProcessPendingResizes {
            assert(asked =~= before.handler.pending_resizes);
        }
        assert(whole_size(known, width, height));
        assert(scaled_size(
            after.handler.adapter.physical_size,
            width,
            height,
            after.handler.scale_factor,
        ));
    } else if let Input::Event(Event::Window(HostWindowEvent::Resized(info))) = input {
        assert(inputs[earlier.len() as int] == input);
        assert(reported_size(known, after.handler.adapter.physical_size, info));
    } else {
        let physical = before.handler.adapter.physical_size;
        if exists|info: WindowInfo<F>|
            earlier.contains(Input::Event(report(info))) && reported_size(told, physical, info) {
            let info = choose|info: WindowInfo<F>|
                earlier.contains(Input::Event(report(info))) && reported_size(
                    told,
                    physical,
                    info,
                );
            let k = choose|k: int|
                0 <= k < earlier.len() && earlier[k] == Input::Event(report(info));
            assert(inputs[k] == Input::Event(report(info)));
        }
    }
}

/// The logical size that an input gives the window, if it gives it one.
pub open spec fn size_given_by<F>(before: Situation<F>, input: Input<F>) -> Option<LogicalSize<F>> {
    let pending = before.handler.pending_resizes + input.queued_in_frame();
    let processes = input is ProcessPendingResizes || before.frame_steps(input).contains(
        FrameStep::ProcessPendingResizes,
    );
    match input {
        Input::Resize { width, height } => Some(
            LogicalSize { width: Scalar::Whole(width), height: Scalar::Whole(height) },
        ),
        Input::Event(Event::Window(HostWindowEvent::Resized(info))) => Some(
            LogicalSize {
                width: Scalar::Given(info.logical_width),
                height: Scalar::Given(info.logical_height),
            },
        ),
        _ => if processes && pending.len() > 0 {
            Some(
                LogicalSize {
                    width: Scalar::Whole(pending.last().0),
                    height: Scalar::Whole(pending.last().1),
                },
            )
        } else {
            None
        },
    }
}

/// The logical size that a window was given last, the one it was opened with if no other.
pub open spec fn last_size<F>(
    width: u32,
    height: u32,
    scale_factor: Scalar<F>,
    inputs: Seq<Input<F>>,
) -> LogicalSize<F>
    decreases inputs.len(),
{
    if inputs.len() == 0 {
        LogicalSize { width: Scalar::Whole(width), height: Scalar::Whole(height) }
    } else {
        let earlier = inputs.drop_last();
        let before = Situation::opened(width, height, scale_factor).run(earlier);
        match size_given_by(before, inputs.last()) {
            Some(size) => size,
            None => last_size(width, height, scale_factor, earlier),
        }
    }
}

/// Over the whole life of a window, the size that Slint knows is that of the last resize, of the
/// last queued resize that was applied or of the last report, whichever was the latest.
pub proof fn law_slint_knows_the_last_size<F>(
    width: u32,
    height: u32,
    scale_factor: Scalar<F>,
    inputs: Seq<Input<F>>,
)
    ensures
        ({
            let start = Situation::opened(width, height, scale_factor);
            let initial = LogicalSize {
                width: Scalar::<F>::Whole(width),
                height: Scalar::<F>::Whole(height),
            };
            known_size(initial, start.run_effects(inputs)) == last_size(
                width,
                height,
                scale_factor,
                inputs,
            )
        }),
    decreases inputs.len(),
{
    if inputs.len() > 0 {
        let start = Situation::opened(width, height, scale_factor);
        let initial = LogicalSize {
            width: Scalar::<F>::Whole(width),
            height: Scalar::<F>::Whole(height),
        };
        let earlier = inputs.drop_last();
        let before = start.run(earlier);
        let effects = before.effects(inputs.last());
        law_slint_knows_the_last_size(width, height, scale_factor, earlier);
        lemma_known_size(initial, start.run_effects(earlier), effects);
        reveal_with_fuel(known_size, 5);
        if effects.len() == 4 {
            assert(effects.drop_last().drop_last().drop_last() =~= seq![effects[0]]);
        }
        if inputs.last() is ProcessPendingResizes {
            assert(before.handler.pending_resizes + inputs.last().queued_in_frame()
                =~= before.handler.pending_resizes);
        }
    }
}

/// Is this step.
pub open spec fn is_step<F>(step: OpenStep<F>) -> spec_fn(OpenStep<F>) -> bool {
    |other: OpenStep<F>| other == step
}

/// Sends Slint something.
pub open spec fn is_sent<F>() -> spec_fn(OpenStep<F>) -> bool {
    |step: OpenStep<F>| step is Dispatch
}

/// Opening a window, of whatever size and at whatever scale factor, starts by making the context
/// current, ends by creating the component, and does each of these and of the other steps exactly
/// once. Slint is sent two things: the scale factor at which the window is opened, and then its
/// size; by then the adapter it will ask for is registered and the platform is installed.
pub proof fn law_opening_is_complete<F>(width: u32, height: u32, scale_factor: Scalar<F>)
    ensures
        ({
            let plan = open_plan(width, height, scale_factor);
            let size = LogicalSize { width: Scalar::Whole(width), height: Scalar::Whole(height) };
            let scale = OpenStep::Dispatch(WindowEvent::ScaleFactorChanged { scale_factor });
            let resized = OpenStep::Dispatch(WindowEvent::Resized { size });
            let current = OpenStep::<F>::MakeContextCurrent;
            let load = OpenStep::<F>::LoadGlFunctions;
            let register = OpenStep::<F>::RegisterAdapter;
            let install = OpenStep::<F>::InstallPlatform;
            let create = OpenStep::<F>::CreateComponent;
            &&& plan.len() > 0
            &&& plan.first() == current
            &&& plan.last() == create
            &&& only(plan, is_step(current), current)
            &&& only(plan, is_step(load), load)
            &&& only(plan, is_step(register), register)
            &&& only(plan, is_step(install), install)
            &&& only(plan, is_step(scale), scale)
            &&& only(plan, is_step(resized), resized)
            &&& only(plan, is_step(create), create)
            &&& count(plan, is_sent()) == 2
            &&& all_before(plan, is_step(load), is_step(register))
            &&& all_before(plan, is_step(register), is_step(install))
            &&& all_before(plan, is_step(install), is_sent())
            &&& all_before(plan, is_step(scale), is_step(resized))
        }),
{
    reveal_with_fuel(count, 8);
    let plan = open_plan(width, height, scale_factor);
    assert(plan.drop_last().drop_last().drop_last().drop_last().drop_last().drop_last().drop_last()
        =~= seq![]);
    assert(plan[0] is MakeContextCurrent && plan[1] is LoadGlFunctions);
    assert(plan[2] is RegisterAdapter && plan[3] is InstallPlatform);
    assert(plan[4] is Dispatch && plan[5] is Dispatch && plan[6] is CreateComponent);
}

/// A window that was just opened has the scale factor that it was opened at, a framebuffer of its
/// size at that scale factor, nothing in its queue, and the cursor in the top left corner; it is
/// not shown, and the host sees its keys. To resize it to the size it has changes nothing.
pub proof fn law_opened_window<F>(width: u32, height: u32, scale_factor: Scalar<F>)
    ensures
        ({
            let opened = Situation::opened(width, height, scale_factor);
            let handler = opened.handler;
            &&& opened.size == (width, height)
            &&& handler.scale_factor == scale_factor
            &&& handler.adapter.scale_factor == scale_factor
            &&& scaled_size(handler.adapter.physical_size, width, height, scale_factor)
            &&& handler.pending_resizes.len() == 0
            &&& handler.last_cursor_pos.x == Scalar::<F>::Whole(0)
            &&& handler.last_cursor_pos.y == Scalar::<F>::Whole(0)
            &&& !handler.window_shown
            &&& !handler.prevent_key_event_propagation
            &&& opened.after(Input::Resize { width, height }) == opened
        }),
{
}

/// Whether exactly one thing is to be done: to send Slint this event.
pub open spec fn sends_just<F>(
    effects: Seq<Effect<F, Seq<char>>>,
    event: WindowEvent<F, Seq<char>>,
) -> bool {
    &&& effects.len() == 1
    &&& effects[0] == Effect::Dispatch(event)
}

/// Whether the two names are of the same button.
pub open spec fn same_button(button: MouseButton, name: PointerEventButton) -> bool {
    ||| button is Left && name is Left
    ||| button is Right && name is Right
    ||| button is Middle && name is Middle
}

/// In every life of a window, when one of the buttons that Slint knows is pressed, Slint is sent
/// exactly that press, with the name of that button, at the position where the cursor was last
/// reported, the top left corner if it never was; and so for a release. Nothing that the window
/// knows changes, and the host does not see the event.
pub proof fn law_button_goes_with_cursor<F>(
    width: u32,
    height: u32,
    scale_factor: Scalar<F>,
    inputs: Seq<Input<F>>,
    button: MouseButton,
    name: PointerEventButton,
)
    requires
        same_button(button, name),
    ensures
        ({
            let before = Situation::opened(width, height, scale_factor).run(inputs);
            let position = last_reported_cursor(inputs);
            let press = Event::Mouse(MouseEvent::<F>::ButtonPressed { button });
            let release = Event::Mouse(MouseEvent::<F>::ButtonReleased { button });
            &&& sends_just(
                before.effects(Input::Event(press)),
                WindowEvent::PointerPressed { button: name, position },
            )
            &&& sends_just(
                before.effects(Input::Event(release)),
                WindowEvent::PointerReleased { button: name, position },
            )
            &&& before.after(Input::Event(press)) == before
            &&& before.after(Input::Event(release)) == before
            &&& before.handler.event_status(press) is Captured
            &&& before.handler.event_status(release) is Captured
        }),
{
    law_cursor_is_remembered(width, height, scale_factor, inputs);
}

/// What Slint is sent of a button, whether pressed or released, at a time when the cursor was
/// last reported at `position`, stems from an input that reports just that of the same button.
pub open spec fn button_report_is_faithful<F>(
    effect: Effect<F, Seq<char>>,
    input: Input<F>,
    cursor: LogicalPosition<F>,
) -> bool {
    match effect {
        Effect::Dispatch(WindowEvent::PointerPressed { button: name, position }) => {
            &&& position == cursor
            &&& (input matches Input::Event(Event::Mouse(MouseEvent::ButtonPressed { button }))
                && same_button(button, name))
        },
        Effect::Dispatch(WindowEvent::PointerReleased { button: name, position }) => {
            &&& position == cursor
            &&& (input matches Input::Event(Event::Mouse(MouseEvent::ButtonReleased { button }))
                && same_button(button, name))
        },
        _ => true,
    }
}

/// In every life of a window, each press and each release that Slint is sent carries the position
/// where the cursor was last reported before it, and is one that the window was told of, of the
/// same button.
pub proof fn law_sent_buttons_are_faithful<F>(
    width: u32,
    height: u32,
    scale_factor: Scalar<F>,
    inputs: Seq<Input<F>>,
    i: int,
)
    requires
        0 <= i < Situation::opened(width, height, scale_factor).run_effects(inputs).len(),
    ensures
        exists|k: int|
            0 <= k < inputs.len() && #[trigger] button_report_is_faithful(
                Situation::opened(width, height, scale_factor).run_effects(inputs)[i],
                inputs[k],
                last_reported_cursor(inputs.take(k)),
            ),
    decreases inputs.len(),
{
    let start = Situation::opened(width, height, scale_factor);
    let earlier = inputs.drop_last();
    let first = start.run_effects(earlier);
    let effect = start.run_effects(inputs)[i];
    if i < first.len() {
        law_sent_buttons_are_faithful(width, height, scale_factor, earlier, i);
        let k = choose|k: int|
            0 <= k < earlier.len() && #[trigger] button_report_is_faithful(
                first[i],
                earlier[k],
                last_reported_cursor(earlier.take(k)),
            );
        assert(earlier.take(k) =~= inputs.take(k));
        assert(button_report_is_faithful(
            effect,
            inputs[k],
            last_reported_cursor(inputs.take(k)),
        ));
    } else {
        let k = inputs.len() - 1;
        law_cursor_is_remembered(width, height, scale_factor, earlier);
        assert(inputs.take(k) =~= earlier);
        assert(button_report_is_faithful(
            effect,
            inputs[k],
            last_reported_cursor(inputs.take(k)),
        ));
    }
}

/// When the cursor moves, Slint is sent exactly that it moved there, the window remembers where,
/// and nothing else changes. The host does not see the event.
pub proof fn law_moves_are_passed_on<F>(before: Situation<F>, x: F, y: F)
    ensures
        ({
            let event = Event::Mouse(MouseEvent::CursorMoved { x, y });
            let after = before.after(Input::Event(event));
            let position = LogicalPosition { x: Scalar::Given(x), y: Scalar::Given(y) };
            &&& sends_just(
                before.effects(Input::Event(event)),
                WindowEvent::PointerMoved { position },
            )
            &&& after.handler == HandlerView { last_cursor_pos: position, ..before.handler }
            &&& after.size == before.size
            &&& before.handler.event_status(event) is Captured
        }),
{
}

/// When the wheel turns, Slint is sent exactly that, at the top left corner: twenty pixels for
/// each line, a pixel for each pixel, along each axis what was reported for it. Nothing that the
/// window knows changes, and the host does not see the event.
pub proof fn law_wheel_is_passed_on<F>(before: Situation<F>, delta: ScrollDelta<F>)
    ensures
        ({
            let event = Event::Mouse(MouseEvent::WheelScrolled { delta });
            let (delta_x, delta_y) = match delta {
                ScrollDelta::Lines { x, y } => (Scalar::Times(x, 20), Scalar::Times(y, 20)),
                ScrollDelta::Pixels { x, y } => (Scalar::Given(x), Scalar::Given(y)),
            };
            let position = LogicalPosition { x: Scalar::Whole(0), y: Scalar::Whole(0) };
            &&& sends_just(
                before.effects(Input::Event(event)),
                WindowEvent::PointerScrolled { position, delta_x, delta_y },
            )
            &&& before.after(Input::Event(event)) == before
            &&& before.handler.event_status(event) is Captured
        }),
{
}

/// Whether a mouse event means something to Slint.
pub open spec fn is_for_slint<F>(event: MouseEvent<F>) -> bool {
    match event {
        MouseEvent::CursorMoved { .. } => true,
        MouseEvent::WheelScrolled { .. } => true,
        MouseEvent::ButtonPressed { button } => button is Left || button is Right
            || button is Middle,
        MouseEvent::ButtonReleased { button } => button is Left || button is Right
            || button is Middle,
        _ => false,
    }
}

/// Of the buttons that Slint has no name for, of the cursor entering or leaving, and of drags,
/// Slint is told nothing; nothing changes, and the event goes back to the host.
pub proof fn law_other_mouse_events_are_ignored<F>(before: Situation<F>, event: MouseEvent<F>)
    requires
        !is_for_slint(event),
    ensures
        before.effects(Input::Event(Event::Mouse(event))).len() == 0,
        before.after(Input::Event(Event::Mouse(event))) == before,
        before.handler.event_status(Event::Mouse(event)) is Ignored,
{
}

/// Whether a key event sends Slint exactly one thing, which fits what happened to the key: a
/// release if it went up, repeating or not; if it went down, a press the first time and a
/// repeated press after that.
pub open spec fn sends_key<F>(
    effects: Seq<Effect<F, Seq<char>>>,
    event: KeyboardEvent<Seq<char>>,
    text: Seq<char>,
) -> bool {
    &&& event.state is Up ==> sends_just(effects, WindowEvent::KeyReleased { text })
    &&& event.state is Down && !event.repeat ==> sends_just(
        effects,
        WindowEvent::KeyPressed { text },
    )
    &&& event.state is Down && event.repeat ==> sends_just(
        effects,
        WindowEvent::KeyPressRepeated { text },
    )
}

/// A key that types a text makes Slint be sent that text, pressed, repeated or released as the
/// key was, wherever the key sits.
pub proof fn law_typed_key_reaches_slint<F>(
    before: Situation<F>,
    event: KeyboardEvent<Seq<char>>,
    text: Seq<char>,
)
    requires
        event.key == Key::Character(text),
        text.len() > 0,
    ensures
        sends_key(before.effects(Input::Event(Event::Keyboard(event))), event, text),
{
}

/// The character that Slint has for the special key at a place on the keyboard.
pub open spec fn stands_for(character: char, code: Code) -> bool {
    ||| code is Backspace && character == '\u{0008}'
    ||| code is Tab && character == '\u{0009}'
    ||| code is Enter && character == '\u{000a}'
    ||| code is ShiftLeft && character == '\u{0010}'
    ||| code is ControlLeft && character == '\u{0011}'
    ||| code is AltLeft && character == '\u{0012}'
    ||| code is AltRight && character == '\u{0013}'
    ||| code is ShiftRight && character == '\u{0015}'
    ||| code is ControlRight && character == '\u{0016}'
    ||| code is MetaLeft && character == '\u{0017}'
    ||| code is MetaRight && character == '\u{0018}'
    ||| code is Escape && character == '\u{001b}'
    ||| code is Space && character == '\u{0020}'
    ||| code is ArrowUp && character == '\u{f700}'
    ||| code is ArrowDown && character == '\u{f701}'
    ||| code is ArrowLeft && character == '\u{f702}'
    ||| code is ArrowRight && character == '\u{f703}'
}

/// The special key that is engraved at a place on the keyboard; the two keys of a pair are told
/// apart, and the right one of the Alt keys is AltGr.
pub open spec fn is_engraved(key: SpecialKey, code: Code) -> bool {
    match key {
        SpecialKey::Return => code is Enter,
        SpecialKey::Tab => code is Tab,
        SpecialKey::Space => code is Space,
        SpecialKey::Backspace => code is Backspace,
        SpecialKey::Escape => code is Escape,
        SpecialKey::UpArrow => code is ArrowUp,
        SpecialKey::DownArrow => code is ArrowDown,
        SpecialKey::LeftArrow => code is ArrowLeft,
        SpecialKey::RightArrow => code is ArrowRight,
        SpecialKey::Shift => code is ShiftLeft,
        SpecialKey::ShiftR => code is ShiftRight,
        SpecialKey::Control => code is ControlLeft,
        SpecialKey::ControlR => code is ControlRight,
        SpecialKey::Alt => code is AltLeft,
        SpecialKey::AltGr => code is AltRight,
        SpecialKey::Meta => code is MetaLeft,
        SpecialKey::MetaR => code is MetaRight,
    }
}

/// Each special key is found at its own place and at no other, and its text in Slint is the
/// character that stands for the place.
pub proof fn law_special_keys_have_their_places(key: SpecialKey, code: Code)
    ensures
        special_key_at(code) == Some(key) <==> is_engraved(key, code),
        is_engraved(key, code) ==> stands_for(key.character(), code),
{
}

/// A special key makes Slint be sent the one character that stands for it, pressed, repeated or
/// released as the key was.
pub proof fn law_special_key_reaches_slint<F>(
    before: Situation<F>,
    event: KeyboardEvent<Seq<char>>,
    character: char,
)
    requires
        event.key is Named,
        stands_for(character, event.code),
    ensures
        sends_key(before.effects(Input::Event(Event::Keyboard(event))), event, seq![character]),
{
}

/// Slint is told of a key, and of nothing but it, exactly if the key types some text or sits
/// where a special key does. The host is kept from seeing it exactly if Slint was told and keys
/// are to be kept from the host. No key changes anything that the window knows.
pub proof fn law_keys_are_told_once<F>(before: Situation<F>, event: KeyboardEvent<Seq<char>>)
    ensures
        ({
            let told = match event.key {
                Key::Character(text) => text.len() > 0,
                Key::Named => event.code !is Other,
            };
            let effects = before.effects(Input::Event(Event::Keyboard(event)));
            &&& effects.len() == if told {
                1nat
            } else {
                0nat
            }
            &&& before.handler.event_status(Event::Keyboard(event)) is Captured <==> told
                && before.handler.prevent_key_event_propagation
            &&& before.after(Input::Event(Event::Keyboard(event))) == before
        }),
{
}

/// What is to be done when a key is in the given state, and is otherwise as in the event.
pub open spec fn key_effects<F>(
    before: Situation<F>,
    event: KeyboardEvent<Seq<char>>,
    state: KeyState,
    repeat: bool,
) -> Seq<Effect<F, Seq<char>>> {
    before.effects(Input::Event(Event::Keyboard(KeyboardEvent { state, repeat, ..event })))
}

/// What Slint is sent when a key goes down, when it is held and when it goes up differs in what
/// happened to the key and in nothing else: the text is the same each time. Whether the release
/// is marked as a repetition makes no difference.
pub proof fn law_press_hold_release<F>(before: Situation<F>, event: KeyboardEvent<Seq<char>>)
    requires
        before.effects(Input::Event(Event::Keyboard(event))).len() > 0,
    ensures
        ({
            let pressed = key_effects(before, event, KeyState::Down, false);
            let held = key_effects(before, event, KeyState::Down, true);
            let released = key_effects(before, event, KeyState::Up, false);
            exists|text: Seq<char>|
                {
                    &&& text.len() > 0
                    &&& #[trigger] sends_just(pressed, WindowEvent::KeyPressed { text })
                    &&& sends_just(held, WindowEvent::KeyPressRepeated { text })
                    &&& sends_just(released, WindowEvent::KeyReleased { text })
                }
        }),
        key_effects(before, event, KeyState::Up, true) == key_effects(
            before,
            event,
            KeyState::Up,
            false,
        ),
{
    let text = slint_text(event.key, event.code);
    let pressed = key_effects(before, event, KeyState::Down, false);
    assert(sends_just(pressed, WindowEvent::KeyPressed { text }));
}

/// That the component was shown is all that a window learns from being told so.
pub proof fn law_showing_only_marks<F>(handler: HandlerView<F>)
    ensures
        handler.with_component_shown() == (HandlerView { window_shown: true, ..handler }),
{
}

/// What is said of an event that is sent to Slint in terms of the characters of its text holds of
/// the event itself: it is of the same kind and has the same parts.
pub proof fn law_sent_event_is_the_one_viewed<F>(event: WindowEvent<F, String>)
    ensures
        match event@ {
            WindowEvent::PointerMoved { position } => event == (WindowEvent::<
                F,
                String,
            >::PointerMoved { position }),
            WindowEvent::PointerPressed { button, position } => event == (WindowEvent::<
                F,
                String,
            >::PointerPressed { button, position }),
            WindowEvent::PointerReleased { button, position } => event == (WindowEvent::<
                F,
                String,
            >::PointerReleased { button, position }),
            WindowEvent::PointerScrolled { position, delta_x, delta_y } => event == (WindowEvent::<
                F,
                String,
            >::PointerScrolled { position, delta_x, delta_y }),
            WindowEvent::KeyPressed { text } => event is KeyPressed && event->KeyPressed_text@
                == text,
            WindowEvent::KeyPressRepeated { text } => event is KeyPressRepeated
                && event->KeyPressRepeated_text@ == text,
            WindowEvent::KeyReleased { text } => event is KeyReleased && event->KeyReleased_text@
                == text,
            WindowEvent::ScaleFactorChanged { scale_factor } => event == (WindowEvent::<
                F,
                String,
            >::ScaleFactorChanged { scale_factor }),
            WindowEvent::Resized { size } => event == (WindowEvent::<F, String>::Resized { size }),
        },
{
}

/// What is said of a list of effects in terms of characters holds of the effects themselves, one
/// for one and in order.
pub proof fn law_effects_are_the_ones_viewed<F>(effects: Seq<Effect<F, String>>, i: int)
    requires
        0 <= i < effects.len(),
    ensures
        effect_views(effects).len() == effects.len(),
        match effect_views(effects)[i] {
            Effect::Dispatch(event) => effects[i] is Dispatch && effects[i]->0@ == event,
            Effect::RequestRedraw => effects[i] is RequestRedraw,
            Effect::RequestHostResize => effects[i] is RequestHostResize,
            Effect::ResizeWindow { width, height } => effects[i] == (Effect::<
                F,
                String,
            >::ResizeWindow { width, height }),
        },
{
}

/// What is said of an event that the window gets in terms of the characters of its text holds of
/// the event itself.
pub proof fn law_event_is_the_one_viewed<F>(event: Event<F, String>)
    ensures
        match event@ {
            Event::Mouse(mouse) => event == Event::<F, String>::Mouse(mouse),
            Event::Window(window) => event == Event::<F, String>::Window(window),
            Event::Keyboard(key) => {
                &&& event is Keyboard
                &&& event->Keyboard_0.state == key.state
                &&& event->Keyboard_0.code == key.code
                &&& event->Keyboard_0.repeat == key.repeat
                &&& match key.key {
                    Key::Character(text) => event->Keyboard_0.key is Character
                        && event->Keyboard_0.key->Character_0@ == text,
                    Key::Named => event->Keyboard_0.key is Named,
                }
            },
        },
{
}

/// The context that is asked for has OpenGL 3.2, eight bits for each colour channel and for the
/// stencil, 24 for the depth, no multisampling, colours in sRGB, and two buffers that are swapped
/// without waiting.
pub proof fn law_context_for_rendering()
    ensures
        ({
            let config = femtovg_gl_config();
            &&& config.version_major == 3 && config.version_minor == 2
            &&& config.red_bits == 8 && config.green_bits == 8 && config.blue_bits == 8
            &&& config.alpha_bits == 8 && config.stencil_bits == 8
            &&& config.depth_bits == 24
            &&& config.samples is None
            &&& config.srgb && config.double_buffer && !config.vsync
        }),
{
}

} // verus!
