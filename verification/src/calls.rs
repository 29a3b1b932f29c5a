//! What comes of calling the functions of the library.
//!
//! Each law here starts from calls that have returned, and says what their results have to do
//! with what they were given and with each other. The first ones tie the calls that a window
//! receives to the inputs of its life, so that what holds of every life holds of the calls.

use crate::adapter::{BaseviewSlintAdapter, BaseviewSlintPlatform, PlatformError};
use crate::editor::{femtovg_gl_config, OpenStep, SlintEditor, WindowOpenOptions};
use crate::event::{effect_views, Code, Effect, Event, EventStatus, Key, WindowEvent};
use crate::geometry::{LogicalSize, PhysicalLength, PhysicalSize, Scalar};
use crate::guarantees::{
    is_engraved, law_opened_window, law_opening_is_complete, law_resize_is_recorded, stands_for,
};
use crate::handler::{FrameStep, HandlerView, WindowHandler};
use crate::keys::{key_text, special_key, SpecialKey};
use crate::laws::{Input, Situation};
use crate::state::{default_height, default_width, SlintEditorState};
use vstd::prelude::*;

verus! {

/// Whether the effects were added to what was to be done already, behind it.
pub open spec fn added<F>(
    before: Seq<Effect<F, String>>,
    after: Seq<Effect<F, String>>,
    effects: Seq<Effect<F, Seq<char>>>,
) -> bool {
    effect_views(after) == effect_views(before) + effects
}

/// A window and the size on record for it.
pub open spec fn situation<F>(
    handler: WindowHandler<F>,
    state: SlintEditorState,
) -> Situation<F> {
    Situation { handler: handler@, size: state@ }
}

/// A call of `WindowHandler::resize` is a resize in the life of the window. The last thing that is
/// to be done after it is to give the window that size, and just before that the host is asked.
pub proof fn law_resize_call<F: Copy>(
    handler: &mut WindowHandler<F>,
    state: &mut SlintEditorState,
    effects: &mut Vec<Effect<F, String>>,
    width: u32,
    height: u32,
)
    requires
        call_ensures(WindowHandler::<F>::resize, (handler, state, effects, width, height), ()),
    ensures
        ({
            let before = situation(*old(handler), *old(state));
            let input = Input::Resize { width, height };
            let n = old(effects)@.len() as int;
            let size = LogicalSize { width: Scalar::Whole(width), height: Scalar::Whole(height) };
            &&& situation(*final(handler), *final(state)) == before.after(input)
            &&& added(old(effects)@, final(effects)@, before.effects(input))
            &&& final(effects)@.len() == n + 4
            &&& final(effects)@[n] == Effect::Dispatch(
                WindowEvent::<F, String>::Resized { size },
            )
            &&& final(effects)@[n + 1] == Effect::<F, String>::RequestRedraw
            &&& final(effects)@[n + 2] == Effect::<F, String>::RequestHostResize
            &&& final(effects)@[n + 3] == (Effect::<F, String>::ResizeWindow { width, height })
        }),
{
    let n = old(effects)@.len() as int;
    assert(effect_views(final(effects)@).len() == n + 4);
    assert(effect_views(final(effects)@)[n] == final(effects)@[n]@);
    assert(effect_views(final(effects)@)[n + 1] == final(effects)@[n + 1]@);
    assert(effect_views(final(effects)@)[n + 2] == final(effects)@[n + 2]@);
    assert(effect_views(final(effects)@)[n + 3] == final(effects)@[n + 3]@);
}

/// A call of `WindowHandler::on_event` is that event in the life of the window, and the host
/// learns what became of it.
pub proof fn law_event_call<F: Copy>(
    handler: &mut WindowHandler<F>,
    state: &mut SlintEditorState,
    effects: &mut Vec<Effect<F, String>>,
    event: Event<F, String>,
    status: EventStatus,
)
    requires
        call_ensures(WindowHandler::<F>::on_event, (handler, state, effects, event), status),
    ensures
        ({
            let before = situation(*old(handler), *old(state));
            let input = Input::Event(event@);
            &&& situation(*final(handler), *final(state)) == before.after(input)
            &&& added(old(effects)@, final(effects)@, before.effects(input))
            &&& status == before.handler.event_status(event@)
        }),
{
}

/// A call of `WindowHandler::queue_resize` is an input that asks for a size, and the queue that
/// can be looked at from then on ends with that size.
pub proof fn law_queue_call<F: Copy>(
    handler: &mut WindowHandler<F>,
    state: SlintEditorState,
    width: u32,
    height: u32,
    queue: &Vec<(u32, u32)>,
)
    requires
        call_ensures(WindowHandler::<F>::queue_resize, (handler, width, height), ()),
        call_ensures(WindowHandler::<F>::pending_resizes, (&*final(handler),), queue),
    ensures
        ({
            let before = situation(*old(handler), state);
            &&& situation(*final(handler), state) == before.after(
                Input::QueueResize { width, height },
            )
            &&& queue@ == before.handler.pending_resizes.push((width, height))
        }),
{
}

/// A call of `WindowHandler::process_pending_resizes` processes the queue in the life of the
/// window. It returns the latest size in the queue, which is then on record, or nothing if the
/// queue was empty.
pub proof fn law_process_call<F: Copy>(
    handler: &mut WindowHandler<F>,
    state: &mut SlintEditorState,
    effects: &mut Vec<Effect<F, String>>,
    applied: Option<(u32, u32)>,
)
    requires
        call_ensures(
            WindowHandler::<F>::process_pending_resizes,
            (handler, state, effects),
            applied,
        ),
    ensures
        ({
            let before = situation(*old(handler), *old(state));
            let input = Input::ProcessPendingResizes;
            let pending = before.handler.pending_resizes;
            &&& situation(*final(handler), *final(state)) == before.after(input)
            &&& added(old(effects)@, final(effects)@, before.effects(input))
            &&& applied is None <==> pending.len() == 0
            &&& pending.len() > 0 ==> {
                &&& applied == Some(pending[pending.len() - 1])
                &&& applied == Some(final(state)@)
            }
        }),
{
    let before = situation(*old(handler), *old(state));
    if before.handler.pending_resizes.len() == 0 {
        assert(effect_views(old(effects)@) + seq![] =~= effect_views(old(effects)@));
    }
}

/// A call of `WindowHandler::set_prevent_key_event_propagation` is the input of that name.
pub proof fn law_prevention_call<F: Copy>(
    handler: &mut WindowHandler<F>,
    state: SlintEditorState,
    is_enabled: bool,
)
    requires
        call_ensures(
            WindowHandler::<F>::set_prevent_key_event_propagation,
            (handler, is_enabled),
            (),
        ),
    ensures
        situation(*final(handler), state) == situation(*old(handler), state).after(
            Input::SetPreventKeyEventPropagation(is_enabled),
        ),
{
}

/// A call of `WindowHandler::on_frame` gives the steps of a frame in the life of the window.
pub proof fn law_frame_call<F: Copy>(
    handler: WindowHandler<F>,
    state: SlintEditorState,
    queued: Seq<(u32, u32)>,
    steps: Vec<FrameStep>,
)
    requires
        call_ensures(WindowHandler::<F>::on_frame, (&handler,), steps),
    ensures
        steps@ == situation(handler, state).frame_steps(Input::Frame { queued }),
{
}

/// Once `WindowHandler::component_shown` was called, the component is not shown again: the next
/// frame has the steps that the frame before it had, without those that show the component and
/// set it up.
pub proof fn law_shown_call<F: Copy>(
    handler: &mut WindowHandler<F>,
    first: Vec<FrameStep>,
    next: Vec<FrameStep>,
)
    requires
        !old(handler)@.window_shown,
        call_ensures(WindowHandler::<F>::on_frame, (&*old(handler),), first),
        call_ensures(WindowHandler::<F>::component_shown, (handler,), ()),
        call_ensures(WindowHandler::<F>::on_frame, (&*final(handler),), next),
    ensures
        final(handler)@.window_shown,
        final(handler)@ == (HandlerView { window_shown: true, ..old(handler)@ }),
        first@.contains(FrameStep::ShowComponent),
        !next@.contains(FrameStep::ShowComponent),
        next@ == first@.take(1) + first@.skip(5),
{
    assert(first@[3] == FrameStep::ShowComponent);
}

/// A new handler is that of a window just opened, whose adapter says so.
pub proof fn law_new_handler_call<F: Copy>(
    width: u32,
    height: u32,
    scale_factor: Scalar<F>,
    handler: WindowHandler<F>,
    adapter: &BaseviewSlintAdapter<F>,
)
    requires
        call_ensures(WindowHandler::<F>::new, (width, height, scale_factor), handler),
        call_ensures(WindowHandler::<F>::adapter, (&handler,), adapter),
    ensures
        handler@ == Situation::opened(width, height, scale_factor).handler,
        adapter.scale_factor == scale_factor,
        adapter.physical_size.width == (PhysicalLength::Scaled { logical: width, scale_factor }),
        adapter.physical_size.height == (PhysicalLength::Scaled { logical: height, scale_factor }),
{
    law_opened_window(width, height, scale_factor);
}

/// What the adapter of a window says after a resize is that size at the scale factor of the
/// window.
pub proof fn law_adapter_after_resize_call<F: Copy>(
    handler: &mut WindowHandler<F>,
    state: &mut SlintEditorState,
    effects: &mut Vec<Effect<F, String>>,
    width: u32,
    height: u32,
    adapter: &BaseviewSlintAdapter<F>,
    size: PhysicalSize<F>,
)
    requires
        call_ensures(WindowHandler::<F>::resize, (handler, state, effects, width, height), ()),
        call_ensures(WindowHandler::<F>::adapter, (&*final(handler),), adapter),
        call_ensures(BaseviewSlintAdapter::<F>::size, (adapter,), size),
    ensures
        ({
            let scale_factor = old(handler)@.scale_factor;
            &&& size.width == PhysicalLength::Scaled { logical: width, scale_factor }
            &&& size.height == PhysicalLength::Scaled { logical: height, scale_factor }
            &&& adapter.scale_factor == scale_factor
        }),
{
    law_resize_is_recorded(situation(*old(handler), *old(state)), width, height);
}

/// Opening a window, of whatever size and at whatever scale factor the host reported, gives the
/// handler of a window just opened, and steps of which the first makes the context current and
/// the last creates the component; that is done once. Of what Slint is sent, the size comes last.
pub proof fn law_open_call<H, C, S, E, F: Copy>(
    editor: SlintEditor<H, C, S, E, F>,
    width: u32,
    height: u32,
    opened: (WindowHandler<F>, Vec<OpenStep<F>>),
)
    requires
        call_ensures(SlintEditor::<H, C, S, E, F>::open_window, (&editor, width, height), opened),
    ensures
        ({
            let scale_factor = editor.host_scale_factor;
            let steps = opened.1@;
            let size = LogicalSize {
                width: Scalar::<F>::Whole(width),
                height: Scalar::<F>::Whole(height),
            };
            let scale = OpenStep::Dispatch(WindowEvent::ScaleFactorChanged { scale_factor });
            let resized = OpenStep::Dispatch(WindowEvent::Resized { size });
            &&& opened.0@ == Situation::opened(width, height, scale_factor).handler
            &&& steps.len() == 7
            &&& steps[0] == OpenStep::<F>::MakeContextCurrent
            &&& steps[steps.len() - 1] == OpenStep::<F>::CreateComponent
            &&& forall|i: int|
                0 <= i < steps.len() - 1 ==> #[trigger] steps[i] != OpenStep::<F>::CreateComponent
            &&& steps.contains(OpenStep::LoadGlFunctions)
            &&& steps.contains(OpenStep::RegisterAdapter)
            &&& steps.contains(OpenStep::InstallPlatform)
            &&& steps[4] == scale
            &&& steps[5] == resized
        }),
{
    law_opening_is_complete(width, height, editor.host_scale_factor);
}

/// A window is opened at the scale factor that the host reported last, and at 1 if the host never
/// reported one.
pub proof fn law_windows_open_at_the_reported_scale<H, C, S, E, F: Copy>(
    state: H,
    factory: C,
    fresh: SlintEditor<H, C, S, E, F>,
    editor: &mut SlintEditor<H, C, S, E, F>,
    factor: F,
    agreed: bool,
    width: u32,
    height: u32,
    first: (WindowHandler<F>, Vec<OpenStep<F>>),
    second: (WindowHandler<F>, Vec<OpenStep<F>>),
)
    requires
        call_ensures(SlintEditor::<H, C, S, E, F>::new, (state, factory), fresh),
        call_ensures(SlintEditor::<H, C, S, E, F>::open_window, (&fresh, width, height), first),
        call_ensures(SlintEditor::<H, C, S, E, F>::set_scale_factor, (editor, factor), agreed),
        call_ensures(
            SlintEditor::<H, C, S, E, F>::open_window,
            (&*final(editor), width, height),
            second,
        ),
    ensures
        agreed,
        first.0@.scale_factor == Scalar::<F>::Whole(1),
        second.0@.scale_factor == Scalar::Given(factor),
        first.0@.adapter.scale_factor == Scalar::<F>::Whole(1),
        second.0@.adapter.scale_factor == Scalar::Given(factor),
{
}

/// The two handlers of an editor can be set in either order, each replaces the earlier one of its
/// kind, and neither they nor a reported scale factor touch anything else; a fresh editor has
/// none.
pub proof fn law_editor_is_put_together<H, C, S, E, F: Copy>(
    state: H,
    factory: C,
    setup: S,
    event_loop: E,
    fresh: SlintEditor<H, C, S, E, F>,
    with_setup: SlintEditor<H, C, S, E, F>,
    with_event_loop: SlintEditor<H, C, S, E, F>,
    first: SlintEditor<H, C, S, E, F>,
    second: SlintEditor<H, C, S, E, F>,
)
    requires
        call_ensures(SlintEditor::<H, C, S, E, F>::new, (state, factory), fresh),
        call_ensures(SlintEditor::<H, C, S, E, F>::with_setup, (fresh, setup), with_setup),
        call_ensures(
            SlintEditor::<H, C, S, E, F>::with_event_loop,
            (with_setup, event_loop),
            first,
        ),
        call_ensures(
            SlintEditor::<H, C, S, E, F>::with_event_loop,
            (fresh, event_loop),
            with_event_loop,
        ),
        call_ensures(SlintEditor::<H, C, S, E, F>::with_setup, (with_event_loop, setup), second),
    ensures
        first == second,
        first.component_factory == factory,
        first.state == state,
        first.setup_handler == Some(setup),
        first.event_loop_handler == Some(event_loop),
        fresh.setup_handler is None,
        fresh.event_loop_handler is None,
        with_setup.event_loop_handler is None,
        with_event_loop.setup_handler is None,
        first.host_scale_factor == fresh.host_scale_factor,
{
}

/// What the host is told as the size of the editor, the window that it is to open, and what the
/// state says are all the same size.
pub proof fn law_window_is_opened_at_the_size_on_record<H, C, S, E, F: Copy>(
    editor: SlintEditor<H, C, S, E, F>,
    state: SlintEditorState,
    on_record: (u32, u32),
    size: (u32, u32),
    options: WindowOpenOptions,
)
    requires
        call_ensures(SlintEditorState::size, (&state,), on_record),
        call_ensures(SlintEditor::<H, C, S, E, F>::size, (&editor, &state), size),
        call_ensures(SlintEditor::<H, C, S, E, F>::spawn, (&editor, &state), options),
    ensures
        size == on_record,
        options.width == on_record.0,
        options.height == on_record.1,
        options.scale is SystemScaleFactor,
        options.title@ == "Plug-in"@,
        options.gl_config == femtovg_gl_config(),
{
}

/// A state says the size that it was made with.
pub proof fn law_new_state_is_of_its_size(
    width: u32,
    height: u32,
    state: SlintEditorState,
    size: (u32, u32),
)
    requires
        call_ensures(SlintEditorState::new, (width, height), state),
        call_ensures(SlintEditorState::size, (&state,), size),
    ensures
        size == (width, height),
{
}

/// What is stored in a state is what the state says from then on.
pub proof fn law_stored_size_is_given_back(
    state: &mut SlintEditorState,
    width: u32,
    height: u32,
    size: (u32, u32),
)
    requires
        call_ensures(SlintEditorState::store, (state, width, height), ()),
        call_ensures(SlintEditorState::size, (&*final(state),), size),
    ensures
        size == (width, height),
{
}

/// A state that is set to another says the size that the other said; in the life of a window
/// this is the host restoring that size.
pub proof fn law_restored_state_says_the_saved_size<F>(
    handler: WindowHandler<F>,
    state: &mut SlintEditorState,
    saved: SlintEditorState,
    saved_size: (u32, u32),
    size: (u32, u32),
)
    requires
        call_ensures(SlintEditorState::size, (&saved,), saved_size),
        call_ensures(SlintEditorState::set, (state, saved), ()),
        call_ensures(SlintEditorState::size, (&*final(state),), size),
    ensures
        size == saved_size,
        situation(handler, *final(state)) == situation(handler, *old(state)).after(
            Input::Restore { width: saved_size.0, height: saved_size.1 },
        ),
{
}

/// The size on record after a resize is the size asked for.
pub proof fn law_resize_call_is_saved<F: Copy>(
    handler: &mut WindowHandler<F>,
    state: &mut SlintEditorState,
    effects: &mut Vec<Effect<F, String>>,
    width: u32,
    height: u32,
    size: (u32, u32),
)
    requires
        call_ensures(WindowHandler::<F>::resize, (handler, state, effects, width, height), ()),
        call_ensures(SlintEditorState::size, (&*final(state),), size),
    ensures
        size == (width, height),
{
}

/// The state that nothing was saved for has the default width and height.
pub proof fn law_default_state(
    width: u32,
    height: u32,
    state: SlintEditorState,
    size: (u32, u32),
)
    requires
        call_ensures(default_width, (), width),
        call_ensures(default_height, (), height),
        call_ensures(<SlintEditorState as Default>::default, (), state),
        call_ensures(SlintEditorState::size, (&state,), size),
    ensures
        size == (width, height),
        size == (400u32, 300u32),
{
}

/// The platform hands out the adapter that was registered last, and until one is, says that none
/// is set.
pub proof fn law_platform_hands_out_the_last_adapter<A>(
    fresh: BaseviewSlintPlatform<A>,
    early: Result<&A, PlatformError>,
    platform: &mut BaseviewSlintPlatform<A>,
    adapter: A,
    handed_out: Result<&A, PlatformError>,
)
    requires
        call_ensures(BaseviewSlintPlatform::<A>::new, (), fresh),
        call_ensures(BaseviewSlintPlatform::<A>::create_window_adapter, (&fresh,), early),
        call_ensures(BaseviewSlintPlatform::<A>::register, (platform, adapter), ()),
        call_ensures(
            BaseviewSlintPlatform::<A>::create_window_adapter,
            (&*final(platform),),
            handed_out,
        ),
    ensures
        early is Err,
        handed_out is Ok,
        *handed_out->Ok_0 == adapter,
{
}

/// An adapter says the size and the scale factor that it was made with, and after an update those
/// of the update.
pub proof fn law_adapter_says_what_it_was_told<F: Copy>(
    physical_size: PhysicalSize<F>,
    scale_factor: Scalar<F>,
    fresh: BaseviewSlintAdapter<F>,
    first: PhysicalSize<F>,
    adapter: &mut BaseviewSlintAdapter<F>,
    second: PhysicalSize<F>,
)
    requires
        call_ensures(BaseviewSlintAdapter::<F>::new, (physical_size, scale_factor), fresh),
        call_ensures(BaseviewSlintAdapter::<F>::size, (&fresh,), first),
        call_ensures(
            BaseviewSlintAdapter::<F>::update_size,
            (adapter, physical_size, scale_factor),
            (),
        ),
        call_ensures(BaseviewSlintAdapter::<F>::size, (&*final(adapter),), second),
    ensures
        first == physical_size,
        second == physical_size,
        fresh.scale_factor == scale_factor,
        final(adapter).scale_factor == scale_factor,
{
}

/// The text of a key is what the key types; of a special key, the character that stands for it;
/// of any other key, nothing.
pub proof fn law_key_text_call(key: Key<String>, code: Code, text: String)
    requires
        call_ensures(key_text, (key, code), text),
    ensures
        match key {
            Key::Character(typed) => text@ == typed@,
            Key::Named => if code is Other {
                text@.len() == 0
            } else {
                text@.len() == 1 && stands_for(text@[0], code)
            },
        },
{
}

/// There is a special key at every place that is named, and at no other.
pub proof fn law_special_key_call(code: Code, key: Option<SpecialKey>)
    requires
        call_ensures(special_key, (code,), key),
    ensures
        key is None <==> code is Other,
        key matches Some(special) ==> is_engraved(special, code),
{
}

} // verus!
