use vstd::prelude::*;

verus! {

/// The calls that can be made on a `GuiFrameState`.
pub enum GuiCall {
    /// `begin_frame`.
    BeginFrame,
    /// `end_frame`.
    EndFrame,
    /// `context_available`.
    ContextAvailable,
}

/// Whether the GUI is inside a frame after `call`, given whether it was before.
pub open spec fn gui_step(drawing: bool, call: GuiCall) -> bool {
    match call {
        GuiCall::BeginFrame => true,
        GuiCall::EndFrame => false,
        GuiCall::ContextAvailable => drawing,
    }
}

/// Whether the GUI is inside a frame after `calls`, made in order, given whether it was
/// before them.
pub open spec fn drawing_after(drawing: bool, calls: Seq<GuiCall>) -> bool
    decreases calls.len(),
{
    if calls.len() == 0 {
        drawing
    } else {
        gui_step(drawing_after(drawing, calls.drop_last()), calls.last())
    }
}

/// Whether the GUI is between the start and the end of a frame, the only time its
/// context may be used to lay out widgets.
pub struct GuiFrameState {
    is_drawing_gui: bool,
}

impl GuiFrameState {
    /// Whether a GUI frame has started and not yet ended.
    pub closed spec fn is_drawing(self) -> bool {
        self.is_drawing_gui
    }

    /// The state before the first GUI frame.
    pub fn new() -> (state: GuiFrameState)
        ensures
            !state.is_drawing(),
    {
        GuiFrameState { is_drawing_gui: false }
    }

    /// A GUI frame starts.
    pub fn begin_frame(&mut self)
        ensures
            final(self).is_drawing() == gui_step(old(self).is_drawing(), GuiCall::BeginFrame),
    {
        self.is_drawing_gui = true;
    }

    /// The GUI frame ends.
    pub fn end_frame(&mut self)
        ensures
            final(self).is_drawing() == gui_step(old(self).is_drawing(), GuiCall::EndFrame),
    {
        self.is_drawing_gui = false;
    }

    /// Whether the GUI context may be handed out now: only inside a frame.
    pub fn context_available(&self) -> (available: bool)
        ensures
            available == self.is_drawing(),
            gui_step(self.is_drawing(), GuiCall::ContextAvailable) == self.is_drawing(),
    {
        self.is_drawing_gui
    }
}

/// The context is available exactly between a start and an end of a frame: after any
/// sequence of calls, the GUI is inside a frame exactly when some `begin_frame` was made
/// with no `end_frame` after it, or when it was inside a frame before and no `end_frame`
/// was made at all.
pub proof fn lemma_context_between_begin_and_end(drawing: bool, calls: Seq<GuiCall>)
    ensures
        drawing_after(drawing, calls) == ((exists|i: int|
            0 <= i < calls.len() && calls[i] is BeginFrame && forall|j: int|
                i < j < calls.len() ==> !(#[trigger] calls[j] is EndFrame)) || (drawing
            && forall|j: int| 0 <= j < calls.len() ==> !(#[trigger] calls[j] is EndFrame))),
    decreases calls.len(),
{
    if calls.len() > 0 {
        let init = calls.drop_last();
        let n = calls.len() - 1;
        lemma_context_between_begin_and_end(drawing, init);
        assert forall|j: int| 0 <= j < init.len() implies init[j] == calls[j] by {}
        if calls[n] is BeginFrame {
            assert(forall|j: int| n < j < calls.len() ==> !(#[trigger] calls[j] is EndFrame));
        } else if calls[n] is EndFrame {
            assert forall|i: int|
                0 <= i < calls.len() && calls[i] is BeginFrame implies !(forall|j: int|
                i < j < calls.len() ==> !(#[trigger] calls[j] is EndFrame)) by {
                assert(i < n);
                assert(calls[n] is EndFrame);
            }
            assert(calls[n] is EndFrame);
        } else {
            if drawing_after(drawing, init) {
                if exists|i: int|
                    0 <= i < init.len() && init[i] is BeginFrame && forall|j: int|
                        i < j < init.len() ==> !(#[trigger] init[j] is EndFrame) {
                    let i = choose|i: int|
                        0 <= i < init.len() && init[i] is BeginFrame && forall|j: int|
                            i < j < init.len() ==> !(#[trigger] init[j] is EndFrame);
                    assert(calls[i] is BeginFrame);
                    assert forall|j: int| i < j < calls.len() implies !(
                    #[trigger] calls[j] is EndFrame) by {
                        if j < n {
                            assert(init[j] == calls[j]);
                        }
                    }
                }
            } else {
                assert forall|i: int|
                    0 <= i < calls.len() && calls[i] is BeginFrame implies !(forall|j: int|
                    i < j < calls.len() ==> !(#[trigger] calls[j] is EndFrame)) by {
                    assert(i < n);
                    assert(init[i] == calls[i]);
                    assert(!forall|j: int| i < j < init.len() ==> !(#[trigger] init[j] is EndFrame));
                    let j = choose|j: int| i < j < init.len() && (#[trigger] init[j] is EndFrame);
                    assert(calls[j] == init[j]);
                }
                if drawing {
                    let j = choose|j: int| 0 <= j < init.len() && (#[trigger] init[j] is EndFrame);
                    assert(calls[j] == init[j]);
                }
            }
        }
    }
}

} // verus!
