//! Cursor capture: a left click hides the pointer and locks it to the window,
//! Escape shows and frees it again.

use vstd::prelude::*;

verus! {

/// How the window shows and confines the pointer.
#[derive(Clone, Copy, Debug, PartialEq, Eq, Structural)]
pub struct CursorState {
    pub visible: bool,
    pub locked: bool,
}

/// One change of the window's cursor mode.
#[derive(Clone, Copy, Debug, PartialEq, Eq, Structural)]
pub enum CursorAction {
    /// Hide the pointer and lock it to the window.
    Capture,
    /// Show the pointer and unlock it.
    Release,
}

/// The cursor mode that `action` leaves behind.
pub open spec fn action_target(action: CursorAction) -> CursorState {
    match action {
        CursorAction::Capture => CursorState { visible: false, locked: true },
        CursorAction::Release => CursorState { visible: true, locked: false },
    }
}

/// The cursor mode after `actions` were carried out in order, starting from
/// `state`: that of the last action, or `state` if there was none.
pub open spec fn after_actions(state: CursorState, actions: Seq<CursorAction>) -> CursorState {
    if actions.len() == 0 {
        state
    } else {
        action_target(actions.last())
    }
}

/// The actions of one frame: a capture if the left button went down during
/// it, then a release if Escape did.
pub open spec fn frame_actions(left_just_pressed: bool, escape_just_pressed: bool) -> Seq<
    CursorAction,
> {
    let capture = if left_just_pressed {
        seq![CursorAction::Capture]
    } else {
        Seq::empty()
    };
    let release = if escape_just_pressed {
        seq![CursorAction::Release]
    } else {
        Seq::empty()
    };
    capture + release
}

impl CursorState {
    /// The mode a window starts in: pointer shown and free.
    pub fn released() -> (state: CursorState)
        ensures
            state == action_target(CursorAction::Release),
    {
        CursorState { visible: true, locked: false }
    }

    /// Carries out one action. The mode before it does not matter.
    pub fn apply(self, action: CursorAction) -> (next: CursorState)
        ensures
            next == action_target(action),
            next == after_actions(self, seq![action]),
    {
        match action {
            CursorAction::Capture => CursorState { visible: false, locked: true },
            CursorAction::Release => CursorState { visible: true, locked: false },
        }
    }

    /// Carries out a frame's actions in order.
    pub fn apply_all(self, actions: &Vec<CursorAction>) -> (next: CursorState)
        ensures
            next == after_actions(self, actions@),
    {
        let mut state = self;
        let mut i: usize = 0;
        while i < actions.len()
            invariant
                i <= actions.len(),
                state == after_actions(self, actions@.take(i as int)),
            decreases actions.len() - i,
        {
            state = state.apply(actions[i]);
            i += 1;
            proof {
                assert(actions@.take(i as int).last() == actions@[i - 1]);
            }
        }
        proof {
            assert(actions@.take(i as int) =~= actions@);
        }
        state
    }
}

/// Decides what one frame's button presses do to the cursor.
///
/// `left_just_pressed` and `escape_just_pressed` say whether the left mouse
/// button and the Escape key went down during the frame. The capture, if any,
/// comes first, so Escape wins when both went down together.
pub fn grab_mouse(left_just_pressed: bool, escape_just_pressed: bool) -> (actions: Vec<
    CursorAction,
>)
    ensures
        actions@ == frame_actions(left_just_pressed, escape_just_pressed),
{
    let mut actions: Vec<CursorAction> = Vec::new();
    if left_just_pressed {
        actions.push(CursorAction::Capture);
    }
    if escape_just_pressed {
        actions.push(CursorAction::Release);
    }
    actions
}

/// What a frame does to the cursor depends on the two presses alone: Escape
/// releases it, a left click without Escape captures it, and a frame with
/// neither leaves it as it was.
pub proof fn lemma_frame_outcome(
    state: CursorState,
    left_just_pressed: bool,
    escape_just_pressed: bool,
)
    ensures
        after_actions(state, frame_actions(left_just_pressed, escape_just_pressed)) == (
        if escape_just_pressed {
            CursorState { visible: true, locked: false }
        } else if left_just_pressed {
            CursorState { visible: false, locked: true }
        } else {
            state
        }),
{
}

/// A left click hides and locks the cursor whatever its mode was, and Escape
/// in a later frame shows and frees it again.
pub proof fn lemma_click_then_escape(state: CursorState)
    ensures
        ({
            let clicked = after_actions(state, frame_actions(true, false));
            let escaped = after_actions(clicked, frame_actions(false, true));
            &&& !clicked.visible && clicked.locked
            &&& escaped.visible && !escaped.locked
        }),
{
}

/// Carrying out one list of actions after another is carrying out their
/// concatenation: only the order of the presses matters, not how they fall
/// into frames.
pub proof fn lemma_actions_compose(
    state: CursorState,
    first: Seq<CursorAction>,
    second: Seq<CursorAction>,
)
    ensures
        after_actions(after_actions(state, first), second) == after_actions(
            state,
            first + second,
        ),
{
    if second.len() == 0 {
        assert(first + second =~= first);
    } else {
        assert((first + second).last() == second.last());
    }
}

} // verus!
