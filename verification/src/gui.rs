//! Decisions of the plugin's GUI that do not depend on the GUI toolkit: the
//! text a dropdown shows and what a pointer move does during a knob drag.

use vstd::prelude::*;

verus! {

/// Minimum time between two parameter changes sent during a drag, in
/// nanoseconds (4 ms, about 250 changes per second).
pub const DRAG_THROTTLE_NS: u64 = 4_000_000;

/// The text a dropdown shows: the explicit label if there is one, else the
/// selected option, else a dash.
pub open spec fn dropdown_text(options: Seq<Seq<char>>, selected: Option<usize>, label: Option<Seq<char>>) -> Seq<char> {
    match label {
        Some(l) => l,
        None => match selected {
            Some(i) => if i < options.len() {
                options[i as int]
            } else {
                "–"@
            },
            None => "–"@,
        },
    }
}

/// The text a dropdown with `options`, the option `selected` and the explicit
/// `label` shows.
pub fn dropdown_display(options: &Vec<String>, selected: Option<usize>, label: Option<String>) -> (s: String)
    ensures
        s@ == dropdown_text(
            options@.map_values(|o: String| o@),
            selected,
            match label {
                Some(l) => Some(l@),
                None => None,
            },
        ),
        label matches Some(l) ==> s@ == l@,
        label is None ==> (selected matches Some(i) ==> (i < options@.len() ==> s@
            == options@[i as int]@)),
        label is None && (selected is None || selected->0 >= options@.len()) ==> s@ == "–"@,
{
    match label {
        Some(l) => l,
        None => match selected {
            Some(i) => if i < options.len() {
                options[i].clone()
            } else {
                "–".to_owned()
            },
            None => "–".to_owned(),
        },
    }
}

/// The dropdown shows the explicit label whenever there is one, and otherwise
/// the selected option whenever the selection is one of the options (the first
/// one included); only without a label and a valid selection does it show the
/// dash.
pub proof fn lemma_dropdown_shows_selection(options: Seq<Seq<char>>, selected: Option<usize>, label: Option<Seq<char>>)
    ensures
        label matches Some(l) ==> dropdown_text(options, selected, label) == l,
        label is None ==> (selected matches Some(i) ==> (i < options.len() ==> dropdown_text(
            options,
            selected,
            label,
        ) == options[i as int])),
        label is None && (selected is None || selected->0 >= options.len()) ==> dropdown_text(
            options,
            selected,
            label,
        ) == "–"@,
{
}

/// What a pointer move does while a knob may be dragged.
#[derive(Clone, Copy, PartialEq, Eq, Debug)]
pub enum DragMoveAction {
    /// No drag is active: nothing happens.
    Ignore,
    /// The primary button is no longer held: the drag ends (its gesture is
    /// closed and the drag forgotten).
    End,
    /// The last change was sent less than [`DRAG_THROTTLE_NS`] ago: nothing is sent.
    Skip,
    /// A change for the new pointer position is computed and sent.
    Dispatch,
}

/// Whether enough time has passed since the last change sent at
/// `last_dispatch` (none yet: always) to send another at `now`. Time does not
/// run backwards: an earlier `now` counts as no time passed.
pub open spec fn throttle_open(last_dispatch: Option<u64>, now: u64) -> bool {
    match last_dispatch {
        None => true,
        Some(t) => (if now >= t { now - t } else { 0 }) >= DRAG_THROTTLE_NS,
    }
}

/// Decides what a pointer move at time `now` (nanoseconds) does: `dragging`
/// tells whether a drag is active, `primary_held` whether the primary button
/// is still held, and `last_dispatch` when the last change was sent.
pub fn drag_move_action(dragging: bool, primary_held: bool, last_dispatch: Option<u64>, now: u64) -> (a: DragMoveAction)
    ensures
        a == if !dragging {
            DragMoveAction::Ignore
        } else if !primary_held {
            DragMoveAction::End
        } else if throttle_open(last_dispatch, now) {
            DragMoveAction::Dispatch
        } else {
            DragMoveAction::Skip
        },
{
    if !dragging {
        return DragMoveAction::Ignore;
    }
    if !primary_held {
        return DragMoveAction::End;
    }
    let should_dispatch = match last_dispatch {
        None => true,
        Some(t) => now.saturating_sub(t) >= DRAG_THROTTLE_NS,
    };
    if should_dispatch {
        DragMoveAction::Dispatch
    } else {
        DragMoveAction::Skip
    }
}

} // verus!
