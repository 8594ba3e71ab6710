use vstd::prelude::*;
use crate::changeclass::{spec_replace, ChangeClass, ClassChange};

verus! {

/// What is to happen to the pair of document-wide listeners of a drag, the
/// one for moves and the one for the release.
#[derive(Debug, Clone, Copy, PartialEq, Eq, Structural)]
pub enum Listeners {
    Keep,
    Attach,
    Detach,
}

/// What a press or a release asks of the page: what to do with the two
/// listeners, how to change the handle's markers, and what to tell whoever
/// watches whether a drag goes on.
#[derive(Debug, Clone, Copy)]
pub struct DragEffect {
    pub listeners: Listeners,
    pub class: Option<ClassChange<'static>>,
    pub moving: Option<bool>,
}

/// The state of the gesture on one handle: idle, or dragging from a press to
/// the release that follows it.
#[derive(Debug, Clone, Copy)]
pub struct DragSession {
    pub change_class_on_move: Option<(Option<&'static str>, &'static str)>,
    pub dragging: bool,
}

/// The number of the primary button, as a press reports it.
pub const PRIMARY_BUTTON: i16 = 0;

/// What reaches a handle's gesture: a press with the button that went down,
/// a move of the pointer, or a release.
#[derive(Debug, Clone, Copy, PartialEq, Eq, Structural)]
pub enum DragEvent {
    Press { button: i16 },
    Move,
    Release,
}

/// The effect that starts or ends a drag with the given pair of markers.
pub open spec fn spec_turn(
    change_class_on_move: Option<(Option<&'static str>, &'static str)>,
    start: bool,
) -> DragEffect {
    DragEffect {
        listeners: if start {
            Listeners::Attach
        } else {
            Listeners::Detach
        },
        class: match change_class_on_move {
            Some((old, new)) => Some(spec_replace(old, new, start)),
            None => None,
        },
        moving: Some(start),
    }
}

/// The effect that asks nothing.
pub open spec fn spec_nothing() -> DragEffect {
    DragEffect { listeners: Listeners::Keep, class: None, moving: None }
}

/// Whether a drag goes on after an event. Only a press with the primary
/// button starts one, and only a release ends one.
pub open spec fn spec_dragging_after(dragging: bool, event: DragEvent) -> bool {
    match event {
        DragEvent::Press { button } => dragging || button == PRIMARY_BUTTON,
        DragEvent::Move => dragging,
        DragEvent::Release => false,
    }
}

/// What an event does to the two listeners.
pub open spec fn spec_listeners_on(dragging: bool, event: DragEvent) -> Listeners {
    match event {
        DragEvent::Press { button } => if !dragging && button == PRIMARY_BUTTON {
            Listeners::Attach
        } else {
            Listeners::Keep
        },
        DragEvent::Move => Listeners::Keep,
        DragEvent::Release => if dragging {
            Listeners::Detach
        } else {
            Listeners::Keep
        },
    }
}

/// Whether a drag goes on after a run of events that began idle.
pub open spec fn spec_dragging_after_all(events: Seq<DragEvent>) -> bool
    decreases events.len(),
{
    if events.len() == 0 {
        false
    } else {
        spec_dragging_after(spec_dragging_after_all(events.drop_last()), events.last())
    }
}

/// How many pairs of listeners are attached after a run of events that began
/// idle and with none attached: each `Attach` counts one up, each `Detach` one
/// down.
pub open spec fn spec_attached_after_all(events: Seq<DragEvent>) -> int
    decreases events.len(),
{
    if events.len() == 0 {
        0
    } else {
        let before = spec_attached_after_all(events.drop_last());
        match spec_listeners_on(spec_dragging_after_all(events.drop_last()), events.last()) {
            Listeners::Keep => before,
            Listeners::Attach => before + 1,
            Listeners::Detach => before - 1,
        }
    }
}

impl DragSession {
    /// A session for one handle, idle. `change_class_on_move` names the marker
    /// that shows a drag, and the one that shows rest where there is one.
    pub fn set_event_handlers(change_class_on_move: Option<(Option<&'static str>, &'static str)>) -> (res:
        DragSession)
        ensures
            res.change_class_on_move == change_class_on_move,
            !res.dragging,
    {
        DragSession { change_class_on_move, dragging: false }
    }

    fn turn(&self, start: bool) -> (res: DragEffect)
        ensures
            res == spec_turn(self.change_class_on_move, start),
    {
        let class = match self.change_class_on_move {
            Some((old, new)) => Some(ChangeClass::replace(old, new, start)),
            None => None,
        };
        DragEffect {
            listeners: if start {
                Listeners::Attach
            } else {
                Listeners::Detach
            },
            class,
            moving: Some(start),
        }
    }

    /// A button went down on the handle. From idle the primary button starts
    /// the drag: the listeners are attached, the handle shows the marker of a
    /// drag, and the watcher hears `true`. Another button starts nothing and
    /// leaves the session as it is, and during a drag nothing is asked again.
    pub fn mousedown(&mut self, button: i16) -> (res: DragEffect)
        ensures
            final(self).dragging == spec_dragging_after(old(self).dragging, DragEvent::Press { button }),
            final(self).change_class_on_move == old(self).change_class_on_move,
            res.listeners == spec_listeners_on(old(self).dragging, DragEvent::Press { button }),
            res == if !old(self).dragging && button == PRIMARY_BUTTON {
                spec_turn(old(self).change_class_on_move, true)
            } else {
                spec_nothing()
            },
    {
        if self.dragging || button != PRIMARY_BUTTON {
            DragEffect { listeners: Listeners::Keep, class: None, moving: None }
        } else {
            self.dragging = true;
            self.turn(true)
        }
    }

    /// The button came up, or the handle is taken away. A drag ends: the
    /// listeners are detached, the handle shows the marker of rest, and the
    /// watcher hears `false`. Without a drag nothing is asked, so that ending
    /// twice does no harm.
    pub fn mouseup(&mut self) -> (res: DragEffect)
        ensures
            !final(self).dragging,
            final(self).change_class_on_move == old(self).change_class_on_move,
            res.listeners == spec_listeners_on(old(self).dragging, DragEvent::Release),
            res == if old(self).dragging {
                spec_turn(old(self).change_class_on_move, false)
            } else {
                spec_nothing()
            },
    {
        if self.dragging {
            self.dragging = false;
            self.turn(false)
        } else {
            DragEffect { listeners: Listeners::Keep, class: None, moving: None }
        }
    }
}

/// Every press has its one release: after any run of events exactly one pair
/// of listeners is attached while a drag goes on, and none while none does.
/// So no listener is left behind by a release, none is removed twice, and a
/// move that comes after a release finds the session idle, until the primary
/// button goes down again.
pub proof fn lemma_session_symmetry(events: Seq<DragEvent>)
    ensures
        spec_attached_after_all(events) == if spec_dragging_after_all(events) {
            1int
        } else {
            0int
        },
    decreases events.len(),
{
    if events.len() > 0 {
        lemma_session_symmetry(events.drop_last());
    }
}

/// A press with another button than the primary one changes nothing: an idle
/// session stays idle, and no listener is asked for.
pub proof fn lemma_other_button_is_no_press(dragging: bool, button: i16)
    requires
        button != PRIMARY_BUTTON,
    ensures
        spec_dragging_after(dragging, DragEvent::Press { button }) == dragging,
        spec_listeners_on(dragging, DragEvent::Press { button }) == Listeners::Keep,
{
}

} // verus!
