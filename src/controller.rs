//! The controller's decision for one input event: route it to the handler of
//! the active screen and decide whether the run goes on, ends with a command
//! or ends cancelled. Drawing, polling and the terminal are left to the caller.
use vstd::prelude::*;
use crate::command::HoardCommand;
use crate::screens::{
    help_step, key_handler_help, key_handler_list_search, key_handler_parameter_input,
    parameter_step, search_step, unchanged,
};
use crate::state::{DrawState, Key, State};
use crate::text::{token_count, views};

verus! {

/// One input event.
#[derive(Clone, Copy, Debug, PartialEq, Eq)]
pub enum Event {
    Key(Key),
    /// Any event that is not a key press; it is ignored.
    Other,
}

/// What the run does after an event.
#[derive(Clone, Debug, PartialEq, Eq)]
pub enum Outcome {
    /// Draw again and wait for the next event.
    Continue,
    /// End the run with this command, its parameters filled in.
    Selected(HoardCommand),
    /// End the run without a command.
    Cancelled,
}

/// What one key does on the screen that is active in `old`.
pub open spec fn screen_step(
    old: State,
    new: State,
    key: Key,
    r: Option<HoardCommand>,
    trove: Seq<HoardCommand>,
    tabs: Seq<Seq<char>>,
) -> bool {
    match old.draw_state {
        DrawState::Search => search_step(old, new, key, r, trove, tabs),
        DrawState::ParameterInput => parameter_step(old, new, key, r),
        DrawState::Help => help_step(old, new, key, r),
    }
}

/// The outcome of a handled key: a command ends the run with it; else the
/// exit flag ends it cancelled; else the run goes on.
pub open spec fn outcome_of(r: Option<HoardCommand>, new: State) -> Outcome {
    match r {
        Some(c) => Outcome::Selected(c),
        None => if new.should_exit {
            Outcome::Cancelled
        } else {
            Outcome::Continue
        },
    }
}

/// The command that an outcome carries, if any.
pub open spec fn command_of(o: Outcome) -> Option<HoardCommand> {
    match o {
        Outcome::Selected(c) => Some(c),
        _ => None,
    }
}

/// The screens that one event may lead to: Search to any screen, Help back to
/// Search, ParameterInput back to Search; each may also stay.
pub open spec fn allowed_transition(from: DrawState, to: DrawState) -> bool {
    from == to || from == DrawState::Search || to == DrawState::Search
}

/// `new` follows from `old` by `event`, with outcome `o`.
pub open spec fn dispatch_step(
    old: State,
    new: State,
    event: Event,
    o: Outcome,
    trove: Seq<HoardCommand>,
    tabs: Seq<Seq<char>>,
) -> bool {
    match event {
        Event::Other => o == Outcome::Continue && unchanged(old, new) && new.parameter_token@
            == old.parameter_token@,
        Event::Key(k) => screen_step(old, new, k, command_of(o), trove, tabs) && o == outcome_of(
            command_of(o),
            new,
        ),
    }
}

/// Handles one input event: a key goes to the handler of the active screen,
/// any other event changes nothing.
pub fn step(app: &mut State, event: Event, trove: &Vec<HoardCommand>, tabs: &Vec<String>) -> (o:
    Outcome)
    requires
        old(app).wf(trove@, views(tabs@)),
    ensures
        final(app).wf(trove@, views(tabs@)),
        (final(app).selected_command is Some) == (final(app).draw_state
            == DrawState::ParameterInput),
        allowed_transition(old(app).draw_state, final(app).draw_state),
        dispatch_step(*old(app), *final(app), event, o, trove@, views(tabs@)),
{
    match event {
        Event::Other => Outcome::Continue,
        Event::Key(k) => {
            let r = match app.draw_state {
                DrawState::Search => key_handler_list_search(k, app, trove, tabs),
                DrawState::ParameterInput => key_handler_parameter_input(k, app, trove, tabs),
                DrawState::Help => key_handler_help(k, app, trove, tabs),
            };
            match r {
                Some(c) => Outcome::Selected(c),
                None => if app.should_exit {
                    Outcome::Cancelled
                } else {
                    Outcome::Continue
                },
            }
        },
    }
}

/// At every point of a run exactly one screen is active.
pub proof fn lemma_one_screen_active(s: State)
    ensures
        (s.draw_state == DrawState::Search) as int + (s.draw_state == DrawState::ParameterInput) as int
            + (s.draw_state == DrawState::Help) as int == 1,
{
}

/// After every event a command is pending exactly when the ParameterInput
/// screen is active.
pub proof fn lemma_pending_iff_parameter_input(
    old: State,
    new: State,
    event: Event,
    o: Outcome,
    trove: Seq<HoardCommand>,
    tabs: Seq<Seq<char>>,
)
    requires
        old.wf(trove, tabs),
        dispatch_step(old, new, event, o, trove, tabs),
    ensures
        (new.selected_command is Some) == (new.draw_state == DrawState::ParameterInput),
{
}

/// A navigation key pressed while the list is empty leaves the cursor as it
/// is, selects nothing, and ends nothing that was going on.
pub proof fn lemma_navigation_on_empty_list(
    old: State,
    new: State,
    key: Key,
    o: Outcome,
    trove: Seq<HoardCommand>,
    tabs: Seq<Seq<char>>,
)
    requires
        old.wf(trove, tabs),
        old.commands@.len() == 0,
        key == Key::Up || key == Key::Down,
        dispatch_step(old, new, Event::Key(key), o, trove, tabs),
    ensures
        new.command_list_state == old.command_list_state,
        new.command_list_state is None,
        command_of(o) is None,
        !old.should_exit ==> o == Outcome::Continue,
{
}

/// Choosing on the Search screen a command without parameter tokens ends the
/// run with that command, its text as it is.
pub proof fn lemma_no_parameters_selects_at_once(
    old: State,
    new: State,
    o: Outcome,
    trove: Seq<HoardCommand>,
    tabs: Seq<Seq<char>>,
)
    requires
        old.wf(trove, tabs),
        old.draw_state == DrawState::Search,
        old.command_list_state is Some,
        token_count(
            old.commands@[old.command_list_state.unwrap() as int].command@,
            old.parameter_token@,
        ) == 0,
        dispatch_step(old, new, Event::Key(Key::Enter), o, trove, tabs),
    ensures
        o == Outcome::Selected(old.commands@[old.command_list_state.unwrap() as int]),
        command_of(o).unwrap().command == old.commands@[old.command_list_state.unwrap() as int].command,
{
}

/// The cancel key on the Search screen ends the run without a command.
pub proof fn lemma_cancel_from_search(
    old: State,
    new: State,
    o: Outcome,
    trove: Seq<HoardCommand>,
    tabs: Seq<Seq<char>>,
)
    requires
        old.wf(trove, tabs),
        old.draw_state == DrawState::Search,
        dispatch_step(old, new, Event::Key(Key::Esc), o, trove, tabs),
    ensures
        o == Outcome::Cancelled,
        new.should_exit,
{
}

} // verus!
