//! Entering and leaving recursive editing levels.
//!
//! The command loop itself — reading keys, dispatching commands, catching the
//! `exit` throw — runs in the host. What stands here is the decision layer
//! around it: given the command-loop counters, whether a request to leave a
//! recursive edit throws to `exit` or is an error, and what entering a
//! recursive edit does to the counters and asks of the host.

use vstd::prelude::*;

verus! {

/// The command-loop counters the host keeps as globals, as this layer reads
/// and writes them.
#[derive(Clone, Copy, Debug, PartialEq, Eq, Structural)]
pub struct CommandLoopState {
    /// How many recursive edits are in progress; 0 at top level, -1 while
    /// the editor is still initialising.
    pub command_loop_level: i32,
    /// How many minibuffers are active.
    pub minibuf_level: i32,
    /// How deeply input interrupts are blocked; input must not be read
    /// while it is positive.
    pub interrupt_input_blocked: i32,
    /// Nonzero asks the redisplay to update all mode lines; setting it to a
    /// distinct value marks who asked.
    pub update_mode_lines: i32,
}

/// How a request to leave a recursive edit is answered.
#[derive(Clone, Copy, Debug, PartialEq, Eq, Structural)]
pub enum QuitOutcome {
    /// Throw to the catch tag `exit`. Throwing `t` makes `recursive-edit`
    /// quit on to the command loop one level up; any other value makes it
    /// return normally.
    ThrowToExit { value: bool },
    /// No recursive edit nor minibuffer is in progress: signal the user
    /// error saying so.
    NoRecursiveEdit,
}

/// What entering a recursive edit asks of the host.
#[derive(Clone, Copy, Debug, PartialEq, Eq, Structural)]
pub enum RecursiveEditPlan {
    /// Input is blocked (this can happen through the debugger during
    /// redisplay): do nothing, or the editor would lock up.
    InputBlocked,
    /// Run one more level of the command loop.
    Enter {
        /// Restore the current buffer when the level unwinds. Chosen when
        /// the editor is past initialisation and the selected window does
        /// not already show that buffer, so that editing elsewhere does not
        /// leave the wrong buffer current.
        restore_current_buffer: bool,
        /// Switch to a single keyboard while the level runs, keeping input
        /// from other terminals out of the nested loop.
        single_kboard: bool,
    },
}

/// The answer to a request to leave the innermost recursive edit, throwing
/// `value` to `exit`: the throw where some recursive edit or minibuffer is in
/// progress, the user error otherwise.
pub open spec fn quit_recursive_edit_spec(state: CommandLoopState, value: bool) -> QuitOutcome {
    if state.command_loop_level > 0 || state.minibuf_level > 0 {
        QuitOutcome::ThrowToExit { value }
    } else {
        QuitOutcome::NoRecursiveEdit
    }
}

/// Leave the innermost recursive edit or minibuffer by throwing `value` to
/// the catch tag `exit`; where none is in progress, the request is the user
/// error "No recursive edit is in progress".
pub fn quit_recursive_edit(state: &CommandLoopState, value: bool) -> (r: QuitOutcome)
    ensures
        r == quit_recursive_edit_spec(*state, value),
{
    if state.command_loop_level > 0 || state.minibuf_level > 0 {
        QuitOutcome::ThrowToExit { value }
    } else {
        QuitOutcome::NoRecursiveEdit
    }
}

/// Exit from the innermost recursive edit or minibuffer: throw `nil`, so
/// `recursive-edit` returns normally to its caller.
pub fn exit_recursive_edit(state: &CommandLoopState) -> (r: QuitOutcome)
    ensures
        r == quit_recursive_edit_spec(*state, false),
{
    quit_recursive_edit(state, false)
}

/// Abort the command that requested this recursive edit or minibuffer input:
/// throw `t`, so the command loop one level up takes over.
pub fn abort_recursive_edit(state: &CommandLoopState) -> (r: QuitOutcome)
    ensures
        r == quit_recursive_edit_spec(*state, true),
{
    quit_recursive_edit(state, true)
}

/// Invoke the editor command loop recursively. To get out of the recursive
/// edit, a command can throw to `exit`; throwing `t` quits on to the command
/// loop one level up, any other value returns normally to the caller.
///
/// Where input is blocked nothing happens and the counters are untouched.
/// Otherwise the command-loop level rises by one, all mode lines are marked
/// for update, and the plan asks the host to run the nested loop: unwinding
/// back to the current buffer where the editor is past initialisation and
/// the selected window shows some other buffer
/// (`selected_window_shows_current_buffer` says whether it does), and on a
/// single keyboard where this is not the outermost loop.
pub fn recursive_edit(
    state: &mut CommandLoopState,
    selected_window_shows_current_buffer: bool,
) -> (r: RecursiveEditPlan)
    requires
        old(state).command_loop_level < i32::MAX,
    ensures
        old(state).interrupt_input_blocked > 0 ==> {
            &&& r == RecursiveEditPlan::InputBlocked
            &&& *final(state) == *old(state)
        },
        old(state).interrupt_input_blocked <= 0 ==> {
            &&& r == (RecursiveEditPlan::Enter {
                restore_current_buffer: old(state).command_loop_level >= 0
                    && !selected_window_shows_current_buffer,
                single_kboard: old(state).command_loop_level >= 0,
            })
            &&& *final(state) == (CommandLoopState {
                command_loop_level: (old(state).command_loop_level + 1) as i32,
                update_mode_lines: 17,
                ..*old(state)
            })
        },
{
    if state.interrupt_input_blocked > 0 {
        return RecursiveEditPlan::InputBlocked;
    }
    let restore_current_buffer: bool = state.command_loop_level >= 0
        && !selected_window_shows_current_buffer;
    state.command_loop_level = state.command_loop_level + 1;
    state.update_mode_lines = 17;
    let single_kboard: bool = state.command_loop_level > 0;
    RecursiveEditPlan::Enter { restore_current_buffer, single_kboard }
}

} // verus!
