//! The tray icon's right-click menu and what its items do.

use vstd::prelude::*;
use vstd::string::StringExecFns;
use crate::commands::{AppCommand, CommandView};
use crate::text::str_equals;

verus! {

/// Menu item that starts a task named [`MENU_TASK_NAME`].
pub const MENU_START_ID: &'static str = "start";
pub const MENU_START_LABEL: &'static str = "Start Task";
/// Menu item that stops the current task.
pub const MENU_STOP_ID: &'static str = "stop";
pub const MENU_STOP_LABEL: &'static str = "Stop Task";
/// Menu item that ends the program.
pub const MENU_QUIT_ID: &'static str = "quit";
pub const MENU_QUIT_LABEL: &'static str = "Quit";
/// Tooltip of the tray icon.
pub const TRAY_TOOLTIP: &'static str = "My Tray App";
/// Name of the task that the menu starts.
pub const MENU_TASK_NAME: &'static str = "menu";

/// What a click on a menu item leads to.
#[derive(Debug)]
pub enum MenuAction {
    /// Hand the command to the main thread, as the other front ends do.
    Send(AppCommand),
    /// End the program with exit code 0.
    Quit,
    /// An item this menu does not have: nothing happens.
    Ignore,
}

pub enum MenuActionView {
    Send(CommandView),
    Quit,
    Ignore,
}

impl View for MenuAction {
    type V = MenuActionView;

    open spec fn view(&self) -> MenuActionView {
        match self {
            MenuAction::Send(c) => MenuActionView::Send(c@),
            MenuAction::Quit => MenuActionView::Quit,
            MenuAction::Ignore => MenuActionView::Ignore,
        }
    }
}

/// What the item with the given id does.
pub open spec fn menu_action_for(id: Seq<char>) -> MenuActionView {
    if id == "start"@ {
        MenuActionView::Send(CommandView::StartTask("menu"@))
    } else if id == "stop"@ {
        MenuActionView::Send(CommandView::StopTask)
    } else if id == "quit"@ {
        MenuActionView::Quit
    } else {
        MenuActionView::Ignore
    }
}

/// Decides what a click on the item with id `id` does.
pub fn menu_action(id: &str) -> (r: MenuAction)
    ensures
        r@ == menu_action_for(id@),
{
    if str_equals(id, MENU_START_ID) {
        MenuAction::Send(AppCommand::StartTask(String::from_str(MENU_TASK_NAME)))
    } else if str_equals(id, MENU_STOP_ID) {
        MenuAction::Send(AppCommand::StopTask)
    } else if str_equals(id, MENU_QUIT_ID) {
        MenuAction::Quit
    } else {
        MenuAction::Ignore
    }
}

/// The three items of the menu do three different things: `start` starts a
/// task named `menu`, `stop` stops the current task, `quit` ends the
/// program; any other id does nothing.
pub proof fn lemma_menu_items(id: Seq<char>)
    ensures
        menu_action_for("start"@) == MenuActionView::Send(CommandView::StartTask("menu"@)),
        menu_action_for("stop"@) == MenuActionView::Send(CommandView::StopTask),
        menu_action_for("quit"@) == MenuActionView::Quit,
        (id != "start"@ && id != "stop"@ && id != "quit"@) ==> menu_action_for(id)
            == MenuActionView::Ignore,
{
    reveal_strlit("start");
    reveal_strlit("stop");
    reveal_strlit("quit");
    assert("stop"@ != "start"@) by {
        assert("stop"@.len() != "start"@.len());
    }
    assert("quit"@ != "start"@) by {
        assert("quit"@.len() != "start"@.len());
    }
    assert("quit"@ != "stop"@) by {
        assert("quit"@[0] != "stop"@[0]);
    }
}

} // verus!
