//! Keys to commands: what a key press means in each mode of the interface.

use vstd::prelude::*;
use crate::registry::{AppCommand, UiMode, MAX_SLOTS};

verus! {

/// A key, as far as the interface tells keys apart.
#[derive(Debug, Clone, Copy, PartialEq, Eq, Structural)]
pub enum Key {
    Char(char),
    Enter,
    Esc,
    Up,
    Down,
    Left,
    Right,
    Tab,
    Backspace,
    Delete,
    Other,
}

/// The key is the letter given, in either case.
pub open spec fn is_letter(key: Key, lower: char, upper: char) -> bool {
    key == Key::Char(lower) || key == Key::Char(upper)
}

/// What a key means while a stored session is offered.
pub open spec fn restore_key(key: Key) -> Option<AppCommand> {
    if is_letter(key, 'c', 'C') || key == Key::Enter {
        Some(AppCommand::RestoreSessionContinue)
    } else if is_letter(key, 'n', 'N') || key == Key::Esc {
        Some(AppCommand::RestoreSessionDiscard)
    } else {
        None
    }
}

/// What a key means while the result of a sale is shown.
pub open spec fn post_sale_key(key: Key, slot_id: usize) -> Option<AppCommand> {
    if is_letter(key, 's', 'S') {
        Some(AppCommand::PostSaleRestart(slot_id))
    } else {
        Some(AppCommand::PostSaleDismiss(slot_id))
    }
}

/// What a key means in the dialog for a new strategy.
pub open spec fn new_strategy_key(key: Key) -> Option<AppCommand> {
    if key == Key::Enter {
        Some(AppCommand::NewStratConfirm)
    } else if key == Key::Esc || is_letter(key, 'q', 'Q') {
        Some(AppCommand::NewStratCancel)
    } else if key == Key::Up || key == Key::Char('k') {
        Some(AppCommand::NewStratSymbolUp)
    } else if key == Key::Down || key == Key::Char('j') {
        Some(AppCommand::NewStratSymbolDown)
    } else if key == Key::Tab {
        Some(AppCommand::NewStratToggleDirection)
    } else if key == Key::Left || key == Key::Right || key == Key::Char('h') || key == Key::Char('l') {
        Some(AppCommand::NewStratToggleAutoRestart)
    } else if is_letter(key, 'f', 'F') {
        Some(AppCommand::NewStratToggleAutoFlip)
    } else if is_letter(key, 'b', 'B') {
        Some(AppCommand::NewStratToggleBnb)
    } else {
        None
    }
}

/// What a key means in the panel for the amount per entry.
pub open spec fn config_key(key: Key) -> Option<AppCommand> {
    if key == Key::Esc {
        Some(AppCommand::CloseConfig)
    } else if key == Key::Enter {
        Some(AppCommand::CfgConfirm)
    } else if is_letter(key, 'b', 'B') {
        Some(AppCommand::CfgToggleBnb)
    } else if key == Key::Backspace {
        Some(AppCommand::CfgBackspace)
    } else {
        match key {
            Key::Char(c) => Some(AppCommand::CfgInputChar(c)),
            _ => None,
        }
    }
}

/// What a key means in a confirmation that `confirmed` answers with yes.
pub open spec fn confirm_key(key: Key, confirmed: AppCommand) -> Option<AppCommand> {
    if key == Key::Enter || is_letter(key, 'y', 'Y') {
        Some(confirmed)
    } else {
        Some(AppCommand::CloseConfig)
    }
}

/// What a key means while no dialog is open.
pub open spec fn normal_key(key: Key, ctrl: bool, slot_count: usize) -> Option<AppCommand> {
    if is_letter(key, 'q', 'Q') || key == Key::Esc {
        Some(AppCommand::Quit)
    } else if key == Key::Char('c') && ctrl {
        Some(AppCommand::Quit)
    } else if is_letter(key, 's', 'S') {
        if slot_count < MAX_SLOTS {
            Some(AppCommand::OpenNewStrategy)
        } else {
            None
        }
    } else if is_letter(key, 'x', 'X') {
        Some(AppCommand::ToggleStartStopSelected)
    } else if is_letter(key, 'v', 'V') {
        Some(AppCommand::OpenConfirmClose)
    } else if is_letter(key, 'd', 'D') || key == Key::Delete {
        Some(AppCommand::OpenConfirmDelete)
    } else if is_letter(key, 'f', 'F') {
        Some(AppCommand::ToggleAutoFlip)
    } else if is_letter(key, 'c', 'C') {
        Some(AppCommand::OpenConfig)
    } else if key == Key::Up || key == Key::Char('k') {
        Some(AppCommand::SlotSelectUp)
    } else if key == Key::Down || key == Key::Char('j') {
        Some(AppCommand::SlotSelectDown)
    } else {
        None
    }
}

/// The command that a key press stands for in the mode given.
pub open spec fn key_command(mode: &UiMode, key: Key, ctrl: bool, slot_count: usize) -> Option<AppCommand> {
    match mode {
        UiMode::RestoreSession(_) => restore_key(key),
        UiMode::PostSale(slot_id, _) => post_sale_key(key, *slot_id),
        UiMode::NewStrategy => new_strategy_key(key),
        UiMode::Config => config_key(key),
        UiMode::ConfirmClose => confirm_key(key, AppCommand::ConfirmCloseNow),
        UiMode::ConfirmDelete => confirm_key(key, AppCommand::ConfirmDeleteNow),
        UiMode::Normal => normal_key(key, ctrl, slot_count),
    }
}

fn letter(key: Key, lower: char, upper: char) -> (r: bool)
    ensures
        r == is_letter(key, lower, upper),
{
    match key {
        Key::Char(c) => c == lower || c == upper,
        _ => false,
    }
}

fn on_new_strategy(key: Key) -> (r: Option<AppCommand>)
    ensures
        r == new_strategy_key(key),
{
    match key {
        Key::Enter => Some(AppCommand::NewStratConfirm),
        Key::Esc => Some(AppCommand::NewStratCancel),
        Key::Up => Some(AppCommand::NewStratSymbolUp),
        Key::Down => Some(AppCommand::NewStratSymbolDown),
        Key::Tab => Some(AppCommand::NewStratToggleDirection),
        Key::Left => Some(AppCommand::NewStratToggleAutoRestart),
        Key::Right => Some(AppCommand::NewStratToggleAutoRestart),
        Key::Char(c) => {
            if c == 'q' || c == 'Q' {
                Some(AppCommand::NewStratCancel)
            } else if c == 'k' {
                Some(AppCommand::NewStratSymbolUp)
            } else if c == 'j' {
                Some(AppCommand::NewStratSymbolDown)
            } else if c == 'h' || c == 'l' {
                Some(AppCommand::NewStratToggleAutoRestart)
            } else if c == 'f' || c == 'F' {
                Some(AppCommand::NewStratToggleAutoFlip)
            } else if c == 'b' || c == 'B' {
                Some(AppCommand::NewStratToggleBnb)
            } else {
                None
            }
        },
        _ => None,
    }
}

fn on_config(key: Key) -> (r: Option<AppCommand>)
    ensures
        r == config_key(key),
{
    match key {
        Key::Esc => Some(AppCommand::CloseConfig),
        Key::Enter => Some(AppCommand::CfgConfirm),
        Key::Backspace => Some(AppCommand::CfgBackspace),
        Key::Char(c) => {
            if c == 'b' || c == 'B' {
                Some(AppCommand::CfgToggleBnb)
            } else {
                Some(AppCommand::CfgInputChar(c))
            }
        },
        _ => None,
    }
}

fn on_normal(key: Key, ctrl: bool, slot_count: usize) -> (r: Option<AppCommand>)
    ensures
        r == normal_key(key, ctrl, slot_count),
{
    match key {
        Key::Esc => Some(AppCommand::Quit),
        Key::Delete => Some(AppCommand::OpenConfirmDelete),
        Key::Up => Some(AppCommand::SlotSelectUp),
        Key::Down => Some(AppCommand::SlotSelectDown),
        Key::Char(c) => {
            if c == 'q' || c == 'Q' {
                Some(AppCommand::Quit)
            } else if c == 'c' && ctrl {
                Some(AppCommand::Quit)
            } else if c == 's' || c == 'S' {
                if slot_count < MAX_SLOTS {
                    Some(AppCommand::OpenNewStrategy)
                } else {
                    None
                }
            } else if c == 'x' || c == 'X' {
                Some(AppCommand::ToggleStartStopSelected)
            } else if c == 'v' || c == 'V' {
                Some(AppCommand::OpenConfirmClose)
            } else if c == 'd' || c == 'D' {
                Some(AppCommand::OpenConfirmDelete)
            } else if c == 'f' || c == 'F' {
                Some(AppCommand::ToggleAutoFlip)
            } else if c == 'c' || c == 'C' {
                Some(AppCommand::OpenConfig)
            } else if c == 'k' {
                Some(AppCommand::SlotSelectUp)
            } else if c == 'j' {
                Some(AppCommand::SlotSelectDown)
            } else {
                None
            }
        },
        _ => None,
    }
}

/// Returns the command that a key press stands for in the mode given.
/// `ctrl` tells whether the control key was held, `slot_count` how many
/// slots there are.
pub fn command_for_key(mode: &UiMode, key: Key, ctrl: bool, slot_count: usize) -> (r: Option<AppCommand>)
    ensures
        r == key_command(mode, key, ctrl, slot_count),
{
    match mode {
        UiMode::RestoreSession(_) => {
            if letter(key, 'c', 'C') || key == Key::Enter {
                Some(AppCommand::RestoreSessionContinue)
            } else if letter(key, 'n', 'N') || key == Key::Esc {
                Some(AppCommand::RestoreSessionDiscard)
            } else {
                None
            }
        },
        UiMode::PostSale(slot_id, _) => {
            if letter(key, 's', 'S') {
                Some(AppCommand::PostSaleRestart(*slot_id))
            } else {
                Some(AppCommand::PostSaleDismiss(*slot_id))
            }
        },
        UiMode::NewStrategy => on_new_strategy(key),
        UiMode::Config => on_config(key),
        UiMode::ConfirmClose => {
            if key == Key::Enter || letter(key, 'y', 'Y') {
                Some(AppCommand::ConfirmCloseNow)
            } else {
                Some(AppCommand::CloseConfig)
            }
        },
        UiMode::ConfirmDelete => {
            if key == Key::Enter || letter(key, 'y', 'Y') {
                Some(AppCommand::ConfirmDeleteNow)
            } else {
                Some(AppCommand::CloseConfig)
            }
        },
        UiMode::Normal => on_normal(key, ctrl, slot_count),
    }
}

/// Tells whether the interface ends with this command.
pub fn ends_interface(command: &Option<AppCommand>) -> (r: bool)
    ensures
        r == (*command == Some(AppCommand::Quit)),
{
    match command {
        Some(AppCommand::Quit) => true,
        _ => false,
    }
}

} // verus!
