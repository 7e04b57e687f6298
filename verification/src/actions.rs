use vstd::prelude::*;
use crate::error::NestedError;

verus! {

/// A pane or tab movement direction.
#[derive(Clone, Copy, Debug, PartialEq, Eq, Structural)]
pub enum Direction {
    Left,
    Right,
    Up,
    Down,
}

/// The direction a wire code stands for, if any.
pub open spec fn direction_of_code(code: i32) -> Option<Direction> {
    if code == 0 {
        Some(Direction::Left)
    } else if code == 1 {
        Some(Direction::Right)
    } else if code == 2 {
        Some(Direction::Up)
    } else if code == 3 {
        Some(Direction::Down)
    } else {
        None
    }
}

/// The wire code of a direction.
pub open spec fn direction_code(d: Direction) -> i32 {
    match d {
        Direction::Left => 0,
        Direction::Right => 1,
        Direction::Up => 2,
        Direction::Down => 3,
    }
}

/// Every direction is the direction of its own wire code.
pub broadcast proof fn lemma_direction_code_round_trip(d: Direction)
    ensures
        direction_of_code(#[trigger] direction_code(d)) == Some(d),
{
}

/// Decodes one wire direction code.
pub fn direction_from_code(code: i32) -> (r: Result<Direction, NestedError>)
    ensures
        r == (match direction_of_code(code) {
            Some(d) => Ok::<Direction, NestedError>(d),
            None => Err::<Direction, NestedError>(NestedError::UnknownDirectionCode),
        }),
{
    if code == 0 {
        Ok(Direction::Left)
    } else if code == 1 {
        Ok(Direction::Right)
    } else if code == 2 {
        Ok(Direction::Up)
    } else if code == 3 {
        Ok(Direction::Down)
    } else {
        Err(NestedError::UnknownDirectionCode)
    }
}

/// Encodes one direction.
pub fn direction_to_code(d: &Direction) -> (r: i32)
    ensures
        r == direction_code(*d),
{
    match d {
        Direction::Left => 0,
        Direction::Right => 1,
        Direction::Up => 2,
        Direction::Down => 3,
    }
}

/// A resize action applied to the focused pane.
#[derive(Clone, Copy, Debug, PartialEq, Eq, Structural)]
pub enum ResizeAction {
    Increase,
    Decrease,
}

/// The resize action a wire code stands for, if any.
pub open spec fn resize_of_code(code: i32) -> Option<ResizeAction> {
    if code == 0 {
        Some(ResizeAction::Increase)
    } else if code == 1 {
        Some(ResizeAction::Decrease)
    } else {
        None
    }
}

/// The wire code of a resize action.
pub open spec fn resize_code(a: ResizeAction) -> i32 {
    match a {
        ResizeAction::Increase => 0,
        ResizeAction::Decrease => 1,
    }
}

/// Every resize action is the action of its own wire code.
pub broadcast proof fn lemma_resize_code_round_trip(a: ResizeAction)
    ensures
        resize_of_code(#[trigger] resize_code(a)) == Some(a),
{
}

/// Decodes one wire resize code.
pub fn resize_from_code(code: i32) -> (r: Result<ResizeAction, NestedError>)
    ensures
        r == (match resize_of_code(code) {
            Some(a) => Ok::<ResizeAction, NestedError>(a),
            None => Err::<ResizeAction, NestedError>(NestedError::UnknownResizeCode),
        }),
{
    if code == 0 {
        Ok(ResizeAction::Increase)
    } else if code == 1 {
        Ok(ResizeAction::Decrease)
    } else {
        Err(NestedError::UnknownResizeCode)
    }
}

/// Encodes one resize action.
pub fn resize_to_code(a: &ResizeAction) -> (r: i32)
    ensures
        r == resize_code(*a),
{
    match a {
        ResizeAction::Increase => 0,
        ResizeAction::Decrease => 1,
    }
}

/// An input mode the host can switch to.
#[derive(Clone, Copy, Debug, PartialEq, Eq, Structural)]
pub enum InputMode {
    Normal,
    Locked,
    Resize,
    Pane,
    Tab,
    Scroll,
    EnterSearch,
    Search,
    RenameTab,
    RenamePane,
    Session,
    Move,
    Prompt,
    Tmux,
}

/// The input mode a wire code stands for, if any.
pub open spec fn mode_of_code(code: i32) -> Option<InputMode> {
    if code == 0 {
        Some(InputMode::Normal)
    } else if code == 1 {
        Some(InputMode::Locked)
    } else if code == 2 {
        Some(InputMode::Resize)
    } else if code == 3 {
        Some(InputMode::Pane)
    } else if code == 4 {
        Some(InputMode::Tab)
    } else if code == 5 {
        Some(InputMode::Scroll)
    } else if code == 6 {
        Some(InputMode::EnterSearch)
    } else if code == 7 {
        Some(InputMode::Search)
    } else if code == 8 {
        Some(InputMode::RenameTab)
    } else if code == 9 {
        Some(InputMode::RenamePane)
    } else if code == 10 {
        Some(InputMode::Session)
    } else if code == 11 {
        Some(InputMode::Move)
    } else if code == 12 {
        Some(InputMode::Prompt)
    } else if code == 13 {
        Some(InputMode::Tmux)
    } else {
        None
    }
}

/// The wire code of an input mode.
pub open spec fn mode_code(m: InputMode) -> i32 {
    match m {
        InputMode::Normal => 0,
        InputMode::Locked => 1,
        InputMode::Resize => 2,
        InputMode::Pane => 3,
        InputMode::Tab => 4,
        InputMode::Scroll => 5,
        InputMode::EnterSearch => 6,
        InputMode::Search => 7,
        InputMode::RenameTab => 8,
        InputMode::RenamePane => 9,
        InputMode::Session => 10,
        InputMode::Move => 11,
        InputMode::Prompt => 12,
        InputMode::Tmux => 13,
    }
}

/// Every input mode is the mode of its own wire code.
pub broadcast proof fn lemma_mode_code_round_trip(m: InputMode)
    ensures
        mode_of_code(#[trigger] mode_code(m)) == Some(m),
{
}

/// Decodes one wire input-mode code.
pub fn mode_from_code(code: i32) -> (r: Result<InputMode, NestedError>)
    ensures
        r == (match mode_of_code(code) {
            Some(m) => Ok::<InputMode, NestedError>(m),
            None => Err::<InputMode, NestedError>(NestedError::UnknownModeCode),
        }),
{
    if code == 0 {
        Ok(InputMode::Normal)
    } else if code == 1 {
        Ok(InputMode::Locked)
    } else if code == 2 {
        Ok(InputMode::Resize)
    } else if code == 3 {
        Ok(InputMode::Pane)
    } else if code == 4 {
        Ok(InputMode::Tab)
    } else if code == 5 {
        Ok(InputMode::Scroll)
    } else if code == 6 {
        Ok(InputMode::EnterSearch)
    } else if code == 7 {
        Ok(InputMode::Search)
    } else if code == 8 {
        Ok(InputMode::RenameTab)
    } else if code == 9 {
        Ok(InputMode::RenamePane)
    } else if code == 10 {
        Ok(InputMode::Session)
    } else if code == 11 {
        Ok(InputMode::Move)
    } else if code == 12 {
        Ok(InputMode::Prompt)
    } else if code == 13 {
        Ok(InputMode::Tmux)
    } else {
        Err(NestedError::UnknownModeCode)
    }
}

/// Encodes one input mode.
pub fn mode_to_code(m: &InputMode) -> (r: i32)
    ensures
        r == mode_code(*m),
{
    match m {
        InputMode::Normal => 0,
        InputMode::Locked => 1,
        InputMode::Resize => 2,
        InputMode::Pane => 3,
        InputMode::Tab => 4,
        InputMode::Scroll => 5,
        InputMode::EnterSearch => 6,
        InputMode::Search => 7,
        InputMode::RenameTab => 8,
        InputMode::RenamePane => 9,
        InputMode::Session => 10,
        InputMode::Move => 11,
        InputMode::Prompt => 12,
        InputMode::Tmux => 13,
    }
}

} // verus!
