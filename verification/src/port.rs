//! Choosing the output port to connect to.

use vstd::prelude::*;
use crate::number::{index_of_text, parse_index};

verus! {

/// Why no output port was chosen.
#[derive(Clone, Copy, Debug, PartialEq, Eq, Structural)]
pub enum SelectionError {
    /// There is no output port at all.
    NoPorts,
    /// There are several ports and nobody said which one.
    ChoiceRequired,
    /// What was typed does not name an index.
    NotAnIndex,
    /// The index names no port.
    OutOfRange,
}

/// The port that the policy picks among `port_count` ports, counted from
/// zero: the only one if there is just one, else the one that was asked for.
pub open spec fn selection(port_count: usize, choice: Option<usize>) -> Result<
    usize,
    SelectionError,
> {
    if port_count == 0 {
        Err(SelectionError::NoPorts)
    } else if port_count == 1 {
        Ok(0)
    } else {
        match choice {
            None => Err(SelectionError::ChoiceRequired),
            Some(index) => if index < port_count {
                Ok(index)
            } else {
                Err(SelectionError::OutOfRange)
            },
        }
    }
}

/// The port that the policy picks when the choice arrives as a line of text.
/// The text is looked at only where there are several ports.
pub open spec fn selection_by_text(port_count: usize, text: Seq<char>) -> Result<
    usize,
    SelectionError,
> {
    if port_count > 1 && index_of_text(text) is None {
        Err(SelectionError::NotAnIndex)
    } else {
        selection(port_count, index_of_text(text))
    }
}

/// A port that the policy picks is one of the ports.
pub proof fn lemma_selected_port_exists(port_count: usize, choice: Option<usize>)
    ensures
        selection(port_count, choice) is Ok ==> selection(port_count, choice)->Ok_0 < port_count,
{
}

/// Whether somebody has to say which port to use: only where there are
/// several.
pub fn needs_choice(port_count: usize) -> (b: bool)
    ensures
        b == (port_count > 1),
        !b ==> forall|choice: Option<usize>|
            #[trigger] selection(port_count, choice) == selection(port_count, None),
{
    port_count > 1
}

/// Picks the port to connect to among `port_count` ports.
pub fn select_port(port_count: usize, choice: Option<usize>) -> (picked: Result<
    usize,
    SelectionError,
>)
    ensures
        picked == selection(port_count, choice),
        picked is Ok ==> picked->Ok_0 < port_count,
{
    if port_count == 0 {
        Err(SelectionError::NoPorts)
    } else if port_count == 1 {
        Ok(0)
    } else {
        match choice {
            None => Err(SelectionError::ChoiceRequired),
            Some(index) => if index < port_count {
                Ok(index)
            } else {
                Err(SelectionError::OutOfRange)
            },
        }
    }
}

/// Picks the port to connect to, with the choice given as the line that was
/// typed.
pub fn select_port_by_text(port_count: usize, text: &str) -> (picked: Result<
    usize,
    SelectionError,
>)
    ensures
        picked == selection_by_text(port_count, text@),
        picked is Ok ==> picked->Ok_0 < port_count,
{
    if port_count <= 1 {
        select_port(port_count, None)
    } else {
        match parse_index(text) {
            None => Err(SelectionError::NotAnIndex),
            Some(index) => select_port(port_count, Some(index)),
        }
    }
}

} // verus!
