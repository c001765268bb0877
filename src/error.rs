//! The errors of the editor core.
use vstd::prelude::*;

verus! {

/// Why the editor could not start or go on. Each is fatal.
#[derive(Debug, Clone, Copy, PartialEq, Eq, Structural)]
pub enum EditorError {
    /// The terminal's attributes could not be read (not a terminal).
    TerminalQuery,
    /// The terminal's attributes could not be written.
    TerminalConfigure,
    /// The terminal reported zero rows or zero columns.
    GeometryUnavailable,
    /// Reading input or writing output failed.
    Io,
}

} // verus!
