use crate::components::movement::Pos;
use vstd::prelude::*;

verus! {

/// Marks the entity that shows the selection.
#[derive(Debug, Clone, Copy, Default)]
pub struct SelectionTag;

/// Marks the parent of the cursor preview.
#[derive(Debug, Clone, Copy, Default)]
pub struct CursorPreviewParentTag;

/// Marks the ghost of the brush's block shown at the cursor.
#[derive(Debug, Clone, Copy, Default)]
pub struct CursorPreviewTag;

/// A tile drawn by the editor, at its position.
#[derive(Debug, Clone, Copy, PartialEq, Eq, Structural)]
pub struct PaintedTile {
    pub pos: Pos,
}

impl PaintedTile {
    pub fn new(pos: Pos) -> (res: Self)
        ensures
            res.pos == pos,
    {
        PaintedTile { pos }
    }
}

/// Marks the root entity of the editor.
#[derive(Debug, Clone, Copy, Default)]
pub struct EditorRootTag;

} // verus!
