//! The window size that a plug-in host saves and restores.

use crossbeam::atomic::AtomicCell;
use vstd::prelude::*;

verus! {

/// `crossbeam::atomic::AtomicCell`, opaque to the verifier.
#[verifier::external_type_specification]
#[verifier::external_body]
#[verifier::reject_recursive_types(T)]
pub struct ExAtomicCell<T>(crossbeam::atomic::AtomicCell<T>);

/// The pair that a size cell holds.
///
/// The functions below put a new pair into a cell only through an exclusive reference,
/// and the library hands no cell out by shared reference, so between two such calls the
/// pair stays what it is.
pub uninterp spec fn held_size(cell: AtomicCell<(u32, u32)>) -> (u32, u32);

/// `AtomicCell::new`: a cell that holds the given pair.
#[verifier::external_body]
fn new_size_cell(size: (u32, u32)) -> (cell: AtomicCell<(u32, u32)>)
    ensures
        held_size(cell) == size,
{
    AtomicCell::new(size)
}

/// `AtomicCell::load`: the pair that the cell holds.
#[verifier::external_body]
fn load_size(cell: &AtomicCell<(u32, u32)>) -> (size: (u32, u32))
    ensures
        size == held_size(*cell),
{
    cell.load()
}

/// `AtomicCell::store`: from here on the cell holds the given pair.
///
/// `AtomicCell::store` itself is content with a shared reference; the exclusive one asked
/// for here is what rules out that another thread stores at the same time.
#[verifier::external_body]
fn store_size(cell: &mut AtomicCell<(u32, u32)>, size: (u32, u32))
    ensures
        held_size(*final(cell)) == size,
{
    cell.store(size)
}

/// Width of a window that nothing was saved for, in logical pixels.
pub fn default_width() -> (width: u32)
    ensures
        width == 400,
{
    400
}

/// Height of a window that nothing was saved for, in logical pixels.
pub fn default_height() -> (height: u32)
    ensures
        height == 300,
{
    300
}

/// The window size that the host saves with a project and restores from it.
pub struct SlintEditorState {
    size: AtomicCell<(u32, u32)>,
}

impl View for SlintEditorState {
    type V = (u32, u32);

    /// The `(width, height)` pair in logical pixels.
    closed spec fn view(&self) -> (u32, u32) {
        held_size(self.size)
    }
}

impl SlintEditorState {
    /// A state of the given size, in logical pixels.
    pub fn new(width: u32, height: u32) -> (state: Self)
        ensures
            state@ == (width, height),
    {
        SlintEditorState { size: new_size_cell((width, height)) }
    }

    /// The `(width, height)` pair for the current size of the window in logical pixels.
    pub fn size(&self) -> (size: (u32, u32))
        ensures
            size == self@,
    {
        load_size(&self.size)
    }

    /// Replaces the size by the one in `new_value`, as a host does that restores a project.
    pub fn set(&mut self, new_value: SlintEditorState)
        ensures
            final(self)@ == new_value@,
    {
        store_size(&mut self.size, load_size(&new_value.size));
    }

    /// Records that the window now has the given size.
    pub fn store(&mut self, width: u32, height: u32)
        ensures
            final(self)@ == (width, height),
    {
        store_size(&mut self.size, (width, height));
    }
}

impl Default for SlintEditorState {
    fn default() -> (state: Self)
        ensures
            state@ == (400u32, 300u32),
    {
        SlintEditorState { size: new_size_cell((default_width(), default_height())) }
    }
}

} // verus!
