use vstd::prelude::*;
use crate::filesystem::Filesystem;
use crate::store::{Step, StepV, steps_view};

verus! {

pub open spec fn option_view(r: Option<Step>) -> Option<StepV> {
    match r {
        Some(s) => Some(s@),
        None => None,
    }
}

/// What every kind of element asks of the relational store: each method gives
/// the one step that acts on this element's row alone.
pub trait ElementDatabase: Sized {
    /// The record holds everything its row needs.
    spec fn storable(&self) -> bool;

    spec fn insert_view(&self) -> StepV;

    spec fn delete_view(&self) -> StepV;

    /// Renaming the row, for a kind that can be renamed.
    spec fn rename_row_view(&self, new_name: Seq<char>) -> Option<StepV>;

    /// Inserts the element's row, where the record is complete; the store
    /// assigns its id.
    fn insert_into(&self) -> (r: Option<Step>)
        ensures
            self.storable() ==> option_view(r) == Some(self.insert_view()),
            !self.storable() ==> r is None,
    ;

    /// Deletes the element's row.
    fn delete(&self) -> (r: Step)
        ensures
            r@ == self.delete_view(),
    ;

    /// Renames the element's row, or `None` for a kind that keeps its name.
    fn rename(&self, new_name: &str) -> (r: Option<Step>)
        ensures
            option_view(r) == self.rename_row_view(new_name@),
    ;
}

/// What every kind of element asks of the file tree, by paths derived from
/// its own attributes and, for an album, its collection's name.
pub trait ElementFilesystem: Sized {
    /// The record holds everything its paths are derived from.
    spec fn placeable(&self) -> bool;

    spec fn place_view(&self, root: Seq<char>) -> StepV;

    spec fn remove_view(&self, root: Seq<char>) -> Seq<StepV>;

    /// Renaming on disk, for a kind that can be renamed.
    spec fn rename_path_view(&self, root: Seq<char>, new_name: Seq<char>) -> Option<StepV>;

    /// Places the element in the library's file tree, where its paths are known.
    fn insert_into(&self, fs: &Filesystem) -> (r: Option<Step>)
        ensures
            self.placeable() ==> option_view(r) == Some(self.place_view(fs@)),
            !self.placeable() ==> r is None,
    ;

    /// Removes the element from the library's file tree; nothing where its
    /// paths are not known.
    fn remove_from(&self, fs: &Filesystem) -> (r: Vec<Step>)
        ensures
            self.placeable() ==> steps_view(r@) == self.remove_view(fs@),
            !self.placeable() ==> r@.len() == 0,
    ;

    /// Renames the element on disk, or `None` for a kind that keeps its name.
    fn rename(&self, fs: &Filesystem, new_name: &str) -> (r: Option<Step>)
        ensures
            option_view(r) == self.rename_path_view(fs@, new_name@),
    ;
}

} // verus!
