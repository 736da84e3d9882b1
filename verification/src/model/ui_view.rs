use vstd::prelude::*;

verus! {

/// The views that the reader can show.
#[derive(Clone, Copy, Debug, Hash, PartialEq, Eq, Structural)]
pub enum UiView {
    Library,
    BookRead,
    BookEdit,
}

} // verus!
