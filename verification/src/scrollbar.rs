//! The scrollbar widget's state, which the form carries for its renderer.

use vstd::prelude::*;

verus! {

/// `ratatui::widgets::ScrollbarState`, carried through as an opaque value.
#[verifier::external_type_specification]
#[verifier::external_body]
pub struct ExScrollbarState(ratatui::widgets::ScrollbarState);

/// Calls `ScrollbarState::default()`, which builds the state of a scrollbar
/// over no content. Nothing is claimed of the value.
#[verifier::external_body]
pub(crate) fn fresh_scrollbar() -> (state: ratatui::widgets::ScrollbarState) {
    ratatui::widgets::ScrollbarState::default()
}

} // verus!
