//! The render surface that every callback draws on.
use egui::{Spinner, Ui};
use vstd::prelude::*;

verus! {

/// The surface of one frame. Opaque: the state machines hand it to the
/// callbacks and never look inside.
#[verifier::external_type_specification]
#[verifier::external_body]
pub struct ExUi(Ui);

/// Calls `Ui::add` with a fresh `Spinner`, which draws a busy indicator.
#[verifier::external_body]
pub(crate) fn draw_spinner(ui: &mut Ui) {
    ui.add(Spinner::new());
}

/// Calls `Ui::label`, which draws a line of static text.
#[verifier::external_body]
pub(crate) fn draw_label(ui: &mut Ui, text: &str) {
    ui.label(text);
}

/// Calls `Ui::button` and `Response::clicked`: draws a button and tells
/// whether it was clicked in this frame. Nothing is promised of the answer: it
/// depends on what the user did.
#[verifier::external_body]
pub(crate) fn button_clicked(ui: &mut Ui, text: &str) -> (clicked: bool) {
    ui.button(text).clicked()
}

} // verus!
