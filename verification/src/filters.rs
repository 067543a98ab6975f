//! What a document template calls to show a value.

use crate::latex::{can_escape, LatexError};
use crate::me::{display_of, latex_of, PaymentMethod};
use vstd::prelude::*;

verus! {

/// A payment method as it stands in a LaTeX document: see [`latex_of`]. Fails where,
/// and only where, what the method is shown as cannot be escaped.
pub fn payment_to_latex(method: &PaymentMethod) -> (r: Result<String, LatexError>)
    ensures
        match r {
            Ok(text) => can_escape(display_of(*method)) && text@ == latex_of(*method),
            Err(LatexError::Escape) => !can_escape(display_of(*method)),
        },
{
    method.to_latex()
}

} // verus!
