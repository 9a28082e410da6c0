use vstd::prelude::*;

verus! {

/// The bus error of `display_interface`, carried through unchanged.
#[verifier::external_type_specification]
#[verifier::external_body]
pub struct ExDisplayError(display_interface::DisplayError);

/// Error of a bus or model operation.
pub type Error = display_interface::DisplayError;

/// Error of the initialization sequence, telling a failed reset line apart
/// from a failed bus transfer.
#[derive(Debug)]
pub enum InitError<PE> {
    /// A command or data write on the bus failed.
    DisplayError(Error),
    /// Driving the reset line failed.
    Pin(PE),
}

} // verus!
