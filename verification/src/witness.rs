//! The witness scripts that are handed to an external signer with a holder commitment.

use vstd::prelude::*;

verus! {

/// Holds the witness scripts of a holder commitment between the channel that installs them and the
/// signer that takes them.
#[derive(Debug)]
pub struct WitnessScripts {
    hex_scripts: Option<Vec<String>>,
}

impl View for WitnessScripts {
    type V = Option<Vec<String>>;

    closed spec fn view(&self) -> Option<Vec<String>> {
        self.hex_scripts
    }
}

impl WitnessScripts {
    /// Without any scripts.
    pub fn new() -> (r: WitnessScripts)
        ensures
            r@ is None,
    {
        WitnessScripts { hex_scripts: None }
    }
}

/// Installed before a colored holder commitment is validated, so that an external signer can attach
/// the witness scripts of its PSBT outputs. Scripts that were not taken are replaced.
pub fn holder_validate_install_psbt_output_witness_scripts_hex(
    slot: &mut WitnessScripts,
    hex_scripts: Vec<String>,
)
    ensures
        final(slot)@ == Some(hex_scripts),
{
    slot.hex_scripts = Some(hex_scripts);
}

/// Removes and returns the installed witness scripts, if any.
pub fn holder_validate_take_psbt_output_witness_scripts_hex(slot: &mut WitnessScripts) -> (r: Option<
    Vec<String>,
>)
    ensures
        r == old(slot)@,
        final(slot)@ is None,
{
    slot.hex_scripts.take()
}

} // verus!
