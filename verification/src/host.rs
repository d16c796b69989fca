use vstd::prelude::*;

verus! {

#[verifier::external_type_specification]
#[verifier::external_body]
pub struct ExRent(solana_program::rent::Rent);

#[verifier::external_type_specification]
#[verifier::external_body]
pub struct ExProgramError(solana_program::program_error::ProgramError);

/// Relies on `solana_program`'s rent sysvar read, `Rent::get`: the host's
/// current rent configuration, or an error where the environment offers
/// none. The result depends on the execution environment alone, so nothing
/// is promised of it; the caller states what holds of every outcome.
#[verifier::external_body]
pub(crate) fn rent_from_host() -> Result<
    solana_program::rent::Rent,
    solana_program::program_error::ProgramError,
> {
    <solana_program::rent::Rent as solana_program::sysvar::Sysvar>::get()
}

/// Relies on `solana_program`'s `Rent::minimum_balance`: the smallest
/// balance the given rent configuration exempts from ongoing rent for an
/// account holding `data_len` bytes. The configuration is opaque here, so
/// nothing is promised of the figure; the caller executes correctly for
/// every value of it.
#[verifier::external_body]
pub(crate) fn rent_minimum_balance(
    rent: &solana_program::rent::Rent,
    data_len: usize,
) -> u64 {
    rent.minimum_balance(data_len)
}

} // verus!
