//! Input validation for the Soft-DTW engine.
//!
//! Soft-DTW relaxes Dynamic Time Warping by replacing the hard `min` of the
//! alignment recursion with a smooth, temperature-controlled softmin.  The
//! recursion itself runs over binary64 values outside this crate; the checks
//! it performs before any arithmetic — and exactly which error each bad input
//! earns — are decided here.
//!
//! Both entry forms share the same prologue: the smoothing parameter must
//! encode a strictly positive finite number and both sequence lengths must be
//! nonzero.  The cost-matrix form additionally demands that the supplied
//! buffer hold exactly `n * m` entries.

use vstd::prelude::*;

verus! {

use crate::ieee754::check_positive_finite_bits;
use crate::ieee754::is_positive_finite_bits;

/// Errors for the Soft-DTW operators.
#[derive(Clone, Copy, Debug, PartialEq, Eq)]
pub enum Error {
    /// The smoothing parameter must encode a positive finite number; carries
    /// the offending bit pattern.
    InvalidGamma { gamma_bits: u64 },
    /// Inputs must be non-empty sequences.
    EmptyInput,
    /// The cost buffer's length does not equal the declared `n * m`.
    InvalidCostShape {
        /// The provided buffer length.
        len: usize,
        /// Declared row count.
        n: usize,
        /// Declared column count.
        m: usize,
        /// `n * m`, carried explicitly for diagnostics.
        expected: usize,
    },
}

/// Checks the prologue of the scalar Soft-DTW form: a valid smoothing
/// parameter and two non-empty sequences, of lengths `n` and `m`.
///
/// The parameter check comes first, so an invalid parameter is reported even
/// for empty inputs.
pub fn validate_inputs(gamma_bits: u64, n: usize, m: usize) -> (r: Result<(), Error>)
    ensures
        r is Ok <==> is_positive_finite_bits(gamma_bits) && n > 0 && m > 0,
        !is_positive_finite_bits(gamma_bits) ==> r == Err::<(), Error>(Error::InvalidGamma {
            gamma_bits,
        }),
        is_positive_finite_bits(gamma_bits) && (n == 0 || m == 0) ==> r == Err::<(), Error>(
            Error::EmptyInput,
        ),
{
    if !check_positive_finite_bits(gamma_bits) {
        Err(Error::InvalidGamma { gamma_bits })
    } else if n == 0 || m == 0 {
        Err(Error::EmptyInput)
    } else {
        Ok(())
    }
}

/// Checks the prologue of the cost-matrix Soft-DTW form: the scalar prologue
/// plus the shape of the supplied cost buffer, which must hold exactly
/// `n * m` entries.
///
/// The product `n * m` is reported inside the shape error, so it must fit in
/// `usize`; the engine computes it eagerly and cannot represent an
/// overflowing product.
pub fn validate_cost_inputs(gamma_bits: u64, n: usize, m: usize, cost_len: usize) -> (r: Result<
    (),
    Error,
>)
    requires
        n * m <= usize::MAX,
    ensures
        r is Ok <==> is_positive_finite_bits(gamma_bits) && n > 0 && m > 0 && cost_len == n * m,
        !is_positive_finite_bits(gamma_bits) ==> r == Err::<(), Error>(Error::InvalidGamma {
            gamma_bits,
        }),
        is_positive_finite_bits(gamma_bits) && (n == 0 || m == 0) ==> r == Err::<(), Error>(
            Error::EmptyInput,
        ),
        is_positive_finite_bits(gamma_bits) && n > 0 && m > 0 && cost_len != n * m ==> r == Err::<
            (),
            Error,
        >(Error::InvalidCostShape { len: cost_len, n, m, expected: (n * m) as usize }),
{
    match validate_inputs(gamma_bits, n, m) {
        Err(e) => Err(e),
        Ok(()) => {
            let expected = n * m;
            if cost_len != expected {
                Err(Error::InvalidCostShape { len: cost_len, n, m, expected })
            } else {
                Ok(())
            }
        },
    }
}

} // verus!
