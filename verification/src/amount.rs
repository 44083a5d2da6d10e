//! Conversion between lamports (the base unit) and the display unit,
//! held exactly as a whole part and a fractional part in billionths.

use vstd::prelude::*;

verus! {

/// Lamports in one display unit.
pub const LAMPORTS_PER_SOL: u64 = 1_000_000_000;

/// An amount in the display unit: `sol` whole units plus `nanos`
/// billionths. Exact, unlike a binary fraction.
#[derive(Clone, Copy, Debug, PartialEq, Eq, Structural)]
pub struct SolAmount {
    pub sol: u64,
    pub nanos: u32,
}

impl SolAmount {
    /// The fractional part stays below one whole unit.
    pub open spec fn wf(self) -> bool {
        self.nanos < 1_000_000_000
    }

    /// The value in lamports, as an unbounded integer.
    pub open spec fn lamports_spec(self) -> int {
        self.sol * 1_000_000_000 + self.nanos
    }
}

pub open spec fn lamports_to_sol_spec(lamports: u64) -> SolAmount {
    SolAmount {
        sol: (lamports / 1_000_000_000) as u64,
        nanos: (lamports % 1_000_000_000) as u32,
    }
}

/// Express a lamport amount in the display unit. No precision is lost:
/// the result's value in lamports is the argument.
pub fn lamports_to_sol(lamports: u64) -> (r: SolAmount)
    ensures
        r == lamports_to_sol_spec(lamports),
        r.wf(),
        r.lamports_spec() == lamports,
{
    SolAmount {
        sol: lamports / 1_000_000_000,
        nanos: (lamports % 1_000_000_000) as u32,
    }
}

/// Express a display-unit amount in lamports; `None` exactly when the
/// amount does not fit the 64-bit lamport range.
pub fn sol_to_lamports(amount: SolAmount) -> (r: Option<u64>)
    requires
        amount.wf(),
    ensures
        match r {
            Some(l) => l == amount.lamports_spec(),
            None => amount.lamports_spec() > u64::MAX,
        },
{
    let nanos64: u64 = amount.nanos as u64;
    if amount.sol <= (u64::MAX - nanos64) / 1_000_000_000 {
        proof {
            assert(amount.sol * 1_000_000_000 + nanos64 <= u64::MAX) by (nonlinear_arith)
                requires
                    amount.sol <= (u64::MAX - nanos64) / 1_000_000_000,
                    nanos64 <= u64::MAX,
            ;
        }
        Some(amount.sol * 1_000_000_000 + nanos64)
    } else {
        proof {
            assert(amount.sol * 1_000_000_000 + nanos64 > u64::MAX) by (nonlinear_arith)
                requires
                    amount.sol > (u64::MAX - nanos64) / 1_000_000_000,
                    nanos64 <= u64::MAX,
            ;
        }
        None
    }
}

/// Round trip: a lamport amount carried into the display unit and back
/// is recovered exactly.
pub proof fn lemma_amount_round_trip(lamports: u64)
    ensures
        lamports_to_sol_spec(lamports).wf(),
        lamports_to_sol_spec(lamports).lamports_spec() == lamports,
{
    let a = lamports_to_sol_spec(lamports);
    assert(a.lamports_spec() == lamports) by (nonlinear_arith)
        requires
            a.sol == lamports / 1_000_000_000,
            a.nanos == lamports % 1_000_000_000,
    ;
}

/// Round trip the other way: a well-formed display amount carried into
/// lamports and back is recovered exactly, whenever it fits the lamport
/// range.
pub proof fn lemma_sol_round_trip(amount: SolAmount)
    requires
        amount.wf(),
        amount.lamports_spec() <= u64::MAX,
    ensures
        lamports_to_sol_spec(amount.lamports_spec() as u64) == amount,
{
    let l = amount.lamports_spec() as u64;
    assert(l / 1_000_000_000 == amount.sol && l % 1_000_000_000 == amount.nanos)
        by (nonlinear_arith)
        requires
            l == amount.sol * 1_000_000_000 + amount.nanos,
            amount.nanos < 1_000_000_000,
    ;
}

} // verus!
