//! The decisions taken on what the collaborators report for one case.

use vstd::prelude::*;
use crate::amount::{Amount, amount_limit};
use crate::error::TestErrorKind;

verus! {

/// How a rejection is held against the exception that a case expects.
#[derive(Clone, Copy, Debug, PartialEq, Eq, Structural)]
pub enum ExceptionPolicy {
    /// Any rejection satisfies a case that declares an expected exception.
    AnyFailure,
    /// Only a rejection with the declared label satisfies it.
    SameLabel,
}

/// The balance namespace of an account.
#[derive(Clone, Copy, Debug, PartialEq, Eq, Structural)]
pub enum Space {
    Native,
    Ethereum,
}

/// What the engine charged for a transaction that a block includes: the gas
/// consumed and the price paid per unit, priority fee included. Their product
/// is below 2^256.
#[derive(Clone, Copy, Debug, PartialEq, Eq)]
pub struct Executed {
    gas_used: u64,
    gas_price: Amount,
}

impl Executed {
    #[verifier::type_invariant]
    spec fn charge_fits(self) -> bool {
        self.gas_used * self.gas_price.value() < amount_limit()
    }

    /// The gas consumed.
    pub closed spec fn gas(self) -> u64 {
        self.gas_used
    }

    /// The price paid per unit of gas.
    pub closed spec fn price(self) -> Amount {
        self.gas_price
    }

    /// The total charge: gas consumed times price.
    pub open spec fn charge(self) -> nat {
        self.gas() as nat * self.price().value()
    }

    /// The total charge is an amount. This holds of every charge on record.
    pub open spec fn fits(self) -> bool {
        self.charge() < amount_limit()
    }

    /// Records a charge. There is none where the product does not fit an amount.
    pub fn new(gas_used: u64, gas_price: Amount) -> (r: Option<Executed>)
        ensures
            r is Some <==> gas_used * gas_price.value() < amount_limit(),
            r is Some ==> r->0.gas() == gas_used && r->0.price() == gas_price && r->0.fits(),
    {
        let (_, carry) = gas_price.mul_u64(gas_used);
        assert(gas_used * gas_price.value() == gas_price.value() * gas_used) by (nonlinear_arith);
        if carry == 0 {
            Some(Executed { gas_used, gas_price })
        } else {
            None
        }
    }

    pub fn gas_used(&self) -> (r: u64)
        ensures
            r == self.gas(),
            self.fits(),
    {
        proof {
            use_type_invariant(self);
        }
        self.gas_used
    }

    pub fn gas_price(&self) -> (r: Amount)
        ensures
            r == self.price(),
    {
        self.gas_price
    }

    /// The total charge as an amount.
    pub fn fee(&self) -> (r: Amount)
        ensures
            r.value() == self.charge(),
            r == Amount::of(self.charge()),
    {
        proof {
            use_type_invariant(self);
        }
        let (total, carry) = self.gas_price.mul_u64(self.gas_used);
        assert(self.gas_used * self.gas_price.value() == self.gas_price.value() * self.gas_used)
            by (nonlinear_arith);
        proof {
            total.lemma_canonical();
        }
        total
    }
}

/// How the engine answered one transaction.
#[derive(Debug)]
pub enum ExecutionOutcome {
    /// Turned away before inclusion in a block. The label names the reason.
    Rejected(String),
    /// Included in a block, whether its effects were kept or reverted.
    Included(Executed),
}

/// The label that a case expects, as plain characters.
pub open spec fn expectation(expected: Option<&String>) -> Option<Seq<char>> {
    match expected {
        Some(label) => Some(label@),
        None => None,
    }
}

/// A rejection labelled `actual` is the one that the case is after.
pub open spec fn excused(
    policy: ExceptionPolicy,
    expected: Option<Seq<char>>,
    actual: Seq<char>,
) -> bool {
    match expected {
        Some(label) => policy == ExceptionPolicy::AnyFailure || label == actual,
        None => false,
    }
}

/// What follows from the engine's answer: the charge to settle, nothing more
/// to check, or a mismatch.
pub open spec fn reconciled(
    policy: ExceptionPolicy,
    outcome: ExecutionOutcome,
    expected: Option<Seq<char>>,
) -> Result<Option<Executed>, TestErrorKind> {
    match outcome {
        ExecutionOutcome::Rejected(label) => if excused(policy, expected, label@) {
            Ok(None)
        } else {
            Err(TestErrorKind::OutcomeMismatch)
        },
        ExecutionOutcome::Included(executed) => if expected is Some {
            Err(TestErrorKind::OutcomeMismatch)
        } else {
            Ok(Some(executed))
        },
    }
}

/// Decides whether a rejection labelled `actual` satisfies the expectation.
pub fn is_excused(policy: ExceptionPolicy, expected: Option<&String>, actual: &String) -> (r:
    bool)
    ensures
        r == excused(policy, expectation(expected), actual@),
{
    match expected {
        Some(label) => match policy {
            ExceptionPolicy::AnyFailure => true,
            ExceptionPolicy::SameLabel => *label == *actual,
        },
        None => false,
    }
}

/// Decides whether two byte strings are the same.
pub fn same_bytes(a: &Vec<u8>, b: &Vec<u8>) -> (r: bool)
    ensures
        r == (a@ == b@),
{
    if a.len() != b.len() {
        return false;
    }
    let mut i: usize = 0;
    while i < a.len()
        invariant
            i <= a.len(),
            a.len() == b.len(),
            forall|j: int| 0 <= j < i ==> a@[j] == b@[j],
        decreases a.len() - i,
    {
        if a[i] != b[i] {
            return false;
        }
        i += 1;
    }
    assert(a@ =~= b@);
    true
}

/// Holds the canonical encoding of the constructed transaction against the
/// raw bytes that the case declares. A case that declares none passes.
pub fn check_tx_bytes(expected: Option<&Vec<u8>>, encoded: &Vec<u8>) -> (r: Result<
    (),
    TestErrorKind,
>)
    ensures
        r == if expected is Some && expected->0@ != encoded@ {
            Err::<(), TestErrorKind>(TestErrorKind::TxBytesMismatch)
        } else {
            Ok(())
        },
{
    match expected {
        Some(raw) => if same_bytes(raw, encoded) {
            Ok(())
        } else {
            Err(TestErrorKind::TxBytesMismatch)
        },
        None => Ok(()),
    }
}

/// Settles a failure of the consensus gate: the case is over without further
/// checks where the failure is the expected one, and has failed otherwise.
pub fn process_consensus_check_fail(
    policy: ExceptionPolicy,
    failure: &String,
    expected: Option<&String>,
) -> (r: Result<(), TestErrorKind>)
    ensures
        r == if excused(policy, expectation(expected), failure@) {
            Ok::<(), TestErrorKind>(())
        } else {
            Err(TestErrorKind::ConsensusCheckMismatch)
        },
{
    if is_excused(policy, expected, failure) {
        Ok(())
    } else {
        Err(TestErrorKind::ConsensusCheckMismatch)
    }
}

/// Holds the engine's answer against the expectation: `Ok(Some(..))` with the
/// charge where the transaction was included and no exception was expected,
/// `Ok(None)` where it was rejected as expected, a mismatch otherwise.
pub fn extract_executed(
    policy: ExceptionPolicy,
    outcome: &ExecutionOutcome,
    expected: Option<&String>,
) -> (r: Result<Option<Executed>, TestErrorKind>)
    ensures
        r == reconciled(policy, *outcome, expectation(expected)),
{
    match outcome {
        ExecutionOutcome::Rejected(label) => if is_excused(policy, expected, label) {
            Ok(None)
        } else {
            Err(TestErrorKind::OutcomeMismatch)
        },
        ExecutionOutcome::Included(executed) => if expected.is_some() {
            Err(TestErrorKind::OutcomeMismatch)
        } else {
            Ok(Some(*executed))
        },
    }
}

} // verus!
