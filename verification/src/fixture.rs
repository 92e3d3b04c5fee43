//! The part of a unit that the runner's decisions read.

use vstd::prelude::*;

verus! {

/// One test vector of a unit.
#[derive(Debug)]
pub struct Test {
    /// Raw bytes that the constructed transaction must encode to, if declared.
    pub txbytes: Option<Vec<u8>>,
    /// Label of the rejection that the case is designed to trigger, if any.
    pub expect_exception: Option<String>,
}

/// The cases that a unit lists under one fork name.
#[derive(Debug)]
pub struct SpecCases {
    /// The fork's name as the unit spells it.
    pub name: String,
    /// The fork's place in the sequence of protocol upgrades. Several names
    /// may share one place.
    pub spec_id: u8,
    /// The cases, in the order in which they run.
    pub tests: Vec<Test>,
}

/// The plain sequence of fork places behind a list of groups.
pub open spec fn spec_ids(specs: Seq<SpecCases>) -> Seq<u8> {
    Seq::new(specs.len(), |i: int| specs[i].spec_id)
}

/// No two groups carry the same fork name.
pub open spec fn names_distinct(specs: Seq<SpecCases>) -> bool {
    forall|i: int, j: int|
        0 <= i < j < specs.len() ==> (#[trigger] specs[i]).name@ != (#[trigger] specs[j]).name@
}

/// A unit: its groups of cases, one group for each fork name, in the order in
/// which the unit is read.
#[derive(Debug)]
pub struct TestUnit {
    post: Vec<SpecCases>,
}

impl TestUnit {
    #[verifier::type_invariant]
    spec fn keyed_by_name(self) -> bool {
        names_distinct(self.post@)
    }

    /// The groups in order.
    pub closed spec fn groups(self) -> Seq<SpecCases> {
        self.post@
    }

    /// Makes a unit of the given groups. There is none where two groups carry
    /// the same fork name.
    pub fn new(post: Vec<SpecCases>) -> (r: Option<TestUnit>)
        ensures
            r is Some <==> names_distinct(post@),
            r is Some ==> r->0.groups() == post@,
    {
        let mut j: usize = 0;
        while j < post.len()
            invariant
                j <= post.len(),
                forall|a: int, b: int|
                    0 <= a < b < j ==> (#[trigger] post@[a]).name@ != (#[trigger] post@[b]).name@,
            decreases post.len() - j,
        {
            let mut i: usize = 0;
            while i < j
                invariant
                    i <= j < post.len(),
                    forall|a: int| 0 <= a < i ==> (#[trigger] post@[a]).name@ != post@[j as int].name@,
                decreases j - i,
            {
                if post[i].name == post[j].name {
                    return None;
                }
                i += 1;
            }
            j += 1;
        }
        Some(TestUnit { post })
    }

    /// The groups in order.
    pub fn post(&self) -> (r: &Vec<SpecCases>)
        ensures
            r@ == self.groups(),
            names_distinct(r@),
    {
        proof {
            use_type_invariant(self);
        }
        &self.post
    }
}

} // verus!
