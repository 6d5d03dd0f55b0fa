//! Instruction identities.

use vstd::prelude::*;

use crate::constants::NUMBER_OF_CODE_VALUES;

verus! {

/// The identity of an instruction: which instruction it is, in which operand
/// form.
///
/// An identity is known by its ordinal, a number below
/// [`NUMBER_OF_CODE_VALUES`]. Ordinal zero is the invalid instruction.
#[derive(Clone, Copy, Debug, PartialEq, Eq, Structural, Hash)]
pub struct Code {
    ordinal: u16,
}

impl Code {
    /// The ordinal of an identity is below the number of identities.
    #[verifier::type_invariant]
    pub closed spec fn wf(self) -> bool {
        self.ordinal < NUMBER_OF_CODE_VALUES
    }

    /// The ordinal of this identity.
    pub closed spec fn spec_ordinal(self) -> u32 {
        self.ordinal as u32
    }

    /// The identity with ordinal `n`.
    pub closed spec fn spec_with_ordinal(n: u32) -> Code {
        Code { ordinal: n as u16 }
    }

    /// The identity of the invalid instruction.
    pub open spec fn spec_invalid() -> Code {
        Code::spec_with_ordinal(0)
    }

    /// The identity with ordinal `n`; `None` when `n` is not the ordinal of any
    /// identity.
    pub fn from_ordinal(n: u32) -> (code: Option<Code>)
        ensures
            code == if n < NUMBER_OF_CODE_VALUES {
                Some(Code::spec_with_ordinal(n))
            } else {
                None
            },
    {
        if n < NUMBER_OF_CODE_VALUES {
            Some(Code { ordinal: n as u16 })
        } else {
            None
        }
    }

    /// The identity of the invalid instruction.
    #[verifier::when_used_as_spec(spec_invalid)]
    pub fn invalid() -> (code: Code)
        ensures
            code == Code::spec_invalid(),
    {
        Code { ordinal: 0 }
    }

    /// The ordinal of this identity.
    #[verifier::when_used_as_spec(spec_ordinal)]
    pub fn ordinal(self) -> (n: u32)
        ensures
            n == self.spec_ordinal(),
            n < NUMBER_OF_CODE_VALUES,
    {
        proof {
            use_type_invariant(self);
        }
        self.ordinal as u32
    }

    /// Whether this is the identity of the invalid instruction.
    pub fn is_invalid(self) -> (invalid: bool)
        ensures
            invalid == (self == Code::spec_invalid()),
    {
        self.ordinal == 0
    }

    /// An identity made from an ordinal below the number of identities is well
    /// formed and has that ordinal.
    pub proof fn lemma_with_ordinal(n: u32)
        requires
            n < NUMBER_OF_CODE_VALUES,
        ensures
            Code::spec_with_ordinal(n).wf(),
            Code::spec_with_ordinal(n).spec_ordinal() == n,
    {
    }

    /// A well-formed identity has an ordinal below the number of identities,
    /// and is the identity made from that ordinal.
    pub proof fn lemma_ordinal(self)
        requires
            self.wf(),
        ensures
            self.spec_ordinal() < NUMBER_OF_CODE_VALUES,
            Code::spec_with_ordinal(self.spec_ordinal()) == self,
    {
    }
}

} // verus!
