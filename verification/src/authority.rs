use crate::error::SubscribeError;
use crate::identity::Identity;
use anchor_lang::prelude::Pubkey;
use vstd::prelude::*;

verus! {

/// The address and bump seed that the runtime derives for a program from
/// a list of seeds, where it finds one.
pub uninterp spec fn program_address(seeds: Seq<Seq<u8>>, program: Seq<u8>) -> Option<(Seq<u8>, u8)>;

/// The bytes of the label `authority`.
pub open spec fn authority_label() -> Seq<u8> {
    seq![97u8, 117u8, 116u8, 104u8, 111u8, 114u8, 105u8, 116u8, 121u8]
}

/// The seeds from which the authority's address is derived.
pub open spec fn authority_seeds() -> Seq<Seq<u8>> {
    seq![authority_label()]
}

/// Calls `Pubkey::try_find_program_address` with `label` as the only seed.
///
/// Trusted: the result is a function of the label and the program id
/// alone, named by [`program_address`]; nothing is claimed of which address
/// or bump comes out.
#[verifier::external_body]
fn find_program_address(label: &Vec<u8>, program: &Identity) -> (r: Option<(Identity, u8)>)
    ensures
        r is Some <==> program_address(seq![label@], program@) is Some,
        r matches Some((address, bump)) ==> program_address(seq![label@], program@) == Some(
            (address@, bump),
        ),
{
    let program_id = Pubkey::new_from_array(program.bytes);
    match Pubkey::try_find_program_address(&[label.as_slice()], &program_id) {
        Some((key, bump)) => Some((Identity { bytes: key.to_bytes() }, bump)),
        None => None,
    }
}

/// The protocol's signing identity: an address that only this program can
/// sign for, together with the bump seed that proves its derivation.
///
/// A value is made by [`Authority::authorize`] alone.
#[derive(Clone, Copy, Debug, PartialEq, Eq)]
pub struct Authority {
    address: Identity,
    bump: u8,
}

impl Authority {
    /// The authority of the given address and bump seed.
    pub closed spec fn derived(address: Identity, bump: u8) -> Authority {
        Authority { address, bump }
    }

    /// What [`Authority::authorize`] returns.
    pub open spec fn authorized(claimed: Identity, program: Identity) -> Result<
        Authority,
        SubscribeError,
    > {
        match program_address(authority_seeds(), program@) {
            Some((address, bump)) => if address == claimed@ {
                Ok(Self::derived(claimed, bump))
            } else {
                Err(SubscribeError::Unauthorized)
            },
            None => Err(SubscribeError::Unauthorized),
        }
    }

    pub closed spec fn spec_address(&self) -> Identity {
        self.address
    }

    pub closed spec fn spec_bump(&self) -> u8 {
        self.bump
    }

    /// The authority's address.
    #[verifier::when_used_as_spec(spec_address)]
    pub fn address(&self) -> (a: Identity)
        ensures
            a == self.spec_address(),
    {
        self.address
    }

    /// The bump seed of the derivation.
    #[verifier::when_used_as_spec(spec_bump)]
    pub fn bump(&self) -> (b: u8)
        ensures
            b == self.spec_bump(),
    {
        self.bump
    }

    /// The label `authority` as bytes.
    pub fn label() -> (label: Vec<u8>)
        ensures
            label@ == authority_label(),
    {
        let mut label: Vec<u8> = Vec::new();
        label.push(97);
        label.push(117);
        label.push(116);
        label.push(104);
        label.push(111);
        label.push(114);
        label.push(105);
        label.push(116);
        label.push(121);
        assert(label@ =~= authority_label());
        label
    }

    /// The bump seed of a derivation that yields the claimed address.
    ///
    /// `derived` is what the derivation gave; the claim holds only where it
    /// gave an address and that address is the claimed one.
    pub fn matching_bump(derived: Option<(Identity, u8)>, claimed: &Identity) -> (r: Option<u8>)
        ensures
            r == match derived {
                Some((address, bump)) => if address@ == claimed@ {
                    Some(bump)
                } else {
                    None
                },
                None => None,
            },
    {
        match derived {
            Some((address, bump)) => {
                if address.same(claimed) {
                    Some(bump)
                } else {
                    None
                }
            },
            None => None,
        }
    }

    /// Admits `claimed` as the authority of `program` if it is the address
    /// derived from the label `authority`; any other address is refused as
    /// `Unauthorized`.
    pub fn authorize(claimed: &Identity, program: &Identity) -> (r: Result<
        Authority,
        SubscribeError,
    >)
        ensures
            r == Self::authorized(*claimed, *program),
            r is Ok <==> (program_address(authority_seeds(), program@) matches Some((address, _))
                && address == claimed@),
            r matches Ok(authority) ==> authority.address() == *claimed && program_address(
                authority_seeds(),
                program@,
            ) == Some((claimed@, authority.bump())),
            r matches Err(e) ==> e == SubscribeError::Unauthorized,
    {
        let label = Self::label();
        assert(seq![label@] =~= authority_seeds());
        let derived = find_program_address(&label, program);
        match Self::matching_bump(derived, claimed) {
            Some(bump) => Ok(Authority { address: *claimed, bump }),
            None => Err(SubscribeError::Unauthorized),
        }
    }

    /// The seeds with which the program signs as this authority: the label
    /// and the bump seed.
    pub fn signer_seeds(&self) -> (seeds: Vec<Vec<u8>>)
        ensures
            seeds@.len() == 2,
            seeds@[0]@ == authority_label(),
            seeds@[1]@ == seq![self.bump()],
    {
        let mut bump_seed: Vec<u8> = Vec::new();
        bump_seed.push(self.bump);
        assert(bump_seed@ =~= seq![self.bump]);
        let mut seeds: Vec<Vec<u8>> = Vec::new();
        seeds.push(Self::label());
        seeds.push(bump_seed);
        seeds
    }
}

} // verus!
