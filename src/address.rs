use vstd::prelude::*;
use vstd::slice::slice_to_vec;
use anchor_lang::solana_program::pubkey::PubkeyError;

verus! {

/// A 32-byte account address.
#[derive(Clone, Copy, Debug)]
pub struct Address {
    pub bytes: [u8; 32],
}

impl View for Address {
    type V = Seq<u8>;

    open spec fn view(&self) -> Seq<u8> {
        self.bytes@
    }
}

impl PartialEq for Address {
    fn eq(&self, o: &Address) -> (r: bool) {
        let mut i: usize = 0;
        while i < 32
            invariant
                0 <= i <= 32,
                self.bytes@.len() == 32,
                o.bytes@.len() == 32,
                forall|j: int| 0 <= j < i ==> self.bytes@[j] == o.bytes@[j],
            decreases 32 - i,
        {
            if self.bytes[i] != o.bytes[i] {
                return false;
            }
            i = i + 1;
        }
        assert(self.bytes@ =~= o.bytes@);
        true
    }
}

impl vstd::std_specs::cmp::PartialEqSpecImpl for Address {
    open spec fn obeys_eq_spec() -> bool {
        true
    }

    open spec fn eq_spec(&self, o: &Address) -> bool {
        self@ == o@
    }
}

impl Address {
    pub fn new(bytes: [u8; 32]) -> (r: Address)
        ensures
            r.bytes == bytes,
    {
        Address { bytes }
    }
}

#[verifier::external_type_specification]
#[verifier::external_body]
pub struct ExPubkeyError(PubkeyError);

/// The address that the runtime derives for a program from a list of seeds,
/// or `None` where the seeds give no address off the curve (or are too long).
pub uninterp spec fn program_address(seeds: Seq<Seq<u8>>, program_id: Seq<u8>) -> Option<Seq<u8>>;

/// Relies on `Pubkey::create_program_address`: a hash of the seeds and the
/// program id, refused when it lands on the curve; the result depends on the
/// seeds and the program id alone. At most 16 seeds of at most 32 bytes each.
#[verifier::external_body]
pub(crate) fn create_program_address(seeds: &Vec<Vec<u8>>, program_id: &Address) -> (r: Result<Address, PubkeyError>)
    requires
        seeds.deep_view().len() <= 16,
        forall|i: int| 0 <= i < seeds.deep_view().len() ==> (#[trigger] seeds.deep_view()[i]).len() <= 32,
    ensures
        r is Ok <==> program_address(seeds.deep_view(), program_id@) is Some,
        r is Ok ==> program_address(seeds.deep_view(), program_id@) == Some(r->Ok_0@),
{
    let refs: Vec<&[u8]> = seeds.iter().map(|s| s.as_slice()).collect();
    let id = anchor_lang::prelude::Pubkey::new_from_array(program_id.bytes);
    match anchor_lang::prelude::Pubkey::create_program_address(&refs, &id) {
        Ok(k) => Ok(Address { bytes: k.to_bytes() }),
        Err(e) => Err(e),
    }
}

} // verus!
