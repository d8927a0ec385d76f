use vstd::prelude::*;

verus! {

/// A 32-byte account address, held as plain bytes.
pub struct Pubkey {
    pub bytes: [u8; 32],
}

impl View for Pubkey {
    type V = Seq<u8>;

    open spec fn view(&self) -> Seq<u8> {
        self.bytes@
    }
}

impl Pubkey {
    pub fn new_from_array(bytes: [u8; 32]) -> (k: Pubkey)
        ensures
            k@ == bytes@,
    {
        Pubkey { bytes }
    }

    pub fn to_bytes(&self) -> (b: [u8; 32])
        ensures
            b@ == self@,
    {
        self.bytes
    }

    /// Byte-wise comparison of two addresses.
    pub fn key_eq(&self, other: &Pubkey) -> (r: bool)
        ensures
            r == (self@ == other@),
    {
        let mut i: usize = 0;
        while i < 32
            invariant
                0 <= i <= 32,
                self@.len() == 32,
                other@.len() == 32,
                forall|j: int| 0 <= j < i ==> self@[j] == other@[j],
            decreases 32 - i,
        {
            if self.bytes[i] != other.bytes[i] {
                return false;
            }
            i = i + 1;
        }
        assert(self@ =~= other@);
        true
    }

    pub fn copy(&self) -> (k: Pubkey)
        ensures
            k@ == self@,
    {
        Pubkey { bytes: self.bytes }
    }
}

/// `11111111111111111111111111111111`: the system program.
pub open spec fn spec_system_program_id() -> Seq<u8> {
    Seq::new(32, |i: int| 0u8)
}

pub fn system_program_id() -> (k: Pubkey)
    ensures
        k@ == spec_system_program_id(),
{
    let k = Pubkey { bytes: [0u8; 32] };
    assert(k@ =~= spec_system_program_id());
    k
}

/// `TokenkegQfeZyiNwAJbNbGKPFXCWuBvf9Ss623VQ5DA`: the SPL token program.
pub open spec fn spec_token_program_id() -> Seq<u8> {
    seq![
        6u8, 221, 246, 225, 215, 101, 161, 147, 217, 203, 225, 70, 206, 235, 121, 172,
        28, 180, 133, 237, 95, 91, 55, 145, 58, 140, 245, 133, 126, 255, 0, 169,
    ]
}

pub fn token_program_id() -> (k: Pubkey)
    ensures
        k@ == spec_token_program_id(),
{
    let k = Pubkey {
        bytes: [
            6, 221, 246, 225, 215, 101, 161, 147, 217, 203, 225, 70, 206, 235, 121, 172,
            28, 180, 133, 237, 95, 91, 55, 145, 58, 140, 245, 133, 126, 255, 0, 169,
        ],
    };
    assert(k@ =~= spec_token_program_id());
    k
}

/// `SysvarRent111111111111111111111111111111111`: the rent sysvar.
pub open spec fn spec_rent_sysvar_id() -> Seq<u8> {
    seq![
        6u8, 167, 213, 23, 25, 44, 92, 81, 33, 140, 201, 76, 61, 74, 241, 127,
        88, 218, 238, 8, 155, 161, 253, 68, 227, 219, 217, 138, 0, 0, 0, 0,
    ]
}

pub fn rent_sysvar_id() -> (k: Pubkey)
    ensures
        k@ == spec_rent_sysvar_id(),
{
    let k = Pubkey {
        bytes: [
            6, 167, 213, 23, 25, 44, 92, 81, 33, 140, 201, 76, 61, 74, 241, 127,
            88, 218, 238, 8, 155, 161, 253, 68, 227, 219, 217, 138, 0, 0, 0, 0,
        ],
    };
    assert(k@ =~= spec_rent_sysvar_id());
    k
}

/// Name for what `Pubkey::try_find_program_address` returns for the given seeds
/// and program id: the first bump, counting down from 255, whose program
/// address lies off the curve, together with that address.
pub uninterp spec fn pda_search(seeds: Seq<Seq<u8>>, program_id: Seq<u8>) -> Option<(Seq<u8>, u8)>;

/// Name for what `Pubkey::create_program_address` returns for the given seeds and
/// program id (`None` where it returns an error).
pub uninterp spec fn program_address(seeds: Seq<Seq<u8>>, program_id: Seq<u8>) -> Option<Seq<u8>>;

/// Calls `anchor_lang::prelude::Pubkey::try_find_program_address`, the search
/// behind Anchor's `seeds`/`bump` constraints. Its result is named by
/// `pda_search` (a function of the seeds and the program id alone). Its source
/// returns `Some((address, bump))` only once `create_program_address` has
/// given `address` for the seeds followed by the one-byte seed `[bump]`; that
/// fact is stated over `program_address`. Nothing else is claimed of it.
#[verifier::external_body]
pub(crate) fn find_program_address(seeds: &Vec<Vec<u8>>, program_id: &Pubkey) -> (r: Option<(Pubkey, u8)>)
    ensures
        match r {
            Some((k, b)) => {
                &&& pda_search(seeds.deep_view(), program_id@) == Some((k@, b))
                &&& program_address(seeds.deep_view().push(seq![b]), program_id@) == Some(k@)
            },
            None => pda_search(seeds.deep_view(), program_id@) is None,
        },
{
    let slices: Vec<&[u8]> = seeds.iter().map(|s| s.as_slice()).collect();
    let pid = anchor_lang::prelude::Pubkey::new_from_array(program_id.bytes);
    match anchor_lang::prelude::Pubkey::try_find_program_address(&slices, &pid) {
        Some((k, b)) => Some((Pubkey { bytes: k.to_bytes() }, b)),
        None => None,
    }
}

} // verus!
