use vstd::prelude::*;

verus! {

/// A 32-byte key, as the ledger runtime uses it both for wallet identities
/// and for derived account addresses.
#[derive(Clone, Copy, Debug)]
pub struct Pubkey {
    pub bytes: [u8; 32],
}

impl View for Pubkey {
    type V = Seq<u8>;

    open spec fn view(&self) -> Seq<u8> {
        self.bytes@
    }
}

impl Pubkey {
    pub fn new(bytes: [u8; 32]) -> (r: Pubkey)
        ensures
            r@ == bytes@,
    {
        Pubkey { bytes }
    }
}

/// Byte-for-byte equality of two keys.
pub fn key_eq(a: &Pubkey, b: &Pubkey) -> (r: bool)
    ensures
        r == (a@ == b@),
{
    let mut i: usize = 0;
    while i < 32
        invariant
            0 <= i <= 32,
            forall|j: int| 0 <= j < i ==> a.bytes@[j] == b.bytes@[j],
        decreases 32 - i,
    {
        if a.bytes[i] != b.bytes[i] {
            assert(a@[i as int] != b@[i as int]);
            return false;
        }
        i = i + 1;
    }
    proof {
        assert(a@ =~= b@);
    }
    true
}

/// The role tag of a derived address: each session derives one address per
/// role from the tag and the initiator's identity.
#[derive(Clone, Copy, Debug, PartialEq, Eq, Structural)]
pub enum SeedTag {
    CoinSeed,
    VaultSeed,
}

/// The seed bytes of the coin role, the string `coin-seed`.
pub open spec fn coin_seed_tag() -> Seq<u8> {
    seq![99u8, 111u8, 105u8, 110u8, 45u8, 115u8, 101u8, 101u8, 100u8]
}

/// The seed bytes of the vault role, the string `vault-seed`.
pub open spec fn vault_seed_tag() -> Seq<u8> {
    seq![118u8, 97u8, 117u8, 108u8, 116u8, 45u8, 115u8, 101u8, 101u8, 100u8]
}

pub open spec fn tag_bytes(tag: SeedTag) -> Seq<u8> {
    match tag {
        SeedTag::CoinSeed => coin_seed_tag(),
        SeedTag::VaultSeed => vault_seed_tag(),
    }
}

/// Builds the seed bytes of a role tag.
pub fn seed_bytes(tag: SeedTag) -> (r: Vec<u8>)
    ensures
        r@ == tag_bytes(tag),
{
    let mut v: Vec<u8> = Vec::new();
    match tag {
        SeedTag::CoinSeed => {
            v.push(99u8);
            v.push(111u8);
            v.push(105u8);
            v.push(110u8);
        }
        SeedTag::VaultSeed => {
            v.push(118u8);
            v.push(97u8);
            v.push(117u8);
            v.push(108u8);
            v.push(116u8);
        }
    }
    v.push(45u8);
    v.push(115u8);
    v.push(101u8);
    v.push(101u8);
    v.push(100u8);
    proof {
        assert(v@ =~= tag_bytes(tag));
    }
    v
}

/// A derived-signer credential: the seed descriptor and the disambiguating
/// factor whose re-derivation proves authority over the derived address.
#[derive(Clone, Copy, Debug)]
pub struct DerivedSigner {
    pub tag: SeedTag,
    pub identity: Pubkey,
    pub factor: u8,
}

} // verus!
