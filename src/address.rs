use vstd::prelude::*;
use crate::identity::Identity;

verus! {

/// Where a vault lives: a pure function of its owner, its asset and the
/// owner's seed. Two vaults with the same triple are the same vault.
#[derive(Clone, Copy, Debug)]
pub struct VaultAddress {
    pub owner: Identity,
    pub asset: Identity,
    pub seed: u64,
}

/// The mathematical address: owner bytes, asset bytes and seed.
pub type AddressModel = (Seq<u8>, Seq<u8>, u64);

impl View for VaultAddress {
    type V = AddressModel;

    open spec fn view(&self) -> AddressModel {
        (self.owner@, self.asset@, self.seed)
    }
}

pub open spec fn vault_address(owner: Seq<u8>, asset: Seq<u8>, seed: u64) -> AddressModel {
    (owner, asset, seed)
}

/// The tag that starts every vault's derivation seeds ("TokenLockInfo").
pub open spec fn vault_tag() -> Seq<u8> {
    seq![84u8, 111u8, 107u8, 101u8, 110u8, 76u8, 111u8, 99u8, 107u8, 73u8, 110u8, 102u8, 111u8]
}

/// The `n` low bytes of `x`, least significant first.
pub open spec fn le_bytes(x: nat, n: nat) -> Seq<u8>
    decreases n,
{
    if n == 0 {
        Seq::empty()
    } else {
        seq![(x % 256) as u8] + le_bytes(x / 256, (n - 1) as nat)
    }
}

/// The byte string from which the host derives a vault's account:
/// the tag, the owner, the asset and the seed in little-endian order.
pub open spec fn vault_seed_bytes(owner: Seq<u8>, asset: Seq<u8>, seed: u64) -> Seq<u8> {
    vault_tag() + owner + asset + le_bytes(seed as nat, 8)
}

/// The address of the vault of `owner` for `asset` under `seed`.
pub fn derive_vault_address(owner: &Identity, asset: &Identity, seed: u64) -> (r: VaultAddress)
    ensures
        r@ == vault_address(owner@, asset@, seed),
{
    VaultAddress { owner: *owner, asset: *asset, seed }
}

impl VaultAddress {
    /// The byte string from which the host derives this vault's account,
    /// and with which the vault signs transfers out of itself.
    pub fn seed_bytes(&self) -> (r: Vec<u8>)
        ensures
            r@ == vault_seed_bytes(self.owner@, self.asset@, self.seed),
    {
        let mut out: Vec<u8> = vec![84u8, 111u8, 107u8, 101u8, 110u8, 76u8, 111u8, 99u8, 107u8, 73u8, 110u8, 102u8, 111u8];
        assert(out@ =~= vault_tag());
        let mut i: usize = 0;
        while i < 32
            invariant
                0 <= i <= 32,
                self.owner@.len() == 32,
                out@ =~= vault_tag() + self.owner@.subrange(0, i as int),
            decreases 32 - i,
        {
            out.push(self.owner.bytes[i]);
            i = i + 1;
        }
        let mut j: usize = 0;
        while j < 32
            invariant
                0 <= j <= 32,
                self.owner@.len() == 32,
                self.asset@.len() == 32,
                out@ =~= vault_tag() + self.owner@ + self.asset@.subrange(0, j as int),
            decreases 32 - j,
        {
            out.push(self.asset.bytes[j]);
            j = j + 1;
        }
        let mut rest: u64 = self.seed;
        let mut k: usize = 0;
        while k < 8
            invariant
                0 <= k <= 8,
                self.asset@.len() == 32,
                out@ + le_bytes(rest as nat, (8 - k) as nat) =~= vault_seed_bytes(
                    self.owner@,
                    self.asset@,
                    self.seed,
                ),
            decreases 8 - k,
        {
            out.push((rest % 256) as u8);
            assert(le_bytes(rest as nat, (8 - k) as nat) =~= seq![(rest % 256) as u8] + le_bytes(
                (rest / 256) as nat,
                (8 - k - 1) as nat,
            ));
            rest = rest / 256;
            k = k + 1;
        }
        out
    }
}

impl PartialEq for VaultAddress {
    fn eq(&self, other: &VaultAddress) -> (r: bool) {
        self.seed == other.seed && self.owner == other.owner && self.asset == other.asset
    }
}

impl vstd::std_specs::cmp::PartialEqSpecImpl for VaultAddress {
    open spec fn obeys_eq_spec() -> bool {
        true
    }

    open spec fn eq_spec(&self, other: &VaultAddress) -> bool {
        self@ == other@
    }
}

impl Eq for VaultAddress {
}

proof fn lemma_le_bytes_len(x: nat, n: nat)
    ensures
        le_bytes(x, n).len() == n,
    decreases n,
{
    if n > 0 {
        lemma_le_bytes_len(x / 256, (n - 1) as nat);
    }
}

proof fn lemma_le_bytes_injective(x: nat, y: nat, n: nat)
    requires
        x < pow256(n),
        y < pow256(n),
        le_bytes(x, n) == le_bytes(y, n),
    ensures
        x == y,
    decreases n,
{
    if n > 0 {
        let (sx, sy) = (le_bytes(x, n), le_bytes(y, n));
        assert(sx[0] == sy[0]);
        assert((x % 256) as u8 == (y % 256) as u8);
        assert(sx.subrange(1, sx.len() as int) =~= le_bytes(x / 256, (n - 1) as nat));
        assert(sy.subrange(1, sy.len() as int) =~= le_bytes(y / 256, (n - 1) as nat));
        assert(x / 256 < pow256((n - 1) as nat)) by (nonlinear_arith)
            requires
                x < pow256(n),
                pow256(n) == 256 * pow256((n - 1) as nat),
        ;
        assert(y / 256 < pow256((n - 1) as nat)) by (nonlinear_arith)
            requires
                y < pow256(n),
                pow256(n) == 256 * pow256((n - 1) as nat),
        ;
        lemma_le_bytes_injective(x / 256, y / 256, (n - 1) as nat);
        assert(x == 256 * (x / 256) + x % 256) by (nonlinear_arith);
        assert(y == 256 * (y / 256) + y % 256) by (nonlinear_arith);
    }
}

pub open spec fn pow256(n: nat) -> nat
    decreases n,
{
    if n == 0 {
        1
    } else {
        256 * pow256((n - 1) as nat)
    }
}

/// Deriving a vault's address is deterministic, and differing in any one of
/// owner, asset or seed gives a different address and different derivation
/// seeds.
pub proof fn lemma_vault_address_injective(
    owner1: Seq<u8>,
    asset1: Seq<u8>,
    seed1: u64,
    owner2: Seq<u8>,
    asset2: Seq<u8>,
    seed2: u64,
)
    requires
        owner1.len() == 32,
        asset1.len() == 32,
        owner2.len() == 32,
        asset2.len() == 32,
    ensures
        (vault_address(owner1, asset1, seed1) == vault_address(owner2, asset2, seed2)) <==> (
        owner1 == owner2 && asset1 == asset2 && seed1 == seed2),
        (vault_seed_bytes(owner1, asset1, seed1) == vault_seed_bytes(owner2, asset2, seed2)) <==> (
        owner1 == owner2 && asset1 == asset2 && seed1 == seed2),
{
    let b1 = vault_seed_bytes(owner1, asset1, seed1);
    let b2 = vault_seed_bytes(owner2, asset2, seed2);
    if b1 == b2 {
        lemma_le_bytes_len(seed1 as nat, 8);
        lemma_le_bytes_len(seed2 as nat, 8);
        assert(b1.subrange(13, 45) =~= owner1);
        assert(b2.subrange(13, 45) =~= owner2);
        assert(b1.subrange(45, 77) =~= asset1);
        assert(b2.subrange(45, 77) =~= asset2);
        assert(b1.subrange(77, 85) =~= le_bytes(seed1 as nat, 8));
        assert(b2.subrange(77, 85) =~= le_bytes(seed2 as nat, 8));
        reveal_with_fuel(pow256, 9);
        assert(pow256(8) == 0x1_0000_0000_0000_0000);
        lemma_le_bytes_injective(seed1 as nat, seed2 as nat, 8);
    }
}

} // verus!
