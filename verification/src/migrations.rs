//! One-shot storage-schema migration.
//!
//! The persisted layout of an asset record changed once: the old layout
//! is the bare 16-byte genome, the new layout is the 16-byte genome
//! followed by the 8-byte label. [`migrate`] upgrades a persisted store
//! from the old layout to the new one, key by key, giving pre-existing
//! records a fixed placeholder label. The upgrade runs only on the
//! exact version transition from 0 to 1; any other pair of versions is
//! a no-op, not an error, so re-invoking it against a store whose
//! version guard has advanced performs no work.

use vstd::prelude::*;

use crate::types::{Kitty, KittyId, KittyView};

verus! {

/// An asset record in the old persisted layout: the genome alone.
#[derive(Clone, Copy, Debug, PartialEq, Eq)]
pub struct OldKitty(pub [u8; 16]);

/// A persisted kitty table: the stored schema version and the raw
/// record bytes under each key. The surrounding ledger owns the
/// version guard; this module only reads it.
pub struct KittyStore {
    pub on_chain_version: u16,
    pub records: Vec<(KittyId, Vec<u8>)>,
}

/// Mathematical image of a persisted kitty table.
#[verifier::ext_equal]
pub ghost struct StoreView {
    pub on_chain_version: u16,
    pub records: Seq<(KittyId, Seq<u8>)>,
}

impl View for KittyStore {
    type V = StoreView;

    closed spec fn view(&self) -> StoreView {
        StoreView {
            on_chain_version: self.on_chain_version,
            records: self.records@.map_values(|r: (KittyId, Vec<u8>)| (r.0, r.1@)),
        }
    }
}

/// The label written into records that predate the labeled layout.
pub open spec fn spec_placeholder_name() -> Seq<u8> {
    seq![97u8, 98u8, 99u8, 100u8, 97u8, 98u8, 99u8, 100u8]
}

/// The placeholder label as bytes: `abcdabcd`.
pub fn placeholder_name() -> (r: [u8; 8])
    ensures
        r@ == spec_placeholder_name(),
{
    let mut r = [0u8; 8];
    r[0] = 97;
    r[1] = 98;
    r[2] = 99;
    r[3] = 100;
    r[4] = 97;
    r[5] = 98;
    r[6] = 99;
    r[7] = 100;
    proof {
        assert(r@ =~= spec_placeholder_name());
    }
    r
}

/// The new persisted layout of an asset record: the 16 genome bytes
/// followed by the 8 label bytes.
pub open spec fn spec_encode_kitty(k: KittyView) -> Seq<u8> {
    k.dna + k.name
}

/// Writes a kitty in the new 24-byte persisted layout.
pub fn encode_kitty(k: &Kitty) -> (r: Vec<u8>)
    ensures
        r@ == spec_encode_kitty(k@),
        r@.len() == 24,
{
    let mut out: Vec<u8> = Vec::new();
    for i in 0..16
        invariant
            out@ =~= k.dna@.subrange(0, i as int),
    {
        out.push(k.dna[i]);
        proof {
            assert(out@ =~= k.dna@.subrange(0, i + 1));
        }
    }
    proof {
        assert(k.dna@.subrange(0, 16) =~= k.dna@);
    }
    for i in 0..8
        invariant
            out@ =~= k.dna@ + k.name@.subrange(0, i as int),
    {
        out.push(k.name[i]);
        proof {
            assert(out@ =~= k.dna@ + k.name@.subrange(0, i + 1));
        }
    }
    proof {
        assert(k.name@.subrange(0, 8) =~= k.name@);
        assert(out@ =~= k.dna@ + k.name@);
    }
    out
}

/// Reads a record in the old 16-byte persisted layout; anything of
/// another length is not an old-layout record.
pub fn decode_old_kitty(bytes: &[u8]) -> (r: Option<OldKitty>)
    ensures
        match r {
            Some(o) => bytes@.len() == 16 && o.0@ == bytes@,
            None => bytes@.len() != 16,
        },
{
    if bytes.len() != 16 {
        return None;
    }
    let mut dna = [0u8; 16];
    for i in 0..16
        invariant
            bytes@.len() == 16,
            forall|j: int| 0 <= j < i ==> dna@[j] == bytes@[j],
    {
        dna[i] = bytes[i];
    }
    proof {
        assert(dna@ =~= bytes@);
    }
    Some(OldKitty(dna))
}

/// What the migration makes of one record's bytes: an old-layout
/// record is rewritten into the new layout with the placeholder label;
/// anything else is left as it stands.
pub open spec fn spec_migrate_bytes(bytes: Seq<u8>) -> Seq<u8> {
    if bytes.len() == 16 {
        bytes + spec_placeholder_name()
    } else {
        bytes
    }
}

/// The whole migration as a pure transition: outside the exact 0-to-1
/// version pair nothing changes; on it, every record's bytes are
/// rewritten under the same key, in the same order.
pub open spec fn migrate_spec(s: StoreView, current_version: u16) -> StoreView {
    if s.on_chain_version != 0 || current_version != 1 {
        s
    } else {
        StoreView {
            on_chain_version: s.on_chain_version,
            records: s.records.map_values(
                |r: (KittyId, Seq<u8>)| (r.0, spec_migrate_bytes(r.1)),
            ),
        }
    }
}

/// Rewrites one record's bytes as [`spec_migrate_bytes`] says: decode
/// the old 16-byte layout, re-encode in the new 24-byte layout with the
/// placeholder label.
fn migrate_record_bytes(bytes: Vec<u8>) -> (r: Vec<u8>)
    ensures
        r@ == spec_migrate_bytes(bytes@),
{
    match decode_old_kitty(bytes.as_slice()) {
        Some(old_kitty) => {
            let kitty = Kitty { dna: old_kitty.0, name: placeholder_name() };
            let out = encode_kitty(&kitty);
            proof {
                assert(out@ =~= spec_migrate_bytes(bytes@));
            }
            out
        },
        None => bytes,
    }
}

/// Upgrades `store` from the old record layout to the new one, gated
/// by the stored schema version against the compiled-in target: only
/// the exact 0-to-1 pair performs work, and then every record is
/// rewritten under its key. The returned weight cost is always zero.
pub fn migrate(store: &mut KittyStore, current_version: u16) -> (weight: u64)
    ensures
        weight == 0,
        final(store)@ == migrate_spec(old(store)@, current_version),
{
    if store.on_chain_version != 0 {
        return 0;
    }
    if current_version != 1 {
        return 0;
    }
    let mut migrated: Vec<(KittyId, Vec<u8>)> = Vec::new();
    while store.records.len() > 0
        invariant
            old(store).on_chain_version == 0,
            current_version == 1,
            store.on_chain_version == 0,
            migrated@.len() + store.records@.len() == old(store).records@.len(),
            forall|j: int|
                0 <= j < migrated@.len() ==> (#[trigger] migrated@[j]).0 == old(
                    store,
                ).records@[j].0 && migrated@[j].1@ == spec_migrate_bytes(
                    old(store).records@[j].1@,
                ),
            forall|j: int|
                0 <= j < store.records@.len() ==> #[trigger] store.records@[j] == old(
                    store,
                ).records@[migrated@.len() + j],
        decreases store.records@.len(),
    {
        let (kitty_id, bytes) = store.records.remove(0);
        let new_bytes = migrate_record_bytes(bytes);
        migrated.push((kitty_id, new_bytes));
    }
    store.records = migrated;
    proof {
        assert(store@ =~= migrate_spec(old(store)@, current_version));
    }
    0
}

/// Law (migration idempotence): any store whose version guard is not 0
/// is left untouched; in particular, once the guard has advanced after
/// a first run, a second run against the same store performs no work.
pub proof fn lemma_migrate_idempotent(s: StoreView, current_version: u16)
    ensures
        s.on_chain_version != 0 ==> migrate_spec(s, current_version) == s,
        ({
            let advanced = StoreView { on_chain_version: 1, ..migrate_spec(s, current_version) };
            migrate_spec(advanced, current_version) == advanced
        }),
{
}

} // verus!
