//! The two operations of the relay: reporting the feed, and persisting a
//! snapshot of it into the record at the derived address.
use vstd::prelude::*;

use crate::address::{
    canonical_snapshot_address, is_canonical_bump, is_snapshot_address, same_address,
    snapshot_address_for,
};
use crate::error::RelayError;
use crate::feed::{decode_feed, decode_spec, FeedReading};

verus! {

/// The persisted snapshot: the last price read and when it was read.
#[derive(Clone, Copy, Debug, PartialEq, Eq, Structural)]
pub struct PriceData {
    /// The price, in units of 10^-18.
    pub price: i128,
    /// The clock's unix timestamp at the write.
    pub last_update: i64,
}

/// The oracle's account: its address and the bytes it holds.
#[derive(Clone, Debug)]
pub struct FeedAccount {
    pub key: [u8; 32],
    pub data: Vec<u8>,
}

/// The account that holds the snapshot, absent until the first write.
#[derive(Clone, Copy, Debug)]
pub struct SnapshotAccount {
    pub key: [u8; 32],
    pub record: Option<PriceData>,
}

/// The signing identity that funds the snapshot's creation.
#[derive(Clone, Copy, Debug)]
pub struct PayerAccount {
    pub key: [u8; 32],
    pub lamports: u64,
}

/// The accounts of a read.
#[derive(Clone, Debug)]
pub struct ReadBtcPrice {
    pub feed: FeedAccount,
}

/// The accounts of a write.
#[derive(Clone, Debug)]
pub struct SaveBtcPrice {
    pub price_data: SnapshotAccount,
    pub feed: FeedAccount,
    pub payer: PayerAccount,
}

/// What a read reports of the feed.
#[derive(Clone, Copy, Debug, PartialEq, Eq)]
pub struct PriceReport {
    /// The current price, in units of 10^-18.
    pub value: i128,
    /// The address of the feed account.
    pub feed_address: [u8; 32],
    pub result_slot: u64,
    pub min_responses: u32,
    pub max_variance: u64,
}

/// Whether a write found the snapshot absent and created it, or updated it.
#[derive(Clone, Copy, Debug, PartialEq, Eq, Structural)]
pub enum SnapshotPrior {
    Absent,
    Present,
}

pub open spec fn report_of(f: FeedReading, key: [u8; 32]) -> PriceReport {
    PriceReport {
        value: f.value,
        feed_address: key,
        result_slot: f.result_slot,
        min_responses: f.min_responses,
        max_variance: f.max_variance,
    }
}

/// What a read of the feed account `(key, data)` reports.
pub open spec fn read_spec(data: Seq<u8>, key: [u8; 32]) -> Result<PriceReport, RelayError> {
    match decode_spec(data) {
        Ok(f) => Ok(report_of(f, key)),
        Err(e) => Err(e),
    }
}

/// The snapshot and payer after writing `rec` into the snapshot, and the
/// result: an existing record is overwritten in place; an absent one is
/// created, charging the payer `rent`, unless the payer holds less.
pub open spec fn upsert_spec(
    snapshot: SnapshotAccount,
    payer: PayerAccount,
    rec: PriceData,
    rent: u64,
) -> (SnapshotAccount, PayerAccount, Result<SnapshotPrior, RelayError>) {
    let written = SnapshotAccount { key: snapshot.key, record: Some(rec) };
    if snapshot.record is Some {
        (written, payer, Ok(SnapshotPrior::Present))
    } else if payer.lamports < rent {
        (snapshot, payer, Err(RelayError::InsufficientFunds))
    } else {
        (
            written,
            PayerAccount { key: payer.key, lamports: (payer.lamports - rent) as u64 },
            Ok(SnapshotPrior::Absent),
        )
    }
}

/// The accounts after a write at time `now` with creation cost `rent`, and
/// its result. A failed write leaves every account as it was; a successful
/// one overwrites the snapshot with the feed's value and `now`, and charges
/// the payer `rent` only where it creates the snapshot.
pub open spec fn save_spec(ctx: SaveBtcPrice, now: i64, rent: u64) -> (
    SaveBtcPrice,
    Result<SnapshotPrior, RelayError>,
) {
    match decode_spec(ctx.feed.data@) {
        Err(e) => (ctx, Err(e)),
        Ok(f) => {
            if !is_snapshot_address(ctx.price_data.key@) {
                (ctx, Err(RelayError::AddressMismatch))
            } else {
                let rec = PriceData { price: f.value, last_update: now };
                let (snapshot, payer, r) = upsert_spec(ctx.price_data, ctx.payer, rec, rent);
                (SaveBtcPrice { price_data: snapshot, feed: ctx.feed, payer }, r)
            }
        },
    }
}

/// Two canonical bumps are the same bump.
proof fn lemma_canonical_bump_unique(b1: u8, b2: u8)
    requires
        is_canonical_bump(b1),
        is_canonical_bump(b2),
    ensures
        b1 == b2,
{
    if b1 < b2 {
        assert(snapshot_address_for(b2) is None);
    } else if b2 < b1 {
        assert(snapshot_address_for(b1) is None);
    }
}

/// Checks that `key` is the snapshot's derived address.
pub fn check_snapshot_address(key: &[u8; 32]) -> (r: bool)
    ensures
        r == is_snapshot_address(key@),
{
    match canonical_snapshot_address() {
        None => {
            assert forall|b: u8| !(is_canonical_bump(b) && snapshot_address_for(b) == Some(key@)) by {
                if is_canonical_bump(b) {
                    assert(snapshot_address_for(b) is None);
                }
            }
            false
        },
        Some((a, b)) => {
            let same = same_address(&a, key);
            if !same {
                assert forall|c: u8| !(is_canonical_bump(c) && snapshot_address_for(c) == Some(key@)) by {
                    if is_canonical_bump(c) {
                        lemma_canonical_bump_unique(b, c);
                    }
                }
            }
            same
        },
    }
}

/// Decodes the feed account and reports its fields; changes nothing.
pub fn read_btc_price(ctx: &ReadBtcPrice) -> (r: Result<PriceReport, RelayError>)
    ensures
        r == read_spec(ctx.feed.data@, ctx.feed.key),
{
    match decode_feed(ctx.feed.data.as_slice()) {
        Ok(f) => Ok(PriceReport {
            value: f.value,
            feed_address: ctx.feed.key,
            result_slot: f.result_slot,
            min_responses: f.min_responses,
            max_variance: f.max_variance,
        }),
        Err(e) => Err(e),
    }
}

/// Decodes the feed account and creates or updates the snapshot with its
/// value and the time `now`; creation charges the payer `rent`.
pub fn save_btc_price(ctx: &mut SaveBtcPrice, now: i64, rent: u64) -> (r: Result<
    SnapshotPrior,
    RelayError,
>)
    ensures
        (*final(ctx), r) == save_spec(*old(ctx), now, rent),
{
    let f = match decode_feed(ctx.feed.data.as_slice()) {
        Ok(f) => f,
        Err(e) => return Err(e),
    };
    if !check_snapshot_address(&ctx.price_data.key) {
        return Err(RelayError::AddressMismatch);
    }
    let rec = PriceData { price: f.value, last_update: now };
    upsert_snapshot(&mut ctx.price_data, &mut ctx.payer, rec, rent)
}

/// Creates the snapshot holding `rec` if it is absent, charging the payer
/// `rent`, or overwrites it in place; returns which of the two it found.
pub fn upsert_snapshot(
    snapshot: &mut SnapshotAccount,
    payer: &mut PayerAccount,
    rec: PriceData,
    rent: u64,
) -> (r: Result<SnapshotPrior, RelayError>)
    ensures
        (*final(snapshot), *final(payer), r) == upsert_spec(*old(snapshot), *old(payer), rec, rent),
{
    if snapshot.record.is_some() {
        snapshot.record = Some(rec);
        Ok(SnapshotPrior::Present)
    } else if payer.lamports < rent {
        Err(RelayError::InsufficientFunds)
    } else {
        payer.lamports = payer.lamports - rent;
        snapshot.record = Some(rec);
        Ok(SnapshotPrior::Absent)
    }
}

} // verus!
