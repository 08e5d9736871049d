//! Decoding of the oracle's pull-feed account.
//!
//! The account is owned by the oracle program; its bytes are an eight-byte
//! discriminator followed by the fixed `PullFeedAccountData` record. Parsing
//! is left to the oracle's own SDK; this module decides what a caller sees.
use std::cell::RefCell;

use switchboard_on_demand::on_demand::OnDemandError;
use switchboard_on_demand::on_demand::PullFeedAccountData;
use vstd::prelude::*;

use crate::error::RelayError;

verus! {

/// Length of a pull-feed account: the discriminator and the record behind it.
pub const FEED_ACCOUNT_LEN: usize = 3208;

/// The discriminator that opens every pull-feed account.
pub open spec fn feed_discriminator() -> Seq<u8> {
    seq![196u8, 27u8, 108u8, 196u8, 10u8, 215u8, 219u8, 40u8]
}

/// Whether `data` has the length and the header of a pull-feed account.
pub open spec fn feed_layout_ok(data: Seq<u8>) -> bool {
    data.len() >= FEED_ACCOUNT_LEN && data.subrange(0, 8) == feed_discriminator()
}

/// The fields read out of a well-formed pull-feed account, in the order
/// value, result slot, minimum responses, maximum variance.
pub uninterp spec fn feed_fields(data: Seq<u8>) -> (i128, u64, u32, u64);

#[verifier::external_type_specification]
#[verifier::external_body]
pub struct ExOnDemandError(OnDemandError);

/// Relies on `PullFeedAccountData::parse`: it refuses a buffer shorter than
/// the discriminator or with another discriminator, then one shorter than the
/// record, and otherwise views the record behind the discriminator. The bytes
/// are first copied into a buffer that keeps the record 16-byte aligned, as
/// `parse` requires of its input.
#[verifier::external_body]
fn parse_feed(data: &[u8]) -> (r: Result<(i128, u64, u32, u64), OnDemandError>)
    ensures
        r is Ok <==> feed_layout_ok(data@),
        r matches Ok(fields) ==> fields == feed_fields(data@),
{
    let mut words: Vec<u128> = vec![0u128; data.len()];
    words.push(0);
    let (_, tail) = bytemuck::cast_slice_mut::<u128, u8>(&mut words).split_at_mut(8);
    let (bytes, _) = tail.split_at_mut(data.len());
    bytes.copy_from_slice(data);
    let cell = RefCell::new(bytes);
    let feed = PullFeedAccountData::parse(cell.borrow())?;
    Ok((feed.result.value, feed.result.slot, feed.min_responses, feed.max_variance))
}

/// The oracle's published state, as this relay reads it.
#[derive(Clone, Copy, Debug, PartialEq, Eq, Structural)]
pub struct FeedReading {
    /// The current price, in units of 10^-18.
    pub value: i128,
    /// The slot of the last update.
    pub result_slot: u64,
    /// The quorum threshold of the feed.
    pub min_responses: u32,
    /// The dispersion tolerance of the feed.
    pub max_variance: u64,
}

pub open spec fn reading_of(fields: (i128, u64, u32, u64)) -> FeedReading {
    FeedReading {
        value: fields.0,
        result_slot: fields.1,
        min_responses: fields.2,
        max_variance: fields.3,
    }
}

/// What decoding `data` yields: `Unavailable` for an empty account,
/// `MalformedRecord` for a wrong length or header, else the feed's fields.
pub open spec fn decode_spec(data: Seq<u8>) -> Result<FeedReading, RelayError> {
    if data.len() == 0 {
        Err(RelayError::Unavailable)
    } else if !feed_layout_ok(data) {
        Err(RelayError::MalformedRecord)
    } else {
        Ok(reading_of(feed_fields(data)))
    }
}

/// Validates and decodes the bytes of a pull-feed account.
pub fn decode_feed(data: &[u8]) -> (r: Result<FeedReading, RelayError>)
    ensures
        r == decode_spec(data@),
{
    if data.len() == 0 {
        return Err(RelayError::Unavailable);
    }
    match parse_feed(data) {
        Ok(fields) => Ok(FeedReading {
            value: fields.0,
            result_slot: fields.1,
            min_responses: fields.2,
            max_variance: fields.3,
        }),
        Err(_) => Err(RelayError::MalformedRecord),
    }
}

} // verus!
