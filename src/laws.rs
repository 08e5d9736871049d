//! Properties of the relay that hold over every input and over sequences of
//! writes.
use vstd::prelude::*;

use crate::address::is_snapshot_address;
use crate::error::RelayError;
use crate::feed::{
    decode_spec, feed_discriminator, feed_fields, feed_layout_ok, reading_of, FEED_ACCOUNT_LEN,
};
use crate::relay::{
    read_spec, report_of, save_spec, FeedAccount, PriceData, PriceReport, SaveBtcPrice, SnapshotPrior,
};

verus! {

/// A read of a well-formed feed account reports exactly the fields the
/// account encodes, together with the account's address.
pub proof fn law_read_reports_encoded_fields(data: Seq<u8>, key: [u8; 32])
    requires
        feed_layout_ok(data),
    ensures
        read_spec(data, key) == Ok::<_, RelayError>(report_of(reading_of(feed_fields(data)), key)),
{
}

/// A feed account that is too short or carries another header makes both a
/// read and a write fail, with `Unavailable` when it is empty and with
/// `MalformedRecord` otherwise, and the write changes no account.
pub proof fn law_malformed_feed_rejected(ctx: SaveBtcPrice, key: [u8; 32], now: i64, rent: u64)
    requires
        ctx.feed.data@.len() < FEED_ACCOUNT_LEN || ctx.feed.data@.subrange(0, 8)
            != feed_discriminator(),
    ensures
        ({
            let e = if ctx.feed.data@.len() == 0 {
                RelayError::Unavailable
            } else {
                RelayError::MalformedRecord
            };
            &&& read_spec(ctx.feed.data@, key) == Err::<PriceReport, _>(e)
            &&& save_spec(ctx, now, rent) == (ctx, Err::<SnapshotPrior, _>(e))
        }),
{
}

/// Writing the same feed twice leaves the snapshot holding the feed's value;
/// only the first write creates the record, and only it charges the payer.
pub proof fn law_repeated_write(ctx: SaveBtcPrice, now1: i64, now2: i64, rent: u64)
    requires
        save_spec(ctx, now1, rent).1 is Ok,
    ensures
        ({
            let first = save_spec(ctx, now1, rent).0;
            let second = save_spec(first, now2, rent);
            let value = decode_spec(ctx.feed.data@)->Ok_0.value;
            &&& first.price_data.record == Some(PriceData { price: value, last_update: now1 })
            &&& second.1 == Ok::<_, RelayError>(SnapshotPrior::Present)
            &&& second.0.price_data.record == Some(PriceData { price: value, last_update: now2 })
            &&& second.0.price_data.key == ctx.price_data.key
            &&& second.0.payer == first.payer
        }),
{
}

/// A write of a new feed value after a successful write replaces the price
/// and the timestamp with those of the second write: nothing of the first
/// remains.
pub proof fn law_last_write_wins(
    ctx: SaveBtcPrice,
    next_feed: FeedAccount,
    now1: i64,
    now2: i64,
    rent: u64,
)
    requires
        save_spec(ctx, now1, rent).1 is Ok,
        decode_spec(next_feed.data@) is Ok,
    ensures
        ({
            let first = save_spec(ctx, now1, rent).0;
            let again = SaveBtcPrice { price_data: first.price_data, feed: next_feed, payer: first.payer };
            let second = save_spec(again, now2, rent);
            &&& second.1 == Ok::<_, RelayError>(SnapshotPrior::Present)
            &&& second.0.price_data.record == Some(
                PriceData { price: decode_spec(next_feed.data@)->Ok_0.value, last_update: now2 },
            )
            &&& second.0.price_data.key == ctx.price_data.key
        }),
{
}

/// A write with a well-formed feed into an account at any address but the
/// derived one fails with `AddressMismatch` and changes nothing.
pub proof fn law_address_enforced(ctx: SaveBtcPrice, now: i64, rent: u64)
    requires
        decode_spec(ctx.feed.data@) is Ok,
        !is_snapshot_address(ctx.price_data.key@),
    ensures
        save_spec(ctx, now, rent) == (ctx, Err::<SnapshotPrior, _>(RelayError::AddressMismatch)),
{
}

} // verus!
