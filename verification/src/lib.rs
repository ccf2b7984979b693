//! A bidirectional timestamp codec between a protobuf-style wall-clock
//! timestamp (whole seconds since the Unix epoch plus a nanosecond fraction)
//! and a database's native timestamp value (a signed 64-bit count of
//! microseconds relative to the same epoch, already normalized by the
//! database's own binary codec).
//!
//! Decoding splits a microsecond count into a seconds/nanoseconds pair with
//! floored division, so the nanosecond fraction is non-negative even for
//! pre-epoch instants, and fails with [`RangeError`] outside the representable
//! window. Encoding recombines the pair, truncating sub-microsecond
//! precision. Round-trips through the window are exact, which
//! [`lemma_round_trip`] proves.

use vstd::arithmetic::div_mod::{
    lemma_div_by_multiple, lemma_div_is_ordered, lemma_fundamental_div_mod, lemma_mod_bound,
};
use vstd::prelude::*;

verus! {

/// Smallest native microsecond value the wire format can represent.
pub const MIN_NATIVE_MICROS: i64 = -62_135_596_800_000;

/// Largest native microsecond value the wire format can represent.
pub const MAX_NATIVE_MICROS: i64 = 253_402_300_799_999;

/// The database's native timestamp: microseconds relative to the Unix epoch.
#[derive(Clone, Copy, Debug, PartialEq, Eq, Structural)]
pub struct NativeTimestamp(pub i64);

/// Whether a native microsecond count lies in the representable window.
pub open spec fn in_native_window(us: int) -> bool {
    MIN_NATIVE_MICROS <= us && us <= MAX_NATIVE_MICROS
}

/// The seconds part of a microsecond count, under floored division.
pub open spec fn seconds_of_micros(us: int) -> int {
    us / 1_000_000
}

/// The nanoseconds part of a microsecond count: the (non-negative) remainder
/// of floored division, widened from microseconds to nanoseconds.
pub open spec fn nanos_of_micros(us: int) -> int {
    (us % 1_000_000) * 1000
}

/// Smallest `seconds` value of a valid wire timestamp (0001-01-01T00:00:00Z).
pub const MIN_WIRE_SECONDS: i64 = -62_135_596_800;

/// Largest `seconds` value of a valid wire timestamp (9999-12-31T23:59:59Z).
pub const MAX_WIRE_SECONDS: i64 = 253_402_300_799;

/// A protobuf-style wall-clock timestamp: whole seconds since the Unix epoch
/// (negative for pre-1970 instants) and a nanosecond fraction.
#[derive(Clone, Copy, Debug, PartialEq, Eq, Structural)]
pub struct WireTimestamp {
    /// Whole seconds since the Unix epoch.
    pub seconds: i64,
    /// Sub-second fraction in nanoseconds; valid values lie in
    /// `[0, 999_999_999]`, counting forward in time even when `seconds` is
    /// negative.
    pub nanos: i32,
}

/// A wire timestamp within the documented absolute range of the wire format,
/// with a well-formed nanosecond fraction. Encoding trusts its caller for
/// this; decoding always produces it.
pub open spec fn wire_in_range(w: WireTimestamp) -> bool {
    &&& MIN_WIRE_SECONDS <= w.seconds && w.seconds <= MAX_WIRE_SECONDS
    &&& 0 <= w.nanos && w.nanos <= 999_999_999
}

/// The native microsecond count of a seconds/nanoseconds pair; the
/// sub-microsecond part of `nanos` is discarded.
pub open spec fn micros_of_wire(seconds: int, nanos: int) -> int {
    seconds * 1_000_000 + nanos / 1000
}

/// A native value outside the representable window was decoded. This is the
/// codec's only failure; it is deterministic in the input, and no partial
/// result accompanies it.
#[derive(Clone, Copy, Debug, PartialEq, Eq, Structural)]
pub struct RangeError;

impl RangeError {
    /// The static description carried by every range failure.
    pub fn message(&self) -> (r: &'static str)
        ensures
            r@ == "Tried to deserialize a timestamp that is too large for protobuf"@,
    {
        "Tried to deserialize a timestamp that is too large for protobuf"
    }
}

/// Decodes a native microsecond timestamp into a wire timestamp.
///
/// Succeeds exactly on the representable window; the result is the floored
/// base-1_000_000 split of the microsecond count, so its nanosecond fraction
/// is non-negative even for pre-epoch instants.
pub fn decode(native: NativeTimestamp) -> (r: Result<WireTimestamp, RangeError>)
    ensures
        r is Ok <==> in_native_window(native.0 as int),
        r is Ok ==> r->Ok_0.seconds == seconds_of_micros(native.0 as int),
        r is Ok ==> r->Ok_0.nanos == nanos_of_micros(native.0 as int),
        r is Ok ==> wire_in_range(r->Ok_0),
{
    let us: i64 = native.0;
    if MIN_NATIVE_MICROS <= us && us <= MAX_NATIVE_MICROS {
        proof {
            lemma_div_is_ordered(MIN_NATIVE_MICROS as int, us as int, 1_000_000);
            lemma_div_is_ordered(us as int, MAX_NATIVE_MICROS as int, 1_000_000);
            lemma_mod_bound(us as int, 1_000_000);
        }
        let seconds: i64 = us.checked_div_euclid(1_000_000).unwrap();
        let rem: i64 = us.checked_rem_euclid(1_000_000).unwrap();
        let nanos: i32 = (rem * 1000) as i32;
        Ok(WireTimestamp { seconds, nanos })
    } else {
        Err(RangeError)
    }
}

/// Encodes a wire timestamp into the native microsecond value.
///
/// The wire format's documented absolute range always fits the native 64-bit
/// microsecond range, so no range check is performed at run time; the caller
/// is trusted for `wire_in_range`, which also keeps the arithmetic from
/// overflowing. Sub-microsecond nanoseconds are truncated, not rounded.
pub fn encode(wire: WireTimestamp) -> (r: NativeTimestamp)
    requires
        wire_in_range(wire),
    ensures
        r.0 == micros_of_wire(wire.seconds as int, wire.nanos as int),
{
    proof {
        lemma_div_is_ordered(wire.nanos as int, 999_999_999, 1000);
    }
    let frac: u32 = (wire.nanos as u32) / 1000;
    NativeTimestamp(wire.seconds * 1_000_000 + frac as i64)
}

/// Whether a wire timestamp may be handed to [`encode`]: the run-time check
/// matching `wire_in_range`, for callers outside verified code.
pub fn is_wire_in_range(wire: &WireTimestamp) -> (r: bool)
    ensures
        r == wire_in_range(*wire),
{
    MIN_WIRE_SECONDS <= wire.seconds && wire.seconds <= MAX_WIRE_SECONDS && 0 <= wire.nanos
        && wire.nanos <= 999_999_999
}

/// Decodes for the timezone-tagged wire type.
///
/// The codec performs no timezone arithmetic: both logical types share one
/// native representation, and all instants are assumed normalized to a single
/// absolute reference. The contract is therefore identical to [`decode`]'s,
/// and the body delegates to it.
pub fn decode_tz(native: NativeTimestamp) -> (r: Result<WireTimestamp, RangeError>)
    ensures
        r is Ok <==> in_native_window(native.0 as int),
        r is Ok ==> r->Ok_0.seconds == seconds_of_micros(native.0 as int),
        r is Ok ==> r->Ok_0.nanos == nanos_of_micros(native.0 as int),
        r is Ok ==> wire_in_range(r->Ok_0),
{
    decode(native)
}

/// Encodes for the timezone-tagged wire type: a pure pass-through to
/// [`encode`], under the same contract, for the same reason as [`decode_tz`].
pub fn encode_tz(wire: WireTimestamp) -> (r: NativeTimestamp)
    requires
        wire_in_range(wire),
    ensures
        r.0 == micros_of_wire(wire.seconds as int, wire.nanos as int),
{
    encode(wire)
}

/// Round-trip law: for every microsecond count in the representable window,
/// splitting it into a wire timestamp ([`decode`]) and recombining the parts
/// ([`encode`]) reproduces the count exactly. The split is a lossless
/// base-1000 factoring: the nanosecond fraction it produces is a whole number
/// of microseconds, so encoding's truncation discards nothing.
pub proof fn lemma_round_trip(us: int)
    requires
        in_native_window(us),
    ensures
        micros_of_wire(seconds_of_micros(us), nanos_of_micros(us)) == us,
{
    lemma_fundamental_div_mod(us, 1_000_000);
    lemma_mod_bound(us, 1_000_000);
    lemma_div_by_multiple(us % 1_000_000, 1000);
}

} // verus!
