//! The sink contract: building one point of the time series from a captured
//! packet's header, and the handle that a batch of points is written
//! through.

use vstd::prelude::*;
use influxdb2::models::data_point::{DataPoint, DataPointError};
use influxdb2::{BuildError, Client, RequestError};

verus! {

/// influxdb2's `DataPoint`: one point of a time series. It is carried
/// through as it is; nothing inside it is read here.
#[verifier::external_type_specification]
#[verifier::external_body]
pub struct ExDataPoint(DataPoint);

/// influxdb2's `DataPointError`: why a point could not be built. It is
/// carried through as it is.
#[verifier::external_type_specification]
#[verifier::external_body]
pub struct ExDataPointError(DataPointError);

/// influxdb2's `Client`: the handle on the store. It is carried through as
/// it is.
#[verifier::external_type_specification]
#[verifier::external_body]
pub struct ExClient(Client);

/// influxdb2's `RequestError`: why a request to the store failed. It is
/// carried through as it is.
#[verifier::external_type_specification]
#[verifier::external_body]
pub struct ExRequestError(RequestError);

/// influxdb2's `BuildError`: why the client could not be built. It is
/// carried through as it is.
#[verifier::external_type_specification]
#[verifier::external_body]
pub struct ExBuildError(BuildError);

/// std's `io::Error`. It is carried through as it is.
#[verifier::external_type_specification]
#[verifier::external_body]
pub struct ExIoError(std::io::Error);

/// influxdb2's `Client::clone`: a second handle on the same store. Nothing
/// is claimed of it.
pub assume_specification[ <Client as Clone>::clone ](c: &Client) -> (r: Client);

/// The point that influxdb2's builder makes of a measurement name, one tag,
/// one integer field and a timestamp in nanoseconds.
pub uninterp spec fn built_point(
    measurement: Seq<char>,
    tag: Seq<char>,
    tag_value: Seq<char>,
    field: Seq<char>,
    value: i64,
    timestamp: i64,
) -> DataPoint;

/// Errors of the sink.
#[derive(Debug)]
pub enum DbError {
    /// A write to the store was refused or failed.
    Api(RequestError),
    /// A point could not be built.
    BuildPoint(DataPointError),
    /// The client could not be built.
    ClientBuild(BuildError),
    /// A timestamp does not fit in 64 bits of nanoseconds.
    TimestampOverflow,
    /// A datagram could not be sent.
    Udp(std::io::Error),
}

/// Nanoseconds since the epoch for a time given in seconds and microseconds.
pub open spec fn nanos_of(ts_sec: i64, ts_usec: i64) -> int {
    ts_sec * 1_000_000_000 + ts_usec * 1_000
}

/// Whether `x` is a signed 64-bit number.
pub open spec fn fits_i64(x: int) -> bool {
    i64::MIN <= x <= i64::MAX
}

/// Whether the conversion to nanoseconds stays within 64 bits at each of its
/// steps: the seconds scaled, the microseconds scaled, and their sum.
pub open spec fn timestamp_fits(ts_sec: i64, ts_usec: i64) -> bool {
    &&& fits_i64(ts_sec * 1_000_000_000)
    &&& fits_i64(ts_usec * 1_000)
    &&& fits_i64(nanos_of(ts_sec, ts_usec))
}

/// The time in nanoseconds, if it fits; a time that does not fit is
/// reported, never cut short.
pub fn timestamp_nanos(ts_sec: i64, ts_usec: i64) -> (r: Result<i64, DbError>)
    ensures
        r is Ok <==> timestamp_fits(ts_sec, ts_usec),
        r is Ok ==> r->Ok_0 == nanos_of(ts_sec, ts_usec),
        r is Err ==> r->Err_0 is TimestampOverflow,
{
    let low: i128 = -0x8000_0000_0000_0000i128;
    let high: i128 = 0x7fff_ffff_ffff_ffffi128;
    let secs: i128 = (ts_sec as i128) * 1_000_000_000i128;
    let micros: i128 = (ts_usec as i128) * 1_000i128;
    if secs < low || secs > high || micros < low || micros > high {
        return Err(DbError::TimestampOverflow);
    }
    let sum: i128 = secs + micros;
    if sum < low || sum > high {
        return Err(DbError::TimestampOverflow);
    }
    Ok(sum as i64)
}

/// Calls influxdb2's `DataPoint::builder` with the measurement, then `tag`,
/// `field` with an integer value, `timestamp` and `build`. The builder
/// returns an error only when no field was set; here one always is, so the
/// result is a point, and it is a function of the six arguments alone.
#[verifier::external_body]
fn build_point(
    measurement: &str,
    tag: &str,
    tag_value: &str,
    field: &str,
    value: i64,
    timestamp: i64,
) -> (r: Result<DataPoint, DataPointError>)
    ensures
        r is Ok,
        r->Ok_0 == built_point(measurement@, tag@, tag_value@, field@, value, timestamp),
{
    DataPoint::builder(measurement).tag(tag, tag_value).field(field, value).timestamp(
        timestamp,
    ).build()
}

/// Turns the builder's answer into the sink's: a point stays a point, an
/// error becomes `BuildPoint` and keeps the builder's report.
pub fn finish_point(built: Result<DataPoint, DataPointError>) -> (r: Result<DataPoint, DbError>)
    ensures
        built is Ok ==> r == Ok::<DataPoint, DbError>(built->Ok_0),
        built is Err ==> r == Err::<DataPoint, DbError>(DbError::BuildPoint(built->Err_0)),
{
    match built {
        Ok(p) => Ok(p),
        Err(e) => Err(DbError::BuildPoint(e)),
    }
}

/// The point that stands for one packet of the given protocol and length,
/// captured at the given time.
pub open spec fn packet_point(protocol: Seq<char>, length: u32, ts_sec: i64, ts_usec: i64)
    -> DataPoint {
    built_point(
        "packet_stats"@,
        "protocol"@,
        protocol,
        "length"@,
        length as i64,
        nanos_of(ts_sec, ts_usec) as i64,
    )
}

/// A handle on the time-series store: a client and the bucket written to.
#[derive(Clone)]
pub struct InfluxWriter {
    client: Client,
    bucket: String,
}

impl InfluxWriter {
    /// The client that writes go through.
    pub closed spec fn spec_client(&self) -> Client {
        self.client
    }

    /// The name of the bucket written to.
    pub closed spec fn spec_bucket(&self) -> Seq<char> {
        self.bucket@
    }

    /// A writer over a client that was built for the store.
    pub fn from_parts(client: Client, bucket: String) -> (w: InfluxWriter)
        ensures
            w.spec_client() == client,
            w.spec_bucket() == bucket@,
    {
        InfluxWriter { client, bucket }
    }

    /// The client that writes go through.
    pub fn client(&self) -> (c: &Client)
        ensures
            *c == self.spec_client(),
    {
        &self.client
    }

    /// The name of the bucket written to.
    pub fn bucket(&self) -> (b: &String)
        ensures
            b@ == self.spec_bucket(),
    {
        &self.bucket
    }

    /// Builds the point for one packet: measurement `packet_stats`, the
    /// protocol as its one tag, the length as its one field, and the capture
    /// time in nanoseconds. Fails with `TimestampOverflow`, and only so,
    /// exactly when the time does not fit.
    pub fn make_point(&self, protocol: &str, length: u32, ts_sec: i64, ts_usec: i64) -> (r: Result<
        DataPoint,
        DbError,
    >)
        ensures
            r is Ok <==> timestamp_fits(ts_sec, ts_usec),
            r is Ok ==> r->Ok_0 == packet_point(protocol@, length, ts_sec, ts_usec),
            r is Err ==> r->Err_0 is TimestampOverflow,
    {
        match timestamp_nanos(ts_sec, ts_usec) {
            Ok(nanos) => finish_point(
                build_point("packet_stats", "protocol", protocol, "length", length as i64, nanos),
            ),
            Err(e) => Err(e),
        }
    }
}

} // verus!
