//! What a telemetry publish carries: the caller's options, the downstream
//! publish record, and the parsing of the versioned channel path a device
//! publishes to.

use vstd::prelude::*;
use vstd::utf8::{decode_utf8, valid_utf8};
use crate::text::bytes_to_string;

verus! {

/// Options common to every publish call: an overriding application or device,
/// and the schema the payload claims.
#[derive(Debug)]
pub struct PublishCommonOptions {
    pub application: Option<String>,
    pub device: Option<String>,
    pub data_schema: Option<String>,
}

impl Default for PublishCommonOptions {
    fn default() -> (r: PublishCommonOptions)
        ensures
            r.application is None,
            r.device is None,
            r.data_schema is None,
    {
        PublishCommonOptions { application: None, device: None, data_schema: None }
    }
}

/// Options of one telemetry publish: the common options, the device to
/// publish as, and the command wait window in seconds.
#[derive(Debug)]
pub struct PublishOptions {
    pub common: PublishCommonOptions,
    pub publish_as: Option<String>,
    pub ct: Option<u64>,
}

impl Default for PublishOptions {
    fn default() -> (r: PublishOptions)
        ensures
            r.common.application is None,
            r.common.device is None,
            r.common.data_schema is None,
            r.publish_as is None,
            r.ct is None,
    {
        PublishOptions { common: PublishCommonOptions::default(), publish_as: None, ct: None }
    }
}

/// The record handed to the downstream sink for one publish.
#[derive(Debug)]
pub struct Publish {
    pub channel: String,
    pub app_id: String,
    pub device_id: String,
    pub data_schema: Option<String>,
    pub topic: Option<String>,
    pub content_type: Option<String>,
}

/// Errors a protocol endpoint reports for an inbound request.
#[derive(Debug)]
pub enum EndpointError {
    InvalidRequest { details: String },
    AuthenticationError,
    ConfigurationError { details: String },
}

/// Build the downstream publish record for an authenticated request: data is
/// recorded under the publish-as device when the options name one, else under
/// the authenticated device itself.
pub fn prepare_publish(
    application_name: String,
    device_name: String,
    channel: String,
    suffix: Option<String>,
    content_type: Option<String>,
    opts: PublishOptions,
) -> (p: Publish)
    ensures
        p.channel == channel,
        p.app_id == application_name,
        (match opts.publish_as {
            Option::Some(a) => p.device_id == a,
            Option::None => p.device_id == device_name,
        }),
        p.data_schema == opts.common.data_schema,
        p.topic == suffix,
        p.content_type == content_type,
{
    let PublishOptions { common, publish_as, ct: _ } = opts;
    let device_id = match publish_as {
        Some(a) => a,
        None => device_name,
    };
    Publish {
        channel,
        app_id: application_name,
        device_id,
        data_schema: common.data_schema,
        topic: suffix,
        content_type,
    }
}

/// The path segments form a well-formed publish path: a version segment that
/// decodes to `v1`, a channel segment, and a tail of decodable segments.
pub open spec fn uri_ok(segs: Seq<Seq<u8>>) -> bool {
    &&& segs.len() >= 2
    &&& valid_utf8(segs[0])
    &&& decode_utf8(segs[0]) == "v1"@
    &&& valid_utf8(segs[1])
    &&& forall|i: int| 2 <= i < segs.len() ==> valid_utf8(#[trigger] segs[i])
}

/// The subject of a publish path: the segments after the channel, decoded and
/// joined with `/`.
pub open spec fn subject_of(segs: Seq<Seq<u8>>, upto: int) -> Seq<char>
    decreases upto,
{
    if upto <= 2 {
        Seq::empty()
    } else if upto == 3 {
        decode_utf8(segs[2])
    } else {
        subject_of(segs, upto - 1) + "/"@ + decode_utf8(segs[upto - 1])
    }
}

/// Parse the path segments of a publish request: the first segment must be
/// the version `v1`, the second names the channel, and any further segments
/// join into the subject. Every segment must be well-formed UTF-8.
pub fn uri_parser(segments: &Vec<Vec<u8>>) -> (r: Result<Vec<String>, EndpointError>)
    ensures
        ({
            let segs = segments@.map_values(|v: Vec<u8>| v@);
            &&& (r is Ok <==> uri_ok(segs))
            &&& r matches Ok(parts) ==> {
                &&& parts@.len() == (if segs.len() == 2 {
                    1int
                } else {
                    2int
                })
                &&& parts@[0]@ == decode_utf8(segs[1])
                &&& segs.len() > 2 ==> parts@[1]@ == subject_of(segs, segs.len() as int)
            }
        }),
{
    let ghost segs = segments@.map_values(|v: Vec<u8>| v@);
    if segments.len() < 2 {
        return Result::Err(EndpointError::InvalidRequest {
            details: String::from_str("incorrect version number"),
        });
    }
    let version = match bytes_to_string(&segments[0]) {
        Some(s) => s,
        None => {
            return Result::Err(EndpointError::InvalidRequest {
                details: String::from_str("incorrect version number"),
            });
        },
    };
    let v1 = String::from_str("v1");
    if version != v1 {
        return Result::Err(EndpointError::InvalidRequest {
            details: String::from_str("incorrect version number"),
        });
    }
    let channel = match bytes_to_string(&segments[1]) {
        Some(s) => s,
        None => {
            return Result::Err(EndpointError::InvalidRequest {
                details: String::from_str("error parsing channel"),
            });
        },
    };
    let n = segments.len();
    let mut subject = String::new();
    let mut i: usize = 2;
    while i < n
        invariant
            n == segments@.len(),
            segs == segments@.map_values(|v: Vec<u8>| v@),
            2 <= i <= n,
            subject@ == subject_of(segs, i as int),
            forall|j: int| 2 <= j < i ==> valid_utf8(#[trigger] segs[j]),
        decreases n - i,
    {
        match bytes_to_string(&segments[i]) {
            None => {
                proof {
                    assert(segs[i as int] == segments@[i as int]@);
                    assert(!valid_utf8(segs[i as int]));
                }
                return Result::Err(EndpointError::InvalidRequest {
                    details: String::from_str("error parsing channel"),
                });
            },
            Some(s) => {
                if i > 2 {
                    subject.append("/");
                }
                subject.append(s.as_str());
            },
        }
        i += 1;
    }
    let mut parts: Vec<String> = Vec::new();
    parts.push(channel);
    if n > 2 {
        parts.push(subject);
    }
    proof {
        assert(segs[0] == segments@[0]@);
        assert(segs[1] == segments@[1]@);
        assert(uri_ok(segs));
    }
    Result::Ok(parts)
}

} // verus!
