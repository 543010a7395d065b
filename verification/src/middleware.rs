//! The decisions of the middleware around one exchange: whether it is
//! observed, what is recorded of it, and how the record is delivered.

use crate::clock::{elapsed_micros, seconds_text, utc_text, Timestamp};
use crate::extractors::Exchange;
use crate::masking::contains;
use crate::payload::{collected, fresh, mask_record, Phase, TreblleData, TreblleServerOsData};
use crate::treblle::Treblle;
use vstd::prelude::*;

verus! {

/// The middleware of one application: the configuration it was made with.
#[derive(Clone, Debug)]
pub struct TreblleMiddleware {
    pub project_id: String,
    pub api_key: String,
    pub debug: bool,
    pub masking_fields: Vec<String>,
    pub ignored_routes: Vec<String>,
}

/// How a record is delivered.
#[derive(Clone, Copy, Debug, PartialEq, Eq)]
pub enum Delivery {
    /// The send is started and left to itself: its outcome is never looked
    /// at.
    FireAndForget,
    /// The send is awaited and its outcome is reported; a send that fails is
    /// fatal.
    Debug,
}

/// The pattern under which a request is looked up among the ignored routes:
/// the pattern that it matched, and the empty text where it matched none.
pub open spec fn route_of(match_pattern: Option<&str>) -> Seq<char> {
    match match_pattern {
        Some(pattern) => pattern@,
        None => Seq::empty(),
    }
}

impl Treblle {
    /// The middleware with this configuration.
    pub fn new_transform(&self) -> (middleware: TreblleMiddleware)
        ensures
            middleware.project_id@ == self.project_id@,
            middleware.api_key@ == self.api_key@,
            middleware.debug == self.debug,
            middleware.masking_fields.deep_view() == self.masking_fields.deep_view(),
            middleware.ignored_routes.deep_view() == self.ignored_routes.deep_view(),
    {
        TreblleMiddleware {
            project_id: self.project_id.clone(),
            api_key: self.api_key.clone(),
            debug: self.debug,
            masking_fields: copy_of(&self.masking_fields),
            ignored_routes: copy_of(&self.ignored_routes),
        }
    }
}

/// A copy of a list of texts.
pub fn copy_of(texts: &Vec<String>) -> (copy: Vec<String>)
    ensures
        copy.deep_view() == texts.deep_view(),
{
    let mut copy: Vec<String> = Vec::new();
    let mut i: usize = 0;
    while i < texts.len()
        invariant
            i <= texts@.len(),
            copy@.len() == i,
            forall|k: int| 0 <= k < i ==> copy@[k]@ == texts@[k]@,
        decreases texts@.len() - i,
    {
        copy.push(texts[i].clone());
        i += 1;
    }
    assert(copy.deep_view() =~= texts.deep_view());
    copy
}

impl TreblleMiddleware {
    /// Whether a request that matched `match_pattern` is left unobserved: its
    /// pattern is one of the ignored routes.
    pub fn skips(&self, match_pattern: Option<&str>) -> (skip: bool)
        ensures
            skip == self.ignored_routes.deep_view().contains(route_of(match_pattern)),
    {
        let routes = self.ignored_routes.as_slice();
        assert(routes.deep_view() =~= self.ignored_routes.deep_view());
        match match_pattern {
            Some(pattern) => contains(routes, pattern),
            None => {
                proof {
                    reveal_strlit("");
                    assert(""@ =~= Seq::<char>::empty());
                }
                contains(routes, "")
            },
        }
    }

    /// The mode in which this middleware delivers its records.
    pub fn delivery(&self) -> (delivery: Delivery)
        ensures
            delivery == if self.debug {
                Delivery::Debug
            } else {
                Delivery::FireAndForget
            },
    {
        if self.debug {
            Delivery::Debug
        } else {
            Delivery::FireAndForget
        }
    }

    /// What the middleware does when a request arrives that matched
    /// `match_pattern`, on the operating system `os`: nothing where the route
    /// is ignored, so that no record is made and none can be sent; else it
    /// makes the open record of the exchange.
    pub fn begin(&self, match_pattern: Option<&str>, os: TreblleServerOsData) -> (record: Option<
        TreblleData,
    >)
        ensures
            record is None <==> self.ignored_routes.deep_view().contains(route_of(match_pattern)),
            match record {
                Some(r) => fresh(r@, self.api_key@, self.project_id@, os),
                None => true,
            },
    {
        if self.skips(match_pattern) {
            None
        } else {
            Some(TreblleData::new(self.api_key.clone(), self.project_id.clone(), os))
        }
    }

    /// What the middleware does when the response is there: it merges the
    /// exchange `sr` into the record, masks the record under its policy, and
    /// says how the record is to be delivered. The exchange is given back as
    /// it was.
    pub fn complete(&self, record: TreblleData, sr: Exchange) -> (result: (
        Exchange,
        TreblleData,
        Delivery,
    ))
        requires
            record.phase == Phase::Open,
        ensures
            result.0 == sr,
            result.2 == if self.debug {
                Delivery::Debug
            } else {
                Delivery::FireAndForget
            },
            result.1@.request.timestamp is Some,
            result.1@.response.load_time is Some,
            result.1@ == mask_record(
                self.masking_fields.deep_view(),
                collected(
                    record@,
                    sr,
                    result.1@.request.timestamp,
                    result.1@.response.load_time->0,
                ),
            ),
            exists|secs: int| utc_text(secs) == Some(result.1@.request.timestamp->0),
            exists|end: Timestamp|
                result.1@.response.load_time->0 == seconds_text(elapsed_micros(record.start, end)),
    {
        let (sr, mut data) = record.collect_data(sr);
        data.mask_fields(copy_of(&self.masking_fields));
        (sr, data, self.delivery())
    }
}

} // verus!
