//! An unlabeled gauge: a named instrument holding one current numeric value.
//! The underlying instrument is a prometheus gauge, held opaquely.
use vstd::prelude::*;

use crate::names::instrument_spec_valid;
use crate::prom::{names_of, registry_wf};

verus! {

/// A cloneable handle on a gauge, either registered on its own or standing
/// under one label value of a [`crate::GaugeVec`].
#[verifier::external_body]
pub struct Gauge {
    pub(crate) gauge: prometheus::Gauge,
}

/// The name the gauge was built with.
pub uninterp spec fn gauge_name(g: Gauge) -> Seq<char>;

impl Gauge {
    /// The name the gauge was built with.
    pub open spec fn name(&self) -> Seq<char> {
        gauge_name(*self)
    }

    /// Relies on prometheus::Gauge::set: sets the gauge to the given value.
    #[verifier::external_body]
    pub fn set(&self, value: i64) {
        self.gauge.set(value as _);
    }
}

impl Clone for Gauge {
    /// Relies on prometheus::Gauge::clone: the clone shares the same
    /// underlying instrument and name.
    #[verifier::external_body]
    fn clone(&self) -> (r: Self)
        ensures
            r == *self,
    {
        Gauge { gauge: self.gauge.clone() }
    }
}

/// Relies on prometheus::Gauge::new: it validates the metric name and
/// rejects empty help text, and builds the gauge with no constant labels.
#[verifier::external_body]
pub(crate) fn new_gauge(name: &str, help: &str) -> (r: Result<Gauge, prometheus::Error>)
    ensures
        r is Ok <==> instrument_spec_valid(name@, help@),
        r matches Ok(g) ==> gauge_name(g) == name@,
{
    let gauge = prometheus::Gauge::new(name, help)?;
    Ok(Gauge { gauge })
}

/// Relies on prometheus::Registry::register: every `Gauge` is built without
/// constant labels, so its descriptor is identified by its name alone;
/// registration succeeds exactly when the name is free, and on success adds
/// it.
#[verifier::external_body]
pub(crate) fn register_gauge(
    reg: &mut prometheus::Registry,
    gauge: &Gauge,
) -> (r: Result<(), prometheus::Error>)
    requires
        registry_wf(*old(reg)),
    ensures
        registry_wf(*final(reg)),
        r is Ok <==> !names_of(*old(reg)).contains(gauge_name(*gauge)),
        r is Ok ==> names_of(*final(reg)) == names_of(*old(reg)).insert(gauge_name(*gauge)),
        r is Err ==> names_of(*final(reg)) == names_of(*old(reg)),
{
    reg.register(Box::new(gauge.gauge.clone()))
}

} // verus!
