//! A gauge partitioned by one label dimension. The underlying instrument is
//! a prometheus gauge vector, held opaquely; every value of this type is
//! built with exactly one label dimension.
use vstd::prelude::*;

use crate::names::labeled_instrument_spec_valid;
use crate::prom::{names_of, registry_wf};

verus! {

/// A cloneable handle on a registered gauge partitioned by exactly one label
/// dimension.
#[verifier::external_body]
pub struct GaugeVec {
    vec: prometheus::GaugeVec,
}

/// The name the gauge vector was built with.
pub uninterp spec fn gauge_vec_name(v: GaugeVec) -> Seq<char>;

/// The single label dimension name the gauge vector was built with.
pub uninterp spec fn gauge_vec_label(v: GaugeVec) -> Seq<char>;

impl GaugeVec {
    /// The name the gauge vector was built with.
    pub open spec fn name(&self) -> Seq<char> {
        gauge_vec_name(*self)
    }

    /// The single label dimension name the gauge vector was built with.
    pub open spec fn label_name(&self) -> Seq<char> {
        gauge_vec_label(*self)
    }

    /// Relies on prometheus::core::MetricVec::with_label_values: every
    /// `GaugeVec` is built with exactly one label dimension, so handing one
    /// label value returns the gauge under it, creating it on first use. The
    /// child carries the vector's own metric name.
    #[verifier::external_body]
    pub fn with_label_value(&self, label: &str) -> (g: crate::gauge::Gauge)
        ensures
            crate::gauge::gauge_name(g) == gauge_vec_name(*self),
    {
        crate::gauge::Gauge { gauge: self.vec.with_label_values(&[label]) }
    }
}

impl Clone for GaugeVec {
    /// Relies on prometheus::core::MetricVec::clone: the clone shares the
    /// same underlying instrument, name and label dimension.
    #[verifier::external_body]
    fn clone(&self) -> (r: Self)
        ensures
            r == *self,
    {
        GaugeVec { vec: self.vec.clone() }
    }
}

/// Relies on prometheus::GaugeVec::new: it validates the metric name, help
/// text and label name, and builds the vector with no constant labels and
/// the one given label dimension.
#[verifier::external_body]
pub(crate) fn new_gauge_vec(name: &str, help: &str, label: &str) -> (r: Result<
    GaugeVec,
    prometheus::Error,
>)
    ensures
        r is Ok <==> labeled_instrument_spec_valid(name@, help@, seq![label@]),
        r matches Ok(v) ==> gauge_vec_name(v) == name@ && gauge_vec_label(v) == label@,
{
    let opts = prometheus::Opts::new(name, help);
    let vec = prometheus::GaugeVec::new(opts, &[label])?;
    Ok(GaugeVec { vec })
}

/// Relies on prometheus::Registry::register: every `GaugeVec` is built by
/// `new_gauge_vec`, without constant labels, so its descriptor is identified
/// by its name alone; registration succeeds exactly when the name is free,
/// and on success adds it.
#[verifier::external_body]
pub(crate) fn register_gauge_vec(
    reg: &mut prometheus::Registry,
    vec: &GaugeVec,
) -> (r: Result<(), prometheus::Error>)
    requires
        registry_wf(*old(reg)),
    ensures
        registry_wf(*final(reg)),
        r is Ok <==> !names_of(*old(reg)).contains(gauge_vec_name(*vec)),
        r is Ok ==> names_of(*final(reg)) == names_of(*old(reg)).insert(gauge_vec_name(*vec)),
        r is Err ==> names_of(*final(reg)) == names_of(*old(reg)),
{
    reg.register(Box::new(vec.vec.clone()))
}

} // verus!
