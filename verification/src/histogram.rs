//! A labeled histogram handle. The underlying instrument is a prometheus
//! histogram vector, held opaquely; its name and label dimensions are tracked
//! so that observations can be proved not to abort.
use vstd::prelude::*;

use crate::names::{label_views, labeled_instrument_spec_valid};
use crate::prom::{names_of, registry_wf};

verus! {

/// The histogram under one label value of a histogram vector, held opaquely.
#[verifier::external_body]
struct HistogramChild {
    child: prometheus::Histogram,
}

/// A running wall-clock timer attached to one histogram, held opaquely. The
/// timer sits in a `ManuallyDrop` because the underlying timer records an
/// observation when dropped unstopped: only `record_timer` takes it out, so
/// an unwind through the wrapped operation records nothing.
#[verifier::external_body]
struct ObservationTimer {
    timer: std::mem::ManuallyDrop<prometheus::HistogramTimer>,
}

/// A cloneable handle on a registered histogram, partitioned by its label
/// dimensions, with the crate's default bucket boundaries.
#[verifier::external_body]
pub struct Histogram {
    hist: prometheus::HistogramVec,
}

/// The name the histogram was built with.
pub uninterp spec fn hist_name(h: Histogram) -> Seq<char>;

/// The label dimension names the histogram was built with, in order.
pub uninterp spec fn hist_labels(h: Histogram) -> Seq<Seq<char>>;

impl Histogram {
    /// The name the histogram was built with.
    pub open spec fn name(&self) -> Seq<char> {
        hist_name(*self)
    }

    /// The label dimension names the histogram was built with, in order.
    pub open spec fn label_names(&self) -> Seq<Seq<char>> {
        hist_labels(*self)
    }

    /// A histogram partitioned by exactly one label dimension, which is not
    /// the bucket label `le`: the shape the observation helpers expect.
    pub open spec fn single_labeled(&self) -> bool {
        self.label_names().len() == 1 && self.label_names()[0] != "le"@
    }

    /// Records `value` as one observation under the given label value.
    pub fn observe_size(&self, label: &str, value: usize)
        requires
            self.single_labeled(),
    {
        let child = histogram_child(self, label);
        observe_usize(&child, value);
    }

    /// Runs `func`, records its wall-clock duration under the given label
    /// value, and hands its result back unchanged. Only success-path timing
    /// is recorded: if `func` panics, the unwind records nothing and the
    /// panic propagates untouched.
    pub fn observe_duration<F, T>(&self, label: &str, func: F) -> (result: T) where
        F: FnOnce() -> T,

        requires
            self.single_labeled(),
            call_requires(func, ()),
        ensures
            call_ensures(func, (), result),
    {
        let child = histogram_child(self, label);
        let timer = start_child_timer(&child);
        let result = func();
        record_timer(timer);
        result
    }
}

impl Clone for Histogram {
    /// Relies on prometheus::core::MetricVec::clone: the clone shares the
    /// same underlying instrument, name and label dimensions.
    #[verifier::external_body]
    fn clone(&self) -> (r: Self)
        ensures
            r == *self,
    {
        Histogram { hist: self.hist.clone() }
    }
}

/// Relies on prometheus::HistogramVec::new with the default buckets: it
/// validates the metric name, help text and label names, and builds the
/// vector with no constant labels.
#[verifier::external_body]
pub(crate) fn new_histogram_vec(name: &str, help: &str, labels: &[&str]) -> (r: Result<
    Histogram,
    prometheus::Error,
>)
    ensures
        r is Ok <==> labeled_instrument_spec_valid(name@, help@, label_views(labels@)),
        r matches Ok(h) ==> hist_name(h) == name@ && hist_labels(h) == label_views(labels@),
{
    let opts = prometheus::HistogramOpts::new(name, help);
    let hist = prometheus::HistogramVec::new(opts, labels)?;
    Ok(Histogram { hist })
}

/// Relies on prometheus::Registry::register: every `Histogram` is built by
/// `new_histogram_vec`, without constant labels, so its descriptor is
/// identified by its name alone; registration succeeds exactly when the name
/// is free, and on success adds it.
#[verifier::external_body]
pub(crate) fn register_histogram(
    reg: &mut prometheus::Registry,
    histogram: &Histogram,
) -> (r: Result<(), prometheus::Error>)
    requires
        registry_wf(*old(reg)),
    ensures
        registry_wf(*final(reg)),
        r is Ok <==> !names_of(*old(reg)).contains(hist_name(*histogram)),
        r is Ok ==> names_of(*final(reg)) == names_of(*old(reg)).insert(hist_name(*histogram)),
        r is Err ==> names_of(*final(reg)) == names_of(*old(reg)),
{
    reg.register(Box::new(histogram.hist.clone()))
}

/// Relies on prometheus::core::MetricVec::with_label_values: handed exactly
/// as many label values as the vector has dimensions, none of which is the
/// reserved bucket label `le`, it returns the histogram under that label
/// value, creating it on first use.
#[verifier::external_body]
fn histogram_child(h: &Histogram, label: &str) -> HistogramChild
    requires
        h.single_labeled(),
{
    HistogramChild { child: h.hist.with_label_values(&[label]) }
}

/// Relies on prometheus::Histogram::observe: records one observation of the
/// given size.
#[verifier::external_body]
fn observe_usize(child: &HistogramChild, value: usize) {
    child.child.observe(value as _);
}

/// Relies on prometheus::Histogram::start_timer: starts a wall-clock timer
/// attached to the histogram.
#[verifier::external_body]
fn start_child_timer(child: &HistogramChild) -> ObservationTimer {
    ObservationTimer { timer: std::mem::ManuallyDrop::new(child.child.start_timer()) }
}

/// Relies on prometheus::HistogramTimer::observe_duration: records the
/// non-negative wall-clock seconds since the timer was started.
#[verifier::external_body]
fn record_timer(timer: ObservationTimer) {
    std::mem::ManuallyDrop::into_inner(timer.timer).observe_duration();
}

} // verus!
