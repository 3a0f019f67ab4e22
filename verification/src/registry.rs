//! The metrics registry: a process-wide table of named instruments. Its one
//! invariant is that instrument names are unique; every factory states
//! exactly when registration succeeds and how the set of registered names
//! changes.
use vstd::prelude::*;

use crate::gauge::{new_gauge, register_gauge, Gauge};
use crate::gauge_vec::{new_gauge_vec, register_gauge_vec, GaugeVec};
use crate::histogram::{new_histogram_vec, register_histogram, Histogram};
use crate::names::{
    instrument_spec_valid, label_views, labeled_instrument_spec_valid, process_metric_names,
};
use crate::prom::{
    clone_registry, encodable_families, encode_text, gather_families, names_of,
    process_collector_for_self, register_process_collector, registry_new, registry_wf,
    text_encoding_of,
};

verus! {

/// Why building an instrument was refused.
#[derive(Clone, Copy, Debug, PartialEq, Eq, Structural)]
pub enum MetricsError {
    /// The metric name, help text or a label name is not well formed.
    InvalidInstrument,
    /// The registry already holds an instrument under that name.
    DuplicateName,
}

/// A process-wide registry of named instruments. It is created holding the
/// process-resource collector, hands out instrument handles through its
/// factories, and serves scrape bodies through [`RegistryHandler`].
pub struct Metrics {
    reg: prometheus::Registry,
}

/// A gathering handle on the same underlying registry, for the scrape
/// endpoint to snapshot and encode all registered instruments.
pub struct RegistryHandler {
    reg: prometheus::Registry,
}

impl Metrics {
    /// The names of the instruments the registry holds.
    pub closed spec fn names(&self) -> Set<Seq<char>> {
        names_of(self.reg)
    }

    /// The registry is in the state this library's constructors keep it in.
    pub closed spec fn wf(&self) -> bool {
        registry_wf(self.reg)
    }

    /// Creates a registry that already holds the process-resource collector,
    /// and nothing else.
    pub fn new() -> (m: Metrics)
        ensures
            m.wf(),
            m.names() == process_metric_names(),
    {
        let mut reg = registry_new();
        let collector = process_collector_for_self();
        proof {
            assert(names_of(reg).disjoint(process_metric_names()));
        }
        match register_process_collector(&mut reg, collector) {
            Ok(()) => {
                proof {
                    assert(names_of(reg) =~= process_metric_names());
                }
                Metrics { reg }
            },
            Err(_) => unreached(),
        }
    }

    /// A gathering handle on this registry for the scrape endpoint: it
    /// shares the same underlying table of instruments.
    pub fn handler(&self) -> (h: RegistryHandler)
        requires
            self.wf(),
        ensures
            h.wf(),
            h.names() == self.names(),
    {
        RegistryHandler { reg: clone_registry(&self.reg) }
    }

    /// Builds a histogram with the default buckets, partitioned by the given
    /// label names, and registers it under `name`. Succeeds exactly when the
    /// instrument is well formed and the name is not yet registered.
    pub fn try_histogram_vec(&mut self, name: &str, help: &str, labels: &[&str]) -> (r: Result<
        Histogram,
        MetricsError,
    >)
        requires
            old(self).wf(),
        ensures
            final(self).wf(),
            r is Ok <==> labeled_instrument_spec_valid(name@, help@, label_views(labels@))
                && !old(self).names().contains(name@),
            r matches Ok(h) ==> final(self).names() == old(self).names().insert(name@)
                && h.name() == name@ && h.label_names() == label_views(labels@),
            r is Err ==> final(self).names() == old(self).names(),
            r matches Err(e) ==> (e is InvalidInstrument <==> !labeled_instrument_spec_valid(
                name@,
                help@,
                label_views(labels@),
            )),
    {
        let histogram = match new_histogram_vec(name, help, labels) {
            Ok(h) => h,
            Err(_) => { return Err(MetricsError::InvalidInstrument) },
        };
        match register_histogram(&mut self.reg, &histogram) {
            Ok(()) => Ok(histogram),
            Err(_) => Err(MetricsError::DuplicateName),
        }
    }

    /// As [`Self::try_histogram_vec`], for callers that know the instrument
    /// is well formed and its name free; the duplicate and invalid cases are
    /// ruled out up front, as registration failure is a configuration error.
    pub fn histogram_vec(&mut self, name: &str, help: &str, labels: &[&str]) -> (h: Histogram)
        requires
            old(self).wf(),
            labeled_instrument_spec_valid(name@, help@, label_views(labels@)),
            !old(self).names().contains(name@),
        ensures
            final(self).wf(),
            final(self).names() == old(self).names().insert(name@),
            h.name() == name@,
            h.label_names() == label_views(labels@),
    {
        match self.try_histogram_vec(name, help, labels) {
            Ok(h) => h,
            Err(_) => unreached(),
        }
    }

    /// Builds an unlabeled gauge and registers it under `name`. Succeeds
    /// exactly when the instrument is well formed and the name is not yet
    /// registered.
    pub fn try_gauge(&mut self, name: &str, help: &str) -> (r: Result<Gauge, MetricsError>)
        requires
            old(self).wf(),
        ensures
            final(self).wf(),
            r is Ok <==> instrument_spec_valid(name@, help@) && !old(self).names().contains(
                name@,
            ),
            r matches Ok(g) ==> final(self).names() == old(self).names().insert(name@)
                && g.name() == name@,
            r is Err ==> final(self).names() == old(self).names(),
            r matches Err(e) ==> (e is InvalidInstrument <==> !instrument_spec_valid(
                name@,
                help@,
            )),
    {
        let gauge = match new_gauge(name, help) {
            Ok(g) => g,
            Err(_) => { return Err(MetricsError::InvalidInstrument) },
        };
        match register_gauge(&mut self.reg, &gauge) {
            Ok(()) => Ok(gauge),
            Err(_) => Err(MetricsError::DuplicateName),
        }
    }

    /// As [`Self::try_gauge`], for callers that know the instrument is well
    /// formed and its name free.
    pub fn gauge(&mut self, name: &str, help: &str) -> (g: Gauge)
        requires
            old(self).wf(),
            instrument_spec_valid(name@, help@),
            !old(self).names().contains(name@),
        ensures
            final(self).wf(),
            final(self).names() == old(self).names().insert(name@),
            g.name() == name@,
    {
        match self.try_gauge(name, help) {
            Ok(g) => g,
            Err(_) => unreached(),
        }
    }

    /// Builds a gauge partitioned by exactly one label dimension and
    /// registers it under `name`. Succeeds exactly when the instrument is
    /// well formed and the name is not yet registered.
    pub fn try_gauge_vec(&mut self, name: &str, help: &str, label: &str) -> (r: Result<
        GaugeVec,
        MetricsError,
    >)
        requires
            old(self).wf(),
        ensures
            final(self).wf(),
            r is Ok <==> labeled_instrument_spec_valid(name@, help@, seq![label@])
                && !old(self).names().contains(name@),
            r matches Ok(v) ==> final(self).names() == old(self).names().insert(name@)
                && v.name() == name@ && v.label_name() == label@,
            r is Err ==> final(self).names() == old(self).names(),
            r matches Err(e) ==> (e is InvalidInstrument <==> !labeled_instrument_spec_valid(
                name@,
                help@,
                seq![label@],
            )),
    {
        let vec = match new_gauge_vec(name, help, label) {
            Ok(v) => v,
            Err(_) => { return Err(MetricsError::InvalidInstrument) },
        };
        match register_gauge_vec(&mut self.reg, &vec) {
            Ok(()) => Ok(vec),
            Err(_) => Err(MetricsError::DuplicateName),
        }
    }

    /// As [`Self::try_gauge_vec`], for callers that know the instrument is
    /// well formed and its name free.
    pub fn gauge_vec(&mut self, name: &str, help: &str, label: &str) -> (v: GaugeVec)
        requires
            old(self).wf(),
            labeled_instrument_spec_valid(name@, help@, seq![label@]),
            !old(self).names().contains(name@),
        ensures
            final(self).wf(),
            final(self).names() == old(self).names().insert(name@),
            v.name() == name@,
            v.label_name() == label@,
    {
        match self.try_gauge_vec(name, help, label) {
            Ok(v) => v,
            Err(_) => unreached(),
        }
    }
}

impl RegistryHandler {
    /// The names of the instruments the underlying registry held when this
    /// handle was taken.
    pub closed spec fn names(&self) -> Set<Seq<char>> {
        names_of(self.reg)
    }

    /// The registry is in the state this library's constructors keep it in.
    pub closed spec fn wf(&self) -> bool {
        registry_wf(self.reg)
    }

    /// Snapshots every registered instrument and encodes the snapshot in the
    /// text exposition format: the body of a scrape response. A well-formed
    /// registry yields only families the encoder accepts, so this cannot
    /// abort halfway: what comes back is the complete text encoding of some
    /// encodable snapshot, never a partial or empty stand-in.
    pub fn gather(&self) -> (r: Vec<u8>)
        requires
            self.wf(),
        ensures
            exists|families: Seq<prometheus::proto::MetricFamily>|
                encodable_families(families) && r@ == text_encoding_of(families),
    {
        let families = gather_families(&self.reg);
        match encode_text(&families) {
            Ok(buffer) => buffer,
            Err(_) => unreached(),
        }
    }
}

} // verus!
