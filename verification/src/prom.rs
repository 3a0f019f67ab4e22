//! The registry primitives of the prometheus crate that this library builds
//! on, declared for the verifier together with the contracts it believes of
//! them. Each contract states only what the crate's own source shows of the
//! call; everything proved elsewhere in this library rests on these items.
use vstd::prelude::*;

use crate::names::process_metric_names;

verus! {

#[verifier::external_type_specification]
#[verifier::external_body]
pub struct ExRegistry(prometheus::Registry);

#[verifier::external_type_specification]
#[verifier::external_body]
pub struct ExProcessCollector(prometheus::process_collector::ProcessCollector);

#[verifier::external_type_specification]
#[verifier::external_body]
pub struct ExPromError(prometheus::Error);

#[verifier::external_type_specification]
#[verifier::external_body]
pub struct ExMetricFamily(prometheus::proto::MetricFamily);

/// The fully-qualified names of the instruments a registry holds. A name
/// enters this set when a collector for it is registered, and the register
/// wrappers below say how each call changes it.
pub uninterp spec fn names_of(reg: prometheus::Registry) -> Set<Seq<char>>;

/// A registry in the state this library's constructors keep it in: every
/// collector was registered without constant labels, so a descriptor is
/// identified by its metric name alone; the registry's name table holds
/// exactly the registered names, with no residue of failed registrations;
/// and every collector emits only metric families that the text encoder
/// accepts.
pub uninterp spec fn registry_wf(reg: prometheus::Registry) -> bool;

/// Metric families that the text encoder accepts: each carries a name and
/// at least one metric sample.
pub uninterp spec fn encodable_families(families: Seq<prometheus::proto::MetricFamily>) -> bool;

/// The text exposition format of a list of metric families: the bytes the
/// text encoder writes, a function of the families alone.
pub uninterp spec fn text_encoding_of(families: Seq<prometheus::proto::MetricFamily>) -> Seq<u8>;

/// Relies on prometheus::Registry::new: a freshly created registry holds no
/// collectors.
#[verifier::external_body]
pub(crate) fn registry_new() -> (r: prometheus::Registry)
    ensures
        names_of(r) == Set::<Seq<char>>::empty(),
        registry_wf(r),
{
    prometheus::Registry::new()
}

/// Relies on prometheus::Registry::clone: the clone shares the underlying
/// collector table, so it holds the same instrument names and gathering from
/// it sees the same instruments.
#[verifier::external_body]
pub(crate) fn clone_registry(reg: &prometheus::Registry) -> (r: prometheus::Registry)
    ensures
        names_of(r) == names_of(*reg),
        registry_wf(*reg) ==> registry_wf(r),
{
    reg.clone()
}

/// Relies on prometheus::process_collector::ProcessCollector::for_self: a
/// collector of the running process's resource metrics.
#[verifier::external_body]
pub(crate) fn process_collector_for_self() -> prometheus::process_collector::ProcessCollector {
    prometheus::process_collector::ProcessCollector::for_self()
}

/// Relies on prometheus::Registry::register: every process collector carries
/// one descriptor per process metric name, none with constant labels, so the
/// call succeeds exactly when none of those names is taken yet, and on
/// success adds exactly those names. A failed registration of a collector
/// with several descriptors can leave residue in the registry's name table,
/// so well-formedness is only promised on success.
#[verifier::external_body]
pub(crate) fn register_process_collector(
    reg: &mut prometheus::Registry,
    collector: prometheus::process_collector::ProcessCollector,
) -> (r: Result<(), prometheus::Error>)
    requires
        registry_wf(*old(reg)),
    ensures
        r is Ok <==> names_of(*old(reg)).disjoint(process_metric_names()),
        r is Ok ==> registry_wf(*final(reg)) && names_of(*final(reg)) == names_of(
            *old(reg),
        ).union(process_metric_names()),
        r is Err ==> names_of(*final(reg)) == names_of(*old(reg)),
{
    reg.register(Box::new(collector))
}

/// Relies on prometheus::Registry::gather: it snapshots every registered
/// collector and drops metric families that hold no samples, so what it
/// returns from a well-formed registry is acceptable to the text encoder.
#[verifier::external_body]
pub(crate) fn gather_families(
    reg: &prometheus::Registry,
) -> (r: Vec<prometheus::proto::MetricFamily>)
    ensures
        registry_wf(*reg) ==> encodable_families(r@),
{
    reg.gather()
}

/// Relies on prometheus::TextEncoder::encode: it writes the text exposition
/// format of exactly the families it is handed, and writing to an in-memory
/// buffer cannot fail, so encoding fails only on a family the encoder
/// rejects.
#[verifier::external_body]
pub(crate) fn encode_text(
    families: &Vec<prometheus::proto::MetricFamily>,
) -> (r: Result<Vec<u8>, prometheus::Error>)
    ensures
        encodable_families(families@) ==> r is Ok,
        r matches Ok(b) ==> b@ == text_encoding_of(families@),
{
    let mut buffer: Vec<u8> = Vec::new();
    prometheus::Encoder::encode(&prometheus::TextEncoder::new(), families, &mut buffer)?;
    Ok(buffer)
}

} // verus!
