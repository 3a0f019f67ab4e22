//! The naming rules that the metrics library enforces when an instrument is
//! built: what counts as a metric name, what counts as a label name, and the
//! names that the process-resource collector contributes to a registry.
use vstd::prelude::*;

verus! {

/// A character that may open a metric name: a letter, `_` or `:`.
pub open spec fn metric_name_start_char(c: char) -> bool {
    ('a' <= c && c <= 'z') || ('A' <= c && c <= 'Z') || c == '_' || c == ':'
}

/// A character that may continue a metric name: an opener or a digit.
pub open spec fn metric_name_char(c: char) -> bool {
    metric_name_start_char(c) || ('0' <= c && c <= '9')
}

/// A character that may open a label name: a letter or `_`.
pub open spec fn label_name_start_char(c: char) -> bool {
    ('a' <= c && c <= 'z') || ('A' <= c && c <= 'Z') || c == '_'
}

/// A character that may continue a label name: an opener or a digit.
pub open spec fn label_name_char(c: char) -> bool {
    label_name_start_char(c) || ('0' <= c && c <= '9')
}

/// A well-formed metric name: non-empty, opened by a letter, `_` or `:`,
/// and continued by such characters or digits.
pub open spec fn valid_metric_name(name: Seq<char>) -> bool {
    &&& name.len() > 0
    &&& metric_name_start_char(name[0])
    &&& forall|i: int| 0 < i < name.len() ==> metric_name_char(#[trigger] name[i])
}

/// A well-formed label name: non-empty, opened by a letter or `_`,
/// and continued by such characters or digits.
pub open spec fn valid_label_name(name: Seq<char>) -> bool {
    &&& name.len() > 0
    &&& label_name_start_char(name[0])
    &&& forall|i: int| 0 < i < name.len() ==> label_name_char(#[trigger] name[i])
}

/// The views of a list of label names handed to an instrument factory.
pub open spec fn label_views(labels: Seq<&str>) -> Seq<Seq<char>> {
    labels.map_values(|s: &str| s@)
}

/// A well-formed list of label names: each valid, no two equal.
pub open spec fn valid_label_names(labels: Seq<Seq<char>>) -> bool {
    &&& forall|i: int| 0 <= i < labels.len() ==> valid_label_name(#[trigger] labels[i])
    &&& forall|i: int, j: int| 0 <= i < j < labels.len() ==> labels[i] != labels[j]
}

/// What a valid unlabeled instrument asks of its name and help text.
pub open spec fn instrument_spec_valid(name: Seq<char>, help: Seq<char>) -> bool {
    valid_metric_name(name) && help.len() > 0
}

/// What a valid labeled instrument asks of its name, help text and label names.
pub open spec fn labeled_instrument_spec_valid(
    name: Seq<char>,
    help: Seq<char>,
    labels: Seq<Seq<char>>,
) -> bool {
    instrument_spec_valid(name, help) && valid_label_names(labels)
}

/// The metric names that the process-resource collector registers: CPU time,
/// file-descriptor counts, memory sizes, start time and thread count.
pub open spec fn process_metric_names() -> Set<Seq<char>> {
    set![
        "process_cpu_seconds_total"@,
        "process_open_fds"@,
        "process_max_fds"@,
        "process_virtual_memory_bytes"@,
        "process_resident_memory_bytes"@,
        "process_start_time_seconds"@,
        "process_threads"@,
    ]
}

} // verus!
