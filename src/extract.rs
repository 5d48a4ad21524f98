use vstd::prelude::*;
use crate::coverage::{counter_type_from, counter_type_of, Coverage, CounterType};
use crate::nesting::{nesting_within, MAX_NESTING};
use crate::text::{decimal_value, is_decimal, parse_count, same_text};
use crate::xml::{
    attribute_value, nodes_view, parse_root_children, xml_root_children, Element, Node,
};

verus! {

/// Why a report could not be read.
#[derive(Debug, PartialEq, Eq)]
pub enum ExtractionError {
    /// The text is not a well-formed XML document.
    MalformedDocument,
    /// A `counter` element lacks one of `type`, `covered` or `missed`.
    MissingAttribute { attribute: String, element: String },
    /// `covered` or `missed` is not a non-negative integer that fits in a `u64`.
    InvalidNumericValue { attribute: String, value: String },
    /// `type` names none of the six counters.
    UnknownCounterType { literal: String },
}

/// An `ExtractionError` with its texts as character sequences.
pub enum ErrorView {
    MalformedDocument,
    MissingAttribute { attribute: Seq<char>, element: Seq<char> },
    InvalidNumericValue { attribute: Seq<char>, value: Seq<char> },
    UnknownCounterType { literal: Seq<char> },
}

impl View for ExtractionError {
    type V = ErrorView;

    open spec fn view(&self) -> ErrorView {
        match self {
            ExtractionError::MalformedDocument => ErrorView::MalformedDocument,
            ExtractionError::MissingAttribute { attribute, element } => ErrorView::MissingAttribute {
                attribute: attribute@,
                element: element@,
            },
            ExtractionError::InvalidNumericValue { attribute, value } => ErrorView::InvalidNumericValue {
                attribute: attribute@,
                value: value@,
            },
            ExtractionError::UnknownCounterType { literal } => ErrorView::UnknownCounterType {
                literal: literal@,
            },
        }
    }
}

/// A validated counter: its type and its two counts.
#[derive(Clone, Copy, Debug, PartialEq, Eq, Structural)]
pub struct Counter {
    pub kind: CounterType,
    pub covered: u64,
    pub missed: u64,
}

/// A result with its error seen through its view.
pub open spec fn outcome<T>(r: Result<T, ExtractionError>) -> Result<T, ErrorView> {
    match r {
        Ok(v) => Ok(v),
        Err(e) => Err(e@),
    }
}

/// The count that the attribute text `s` holds, if it is a decimal that
/// fits in a `u64`.
pub open spec fn count_value(s: Seq<char>) -> Option<u64> {
    if is_decimal(s) && decimal_value(s) <= u64::MAX {
        Some(decimal_value(s) as u64)
    } else {
        None
    }
}

/// What a `counter` element with the given name and attributes yields: the
/// attributes are checked for presence (`type`, `covered`, `missed`), then
/// the counts are read (`covered`, then `missed`), then the type is matched.
pub open spec fn counter_spec(element: (Seq<char>, Map<Seq<char>, Seq<char>>)) -> Result<
    Counter,
    ErrorView,
> {
    let attrs = element.1;
    if !attrs.contains_key("type"@) {
        Err(ErrorView::MissingAttribute { attribute: "type"@, element: element.0 })
    } else if !attrs.contains_key("covered"@) {
        Err(ErrorView::MissingAttribute { attribute: "covered"@, element: element.0 })
    } else if !attrs.contains_key("missed"@) {
        Err(ErrorView::MissingAttribute { attribute: "missed"@, element: element.0 })
    } else if count_value(attrs["covered"@]) is None {
        Err(ErrorView::InvalidNumericValue { attribute: "covered"@, value: attrs["covered"@] })
    } else if count_value(attrs["missed"@]) is None {
        Err(ErrorView::InvalidNumericValue { attribute: "missed"@, value: attrs["missed"@] })
    } else {
        match counter_type_from(attrs["type"@]) {
            Some(kind) => Ok(
                Counter {
                    kind,
                    covered: count_value(attrs["covered"@])->0,
                    missed: count_value(attrs["missed"@])->0,
                },
            ),
            None => Err(ErrorView::UnknownCounterType { literal: attrs["type"@] }),
        }
    }
}

/// What the children of a report's root yield, read in document order:
/// elements named `counter` are validated and overwrite their metric, the
/// other children are passed over, and the first invalid counter is the
/// result.
pub open spec fn extract_spec(nodes: Seq<Option<(Seq<char>, Map<Seq<char>, Seq<char>>)>>) -> Result<
    Coverage,
    ErrorView,
>
    decreases nodes.len(),
{
    if nodes.len() == 0 {
        Ok(Coverage::empty())
    } else {
        match extract_spec(nodes.drop_last()) {
            Err(e) => Err(e),
            Ok(c) => match nodes.last() {
                Some(element) => if element.0 == "counter"@ {
                    match counter_spec(element) {
                        Ok(k) => Ok(c.with_counts(k.kind, k.covered, k.missed)),
                        Err(e) => Err(e),
                    }
                } else {
                    Ok(c)
                },
                None => Ok(c),
            },
        }
    }
}

/// Once a prefix of the children has failed, the whole sequence fails in
/// the same way.
proof fn lemma_failure_persists(
    nodes: Seq<Option<(Seq<char>, Map<Seq<char>, Seq<char>>)>>,
    k: int,
)
    requires
        0 <= k <= nodes.len(),
        extract_spec(nodes.take(k)) is Err,
    ensures
        extract_spec(nodes) == extract_spec(nodes.take(k)),
    decreases nodes.len(),
{
    if k < nodes.len() {
        assert(nodes.drop_last().take(k) =~= nodes.take(k));
        lemma_failure_persists(nodes.drop_last(), k);
    } else {
        assert(nodes.take(k) =~= nodes);
    }
}

/// The counter that child `n` of a report's root holds, where it is an
/// element named `counter` that validates.
pub open spec fn valid_counter(n: Option<(Seq<char>, Map<Seq<char>, Seq<char>>)>) -> Option<Counter> {
    match n {
        Some(element) => if element.0 == "counter"@ {
            match counter_spec(element) {
                Ok(k) => Some(k),
                Err(_) => None,
            }
        } else {
            None
        },
        None => None,
    }
}

/// Last write wins: when the children yield an aggregate, the metric of a
/// valid counter at position `i` holds that counter's counts, provided no
/// later child is a valid counter of the same type. Earlier counters of that
/// type are neither summed nor kept.
pub proof fn lemma_last_counter_of_type_wins(
    nodes: Seq<Option<(Seq<char>, Map<Seq<char>, Seq<char>>)>>,
    i: int,
)
    requires
        0 <= i < nodes.len(),
        valid_counter(nodes[i]) is Some,
        forall|j: int|
            i < j < nodes.len() && (#[trigger] valid_counter(nodes[j])) is Some ==> valid_counter(
                nodes[j],
            )->0.kind != valid_counter(nodes[i])->0.kind,
        extract_spec(nodes) is Ok,
    ensures
        extract_spec(nodes)->Ok_0.covered_of(valid_counter(nodes[i])->0.kind) == valid_counter(
            nodes[i],
        )->0.covered,
        extract_spec(nodes)->Ok_0.missed_of(valid_counter(nodes[i])->0.kind) == valid_counter(
            nodes[i],
        )->0.missed,
    decreases nodes.len(),
{
    let rest = nodes.drop_last();
    let k = valid_counter(nodes[i])->0;
    if i < nodes.len() - 1 {
        assert(rest[i] == nodes[i]);
        assert forall|j: int| i < j < rest.len() && (#[trigger] valid_counter(rest[j])) is Some implies valid_counter(
            rest[j],
        )->0.kind != k.kind by {
            assert(rest[j] == nodes[j]);
        }
        lemma_last_counter_of_type_wins(rest, i);
        let last = nodes[nodes.len() - 1];
        let c = extract_spec(rest)->Ok_0;
        if valid_counter(last) is Some {
            let x = valid_counter(last)->0;
            assert(x.kind != k.kind);
            assert(c.with_counts(x.kind, x.covered, x.missed).covered_of(k.kind) == c.covered_of(k.kind));
            assert(c.with_counts(x.kind, x.covered, x.missed).missed_of(k.kind) == c.missed_of(k.kind));
        }
    } else {
        let c = extract_spec(rest)->Ok_0;
        assert(c.with_counts(k.kind, k.covered, k.missed).covered_of(k.kind) == k.covered);
        assert(c.with_counts(k.kind, k.covered, k.missed).missed_of(k.kind) == k.missed);
    }
}

/// What the report `text` yields.
pub open spec fn extract_text_spec(text: Seq<char>) -> Result<Coverage, ErrorView> {
    match xml_root_children(text) {
        Some(nodes) => extract_spec(nodes),
        None => Err(ErrorView::MalformedDocument),
    }
}

/// Validates one `counter` element into a typed counter.
pub fn read_counter(element: &Element) -> (r: Result<Counter, ExtractionError>)
    ensures
        outcome(r) == counter_spec(element@),
{
    let kind_text = match attribute_value(element, "type") {
        Some(v) => v,
        None => {
            return Err(
                ExtractionError::MissingAttribute {
                    attribute: "type".to_owned(),
                    element: element.name.clone(),
                },
            );
        },
    };
    let covered_text = match attribute_value(element, "covered") {
        Some(v) => v,
        None => {
            return Err(
                ExtractionError::MissingAttribute {
                    attribute: "covered".to_owned(),
                    element: element.name.clone(),
                },
            );
        },
    };
    let missed_text = match attribute_value(element, "missed") {
        Some(v) => v,
        None => {
            return Err(
                ExtractionError::MissingAttribute {
                    attribute: "missed".to_owned(),
                    element: element.name.clone(),
                },
            );
        },
    };
    let covered = match parse_count(covered_text.as_str()) {
        Some(n) => n,
        None => {
            return Err(
                ExtractionError::InvalidNumericValue {
                    attribute: "covered".to_owned(),
                    value: covered_text,
                },
            );
        },
    };
    let missed = match parse_count(missed_text.as_str()) {
        Some(n) => n,
        None => {
            return Err(
                ExtractionError::InvalidNumericValue {
                    attribute: "missed".to_owned(),
                    value: missed_text,
                },
            );
        },
    };
    match counter_type_of(kind_text.as_str()) {
        Some(kind) => Ok(Counter { kind, covered, missed }),
        None => Err(ExtractionError::UnknownCounterType { literal: kind_text }),
    }
}

/// Builds the aggregate from the children of a report's root element.
pub fn extract_from_children(nodes: &Vec<Node>) -> (r: Result<Coverage, ExtractionError>)
    ensures
        outcome(r) == extract_spec(nodes_view(nodes@)),
{
    let ghost all = nodes_view(nodes@);
    let mut coverage = Coverage::new();
    let mut i: usize = 0;
    while i < nodes.len()
        invariant
            i <= nodes.len(),
            all == nodes_view(nodes@),
            extract_spec(all.take(i as int)) == Ok::<Coverage, ErrorView>(coverage),
        decreases nodes.len() - i,
    {
        proof {
            assert(all.take(i + 1).drop_last() =~= all.take(i as int));
            assert(all.take(i + 1).last() == nodes@[i as int]@);
        }
        match &nodes[i] {
            Node::Element(element) => {
                if same_text(element.name.as_str(), "counter") {
                    match read_counter(element) {
                        Ok(counter) => coverage.set_counts(counter.kind, counter.covered, counter.missed),
                        Err(e) => {
                            proof {
                                lemma_failure_persists(all, i + 1);
                            }
                            return Err(e);
                        },
                    }
                }
            },
            Node::Other => {},
        }
        i = i + 1;
    }
    proof {
        assert(all.take(i as int) =~= all);
    }
    Ok(coverage)
}

/// Reads the coverage aggregate out of the XML report `text`, whose element
/// nesting must stay within the bound (see `nesting_within_limit`).
pub fn extract_coverage(text: &str) -> (r: Result<Coverage, ExtractionError>)
    requires
        nesting_within(text@, MAX_NESTING as nat),
    ensures
        outcome(r) == extract_text_spec(text@),
{
    match parse_root_children(text) {
        Some(nodes) => extract_from_children(&nodes),
        None => Err(ExtractionError::MalformedDocument),
    }
}

} // verus!
