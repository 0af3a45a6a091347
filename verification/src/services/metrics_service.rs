//! What is reported to the metrics sink: the names of the counters and
//! timers, and how tags are written into a name.

use vstd::prelude::*;
use crate::submissions::errors::{ErrorKind, SubmissionError};
use crate::submissions::submission_controller::SubmissionType;
use crate::text::join;

verus! {

/// One tag of a metric.
#[derive(Debug, Clone, PartialEq, Eq)]
pub struct MetricTag {
    pub key: String,
    pub value: String,
}

/// The characters of a [`MetricTag`].
pub struct MetricTagView {
    pub key: Seq<char>,
    pub value: Seq<char>,
}

impl View for MetricTag {
    type V = MetricTagView;

    open spec fn view(&self) -> MetricTagView {
        MetricTagView { key: self.key@, value: self.value@ }
    }
}

/// The views of a list of tags, in order.
pub open spec fn tag_views(tags: Seq<MetricTag>) -> Seq<MetricTagView> {
    tags.map_values(|t: MetricTag| t@)
}

/// A tag as it is written: key, `=`, value.
pub open spec fn spec_tag_text(tag: MetricTagView) -> Seq<char> {
    tag.key + seq!['='] + tag.value
}

/// The tags as they are written: each as key, `=`, value, with a comma
/// between two tags.
pub open spec fn spec_tags_text(tags: Seq<MetricTagView>) -> Seq<char>
    decreases tags.len(),
{
    if tags.len() == 0 {
        Seq::empty()
    } else if tags.len() == 1 {
        spec_tag_text(tags[0])
    } else {
        spec_tags_text(tags.drop_last()) + seq![','] + spec_tag_text(tags.last())
    }
}

/// The name that a metric is sent under: the metric alone without tags, and
/// with tags the metric, `#`, and the tags as they are written.
pub open spec fn spec_metric_name(metric: Seq<char>, tags: Option<Seq<MetricTagView>>) -> Seq<char> {
    match tags {
        None => metric,
        Some(tags) => metric + seq!['#'] + spec_tags_text(tags),
    }
}

/// A tag with the given key and value.
pub fn tag(key: &str, value: &str) -> (r: MetricTag)
    ensures
        r@ == (MetricTagView { key: key@, value: value@ }),
{
    MetricTag { key: key.to_owned(), value: value.to_owned() }
}

/// Writes the tags: each as key, `=`, value, with a comma between two tags.
pub fn tags_text(tags: &Vec<MetricTag>) -> (r: String)
    ensures
        r@ == spec_tags_text(tag_views(tags@)),
{
    let ghost views = tag_views(tags@);
    let mut text = String::new();
    let mut i: usize = 0;
    proof {
        reveal_strlit("=");
        reveal_strlit(",");
        assert(views.take(0) =~= Seq::empty());
    }
    while i < tags.len()
        invariant
            i <= tags@.len(),
            views == tag_views(tags@),
            text@ == spec_tags_text(views.take(i as int)),
            "="@ == seq!['='],
            ","@ == seq![','],
        decreases tags@.len() - i,
    {
        let ghost before = views.take(i as int);
        let ghost after = views.take(i + 1);
        proof {
            assert(after.drop_last() =~= before);
            assert(after.last() == tags@[i as int]@);
        }
        if i > 0 {
            text = join(text.as_str(), ",");
        }
        text = join(text.as_str(), tags[i].key.as_str());
        text = join(text.as_str(), "=");
        text = join(text.as_str(), tags[i].value.as_str());
        proof {
            let t = spec_tag_text(tags@[i as int]@);
            if i == 0 {
                assert(spec_tags_text(before) =~= Seq::empty());
                assert(text@ =~= t);
            } else {
                assert(text@ =~= spec_tags_text(before) + seq![','] + t);
            }
        }
        i += 1;
    }
    proof {
        assert(views.take(tags@.len() as int) =~= views);
    }
    text
}

/// The name that a metric is sent under.
pub fn metric_name(metric: &str, tags: Option<&Vec<MetricTag>>) -> (r: String)
    ensures
        r@ == spec_metric_name(
            metric@,
            match tags {
                Some(tags) => Some(tag_views(tags@)),
                None => None,
            },
        ),
{
    match tags {
        None => metric.to_owned(),
        Some(tags) => {
            proof {
                reveal_strlit("#");
            }
            let head = join(metric, "#");
            let tail = tags_text(tags);
            join(head.as_str(), tail.as_str())
        },
    }
}

/// The counter of an issuance by its outcome.
pub open spec fn spec_issuance_counter(succeeded: bool) -> Seq<char> {
    if succeeded {
        "api_success"@
    } else {
        "api_error"@
    }
}

/// The counter of a processing by its outcome. A submission of an invalid
/// type is not counted.
pub open spec fn spec_processing_counter(outcome: Result<(), ErrorKind>) -> Option<Seq<char>> {
    match outcome {
        Ok(_) => Some("process_submission.success"@),
        Err(ErrorKind::InvalidSubmissionType) => None,
        Err(_) => Some("process_submission.error"@),
    }
}

/// The counter of an issuance by its outcome.
pub fn issuance_counter(succeeded: bool) -> (r: &'static str)
    ensures
        r@ == spec_issuance_counter(succeeded),
{
    if succeeded {
        "api_success"
    } else {
        "api_error"
    }
}

/// The timer of an issuance; it is reported for completed issuances only.
pub fn issuance_timer() -> (r: &'static str)
    ensures
        r@ == "api_latency"@,
{
    "api_latency"
}

/// The counter of a processing by the failure it ended in, if it ended in one.
pub fn processing_counter(failure: Option<&SubmissionError>) -> (r: Option<&'static str>)
    ensures
        match r {
            Some(name) => spec_processing_counter(
                match failure {
                    Some(error) => Err(error.kind),
                    None => Ok(()),
                },
            ) == Some(name@),
            None => spec_processing_counter(
                match failure {
                    Some(error) => Err(error.kind),
                    None => Ok(()),
                },
            ) is None,
        },
{
    match failure {
        None => Some("process_submission.success"),
        Some(error) => match error.kind {
            ErrorKind::InvalidSubmissionType => None,
            _ => Some("process_submission.error"),
        },
    }
}

/// The timer of a processing; it is reported whenever the counter is.
pub fn processing_timer() -> (r: &'static str)
    ensures
        r@ == "process_submission.duration"@,
{
    "process_submission.duration"
}

/// The tags of the metrics of an issuance: the endpoint and the type.
pub fn issuance_tags(submission_type: SubmissionType) -> (r: Vec<MetricTag>)
    ensures
        tag_views(r@) == seq![
            MetricTagView { key: "endpoint"@, value: "presigned_urls"@ },
            MetricTagView { key: "submission_type"@, value: submission_type.spec_name() },
        ],
{
    let mut tags: Vec<MetricTag> = Vec::new();
    tags.push(tag("endpoint", "presigned_urls"));
    tags.push(tag("submission_type", submission_type.as_str()));
    assert(tag_views(tags@) =~= seq![
        MetricTagView { key: "endpoint"@, value: "presigned_urls"@ },
        MetricTagView { key: "submission_type"@, value: submission_type.spec_name() },
    ]);
    tags
}

/// The tags of the metrics of an endpoint that is tagged by its name alone.
pub fn endpoint_tags(endpoint: &str) -> (r: Vec<MetricTag>)
    ensures
        tag_views(r@) == seq![MetricTagView { key: "endpoint"@, value: endpoint@ }],
{
    let mut tags: Vec<MetricTag> = Vec::new();
    tags.push(tag("endpoint", endpoint));
    assert(tag_views(tags@) =~= seq![MetricTagView { key: "endpoint"@, value: endpoint@ }]);
    tags
}

} // verus!
