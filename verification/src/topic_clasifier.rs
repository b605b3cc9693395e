//! Topic classification: the fixed label set and the confidence threshold
//! that decides between the returned label and the safe default.

use vstd::prelude::*;

verus! {

/// A classification outcome as the classification endpoint reports it.
/// The confidence score lies in `[0, 1]` and is carried in millionths, so
/// that the threshold comparison is exact.
#[derive(Debug)]
pub struct ClassificationResp {
    pub label: String,
    pub score_millionths: u64,
}

/// The confidence bound: a label is only trusted when the score is strictly
/// above one half.
pub const SCORE_THRESHOLD_MILLIONTHS: u64 = 500000;

pub struct TopicClassifier<'a> {
    pub classifier_url: String,
    pub topic: Vec<&'a str>,
}

#[derive(Debug, PartialEq, Eq, Structural)]
pub enum OLLAMAChatModelError {
    Exception(),
}

/// The label the decision rule selects: the returned label when the score is
/// strictly above the threshold, the safe default `other` when it is not.
pub open spec fn spec_selected_label(label: Seq<char>, score_millionths: u64) -> Seq<char> {
    if score_millionths > SCORE_THRESHOLD_MILLIONTHS {
        label
    } else {
        "other"@
    }
}

impl<'a> TopicClassifier<'a> {
    pub fn new(classifier_url: String) -> (c: Self)
        ensures
            c.classifier_url@ == classifier_url@,
            c.topic@.len() == 3,
            c.topic@[0]@ == "movie"@,
            c.topic@[1]@ == "book"@,
            c.topic@[2]@ == "other"@,
    {
        Self { classifier_url, topic: vec!["movie", "book", "other"] }
    }
}

/// The decision a classification turn takes once the endpoint has answered:
/// a non-success status is the classification error, and otherwise the label
/// is selected by the confidence threshold.
pub fn classify_outcome(status: u16, resp: ClassificationResp) -> (r: Result<
    String,
    OLLAMAChatModelError,
>)
    ensures
        r is Ok <==> status == 200,
        status == 200 ==> (r matches Ok(l) && l@ == spec_selected_label(
            resp.label@,
            resp.score_millionths,
        )),
        status != 200 ==> (r matches Err(e) && e == OLLAMAChatModelError::Exception()),
{
    if status != 200 {
        return Err(OLLAMAChatModelError::Exception());
    }
    if resp.score_millionths > SCORE_THRESHOLD_MILLIONTHS {
        Ok(resp.label)
    } else {
        Ok("other".to_owned())
    }
}

/// The decision rule on every score: a score above one half selects the
/// returned label, and any other score selects `other`, whatever the label
/// holds.
pub proof fn lemma_threshold_selects(label: Seq<char>, score_millionths: u64)
    ensures
        score_millionths > SCORE_THRESHOLD_MILLIONTHS ==> spec_selected_label(
            label,
            score_millionths,
        ) == label,
        score_millionths <= SCORE_THRESHOLD_MILLIONTHS ==> spec_selected_label(
            label,
            score_millionths,
        ) == "other"@,
{
}

} // verus!
