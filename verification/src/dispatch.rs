//! Multi-target encoder dispatch: resolves each requested output — a
//! filesystem path with an inferred format, or the standard-output stream
//! with an explicitly supplied one — into its own encode plan entry.
//! Target failures are isolated: an entry depends on its own request
//! alone, so one unresolvable target never disturbs its neighbours.

use vstd::prelude::*;
use crate::format::{spec_encoder_for_extension, ImageFormat};
use crate::text::spec_extension_of;

verus! {

/// What the dispatch decided for one requested output target.
#[derive(Clone, PartialEq, Debug)]
pub enum TargetPlan {
    /// Encode every produced image, in image order, to the standard-output
    /// stream with the explicitly supplied format.
    StreamEncode { format: ImageFormat, image_count: usize },
    /// A stream target without an explicit format: reported, skipped, and
    /// fatal to nothing else.
    StreamMissingFormat,
    /// Encode every produced image to the named file with the format its
    /// extension resolves to.
    FileEncode { name: String, format: ImageFormat, image_count: usize },
    /// The name carries an extension no encoder is registered for:
    /// reported and skipped.
    UnresolvedExtension { name: String },
    /// The name carries no extension at all: reported and skipped.
    MissingExtension { name: String },
}

/// The spec-level shape of a plan entry: a case tag, the target name's
/// view, and the format and image count where encoding was planned.
pub open spec fn plan_view(p: TargetPlan) -> (int, Seq<char>, Option<(ImageFormat, usize)>) {
    match p {
        TargetPlan::StreamEncode { format, image_count } => (
            0,
            Seq::empty(),
            Some((format, image_count)),
        ),
        TargetPlan::StreamMissingFormat => (1, Seq::empty(), None),
        TargetPlan::FileEncode { name, format, image_count } => (
            2,
            name@,
            Some((format, image_count)),
        ),
        TargetPlan::UnresolvedExtension { name } => (3, name@, None),
        TargetPlan::MissingExtension { name } => (4, name@, None),
    }
}

/// How one output request resolves, as a function of that request alone:
/// the token `-` denotes the standard-output stream and demands the
/// explicit format; any other token is a path whose extension selects the
/// encoder.
pub open spec fn spec_plan_one(
    name: Seq<char>,
    explicit: Option<ImageFormat>,
    image_count: usize,
) -> (int, Seq<char>, Option<(ImageFormat, usize)>) {
    if name == "-"@ {
        match explicit {
            Some(f) => (0, Seq::empty(), Some((f, image_count))),
            None => (1, Seq::empty(), None),
        }
    } else {
        match spec_extension_of(name) {
            Some(e) => match spec_encoder_for_extension(e) {
                Some(f) => (2, name, Some((f, image_count))),
                None => (3, name, None),
            },
            None => (4, name, None),
        }
    }
}

/// Resolves every requested output into its own plan entry. The entry at
/// each position is a function of the request at that position alone.
pub fn plan_targets(
    outputs: &Vec<String>,
    explicit: Option<ImageFormat>,
    image_count: usize,
) -> (plan: Vec<TargetPlan>)
    ensures
        plan@.len() == outputs@.len(),
        forall|i: int|
            0 <= i < outputs@.len() ==> plan_view(#[trigger] plan@[i]) == spec_plan_one(
                outputs@[i]@,
                explicit,
                image_count,
            ),
{
    let mut plan: Vec<TargetPlan> = Vec::new();
    let mut i: usize = 0;
    while i < outputs.len()
        invariant
            0 <= i <= outputs@.len(),
            plan@.len() == i,
            forall|k: int|
                0 <= k < i ==> plan_view(#[trigger] plan@[k]) == spec_plan_one(
                    outputs@[k]@,
                    explicit,
                    image_count,
                ),
        decreases outputs@.len() - i,
    {
        let name = &outputs[i];
        let entry: TargetPlan = if crate::text::str_eq(name.as_str(), "-") {
            match explicit {
                Some(f) => TargetPlan::StreamEncode { format: f, image_count },
                None => TargetPlan::StreamMissingFormat,
            }
        } else {
            match crate::text::extension_of(name.as_str()) {
                Some(e) => {
                    match crate::format::encoder_for_extension(e.as_str()) {
                        Some(f) => TargetPlan::FileEncode {
                            name: name.clone(),
                            format: f,
                            image_count,
                        },
                        None => TargetPlan::UnresolvedExtension { name: name.clone() },
                    }
                },
                None => TargetPlan::MissingExtension { name: name.clone() },
            }
        };
        plan.push(entry);
        i = i + 1;
    }
    plan
}

/// Law: target isolation. The plan entry for one output target is a
/// function of that target's own request, the explicit stream format and
/// the image count alone; whatever stands at the other positions of two
/// runs, targets that agree resolve alike.
pub proof fn lemma_target_isolation(
    outs1: Seq<Seq<char>>,
    outs2: Seq<Seq<char>>,
    i: int,
    explicit: Option<ImageFormat>,
    image_count: usize,
)
    requires
        0 <= i < outs1.len(),
        0 <= i < outs2.len(),
        outs1[i] == outs2[i],
    ensures
        spec_plan_one(outs1[i], explicit, image_count) == spec_plan_one(
            outs2[i],
            explicit,
            image_count,
        ),
{
}

} // verus!
