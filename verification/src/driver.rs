//! The per-source run driver: wires format sniffing into decoder
//! selection, builds and appends the operation chain, advances the
//! pipeline, and resolves the encode fan-out for the requested outputs.
//! Reading sources and writing targets is the caller's input/output work;
//! the driver takes the sniffed byte window and the decoder handle as
//! plain values and returns the advanced pipeline with its encode plan.

use vstd::prelude::*;
use crate::args::CmdArgs;
use crate::chain::{add_operations, spec_build_chain};
use crate::dispatch::{plan_targets, plan_view, spec_plan_one, TargetPlan};
use crate::errors::ImageErrors;
use crate::format::{guess_format, spec_encoder_for_extension, spec_guess_format, ImageFormat};
use crate::pipeline::{chain_spec, CmdPipeline, Decoder, PipelineState};
use crate::text::spec_extension_of;

verus! {

/// The format a requested output resolves to while the chain is being
/// declared: `None` for the stream token and for names without a
/// registered extension.
pub open spec fn spec_resolved_format(name: Seq<char>) -> Option<ImageFormat> {
    if name == "-"@ {
        None
    } else {
        match spec_extension_of(name) {
            Some(e) => spec_encoder_for_extension(e),
            None => None,
        }
    }
}

/// The formats the requested outputs resolve to, in request order,
/// unresolvable requests skipped.
pub open spec fn spec_resolved_formats(outs: Seq<String>) -> Seq<ImageFormat>
    decreases outs.len(),
{
    if outs.len() == 0 {
        Seq::empty()
    } else {
        let rest = spec_resolved_formats(outs.drop_last());
        match spec_resolved_format(outs.last()@) {
            Some(f) => rest.push(f),
            None => rest,
        }
    }
}

/// Resolves the encode format of every requested output, in order,
/// skipping the stream token and names without a registered extension;
/// those are reported by the dispatch plan, not here.
pub fn resolve_formats(outputs: &Vec<String>) -> (r: Vec<ImageFormat>)
    ensures
        r@ == spec_resolved_formats(outputs@),
{
    let mut formats: Vec<ImageFormat> = Vec::new();
    let mut i: usize = 0;
    while i < outputs.len()
        invariant
            0 <= i <= outputs@.len(),
            formats@ == spec_resolved_formats(outputs@.subrange(0, i as int)),
        decreases outputs@.len() - i,
    {
        let name = &outputs[i];
        proof {
            let upto = outputs@.subrange(0, i as int + 1);
            assert(upto.drop_last() =~= outputs@.subrange(0, i as int));
            assert(upto.last() == outputs@[i as int]);
        }
        if !crate::text::str_eq(name.as_str(), "-") {
            match crate::text::extension_of(name.as_str()) {
                Some(e) => {
                    match crate::format::encoder_for_extension(e.as_str()) {
                        Some(f) => {
                            formats.push(f);
                        },
                        None => {},
                    }
                },
                None => {},
            }
        }
        i = i + 1;
    }
    proof {
        assert(outputs@.subrange(0, outputs@.len() as int) =~= outputs@);
    }
    formats
}

/// Drives one input source through the whole per-source contract: sniffs
/// the leading byte window, refuses an unrecognised or undecodable format,
/// chains the decoder, builds and appends the operation chain in
/// command-line order, advances the pipeline, and resolves the encode plan
/// for the requested outputs. Whole-source failures propagate as the
/// result; per-target failures live inside the returned plan.
pub fn run_source(
    prefix: &Vec<u8>,
    decoder: Decoder,
    args: &CmdArgs,
    outputs: &Vec<String>,
    explicit_format: Option<ImageFormat>,
) -> (r: Result<(CmdPipeline, Vec<TargetPlan>), ImageErrors>)
    ensures
        match spec_guess_format(prefix@) {
            None => r == Err::<(CmdPipeline, Vec<TargetPlan>), ImageErrors>(
                ImageErrors::ImageDecoderNotIncluded(ImageFormat::Unknown),
            ),
            Some(f) => if !f.spec_has_decoder() {
                r == Err::<(CmdPipeline, Vec<TargetPlan>), ImageErrors>(
                    ImageErrors::ImageDecoderNotImplemented(f),
                )
            } else {
                match spec_build_chain(args.entries@, *args, Seq::empty()) {
                    Err(m) => (r matches Err(e) && e matches ImageErrors::GenericString(t) && t@
                        == m),
                    Ok(ops) => match decoder.outcome {
                        Err(dm) => (r matches Err(e) && e matches ImageErrors::DecodeErrors(t) && t@
                            == dm@),
                        Ok(decoded) => match chain_spec(ops, decoded@) {
                            Err(m) => (r matches Err(e) && e matches ImageErrors::OperationsErrors(
                                t,
                            ) && t@ == m),
                            Ok(produced) => (r matches Ok(out) && out.0.inner.state
                                == PipelineState::Advanced && out.0.inner.images@ == produced
                                && out.0.inner.operations@ == ops && out.0.inner.wf()
                                && out.0.formats@ == spec_resolved_formats(outputs@)
                                && out.1@.len() == outputs@.len() && (forall|i: int|
                                0 <= i < outputs@.len() ==> plan_view(#[trigger] out.1@[i])
                                    == spec_plan_one(
                                    outputs@[i]@,
                                    explicit_format,
                                    produced.len() as usize,
                                ))),
                        },
                    },
                }
            },
        },
{
    let sniffed = guess_format(prefix.as_slice());
    let format = match sniffed {
        Some((f, _)) => f,
        None => {
            return Err(ImageErrors::ImageDecoderNotIncluded(ImageFormat::Unknown));
        },
    };
    if !format.has_decoder() {
        return Err(ImageErrors::ImageDecoderNotImplemented(format));
    }
    let mut workflow = CmdPipeline::new();
    match workflow.inner.chain_decoder(decoder) {
        Ok(_) => {},
        Err(_) => {
            proof {
                assert(false);
            }
        },
    }
    match add_operations(args, &mut workflow.inner) {
        Ok(_) => {},
        Err(m) => {
            return Err(ImageErrors::GenericString(m));
        },
    }
    workflow.formats = resolve_formats(outputs);
    match workflow.inner.advance_to_end() {
        Ok(_) => {},
        Err(e) => {
            return Err(e);
        },
    }
    let count = match workflow.inner.images() {
        Ok(imgs) => imgs.len(),
        Err(_) => {
            proof {
                assert(false);
            }
            0
        },
    };
    let plan = plan_targets(outputs, explicit_format, count);
    Ok((workflow, plan))
}

} // verus!
