//! The operation chain builder: resolves explicitly supplied argument
//! identifiers to operations, in command-line left-to-right order, parsing
//! each identifier's typed parameters from the validated argument lookup.
//! A malformed parameter is a descriptive error, never a panic; an
//! identifier the resolver does not recognise is silently skipped, since
//! the lookup also carries entries irrelevant to operation construction.

use vstd::prelude::*;
use crate::args::{spec_value_at, ArgValue, CmdArgs, CmdEntry};
use crate::color::{BitDepth, ColorSpace};
use crate::ops::{spec_statistic_of, spec_threshold_of, MirrorMode, Operation, StatisticOperations, ThresholdMethod};
use crate::pipeline::{Pipeline, PipelineState};
use crate::text::{dec_digits, dec_value, spec_parse_err, spec_parse_ok, trim_spec};

verus! {

/// The diagnostic for an identifier whose entry is missing a value or
/// carries one of the wrong type.
pub open spec fn spec_malformed_msg(id: Seq<char>) -> Seq<char> {
    "missing or malformed value for option "@ + id
}

/// What an identifier resolves to against a given argument lookup:
/// `None` for an identifier the resolver does not recognise (skipped),
/// `Some(Ok(op))` for a constructed operation, and `Some(Err(m))` for a
/// recognised identifier whose parameters are malformed.
pub open spec fn spec_resolve(id: Seq<char>, args: CmdArgs) -> Option<
    Result<Operation, Seq<char>>,
> {
    if id == "flip"@ {
        Some(Ok(Operation::Flip))
    } else if id == "grayscale"@ {
        Some(Ok(Operation::Colorspace { to: ColorSpace::Luma }))
    } else if id == "transpose"@ {
        Some(Ok(Operation::Transpose))
    } else if id == "flop"@ {
        Some(Ok(Operation::Flop))
    } else if id == "median"@ {
        match spec_value_at(args, id, 0) {
            Some(ArgValue::Unsigned(radius)) => Some(Ok(Operation::Median { radius })),
            _ => Some(Err(spec_malformed_msg(id))),
        }
    } else if id == "statistic"@ {
        match (spec_value_at(args, id, 0), spec_value_at(args, id, 1)) {
            (Some(ArgValue::Text(t0)), Some(ArgValue::Text(t1))) => if spec_parse_ok(
                t0@,
                usize::MAX as nat,
            ) {
                match spec_statistic_of(t1@) {
                    Some(mode) => Some(
                        Ok(Operation::Statistic { radius: dec_value(t0@) as usize, mode }),
                    ),
                    None => Some(Err("unknown statistic mode "@ + t1@)),
                }
            } else {
                Some(Err(spec_parse_err(t0@, usize::MAX as nat).spec_message()))
            },
            _ => Some(Err(spec_malformed_msg(id))),
        }
    } else if id == "mirror"@ {
        match spec_value_at(args, id, 0) {
            Some(ArgValue::Text(t)) => {
                let v = trim_spec(t@);
                if v == "north"@ {
                    Some(Ok(Operation::Mirror { mode: MirrorMode::North }))
                } else if v == "south"@ {
                    Some(Ok(Operation::Mirror { mode: MirrorMode::South }))
                } else if v == "east"@ {
                    Some(Ok(Operation::Mirror { mode: MirrorMode::East }))
                } else if v == "west"@ {
                    Some(Ok(Operation::Mirror { mode: MirrorMode::West }))
                } else {
                    Some(Err("Unknown mirror mode \""@ + v + "\""@))
                }
            },
            _ => Some(Err(spec_malformed_msg(id))),
        }
    } else if id == "invert"@ {
        Some(Ok(Operation::Invert))
    } else if id == "brighten"@ {
        match spec_value_at(args, id, 0) {
            Some(ArgValue::RealBits(b)) => Some(Ok(Operation::Brighten { value_bits: b })),
            _ => Some(Err(spec_malformed_msg(id))),
        }
    } else if id == "crop"@ {
        match (
            spec_value_at(args, id, 0),
            spec_value_at(args, id, 1),
            spec_value_at(args, id, 2),
            spec_value_at(args, id, 3),
        ) {
            (
                Some(ArgValue::Unsigned(w)),
                Some(ArgValue::Unsigned(h)),
                Some(ArgValue::Unsigned(x)),
                Some(ArgValue::Unsigned(y)),
            ) => Some(Ok(Operation::Crop { width: w, height: h, x, y })),
            _ => Some(Err(spec_malformed_msg(id))),
        }
    } else if id == "threshold"@ {
        match (spec_value_at(args, id, 0), spec_value_at(args, id, 1)) {
            (Some(ArgValue::Text(t0)), Some(ArgValue::Text(t1))) => if spec_parse_ok(
                t0@,
                u16::MAX as nat,
            ) {
                match spec_threshold_of(t1@) {
                    Some(method) => Some(
                        Ok(Operation::Threshold { value: dec_value(t0@) as u16, method }),
                    ),
                    None => Some(Err("unknown threshold method "@ + t1@)),
                }
            } else {
                Some(Err(spec_parse_err(t0@, u16::MAX as nat).spec_message()))
            },
            _ => Some(Err(spec_malformed_msg(id))),
        }
    } else if id == "stretch_contrast"@ {
        match (spec_value_at(args, id, 0), spec_value_at(args, id, 1)) {
            (Some(ArgValue::Unsigned16(lower)), Some(ArgValue::Unsigned16(upper))) => Some(
                Ok(Operation::StretchContrast { lower, upper }),
            ),
            _ => Some(Err(spec_malformed_msg(id))),
        }
    } else if id == "gamma"@ {
        match spec_value_at(args, id, 0) {
            Some(ArgValue::RealBits(b)) => Some(Ok(Operation::Gamma { value_bits: b })),
            _ => Some(Err(spec_malformed_msg(id))),
        }
    } else if id == "contrast"@ {
        match spec_value_at(args, id, 0) {
            Some(ArgValue::RealBits(b)) => Some(Ok(Operation::Contrast { value_bits: b })),
            _ => Some(Err(spec_malformed_msg(id))),
        }
    } else if id == "resize"@ {
        match (spec_value_at(args, id, 0), spec_value_at(args, id, 1)) {
            (Some(ArgValue::Unsigned(w)), Some(ArgValue::Unsigned(h))) => Some(
                Ok(Operation::Resize { width: w, height: h }),
            ),
            _ => Some(Err(spec_malformed_msg(id))),
        }
    } else if id == "depth"@ {
        match spec_value_at(args, id, 0) {
            Some(ArgValue::Unsigned8(v)) => if v == 8 {
                Some(Ok(Operation::Depth { depth: BitDepth::Eight }))
            } else if v == 16 {
                Some(Ok(Operation::Depth { depth: BitDepth::Sixteen }))
            } else {
                Some(
                    Err(
                        "Unknown depth value "@ + dec_digits(v as nat)
                            + ", supported depths are 8 and 16"@,
                    ),
                )
            },
            _ => Some(Err(spec_malformed_msg(id))),
        }
    } else if id == "colorspace"@ {
        match spec_value_at(args, id, 0) {
            Some(ArgValue::Color(c)) => Some(Ok(Operation::Colorspace { to: c })),
            _ => Some(Err(spec_malformed_msg(id))),
        }
    } else if id == "auto-orient"@ {
        Some(Ok(Operation::AutoOrient))
    } else if id == "exposure"@ {
        match spec_value_at(args, id, 0) {
            Some(ArgValue::RealBits(b)) => Some(Ok(Operation::Exposure { value_bits: b })),
            _ => Some(Err(spec_malformed_msg(id))),
        }
    } else if id == "h-flip"@ {
        Some(Ok(Operation::HorizontalFlip))
    } else {
        None
    }
}

/// Builds the malformed-parameter diagnostic.
fn malformed(id: &str) -> (r: String)
    ensures
        r@ == spec_malformed_msg(id@),
{
    let mut m = "missing or malformed value for option ".to_owned();
    m.append(id);
    m
}

/// Appends one operation; the chain-building states always accept it.
fn append_op(workflow: &mut Pipeline, op: Operation)
    requires
        old(workflow).wf(),
        old(workflow).state == PipelineState::DecoderChained || old(workflow).state
            == PipelineState::OperationsAppended,
    ensures
        final(workflow).wf(),
        final(workflow).state == PipelineState::OperationsAppended,
        final(workflow).operations@ == old(workflow).operations@.push(op),
        final(workflow).decoder == old(workflow).decoder,
        final(workflow).images@ == old(workflow).images@,
{
    match workflow.add_operation(op) {
        Ok(_) => {},
        Err(_) => {
            proof {
                assert(false);
            }
        },
    }
}

/// Resolves one argument identifier and appends the operation it names, if
/// any, parsing the identifier's typed parameters from the validated
/// lookup. A recognised identifier with malformed parameters yields a
/// descriptive error and leaves the chain as it was; an unrecognised one
/// is skipped.
pub fn parse_options(workflow: &mut Pipeline, argument: &str, args: &CmdArgs) -> (r: Result<
    (),
    String,
>)
    requires
        old(workflow).wf(),
        old(workflow).state == PipelineState::DecoderChained || old(workflow).state
            == PipelineState::OperationsAppended,
    ensures
        final(workflow).wf(),
        final(workflow).state == PipelineState::DecoderChained || final(workflow).state
            == PipelineState::OperationsAppended,
        final(workflow).decoder == old(workflow).decoder,
        final(workflow).images@ == old(workflow).images@,
        match spec_resolve(argument@, *args) {
            None => r is Ok
                && final(workflow).operations@ == old(workflow).operations@
                && final(workflow).state == old(workflow).state,
            Some(Ok(op)) => r is Ok
                && final(workflow).operations@ == old(workflow).operations@.push(op)
                && final(workflow).state == PipelineState::OperationsAppended,
            Some(Err(m)) => (r matches Err(e) && e@ == m)
                && final(workflow).operations@ == old(workflow).operations@
                && final(workflow).state == old(workflow).state,
        },
{
    if crate::text::str_eq(argument, "flip") {
        append_op(workflow, Operation::Flip);
        Ok(())
    } else if crate::text::str_eq(argument, "grayscale") {
        append_op(workflow, Operation::Colorspace { to: ColorSpace::Luma });
        Ok(())
    } else if crate::text::str_eq(argument, "transpose") {
        append_op(workflow, Operation::Transpose);
        Ok(())
    } else if crate::text::str_eq(argument, "flop") {
        append_op(workflow, Operation::Flop);
        Ok(())
    } else if crate::text::str_eq(argument, "median") {
        match args.value_at(argument, 0) {
            Some(ArgValue::Unsigned(radius)) => {
                append_op(workflow, Operation::Median { radius: *radius });
                Ok(())
            },
            _ => Err(malformed(argument)),
        }
    } else if crate::text::str_eq(argument, "statistic") {
        let v0 = args.value_at(argument, 0);
        let v1 = args.value_at(argument, 1);
        match (v0, v1) {
            (Some(ArgValue::Text(t0)), Some(ArgValue::Text(t1))) => {
                match crate::text::parse_usize(t0.as_str()) {
                    Ok(radius) => {
                        match StatisticOperations::from_string_result(t1.as_str()) {
                            Ok(mode) => {
                                append_op(workflow, Operation::Statistic { radius, mode });
                                Ok(())
                            },
                            Err(m) => Err(m),
                        }
                    },
                    Err(e) => Err(e.message()),
                }
            },
            _ => Err(malformed(argument)),
        }
    } else if crate::text::str_eq(argument, "mirror") {
        match args.value_at(argument, 0) {
            Some(ArgValue::Text(t)) => {
                let value = crate::text::trim_ascii(t.as_str());
                if crate::text::str_eq(value.as_str(), "north") {
                    append_op(workflow, Operation::Mirror { mode: MirrorMode::North });
                    Ok(())
                } else if crate::text::str_eq(value.as_str(), "south") {
                    append_op(workflow, Operation::Mirror { mode: MirrorMode::South });
                    Ok(())
                } else if crate::text::str_eq(value.as_str(), "east") {
                    append_op(workflow, Operation::Mirror { mode: MirrorMode::East });
                    Ok(())
                } else if crate::text::str_eq(value.as_str(), "west") {
                    append_op(workflow, Operation::Mirror { mode: MirrorMode::West });
                    Ok(())
                } else {
                    let mut m = "Unknown mirror mode \"".to_owned();
                    m.append(value.as_str());
                    m.append("\"");
                    Err(m)
                }
            },
            _ => Err(malformed(argument)),
        }
    } else if crate::text::str_eq(argument, "invert") {
        append_op(workflow, Operation::Invert);
        Ok(())
    } else if crate::text::str_eq(argument, "brighten") {
        match args.value_at(argument, 0) {
            Some(ArgValue::RealBits(b)) => {
                append_op(workflow, Operation::Brighten { value_bits: *b });
                Ok(())
            },
            _ => Err(malformed(argument)),
        }
    } else if crate::text::str_eq(argument, "crop") {
        let v0 = args.value_at(argument, 0);
        let v1 = args.value_at(argument, 1);
        let v2 = args.value_at(argument, 2);
        let v3 = args.value_at(argument, 3);
        match (v0, v1, v2, v3) {
            (
                Some(ArgValue::Unsigned(w)),
                Some(ArgValue::Unsigned(h)),
                Some(ArgValue::Unsigned(x)),
                Some(ArgValue::Unsigned(y)),
            ) => {
                append_op(
                    workflow,
                    Operation::Crop { width: *w, height: *h, x: *x, y: *y },
                );
                Ok(())
            },
            _ => Err(malformed(argument)),
        }
    } else if crate::text::str_eq(argument, "threshold") {
        let v0 = args.value_at(argument, 0);
        let v1 = args.value_at(argument, 1);
        match (v0, v1) {
            (Some(ArgValue::Text(t0)), Some(ArgValue::Text(t1))) => {
                match crate::text::parse_u16(t0.as_str()) {
                    Ok(value) => {
                        match ThresholdMethod::from_string_result(t1.as_str()) {
                            Ok(method) => {
                                append_op(workflow, Operation::Threshold { value, method });
                                Ok(())
                            },
                            Err(m) => Err(m),
                        }
                    },
                    Err(e) => Err(e.message()),
                }
            },
            _ => Err(malformed(argument)),
        }
    } else if crate::text::str_eq(argument, "stretch_contrast") {
        let v0 = args.value_at(argument, 0);
        let v1 = args.value_at(argument, 1);
        match (v0, v1) {
            (Some(ArgValue::Unsigned16(lower)), Some(ArgValue::Unsigned16(upper))) => {
                append_op(workflow, Operation::StretchContrast { lower: *lower, upper: *upper });
                Ok(())
            },
            _ => Err(malformed(argument)),
        }
    } else if crate::text::str_eq(argument, "gamma") {
        match args.value_at(argument, 0) {
            Some(ArgValue::RealBits(b)) => {
                append_op(workflow, Operation::Gamma { value_bits: *b });
                Ok(())
            },
            _ => Err(malformed(argument)),
        }
    } else if crate::text::str_eq(argument, "contrast") {
        match args.value_at(argument, 0) {
            Some(ArgValue::RealBits(b)) => {
                append_op(workflow, Operation::Contrast { value_bits: *b });
                Ok(())
            },
            _ => Err(malformed(argument)),
        }
    } else if crate::text::str_eq(argument, "resize") {
        let v0 = args.value_at(argument, 0);
        let v1 = args.value_at(argument, 1);
        match (v0, v1) {
            (Some(ArgValue::Unsigned(w)), Some(ArgValue::Unsigned(h))) => {
                append_op(workflow, Operation::Resize { width: *w, height: *h });
                Ok(())
            },
            _ => Err(malformed(argument)),
        }
    } else if crate::text::str_eq(argument, "depth") {
        match args.value_at(argument, 0) {
            Some(ArgValue::Unsigned8(v)) => {
                if *v == 8 {
                    append_op(workflow, Operation::Depth { depth: BitDepth::Eight });
                    Ok(())
                } else if *v == 16 {
                    append_op(workflow, Operation::Depth { depth: BitDepth::Sixteen });
                    Ok(())
                } else {
                    let mut m = "Unknown depth value ".to_owned();
                    let d = crate::text::u64_to_string(*v as u64);
                    m.append(d.as_str());
                    m.append(", supported depths are 8 and 16");
                    Err(m)
                }
            },
            _ => Err(malformed(argument)),
        }
    } else if crate::text::str_eq(argument, "colorspace") {
        match args.value_at(argument, 0) {
            Some(ArgValue::Color(c)) => {
                append_op(workflow, Operation::Colorspace { to: *c });
                Ok(())
            },
            _ => Err(malformed(argument)),
        }
    } else if crate::text::str_eq(argument, "auto-orient") {
        append_op(workflow, Operation::AutoOrient);
        Ok(())
    } else if crate::text::str_eq(argument, "exposure") {
        match args.value_at(argument, 0) {
            Some(ArgValue::RealBits(b)) => {
                append_op(workflow, Operation::Exposure { value_bits: *b });
                Ok(())
            },
            _ => Err(malformed(argument)),
        }
    } else if crate::text::str_eq(argument, "h-flip") {
        append_op(workflow, Operation::HorizontalFlip);
        Ok(())
    } else {
        Ok(())
    }
}

/// The chain that building over a sequence of entries produces: each
/// explicitly supplied identifier is resolved in turn, in entry order;
/// constructed operations accumulate onto `ops`; the first malformed
/// identifier aborts the build with its diagnostic.
pub open spec fn spec_build_chain(
    entries: Seq<CmdEntry>,
    args: CmdArgs,
    ops: Seq<Operation>,
) -> Result<Seq<Operation>, Seq<char>>
    decreases entries.len(),
{
    if entries.len() == 0 {
        Ok(ops)
    } else {
        let e = entries.first();
        if !e.from_command_line {
            spec_build_chain(entries.drop_first(), args, ops)
        } else {
            match spec_resolve(e.id@, args) {
                None => spec_build_chain(entries.drop_first(), args, ops),
                Some(Ok(op)) => spec_build_chain(entries.drop_first(), args, ops.push(op)),
                Some(Err(m)) => Err(m),
            }
        }
    }
}

/// The operations a failing build leaves behind: everything resolved
/// before the first malformed identifier stays appended, as the build
/// aborts in place.
pub open spec fn spec_build_partial(
    entries: Seq<CmdEntry>,
    args: CmdArgs,
    ops: Seq<Operation>,
) -> Seq<Operation>
    decreases entries.len(),
{
    if entries.len() == 0 {
        ops
    } else {
        let e = entries.first();
        if !e.from_command_line {
            spec_build_partial(entries.drop_first(), args, ops)
        } else {
            match spec_resolve(e.id@, args) {
                None => spec_build_partial(entries.drop_first(), args, ops),
                Some(Ok(op)) => spec_build_partial(entries.drop_first(), args, ops.push(op)),
                Some(Err(m)) => ops,
            }
        }
    }
}

/// Walks every argument entry in command-line order and appends each
/// operation an explicitly supplied identifier resolves to, so the chain
/// order equals the command-line order. Entries not supplied on the
/// command line are skipped. The first malformed identifier aborts the
/// build with its diagnostic.
pub fn add_operations(args: &CmdArgs, workflow: &mut Pipeline) -> (r: Result<(), String>)
    requires
        old(workflow).wf(),
        old(workflow).state == PipelineState::DecoderChained || old(workflow).state
            == PipelineState::OperationsAppended,
    ensures
        final(workflow).wf(),
        final(workflow).state == PipelineState::DecoderChained || final(workflow).state
            == PipelineState::OperationsAppended,
        final(workflow).decoder == old(workflow).decoder,
        final(workflow).images@ == old(workflow).images@,
        match spec_build_chain(args.entries@, *args, old(workflow).operations@) {
            Ok(ops) => r is Ok && final(workflow).operations@ == ops,
            Err(m) => (r matches Err(e) && e@ == m) && final(workflow).operations@
                == spec_build_partial(args.entries@, *args, old(workflow).operations@),
        },
{
    let ghost all = args.entries@;
    proof {
        assert(all.subrange(0, all.len() as int) =~= all);
    }
    let mut i: usize = 0;
    while i < args.entries.len()
        invariant
            all == args.entries@,
            0 <= i <= all.len(),
            workflow.wf(),
            workflow.state == PipelineState::DecoderChained || workflow.state
                == PipelineState::OperationsAppended,
            workflow.decoder == old(workflow).decoder,
            workflow.images@ == old(workflow).images@,
            spec_build_chain(all, *args, old(workflow).operations@) == spec_build_chain(
                all.subrange(i as int, all.len() as int),
                *args,
                workflow.operations@,
            ),
            spec_build_partial(all, *args, old(workflow).operations@) == spec_build_partial(
                all.subrange(i as int, all.len() as int),
                *args,
                workflow.operations@,
            ),
        decreases all.len() - i,
    {
        proof {
            let tail = all.subrange(i as int, all.len() as int);
            assert(tail.first() == all[i as int]);
            assert(tail.drop_first() =~= all.subrange(i as int + 1, all.len() as int));
        }
        let entry = &args.entries[i];
        if entry.from_command_line {
            match parse_options(workflow, entry.id.as_str(), args) {
                Ok(_) => {},
                Err(m) => {
                    return Err(m);
                },
            }
        }
        i = i + 1;
    }
    proof {
        assert(all.subrange(all.len() as int, all.len() as int) =~= Seq::<CmdEntry>::empty());
    }
    Ok(())
}

} // verus!
