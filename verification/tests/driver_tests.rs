use zune_workflow::args::{ArgValue, CmdArgs, CmdEntry};
use zune_workflow::color::{BitDepth, ColorSpace};
use zune_workflow::dispatch::{plan_targets, TargetPlan};
use zune_workflow::driver::run_source;
use zune_workflow::errors::ImageErrors;
use zune_workflow::format::ImageFormat;
use zune_workflow::image::Image;
use zune_workflow::pipeline::{Decoder, PipelineState};

fn entry(id: &str, values: Vec<ArgValue>) -> CmdEntry {
    CmdEntry {
        id: id.to_string(),
        from_command_line: true,
        values,
    }
}

fn no_args() -> CmdArgs {
    CmdArgs { entries: vec![] }
}

fn rgb(width: usize, height: usize) -> Image {
    Image::new(width, height, ColorSpace::Rgb, BitDepth::Eight)
}

#[test]
fn a_ppm_source_resizes_grayscales_and_fans_out_to_file_and_stream() {
    let prefix: Vec<u8> = b"P6 200 100 255 ".to_vec();
    let decoder = Decoder::new(Ok(vec![rgb(200, 100)]));
    let args = CmdArgs {
        entries: vec![
            entry("resize", vec![ArgValue::Unsigned(100), ArgValue::Unsigned(50)]),
            entry("grayscale", vec![]),
        ],
    };
    let outputs = vec!["b.png".to_string(), "-".to_string()];
    let (workflow, plan) = run_source(
        &prefix,
        decoder,
        &args,
        &outputs,
        Some(ImageFormat::Png),
    )
    .unwrap();

    assert_eq!(workflow.inner.state, PipelineState::Advanced);
    assert_eq!(
        workflow.inner.images().unwrap(),
        &vec![Image::new(100, 50, ColorSpace::Luma, BitDepth::Eight)]
    );
    assert_eq!(workflow.formats, vec![ImageFormat::Png]);
    assert_eq!(
        plan,
        vec![
            TargetPlan::FileEncode {
                name: "b.png".to_string(),
                format: ImageFormat::Png,
                image_count: 1,
            },
            TargetPlan::StreamEncode { format: ImageFormat::Png, image_count: 1 },
        ]
    );
}

#[test]
fn a_zero_byte_source_reports_no_decoder_and_plans_nothing() {
    let prefix: Vec<u8> = vec![];
    let decoder = Decoder::new(Ok(vec![rgb(1, 1)]));
    let outputs = vec!["out.png".to_string()];
    let r = run_source(&prefix, decoder, &no_args(), &outputs, None);
    assert_eq!(
        r,
        Err(ImageErrors::ImageDecoderNotIncluded(ImageFormat::Unknown))
    );
}

#[test]
fn unrecognised_leading_bytes_report_no_decoder() {
    let prefix: Vec<u8> = b"plain text, no magic".to_vec();
    let decoder = Decoder::new(Ok(vec![rgb(1, 1)]));
    let r = run_source(&prefix, decoder, &no_args(), &vec![], None);
    assert_eq!(
        r,
        Err(ImageErrors::ImageDecoderNotIncluded(ImageFormat::Unknown))
    );
}

#[test]
fn a_recognised_format_without_a_decoder_is_a_distinct_error() {
    let prefix: Vec<u8> = vec![0xff, 0x0a, 0x33];
    let decoder = Decoder::new(Ok(vec![rgb(1, 1)]));
    let r = run_source(&prefix, decoder, &no_args(), &vec![], None);
    assert_eq!(
        r,
        Err(ImageErrors::ImageDecoderNotImplemented(ImageFormat::JpegXl))
    );
}

#[test]
fn a_malformed_chain_parameter_is_fatal_to_the_source() {
    let prefix: Vec<u8> = b"qoif".to_vec();
    let decoder = Decoder::new(Ok(vec![rgb(4, 4)]));
    let args = CmdArgs {
        entries: vec![entry("depth", vec![ArgValue::Unsigned8(12)])],
    };
    let r = run_source(&prefix, decoder, &args, &vec![], None);
    assert_eq!(
        r,
        Err(ImageErrors::GenericString(
            "Unknown depth value 12, supported depths are 8 and 16".to_string()
        ))
    );
}

#[test]
fn a_failing_operation_is_fatal_to_the_source() {
    let prefix: Vec<u8> = b"qoif".to_vec();
    let decoder = Decoder::new(Ok(vec![rgb(4, 4)]));
    let args = CmdArgs {
        entries: vec![entry(
            "crop",
            vec![
                ArgValue::Unsigned(10),
                ArgValue::Unsigned(10),
                ArgValue::Unsigned(0),
                ArgValue::Unsigned(0),
            ],
        )],
    };
    let r = run_source(&prefix, decoder, &args, &vec![], None);
    assert_eq!(
        r,
        Err(ImageErrors::OperationsErrors(
            "crop region exceeds the image bounds".to_string()
        ))
    );
}

#[test]
fn a_decoder_failure_is_fatal_to_the_source() {
    let prefix: Vec<u8> = b"BM".to_vec();
    let decoder = Decoder::new(Err("corrupt header".to_string()));
    let r = run_source(&prefix, decoder, &no_args(), &vec![], None);
    assert_eq!(
        r,
        Err(ImageErrors::DecodeErrors("corrupt header".to_string()))
    );
}

#[test]
fn one_bad_target_never_disturbs_a_valid_neighbour() {
    let prefix: Vec<u8> = b"qoif".to_vec();
    let decoder = Decoder::new(Ok(vec![rgb(4, 4)]));
    let outputs = vec![
        "-".to_string(),
        "kept.qoi".to_string(),
        "noext".to_string(),
        "odd.xyz".to_string(),
    ];
    let (_, plan) = run_source(&prefix, decoder, &no_args(), &outputs, None).unwrap();
    assert_eq!(plan.len(), 4);
    assert_eq!(plan[0], TargetPlan::StreamMissingFormat);
    assert_eq!(
        plan[1],
        TargetPlan::FileEncode {
            name: "kept.qoi".to_string(),
            format: ImageFormat::Qoi,
            image_count: 1,
        }
    );
    assert_eq!(plan[2], TargetPlan::MissingExtension { name: "noext".to_string() });
    assert_eq!(plan[3], TargetPlan::UnresolvedExtension { name: "odd.xyz".to_string() });
}

#[test]
fn the_valid_target_resolves_the_same_whichever_neighbours_it_has() {
    let with_bad_first = plan_targets(
        &vec!["-".to_string(), "kept.qoi".to_string()],
        None,
        1,
    );
    let alone = plan_targets(&vec!["kept.qoi".to_string()], None, 1);
    assert_eq!(with_bad_first[1], alone[0]);
}

#[test]
fn stream_targets_demand_an_explicit_format() {
    let plan = plan_targets(&vec!["-".to_string()], None, 2);
    assert_eq!(plan, vec![TargetPlan::StreamMissingFormat]);
    let plan = plan_targets(&vec!["-".to_string()], Some(ImageFormat::Ppm), 2);
    assert_eq!(
        plan,
        vec![TargetPlan::StreamEncode { format: ImageFormat::Ppm, image_count: 2 }]
    );
}

#[test]
fn resolved_formats_skip_what_the_plan_reports() {
    let prefix: Vec<u8> = b"qoif".to_vec();
    let decoder = Decoder::new(Ok(vec![rgb(4, 4)]));
    let outputs = vec![
        "a.ppm".to_string(),
        "-".to_string(),
        "weird.xyz".to_string(),
        "b.hdr".to_string(),
    ];
    let (workflow, _) = run_source(&prefix, decoder, &no_args(), &outputs, None).unwrap();
    assert_eq!(workflow.formats, vec![ImageFormat::Ppm, ImageFormat::Hdr]);
}
