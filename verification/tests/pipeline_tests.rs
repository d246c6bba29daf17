use zune_workflow::color::{BitDepth, ColorSpace};
use zune_workflow::errors::ImageErrors;
use zune_workflow::image::Image;
use zune_workflow::ops::Operation;
use zune_workflow::pipeline::{CmdPipeline, Decoder, Pipeline, PipelineState};

fn rgb(width: usize, height: usize) -> Image {
    Image::new(width, height, ColorSpace::Rgb, BitDepth::Eight)
}

#[test]
fn a_fresh_pipeline_is_empty() {
    let p = Pipeline::new();
    assert_eq!(p.state, PipelineState::Empty);
    assert!(p.operations.is_empty());
    assert!(p.images.is_empty());
}

#[test]
fn cmd_pipeline_starts_with_no_formats() {
    let w = CmdPipeline::new();
    assert_eq!(w.inner.state, PipelineState::Empty);
    assert!(w.formats.is_empty());
}

#[test]
fn chaining_a_decoder_moves_to_decoder_chained() {
    let mut p = Pipeline::new();
    p.chain_decoder(Decoder::new(Ok(vec![rgb(4, 4)]))).unwrap();
    assert_eq!(p.state, PipelineState::DecoderChained);
}

#[test]
fn chaining_twice_is_rejected_and_changes_nothing() {
    let mut p = Pipeline::new();
    p.chain_decoder(Decoder::new(Ok(vec![rgb(4, 4)]))).unwrap();
    let r = p.chain_decoder(Decoder::new(Ok(vec![rgb(9, 9)])));
    assert_eq!(
        r,
        Err(ImageErrors::PipelineOutOfOrder(PipelineState::DecoderChained))
    );
    assert_eq!(p.state, PipelineState::DecoderChained);
}

#[test]
fn operations_cannot_precede_the_decoder() {
    let mut p = Pipeline::new();
    let r = p.add_operation(Operation::Flip);
    assert_eq!(r, Err(ImageErrors::PipelineOutOfOrder(PipelineState::Empty)));
}

#[test]
fn advancing_an_empty_pipeline_is_rejected() {
    let mut p = Pipeline::new();
    let r = p.advance_to_end();
    assert_eq!(r, Err(ImageErrors::PipelineOutOfOrder(PipelineState::Empty)));
}

#[test]
fn advancing_without_operations_yields_the_decoded_images() {
    let mut p = Pipeline::new();
    p.chain_decoder(Decoder::new(Ok(vec![rgb(8, 6)]))).unwrap();
    p.advance_to_end().unwrap();
    assert_eq!(p.state, PipelineState::Advanced);
    assert_eq!(p.images().unwrap(), &vec![rgb(8, 6)]);
}

#[test]
fn advancing_twice_is_rejected() {
    let mut p = Pipeline::new();
    p.chain_decoder(Decoder::new(Ok(vec![rgb(8, 6)]))).unwrap();
    p.advance_to_end().unwrap();
    let r = p.advance_to_end();
    assert_eq!(
        r,
        Err(ImageErrors::PipelineOutOfOrder(PipelineState::Advanced))
    );
}

#[test]
fn a_decode_failure_propagates_and_produces_no_images() {
    let mut p = Pipeline::new();
    p.chain_decoder(Decoder::new(Err("truncated stream".to_string())))
        .unwrap();
    let r = p.advance_to_end();
    assert_eq!(r, Err(ImageErrors::DecodeErrors("truncated stream".to_string())));
    assert_ne!(p.state, PipelineState::Advanced);
    assert!(p.images().is_err());
}

#[test]
fn operations_apply_in_append_order() {
    // Resizing down first makes the later out-of-bounds crop fail; the
    // reverse order succeeds, so the two orders are observably different.
    let mut p = Pipeline::new();
    p.chain_decoder(Decoder::new(Ok(vec![rgb(100, 100)]))).unwrap();
    p.add_operation(Operation::Resize { width: 10, height: 10 }).unwrap();
    p.add_operation(Operation::Crop { width: 5, height: 5, x: 6, y: 6 }).unwrap();
    let r = p.advance_to_end();
    assert_eq!(
        r,
        Err(ImageErrors::OperationsErrors(
            "crop region exceeds the image bounds".to_string()
        ))
    );

    let mut q = Pipeline::new();
    q.chain_decoder(Decoder::new(Ok(vec![rgb(100, 100)]))).unwrap();
    q.add_operation(Operation::Crop { width: 5, height: 5, x: 6, y: 6 }).unwrap();
    q.add_operation(Operation::Resize { width: 10, height: 10 }).unwrap();
    q.advance_to_end().unwrap();
    assert_eq!(q.images().unwrap(), &vec![rgb(10, 10)]);
}

#[test]
fn a_transpose_swaps_the_dimensions() {
    let mut p = Pipeline::new();
    p.chain_decoder(Decoder::new(Ok(vec![rgb(30, 20)]))).unwrap();
    p.add_operation(Operation::Transpose).unwrap();
    p.advance_to_end().unwrap();
    assert_eq!(p.images().unwrap(), &vec![rgb(20, 30)]);
}

#[test]
fn depth_and_colorspace_conversions_set_their_tags() {
    let mut p = Pipeline::new();
    p.chain_decoder(Decoder::new(Ok(vec![rgb(4, 4)]))).unwrap();
    p.add_operation(Operation::Depth { depth: BitDepth::Sixteen }).unwrap();
    p.add_operation(Operation::Colorspace { to: ColorSpace::Luma }).unwrap();
    p.advance_to_end().unwrap();
    assert_eq!(
        p.images().unwrap(),
        &vec![Image::new(4, 4, ColorSpace::Luma, BitDepth::Sixteen)]
    );
}

#[test]
fn every_image_of_a_multi_frame_source_is_processed() {
    let mut p = Pipeline::new();
    p.chain_decoder(Decoder::new(Ok(vec![rgb(10, 10), rgb(20, 20)]))).unwrap();
    p.add_operation(Operation::Resize { width: 3, height: 4 }).unwrap();
    p.advance_to_end().unwrap();
    assert_eq!(p.images().unwrap(), &vec![rgb(3, 4), rgb(3, 4)]);
}

#[test]
fn a_mid_chain_failure_aborts_the_remaining_operations() {
    let mut p = Pipeline::new();
    p.chain_decoder(Decoder::new(Ok(vec![rgb(10, 10)]))).unwrap();
    p.add_operation(Operation::Crop { width: 50, height: 50, x: 0, y: 0 }).unwrap();
    p.add_operation(Operation::Colorspace { to: ColorSpace::Luma }).unwrap();
    let r = p.advance_to_end();
    assert!(matches!(r, Err(ImageErrors::OperationsErrors(_))));
    assert!(p.images().is_err());
}

#[test]
fn reading_the_images_twice_gives_equal_results() {
    let mut p = Pipeline::new();
    p.chain_decoder(Decoder::new(Ok(vec![rgb(7, 7)]))).unwrap();
    p.add_operation(Operation::Flip).unwrap();
    p.advance_to_end().unwrap();
    let first = p.images().unwrap().clone();
    let second = p.images().unwrap().clone();
    assert_eq!(first, second);
    assert_eq!(p.state, PipelineState::Advanced);
}

#[test]
fn images_are_unavailable_before_advancing() {
    let mut p = Pipeline::new();
    p.chain_decoder(Decoder::new(Ok(vec![rgb(7, 7)]))).unwrap();
    let r = p.images();
    assert_eq!(
        r,
        Err(ImageErrors::PipelineOutOfOrder(PipelineState::DecoderChained))
    );
}
