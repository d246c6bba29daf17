//! The pipeline state machine: a per-source aggregate of one decoder
//! handle, an ordered operation chain and the produced image set, advanced
//! through checked, forward-only transitions. Chain construction is
//! declarative; decode and the operation chain execute only in
//! `advance_to_end`, so a chain is fully validated before any decode cost
//! is paid and a mid-chain failure aborts before anything is encoded.

use vstd::prelude::*;
use crate::errors::ImageErrors;
use crate::format::ImageFormat;
use crate::image::Image;
use crate::ops::{apply_operation, crop_bounds_message, spec_apply_ok, spec_apply_result, Operation};

verus! {

/// Where a pipeline stands in its forward-only lifecycle.
#[derive(Clone, Copy, PartialEq, Eq, Structural, Debug)]
pub enum PipelineState {
    Empty,
    DecoderChained,
    OperationsAppended,
    Advanced,
}

/// A decoder handle: the capability "decode a byte source into one or more
/// images" as the pipeline consumes it. The byte-level decoding algorithm
/// is a codec collaborator's work; a handle carries the outcome its codec
/// produces for its source, and the pipeline invokes it exactly once.
#[derive(PartialEq, Debug)]
pub struct Decoder {
    pub outcome: Result<Vec<Image>, String>,
}

impl Decoder {
    /// Wraps a decode outcome as a capability object.
    pub fn new(outcome: Result<Vec<Image>, String>) -> (r: Decoder)
        ensures
            r.outcome == outcome,
    {
        Decoder { outcome }
    }

    /// Invokes the capability: yields the images the codec produced, or
    /// its failure.
    pub fn decode(&self) -> (r: Result<Vec<Image>, String>)
        ensures
            match self.outcome {
                Ok(v) => r matches Ok(w) && w@ == v@,
                Err(m) => r matches Err(e) && e@ == m@,
            },
    {
        match &self.outcome {
            Ok(v) => {
                let mut w: Vec<Image> = Vec::new();
                let mut i: usize = 0;
                while i < v.len()
                    invariant
                        i <= v.len(),
                        w@ == v@.subrange(0, i as int),
                    decreases v.len() - i,
                {
                    w.push(v[i]);
                    i = i + 1;
                    proof {
                        assert(w@ =~= v@.subrange(0, i as int));
                    }
                }
                proof {
                    assert(w@ =~= v@);
                }
                Ok(w)
            },
            Err(m) => Err(m.clone()),
        }
    }
}

/// The result of applying one operation to every image of a set, in image
/// order, short-circuiting at the first failure.
pub open spec fn apply_all_spec(op: Operation, imgs: Seq<Image>) -> Result<Seq<Image>, Seq<char>>
    decreases imgs.len(),
{
    if imgs.len() == 0 {
        Ok(Seq::empty())
    } else {
        match apply_all_spec(op, imgs.drop_last()) {
            Ok(rest) => if spec_apply_ok(op, imgs.last()) {
                Ok(rest.push(spec_apply_result(op, imgs.last())))
            } else {
                Err(crop_bounds_message())
            },
            Err(m) => Err(m),
        }
    }
}

/// The result of running an operation chain over an image set: the
/// operations apply in exactly chain order, each to every image, and the
/// first failing operation aborts the rest of the chain.
pub open spec fn chain_spec(ops: Seq<Operation>, imgs: Seq<Image>) -> Result<
    Seq<Image>,
    Seq<char>,
>
    decreases ops.len(),
{
    if ops.len() == 0 {
        Ok(imgs)
    } else {
        match apply_all_spec(ops.first(), imgs) {
            Ok(next) => chain_spec(ops.drop_first(), next),
            Err(m) => Err(m),
        }
    }
}

/// Every failure of a single operation pass carries the crop diagnostic,
/// the one way an operation of the closed set can fail.
proof fn lemma_apply_all_err_message(op: Operation, imgs: Seq<Image>)
    requires
        apply_all_spec(op, imgs) is Err,
    ensures
        apply_all_spec(op, imgs) == Err::<Seq<Image>, Seq<char>>(crop_bounds_message()),
    decreases imgs.len(),
{
    if imgs.len() > 0 {
        if apply_all_spec(op, imgs.drop_last()) is Err {
            lemma_apply_all_err_message(op, imgs.drop_last());
        }
    }
}

/// A pass fails as soon as any image of the set rejects the operation.
proof fn lemma_apply_all_err_at(op: Operation, imgs: Seq<Image>, i: int)
    requires
        0 <= i < imgs.len(),
        !spec_apply_ok(op, imgs[i]),
    ensures
        apply_all_spec(op, imgs) == Err::<Seq<Image>, Seq<char>>(crop_bounds_message()),
    decreases imgs.len(),
{
    if i == imgs.len() - 1 {
        if apply_all_spec(op, imgs.drop_last()) is Err {
            lemma_apply_all_err_message(op, imgs.drop_last());
        }
    } else {
        lemma_apply_all_err_at(op, imgs.drop_last(), i);
    }
}

/// The per-source pipeline: decoder handle, ordered operation chain and
/// produced image set, guarded by a forward-only state.
#[derive(PartialEq, Debug)]
pub struct Pipeline {
    pub state: PipelineState,
    pub decoder: Option<Decoder>,
    pub operations: Vec<Operation>,
    pub images: Vec<Image>,
}

impl Pipeline {
    /// A pipeline's well-formedness: the state word truthfully describes
    /// which fields are populated. Constructors establish it and every
    /// transition preserves it.
    pub open spec fn wf(self) -> bool {
        &&& (self.state == PipelineState::Empty ==> self.decoder is None
            && self.operations@.len() == 0 && self.images@.len() == 0)
        &&& (self.state == PipelineState::DecoderChained ==> self.decoder is Some
            && self.images@.len() == 0)
        &&& (self.state == PipelineState::OperationsAppended ==> self.decoder is Some
            && self.images@.len() == 0)
        &&& (self.state == PipelineState::Advanced ==> self.decoder is Some)
    }

    /// Creates an empty pipeline, the `Empty` state of the lifecycle.
    pub fn new() -> (r: Pipeline)
        ensures
            r.wf(),
            r.state == PipelineState::Empty,
            r.decoder is None,
            r.operations@ == Seq::<Operation>::empty(),
            r.images@ == Seq::<Image>::empty(),
    {
        Pipeline { state: PipelineState::Empty, decoder: None, operations: Vec::new(), images: Vec::new() }
    }

    /// Chains the decoder handle: valid only from `Empty`, and therefore
    /// at most once per pipeline; any other state is reported and leaves
    /// the pipeline unchanged.
    pub fn chain_decoder(&mut self, d: Decoder) -> (r: Result<(), ImageErrors>)
        requires
            old(self).wf(),
        ensures
            final(self).wf(),
            old(self).state == PipelineState::Empty ==> r is Ok
                && final(self).state == PipelineState::DecoderChained
                && final(self).decoder == Some(d)
                && final(self).operations@ == old(self).operations@
                && final(self).images@ == old(self).images@,
            old(self).state != PipelineState::Empty ==> r == Err::<(), ImageErrors>(
                ImageErrors::PipelineOutOfOrder(old(self).state),
            ) && *final(self) == *old(self),
    {
        match self.state {
            PipelineState::Empty => {
                self.decoder = Some(d);
                self.state = PipelineState::DecoderChained;
                Ok(())
            },
            s => Err(ImageErrors::PipelineOutOfOrder(s)),
        }
    }

    /// Appends one operation to the chain: valid once a decoder is
    /// chained and until the pipeline advances; order of appends is
    /// preserved and equals the order operations later apply.
    pub fn add_operation(&mut self, op: Operation) -> (r: Result<(), ImageErrors>)
        requires
            old(self).wf(),
        ensures
            final(self).wf(),
            (old(self).state == PipelineState::DecoderChained || old(self).state
                == PipelineState::OperationsAppended) ==> r is Ok
                && final(self).state == PipelineState::OperationsAppended
                && final(self).operations@ == old(self).operations@.push(op)
                && final(self).decoder == old(self).decoder
                && final(self).images@ == old(self).images@,
            !(old(self).state == PipelineState::DecoderChained || old(self).state
                == PipelineState::OperationsAppended) ==> r == Err::<(), ImageErrors>(
                ImageErrors::PipelineOutOfOrder(old(self).state),
            ) && *final(self) == *old(self),
    {
        match self.state {
            PipelineState::DecoderChained | PipelineState::OperationsAppended => {
                self.operations.push(op);
                self.state = PipelineState::OperationsAppended;
                Ok(())
            },
            s => Err(ImageErrors::PipelineOutOfOrder(s)),
        }
    }

    /// Executes the pipeline: decodes through the chained handle, then
    /// applies every operation in append order, each to every image,
    /// short-circuiting on the first failure; on success stores the
    /// produced image set and moves to `Advanced`. This is the only point
    /// where decode and the chain actually run. A decode or chain failure
    /// leaves the pipeline unchanged, so nothing half-transformed can ever
    /// be encoded.
    pub fn advance_to_end(&mut self) -> (r: Result<(), ImageErrors>)
        requires
            old(self).wf(),
        ensures
            final(self).wf(),
            !(old(self).state == PipelineState::DecoderChained || old(self).state
                == PipelineState::OperationsAppended) ==> r == Err::<(), ImageErrors>(
                ImageErrors::PipelineOutOfOrder(old(self).state),
            ) && *final(self) == *old(self),
            (old(self).state == PipelineState::DecoderChained || old(self).state
                == PipelineState::OperationsAppended) ==> match old(self).decoder {
                Some(d) => match d.outcome {
                    Err(m) => (r matches Err(e) && e matches ImageErrors::DecodeErrors(t) && t@
                        == m@) && *final(self) == *old(self),
                    Ok(decoded) => match chain_spec(old(self).operations@, decoded@) {
                        Ok(produced) => r is Ok && final(self).state == PipelineState::Advanced
                            && final(self).images@ == produced
                            && final(self).operations@ == old(self).operations@
                            && final(self).decoder == old(self).decoder,
                        Err(m) => (r matches Err(e) && e matches ImageErrors::OperationsErrors(t)
                            && t@ == m) && *final(self) == *old(self),
                    },
                },
                None => false,
            },
    {
        match self.state {
            PipelineState::DecoderChained | PipelineState::OperationsAppended => {},
            s => {
                return Err(ImageErrors::PipelineOutOfOrder(s));
            },
        }
        let decoded = match &self.decoder {
            Some(d) => d.decode(),
            None => {
                proof {
                    assert(false);
                }
                vstd::pervasive::unreached()
            },
        };
        let ghost initial: Seq<Image> = match old(self).decoder {
            Some(d) => match d.outcome {
                Ok(v) => v@,
                Err(_) => Seq::empty(),
            },
            None => Seq::empty(),
        };
        let mut current: Vec<Image> = match decoded {
            Ok(v) => v,
            Err(m) => {
                return Err(ImageErrors::DecodeErrors(m));
            },
        };
        let ghost ops = self.operations@;
        proof {
            assert(ops.subrange(0, ops.len() as int) =~= ops);
        }
        let mut oi: usize = 0;
        while oi < self.operations.len()
            invariant
                *self == *old(self),
                self.wf(),
                old(self).state == PipelineState::DecoderChained || old(self).state
                    == PipelineState::OperationsAppended,
                (match old(self).decoder {
                    Some(d) => d.outcome matches Ok(v) && v@ == initial,
                    None => false,
                }),
                ops == self.operations@,
                0 <= oi <= ops.len(),
                chain_spec(ops, initial) == chain_spec(
                    ops.subrange(oi as int, ops.len() as int),
                    current@,
                ),
            decreases ops.len() - oi,
        {
            let op = self.operations[oi];
            let ghost before = current@;
            let mut next: Vec<Image> = Vec::new();
            let mut ii: usize = 0;
            while ii < current.len()
                invariant
                    *self == *old(self),
                    self.wf(),
                    old(self).state == PipelineState::DecoderChained || old(self).state
                        == PipelineState::OperationsAppended,
                    (match old(self).decoder {
                        Some(d) => d.outcome matches Ok(v) && v@ == initial,
                        None => false,
                    }),
                    ops == self.operations@,
                    0 <= oi < ops.len(),
                    op == ops[oi as int],
                    before == current@,
                    0 <= ii <= before.len(),
                    apply_all_spec(op, before.subrange(0, ii as int)) == Ok::<
                        Seq<Image>,
                        Seq<char>,
                    >(next@),
                    chain_spec(ops, initial) == chain_spec(
                        ops.subrange(oi as int, ops.len() as int),
                        before,
                    ),
                decreases before.len() - ii,
            {
                let img = current[ii];
                match apply_operation(&op, &img) {
                    Ok(out) => {
                        next.push(out);
                        proof {
                            let upto = before.subrange(0, ii as int + 1);
                            assert(upto.drop_last() =~= before.subrange(0, ii as int));
                            assert(upto.last() == before[ii as int]);
                        }
                        ii = ii + 1;
                    },
                    Err(m) => {
                        proof {
                            lemma_apply_all_err_at(op, before, ii as int);
                            let tail = ops.subrange(oi as int, ops.len() as int);
                            assert(tail.first() == op);
                            assert(chain_spec(tail, before) == Err::<Seq<Image>, Seq<char>>(
                                crop_bounds_message(),
                            ));
                        }
                        return Err(ImageErrors::OperationsErrors(m));
                    },
                }
            }
            proof {
                assert(before.subrange(0, before.len() as int) =~= before);
                let tail = ops.subrange(oi as int, ops.len() as int);
                assert(tail.first() == op);
                assert(tail.drop_first() =~= ops.subrange(oi as int + 1, ops.len() as int));
            }
            current = next;
            oi = oi + 1;
        }
        proof {
            assert(ops.subrange(ops.len() as int, ops.len() as int) =~= Seq::<Operation>::empty());
        }
        self.images = current;
        self.state = PipelineState::Advanced;
        Ok(())
    }

    /// What a read of the produced image set yields: a value of the
    /// pipeline alone, present exactly after `Advanced`.
    pub open spec fn spec_images(self) -> Option<Seq<Image>> {
        if self.state == PipelineState::Advanced {
            Some(self.images@)
        } else {
            None
        }
    }

    /// A read-only view over the produced image set: valid only after
    /// `Advanced`, obtainable any number of times without consuming or
    /// mutating the pipeline.
    pub fn images(&self) -> (r: Result<&Vec<Image>, ImageErrors>)
        ensures
            self.state == PipelineState::Advanced ==> (r matches Ok(v) && v@ == self.images@
                && Some(v@) == self.spec_images()),
            self.state != PipelineState::Advanced ==> r == Err::<&Vec<Image>, ImageErrors>(
                ImageErrors::PipelineOutOfOrder(self.state),
            ) && self.spec_images() is None,
    {
        match self.state {
            PipelineState::Advanced => Ok(&self.images),
            s => Err(ImageErrors::PipelineOutOfOrder(s)),
        }
    }
}

/// Law: reading the image set is idempotent. The read is a pure function
/// of the pipeline value, so any two reads of an advanced pipeline yield
/// the same image set.
pub proof fn lemma_images_idempotent(p: Pipeline, r1: Option<Seq<Image>>, r2: Option<Seq<Image>>)
    requires
        r1 == p.spec_images(),
        r2 == p.spec_images(),
    ensures
        r1 == r2,
        p.state == PipelineState::Advanced ==> r1 == Some(p.images@),
{
}

/// The per-source aggregate the run driver works with: the pipeline and
/// the encode formats resolved for the requested outputs.
#[derive(PartialEq, Debug)]
pub struct CmdPipeline {
    pub inner: Pipeline,
    pub formats: Vec<ImageFormat>,
}

impl CmdPipeline {
    /// Creates the aggregate with a fresh pipeline and no resolved
    /// formats.
    pub fn new() -> (r: CmdPipeline)
        ensures
            r.inner.wf(),
            r.inner.state == PipelineState::Empty,
            r.inner.decoder is None,
            r.inner.operations@ == Seq::<Operation>::empty(),
            r.inner.images@ == Seq::<Image>::empty(),
            r.formats@ == Seq::<ImageFormat>::empty(),
    {
        CmdPipeline { inner: Pipeline::new(), formats: Vec::new() }
    }
}

} // verus!
