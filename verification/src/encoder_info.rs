//! What the console shows of a scene's encoder: the parameters in which it
//! differs from the encoder it was derived from.

use vstd::prelude::*;
use crate::cli_parameter::{ParameterMap, spec_without_inherited};
use crate::encoding::Encoder;

verus! {

/// A scene's encoder, with the encoder of the job it belongs to.
pub struct EncoderInfo {
    pub encoder: Encoder,
    pub parent_encoder: Option<Encoder>,
}

impl EncoderInfo {
    pub fn new(encoder: Encoder, parent_encoder: Option<Encoder>) -> (r: Self)
        ensures
            r.encoder == encoder,
            r.parent_encoder == parent_encoder,
    {
        EncoderInfo { encoder, parent_encoder }
    }

    /// The parameters to show: the encoder's own, without those that the
    /// parent encoder holds with the same value.
    pub fn scene_parameters(&self) -> (r: ParameterMap)
        ensures
            r@ == match self.parent_encoder {
                Some(p) => spec_without_inherited(self.encoder.spec_options()@, p.spec_options()@),
                None => self.encoder.spec_options()@,
            },
    {
        match &self.parent_encoder {
            Some(parent) => self.encoder.parameters().without_inherited(parent.parameters()),
            None => self.encoder.parameters().duplicate(),
        }
    }
}

} // verus!
