//! The pipeline orchestrator: owns the device and the two optional model
//! bundles, and composes preprocessing, the vision stage and the cleanup
//! stage into one request entry point with degraded-mode and fallback
//! behavior.

use vstd::prelude::*;
use crate::errors::{DeviceError, ProcessError, PreprocessError};
use crate::imaging::{image_open, preprocess};
use crate::report::{
    compose_result, is_inference_report, is_mock_result, mock_result, InferenceResult,
    Stage2Outcome,
};
use crate::stage1::{vision_output_shape, TrOCRModel};
use crate::stage2::{cleanup_output_shape, Phi3Bundle};
use crate::tensors::{accelerator_is_available, device_cpu, device_new_accelerator};

verus! {

/// The readiness tiers of the pipeline. The vision bundle alone decides
/// whether real inference happens; the cleanup bundle only raises the
/// quality tier.
#[derive(Debug, Clone, Copy, PartialEq, Eq, Structural)]
pub enum Readiness {
    /// No vision bundle: every request gets the fixed mock answer.
    Unavailable,
    /// Vision bundle only: raw extraction without cleanup.
    Stage1Only,
    /// Both bundles: extraction with language-model cleanup.
    FullyReady,
}

/// The orchestrator. Each loaded bundle is internally mutable during a
/// decode (attention cache), so each is used under an exclusive borrow;
/// the device is read-only and shared.
pub struct OcrPipeline {
    pub device: candle_core::Device,
    pub trocr: Option<TrOCRModel>,
    pub phi3: Option<Phi3Bundle>,
}

impl OcrPipeline {
    /// Picks the compute device once — the accelerator when the probe
    /// reports one, else the general-purpose processor — and starts with
    /// both bundles absent. Fails only when the reported accelerator
    /// cannot be opened.
    pub fn new() -> (r: Result<OcrPipeline, DeviceError>)
        ensures
            r matches Ok(p) ==> p.trocr is None && p.phi3 is None,
    {
        let device = if accelerator_is_available() {
            match device_new_accelerator(0) {
                Ok(d) => d,
                Err(_) => {
                    return Err(DeviceError::AcceleratorInit);
                },
            }
        } else {
            device_cpu()
        };
        Ok(OcrPipeline { device, trocr: None, phi3: None })
    }

    /// True exactly when both bundles are loaded, so collaborators can
    /// advertise the cleanup-optimized capability.
    pub fn is_ready(&self) -> (r: bool)
        ensures
            r == (self.trocr is Some && self.phi3 is Some),
    {
        self.trocr.is_some() && self.phi3.is_some()
    }

    /// The readiness tier that the loaded bundles put the pipeline in.
    pub fn readiness(&self) -> (r: Readiness)
        ensures
            r is Unavailable <==> self.trocr is None,
            r is FullyReady <==> (self.trocr is Some && self.phi3 is Some),
            r is Stage1Only <==> (self.trocr is Some && self.phi3 is None),
    {
        match (&self.trocr, &self.phi3) {
            (Option::None, _) => Readiness::Unavailable,
            (Option::Some(_), Option::None) => Readiness::Stage1Only,
            (Option::Some(_), Option::Some(_)) => Readiness::FullyReady,
        }
    }

    /// Records the outcome of the two independent bundle loads. A failed
    /// load arrives as `None` and only degrades readiness; it never aborts
    /// the process.
    pub fn init_models(&mut self, trocr: Option<TrOCRModel>, phi3: Option<Phi3Bundle>)
        ensures
            final(self).trocr == trocr,
            final(self).phi3 == phi3,
            final(self).device == old(self).device,
    {
        self.trocr = trocr;
        self.phi3 = phi3;
    }

    /// The sole data-plane entry point. With no vision bundle the fixed
    /// mock answer comes back at once, whatever the path holds. Otherwise
    /// the file is decoded into a raster image and handed on.
    pub fn process_image(&mut self, image_path: &str) -> (r: Result<
        InferenceResult,
        ProcessError,
    >)
        ensures
            old(self).trocr is None ==> (r matches Ok(res) && is_mock_result(res)),
            r matches Ok(res) ==> old(self).trocr is Some ==> {
                &&& vision_output_shape(res.raw_text@, old(self).trocr.unwrap().eos_token_id)
                &&& old(self).phi3 is None ==> is_inference_report(
                    res,
                    res.raw_text@,
                    res.raw_text@,
                    false,
                )
                &&& old(self).phi3 is Some ==> {
                    ||| (is_inference_report(res, res.raw_text@, res.cleaned_text@, true)
                        && cleanup_output_shape(res.cleaned_text@))
                    ||| is_inference_report(res, res.raw_text@, res.raw_text@, false)
                }
            },
            r is Err ==> old(self).trocr is Some,
            final(self).device == old(self).device,
            final(self).trocr is Some <==> old(self).trocr is Some,
            final(self).phi3 is Some <==> old(self).phi3 is Some,
    {
        if self.trocr.is_none() {
            return Ok(mock_result());
        }
        let img = match image_open(image_path) {
            Ok(i) => i,
            Err(_) => {
                return Err(ProcessError::Preprocess(PreprocessError::Undecodable));
            },
        };
        self.process_decoded(&img)
    }

    /// Runs a request on an already-decoded image: preprocessing and the
    /// vision stage — any failure there fails the request — then, when
    /// the cleanup bundle is present, the cleanup stage on the raw text;
    /// its failure never fails the request but falls back to the raw text
    /// at the lower quality label.
    pub fn process_decoded(&mut self, img: &image::DynamicImage) -> (r: Result<
        InferenceResult,
        ProcessError,
    >)
        ensures
            old(self).trocr is None ==> (r matches Ok(res) && is_mock_result(res)),
            r matches Ok(res) ==> old(self).trocr is Some ==> {
                &&& vision_output_shape(res.raw_text@, old(self).trocr.unwrap().eos_token_id)
                &&& old(self).phi3 is None ==> is_inference_report(
                    res,
                    res.raw_text@,
                    res.raw_text@,
                    false,
                )
                &&& old(self).phi3 is Some ==> {
                    ||| (is_inference_report(res, res.raw_text@, res.cleaned_text@, true)
                        && cleanup_output_shape(res.cleaned_text@))
                    ||| is_inference_report(res, res.raw_text@, res.raw_text@, false)
                }
            },
            r is Err ==> old(self).trocr is Some,
            final(self).device == old(self).device,
            final(self).trocr is Some <==> old(self).trocr is Some,
            final(self).phi3 is Some <==> old(self).phi3 is Some,
    {
        if self.trocr.is_none() {
            return Ok(mock_result());
        }
        let image_tensor = match preprocess(&img, &self.device) {
            Ok(t) => t,
            Err(e) => {
                return Err(ProcessError::Preprocess(e));
            },
        };
        let raw_text = match &mut self.trocr {
            Option::Some(bundle) => match bundle.extract_text(&self.device, &image_tensor) {
                Ok(t) => t,
                Err(e) => {
                    return Err(ProcessError::Infer(e));
                },
            },
            Option::None => {
                return Err(ProcessError::Infer(crate::errors::InferError::Forward));
            },
        };
        let stage2 = match &mut self.phi3 {
            Option::Some(bundle) => match bundle.clean_text(&self.device, raw_text.as_str()) {
                Ok(t) => Stage2Outcome::Cleaned(t),
                Err(_) => Stage2Outcome::Failed,
            },
            Option::None => Stage2Outcome::Absent,
        };
        Ok(compose_result(raw_text, stage2))
    }
}

} // verus!
