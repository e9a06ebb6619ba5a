//! What the library takes from the outside crates: the Cairo virtual machine,
//! which it calls on its own program, and the values of the adapter and of the
//! proof system, which it carries and reads.
//!
//! Nothing in this file is proved. Each item states what the rest of the
//! library takes on trust from the crate that it names.

use vstd::prelude::*;
use vstd::string::StringSliceAdditionalSpecFns;

use cairo_air::CairoProofForRustVerifier;
use cairo_vm::cairo_run::CairoRunConfig;
use cairo_vm::hint_processor::builtin_hint_processor::builtin_hint_processor_definition::BuiltinHintProcessor;
use cairo_vm::types::layout_name::LayoutName;
use cairo_vm::vm::errors::cairo_run_errors::CairoRunError;
use cairo_vm::vm::runners::cairo_runner::CairoRunner;
use stwo_cairo_adapter::ProverInput;
use stwo_cairo_common::preprocessed_columns::preprocessed_trace::PreProcessedTraceVariant;

use crate::config::{
    standard_run_configuration, CommitmentConfiguration, Layout, ProofConfiguration,
    RunConfiguration, RunConfigurationModel, TraceVariant,
};
use crate::program::PROGRAM_JSON;

verus! {

/// `cairo_vm`'s `CairoRunner`: a run of the virtual machine with its memory,
/// trace and builtins. Carried through as it is.
#[verifier::external_type_specification]
#[verifier::external_body]
pub struct ExCairoRunner(CairoRunner);

/// `cairo_vm`'s `CairoRunError`: why a program could not be loaded or run.
#[verifier::external_type_specification]
#[verifier::external_body]
pub struct ExCairoRunError(CairoRunError);

/// `cairo_vm`'s `LayoutName`.
#[verifier::external_type_specification]
#[verifier::external_body]
pub struct ExLayoutName(LayoutName);

/// `stwo_cairo_adapter`'s `ProverInput`: a run in the form that the prover
/// takes. Carried through as it is.
#[verifier::external_type_specification]
#[verifier::external_body]
pub struct ExProverInput(ProverInput);

/// A proof of a Cairo run over the Blake2s Merkle channel, in the form that
/// `cairo_air`'s verifier takes: a `CairoProofForRustVerifier`. Verus does not
/// take that type as it stands, its parameter being bound by a trait of
/// `stwo`, so the proof is held in a struct whose body Verus does not read.
/// Carried through as it is, but for the configuration that it names.
#[verifier::external_body]
pub struct Proof {
    pub inner: CairoProofForRustVerifier<stwo::core::vcs_lifted::blake2_merkle::Blake2sMerkleHasher>,
}

/// Whether `outcome` is what a call of `cairo_vm::cairo_run::cairo_run`, with
/// the builtin hints, has returned on the program image under the
/// configuration. It says of an outcome where it came from and nothing else:
/// two calls need not return the same.
pub uninterp spec fn engine_returned(
    image: Seq<u8>,
    configuration: RunConfigurationModel,
    outcome: Result<CairoRunner, CairoRunError>,
) -> bool;

/// The text that `failure_text` gives for an error of the engine.
pub uninterp spec fn text_of_failure(error: CairoRunError) -> Seq<char>;

/// The configuration that a proof names as the one it was made under: its
/// field `preprocessed_trace_variant` and the `config` of its STARK proof.
pub uninterp spec fn declared_configuration(proof: Proof) -> ProofConfiguration;

/// The `LayoutName` that stands for a layout.
#[verifier::external_body]
fn layout_name(layout: Layout) -> LayoutName {
    match layout {
        Layout::AllCairoStwo => LayoutName::all_cairo_stwo,
        Layout::StwoNoEcOp => LayoutName::stwo_no_ecop,
    }
}

/// Calls `cairo_vm::cairo_run::cairo_run` with a `BuiltinHintProcessor` that
/// knows the builtin hints alone, and with the configuration, field for
/// field, without dynamic layout parameters.
///
/// It takes the embedded program under the pipeline's run configuration and
/// nothing else. On another image the engine may not return (a program that
/// does not end), may read files that the image names, and may stop the
/// program on what an image says of its source; the embedded program ends,
/// and it names no file and no source.
///
/// Nothing is claimed of what comes back but where it came from.
#[verifier::external_body]
pub(crate) fn execute(image: &[u8], configuration: &RunConfiguration) -> (r: Result<
    CairoRunner,
    CairoRunError,
>)
    requires
        image@ == PROGRAM_JSON.spec_bytes(),
        configuration@ == standard_run_configuration(),
    ensures
        engine_returned(image@, configuration@, r),
{
    let run_config = CairoRunConfig {
        entrypoint: configuration.entrypoint.as_str(),
        trace_enabled: configuration.trace_enabled,
        relocate_mem: configuration.relocate_mem,
        relocate_trace: configuration.relocate_trace,
        layout: layout_name(configuration.layout),
        dynamic_layout_params: None,
        proof_mode: configuration.proof_mode,
        fill_holes: configuration.fill_holes,
        secure_run: configuration.secure_run,
        disable_trace_padding: configuration.disable_trace_padding,
        allow_missing_builtins: configuration.allow_missing_builtins,
    };
    cairo_vm::cairo_run::cairo_run(image, &run_config, &mut BuiltinHintProcessor::new_empty())
}

/// The text of an error of the engine: what `Display` writes for it, but for
/// a `VmException`, of which only the error inside is written. Its own
/// `Display` adds the place in the source and reads the source file for it;
/// the error inside, like every other error of the engine, is written from
/// its own fields alone.
#[verifier::external_body]
pub(crate) fn failure_text(error: &CairoRunError) -> (text: String)
    ensures
        text@ == text_of_failure(*error),
{
    match error {
        CairoRunError::VmException(exception) => exception.inner_exc.to_string(),
        other => other.to_string(),
    }
}

/// Reads the field `preprocessed_trace_variant` of the proof.
#[verifier::external_body]
pub(crate) fn declared_variant(proof: &Proof) -> (r: TraceVariant)
    ensures
        r == declared_configuration(*proof).variant,
{
    match proof.inner.preprocessed_trace_variant {
        PreProcessedTraceVariant::Canonical => TraceVariant::Canonical,
        PreProcessedTraceVariant::CanonicalWithoutPedersen => TraceVariant::CanonicalWithoutPedersen,
        PreProcessedTraceVariant::CanonicalSmall => TraceVariant::CanonicalSmall,
    }
}

/// Reads the commitment parameters that the proof carries: the `config` of its
/// STARK proof, a `stwo::core::pcs::PcsConfig`, field for field.
#[verifier::external_body]
pub(crate) fn declared_commitment(proof: &Proof) -> (r: CommitmentConfiguration)
    ensures
        r == declared_configuration(*proof).commitment,
{
    let config = proof.inner.stark_proof.0.config;
    CommitmentConfiguration {
        pow_bits: config.pow_bits,
        log_blowup_factor: config.fri_config.log_blowup_factor,
        log_last_layer_degree_bound: config.fri_config.log_last_layer_degree_bound,
        n_queries: config.fri_config.n_queries,
        fold_step: config.fri_config.fold_step,
        lifting_log_size: config.lifting_log_size,
    }
}

} // verus!
