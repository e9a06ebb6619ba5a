//! The fixed choices of a run: how the program is executed, and under which
//! proof-system parameters the run is proved and verified.

use vstd::prelude::*;

verus! {

/// The builtin layouts that the proof system accepts.
#[derive(Clone, Copy, Debug, PartialEq, Eq, Structural)]
pub enum Layout {
    /// Every builtin that the proof system supports.
    AllCairoStwo,
    /// The same without the elliptic-curve operation builtin.
    StwoNoEcOp,
}

/// What a contract says of a `RunConfiguration`.
pub struct RunConfigurationModel {
    pub entrypoint: Seq<char>,
    pub trace_enabled: bool,
    pub relocate_mem: bool,
    pub relocate_trace: bool,
    pub layout: Layout,
    pub proof_mode: bool,
    pub fill_holes: bool,
    pub secure_run: Option<bool>,
    pub disable_trace_padding: bool,
    pub allow_missing_builtins: Option<bool>,
}

/// How the execution engine runs a program. Built once and never changed.
#[derive(Clone, Debug, PartialEq, Eq)]
pub struct RunConfiguration {
    /// The function at which execution begins.
    pub entrypoint: String,
    /// Record the register trace of every step.
    pub trace_enabled: bool,
    /// After the run, map the memory segments into one linear address space.
    pub relocate_mem: bool,
    /// After the run, map the recorded trace into that address space too.
    pub relocate_trace: bool,
    pub layout: Layout,
    /// Run so that the trace can be proved.
    pub proof_mode: bool,
    /// Let the builtins fill in the cells that they can deduce, rather than
    /// only check the cells that are there.
    pub fill_holes: bool,
    /// Run the engine's security checks on the finished run. Where nothing is
    /// given the engine checks exactly when it does not run in proof mode.
    pub secure_run: Option<bool>,
    /// Do not pad the trace to a power of two.
    pub disable_trace_padding: bool,
    /// Accept a program that names a builtin which the layout lacks. Where
    /// nothing is given the engine accepts one exactly in proof mode.
    pub allow_missing_builtins: Option<bool>,
}

impl View for RunConfiguration {
    type V = RunConfigurationModel;

    open spec fn view(&self) -> RunConfigurationModel {
        RunConfigurationModel {
            entrypoint: self.entrypoint@,
            trace_enabled: self.trace_enabled,
            relocate_mem: self.relocate_mem,
            relocate_trace: self.relocate_trace,
            layout: self.layout,
            proof_mode: self.proof_mode,
            fill_holes: self.fill_holes,
            secure_run: self.secure_run,
            disable_trace_padding: self.disable_trace_padding,
            allow_missing_builtins: self.allow_missing_builtins,
        }
    }
}

/// The configuration under which the pipeline executes its program.
pub open spec fn standard_run_configuration() -> RunConfigurationModel {
    RunConfigurationModel {
        entrypoint: "main"@,
        trace_enabled: true,
        relocate_mem: true,
        relocate_trace: true,
        layout: Layout::AllCairoStwo,
        proof_mode: true,
        fill_holes: false,
        secure_run: Some(true),
        disable_trace_padding: true,
        allow_missing_builtins: None,
    }
}

impl RunConfiguration {
    pub fn standard() -> (r: RunConfiguration)
        ensures
            r@ == standard_run_configuration(),
    {
        RunConfiguration {
            entrypoint: "main".to_owned(),
            trace_enabled: true,
            relocate_mem: true,
            relocate_trace: true,
            layout: Layout::AllCairoStwo,
            proof_mode: true,
            fill_holes: false,
            secure_run: Some(true),
            disable_trace_padding: true,
            allow_missing_builtins: None,
            }
    }
}

/// The choice of preprocessed columns against which a trace is proved.
#[derive(Clone, Copy, Debug, PartialEq, Eq, Structural)]
pub enum TraceVariant {
    Canonical,
    /// The canonical columns without those of the Pedersen hash builtin:
    /// faster to set up, and unable to prove a run that uses that builtin.
    /// Nothing here looks into a run for uses of it: to keep such a run away
    /// from the prover is the caller's part, and one that gets there comes
    /// back as a failure of the prover or as a proof that is rejected.
    CanonicalWithoutPedersen,
    CanonicalSmall,
}

/// The parameters of the polynomial commitment scheme.
#[derive(Clone, Copy, Debug, PartialEq, Eq)]
pub struct CommitmentConfiguration {
    /// The bits of proof of work before the queries are drawn.
    pub pow_bits: u32,
    pub log_blowup_factor: u32,
    pub log_last_layer_degree_bound: u32,
    pub n_queries: usize,
    pub fold_step: u32,
    /// The size of the domain to which all polynomials are lifted, if fixed.
    pub lifting_log_size: Option<u32>,
}

/// The commitment parameters that the proof system uses by default.
pub open spec fn default_commitment() -> CommitmentConfiguration {
    CommitmentConfiguration {
        pow_bits: 10,
        log_blowup_factor: 1,
        log_last_layer_degree_bound: 0,
        n_queries: 3,
        fold_step: 1,
        lifting_log_size: None,
    }
}

impl CommitmentConfiguration {
    pub fn same_as(&self, other: &CommitmentConfiguration) -> (r: bool)
        ensures
            r == (*self == *other),
    {
        let same_lifting = match (self.lifting_log_size, other.lifting_log_size) {
            (None, None) => true,
            (Some(a), Some(b)) => a == b,
            _ => false,
        };
        self.pow_bits == other.pow_bits && self.log_blowup_factor == other.log_blowup_factor
            && self.log_last_layer_degree_bound == other.log_last_layer_degree_bound
            && self.n_queries == other.n_queries && self.fold_step == other.fold_step
            && same_lifting
    }
}

/// What prover and verifier must agree on: a proof made under one
/// configuration means nothing under another.
#[derive(Clone, Copy, Debug, PartialEq, Eq)]
pub struct ProofConfiguration {
    pub variant: TraceVariant,
    pub commitment: CommitmentConfiguration,
}

/// The proof configuration of the pipeline: the canonical columns without the
/// Pedersen builtin, and the default commitment parameters.
pub open spec fn standard_proof_configuration() -> ProofConfiguration {
    ProofConfiguration {
        variant: TraceVariant::CanonicalWithoutPedersen,
        commitment: default_commitment(),
    }
}

impl ProofConfiguration {
    pub fn standard() -> (r: ProofConfiguration)
        ensures
            r == standard_proof_configuration(),
    {
        ProofConfiguration {
            variant: TraceVariant::CanonicalWithoutPedersen,
            commitment: CommitmentConfiguration {
                pow_bits: 10,
                log_blowup_factor: 1,
                log_last_layer_degree_bound: 0,
                n_queries: 3,
                fold_step: 1,
                lifting_log_size: None,
            },
        }
    }

    pub fn same_as(&self, other: &ProofConfiguration) -> (r: bool)
        ensures
            r == (*self == *other),
    {
        self.variant == other.variant && self.commitment.same_as(&other.commitment)
    }
}

/// The hash on which the channel between prover and verifier is built.
#[derive(Clone, Copy, Debug, PartialEq, Eq, Structural)]
pub enum HashChannel {
    /// Blake2s with its full output of 256 bits.
    Blake2s,
    /// Blake2s with every word of the output reduced into the base field.
    Blake2sM31,
    Poseidon252,
}

/// Everything that the prover is told: the proof configuration, and what
/// concerns the prover alone.
#[derive(Clone, Copy, Debug, PartialEq, Eq)]
pub struct ProverConfiguration {
    pub proof: ProofConfiguration,
    pub channel: HashChannel,
    /// Mixed into the channel before anything else.
    pub channel_salt: u32,
    pub store_polynomials_coefficients: bool,
    pub include_all_preprocessed_columns: bool,
}

/// What the pipeline tells the prover: its proof configuration, the Blake2s
/// channel without salt, and neither of the two options.
pub open spec fn standard_prover_configuration() -> ProverConfiguration {
    ProverConfiguration {
        proof: standard_proof_configuration(),
        channel: HashChannel::Blake2s,
        channel_salt: 0,
        store_polynomials_coefficients: false,
        include_all_preprocessed_columns: false,
    }
}

impl ProverConfiguration {
    pub fn standard() -> (r: ProverConfiguration)
        ensures
            r == standard_prover_configuration(),
    {
        ProverConfiguration {
            proof: ProofConfiguration::standard(),
            channel: HashChannel::Blake2s,
            channel_salt: 0,
            store_polynomials_coefficients: false,
            include_all_preprocessed_columns: false,
        }
    }
}

} // verus!
