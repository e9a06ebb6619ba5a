use cairo_pipeline::config::{
    CommitmentConfiguration, HashChannel, Layout, ProofConfiguration, ProverConfiguration,
    RunConfiguration, TraceVariant,
};

#[test]
fn the_run_configuration_of_the_pipeline() {
    let configuration = RunConfiguration::standard();
    assert_eq!(configuration.entrypoint, "main");
    assert!(configuration.trace_enabled);
    assert!(configuration.relocate_mem);
    assert!(configuration.relocate_trace);
    assert_eq!(configuration.layout, Layout::AllCairoStwo);
    assert!(configuration.proof_mode);
    assert!(!configuration.fill_holes);
    assert_eq!(configuration.secure_run, Some(true));
    assert!(configuration.disable_trace_padding);
    assert_eq!(configuration.allow_missing_builtins, None);
}

#[test]
fn the_proof_configuration_of_the_pipeline() {
    let configuration = ProofConfiguration::standard();
    assert_eq!(configuration.variant, TraceVariant::CanonicalWithoutPedersen);
    assert_eq!(
        configuration.commitment,
        CommitmentConfiguration {
            pow_bits: 10,
            log_blowup_factor: 1,
            log_last_layer_degree_bound: 0,
            n_queries: 3,
            fold_step: 1,
            lifting_log_size: None,
        }
    );
}

#[test]
fn the_commitment_parameters_are_the_defaults_of_the_proof_system() {
    let ours = ProofConfiguration::standard().commitment;
    let theirs = stwo::core::pcs::PcsConfig::default();
    assert_eq!(ours.pow_bits, theirs.pow_bits);
    assert_eq!(ours.log_blowup_factor, theirs.fri_config.log_blowup_factor);
    assert_eq!(ours.log_last_layer_degree_bound, theirs.fri_config.log_last_layer_degree_bound);
    assert_eq!(ours.n_queries, theirs.fri_config.n_queries);
    assert_eq!(ours.fold_step, theirs.fri_config.fold_step);
    assert_eq!(ours.lifting_log_size, theirs.lifting_log_size);
}

#[test]
fn commitment_configurations_compare_field_by_field() {
    let base = ProofConfiguration::standard().commitment;
    assert!(base.same_as(&base));
    assert!(!base.same_as(&CommitmentConfiguration { pow_bits: 11, ..base }));
    assert!(!base.same_as(&CommitmentConfiguration { log_blowup_factor: 2, ..base }));
    assert!(!base.same_as(&CommitmentConfiguration { log_last_layer_degree_bound: 1, ..base }));
    assert!(!base.same_as(&CommitmentConfiguration { n_queries: 4, ..base }));
    assert!(!base.same_as(&CommitmentConfiguration { fold_step: 2, ..base }));
    assert!(!base.same_as(&CommitmentConfiguration { lifting_log_size: Some(0), ..base }));
    let lifted = CommitmentConfiguration { lifting_log_size: Some(20), ..base };
    assert!(lifted.same_as(&lifted));
    assert!(!lifted.same_as(&CommitmentConfiguration { lifting_log_size: Some(21), ..base }));
}

#[test]
fn proof_configurations_differ_by_variant_or_by_commitment() {
    let standard = ProofConfiguration::standard();
    assert!(standard.same_as(&standard));
    for variant in [TraceVariant::Canonical, TraceVariant::CanonicalSmall] {
        assert!(!standard.same_as(&ProofConfiguration { variant, ..standard }));
    }
    let other = CommitmentConfiguration { pow_bits: 26, ..standard.commitment };
    assert!(!standard.same_as(&ProofConfiguration { commitment: other, ..standard }));
}

#[test]
fn the_prover_configuration_of_the_pipeline() {
    let configuration = ProverConfiguration::standard();
    assert_eq!(configuration.proof, ProofConfiguration::standard());
    assert_eq!(configuration.channel, HashChannel::Blake2s);
    assert_eq!(configuration.channel_salt, 0);
    assert!(!configuration.store_polynomials_coefficients);
    assert!(!configuration.include_all_preprocessed_columns);
}
