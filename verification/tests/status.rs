use alkahest_shadowkeep::globals::{GlobalPipelines, NamedTag};
use alkahest_shadowkeep::ledger::{
    bootstrap_capability_ledger, pass_status_ledger, pass_status_ledger_with_global_lighting,
    CapabilityId,
    CapabilityState, CapabilitySupport, GraphicsReport, OutputMetrics, PassDecision,
    PassObservation, ShadowkeepPassState, SkipReason,
};

#[test]
fn transparent_capability_matches_disabled_runtime_pass() {
    let capability = bootstrap_capability_ledger()
        .into_iter()
        .find(|record| record.id == CapabilityId::Transparent)
        .expect("transparent capability must exist in the typed registry");
    let runtime_pass = pass_status_ledger_with_global_lighting(true)
        .into_iter()
        .find(|record| record.name == "transparent / decal / water / volumetrics")
        .expect("transparent pass must be represented in the runtime ledger");

    assert!(matches!(
        capability.support,
        CapabilitySupport::Unsupported { .. }
    ));
    assert_eq!(runtime_pass.state, ShadowkeepPassState::DisabledAsAbsent);
}

fn metrics(depth: f32, albedo: f32, entropy: f32, luminance: f32) -> OutputMetrics {
    OutputMetrics {
        depth_coverage: depth.to_bits(),
        albedo_variance: albedo.to_bits(),
        material_entropy: entropy.to_bits(),
        final_luminance_p95: luminance.to_bits(),
        non_finite_count: 0,
    }
}

fn observation(metrics: OutputMetrics) -> PassObservation {
    PassObservation {
        capability: CapabilityId::CoreGeometry,
        decision: PassDecision::Scheduled,
        draws_requested: 10,
        draws_submitted: 10,
        draws_skipped: Vec::new(),
        gpu_completed: true,
        output_metrics: Some(metrics),
        evidence_frame: 42,
    }
}

#[test]
fn flat_or_black_output_cannot_be_ready() {
    let flat = observation(metrics(0.5, 0.0, 0.0, 0.5));
    let black = observation(metrics(0.5, 0.2, 0.5, 0.0));
    assert_eq!(
        flat.state(&CapabilitySupport::Supported),
        CapabilityState::Failed
    );
    assert_eq!(
        black.state(&CapabilitySupport::Supported),
        CapabilityState::Failed
    );
}

#[test]
fn requested_draws_require_submission_and_completion() {
    let mut pass = observation(metrics(0.5, 0.2, 0.5, 0.5));
    pass.draws_submitted = 0;
    assert_eq!(
        pass.state(&CapabilitySupport::Supported),
        CapabilityState::Failed
    );
    pass.draws_submitted = 10;
    pass.gpu_completed = false;
    assert_eq!(
        pass.state(&CapabilitySupport::Supported),
        CapabilityState::Failed
    );
}

#[test]
fn sound_passes_are_ready_as_far_as_they_are_supported() {
    let pass = observation(metrics(0.5, 0.2, 0.5, 0.5));
    assert_eq!(
        pass.state(&CapabilitySupport::Supported),
        CapabilityState::Ready
    );
    assert_eq!(
        pass.state(&CapabilitySupport::Degraded {
            reason: "partial".to_string()
        }),
        CapabilityState::Degraded
    );
    assert_eq!(
        pass.state(&CapabilitySupport::Unsupported {
            reason: "absent".to_string()
        }),
        CapabilityState::Unavailable
    );
    let mut skipped = observation(metrics(0.5, 0.2, 0.5, 0.5));
    skipped.decision = PassDecision::Skipped(SkipReason::NotVisible);
    assert_eq!(
        skipped.state(&CapabilitySupport::Supported),
        CapabilityState::NotExercised
    );
    let mut broken = observation(metrics(0.5, 0.2, 0.5, 0.5));
    broken.output_metrics = Some(OutputMetrics {
        non_finite_count: 1,
        ..metrics(0.5, 0.2, 0.5, 0.5)
    });
    assert_eq!(
        broken.state(&CapabilitySupport::Supported),
        CapabilityState::Failed
    );
}

#[test]
fn graphics_report_serializes_versioned_typed_ids() {
    let report = GraphicsReport::new(
        "build".into(),
        "corpus".into(),
        "map".into(),
        vec![observation(metrics(0.5, 0.2, 0.5, 0.5))],
    );
    let mut observed = serde_json::Map::new();
    observed.insert(
        "capability".to_string(),
        serde_json::Value::from(report.observations[0].capability.identifier()),
    );
    let mut json = serde_json::Map::new();
    json.insert(
        "schema_version".to_string(),
        serde_json::Value::from(report.schema_version),
    );
    json.insert(
        "observations".to_string(),
        serde_json::Value::from(vec![serde_json::Value::Object(observed)]),
    );
    let json = serde_json::Value::Object(json);
    assert_eq!(json["schema_version"], 1);
    assert_eq!(json["observations"][0]["capability"], "core_geometry");
}

#[test]
fn the_ledger_lists_every_capability() {
    let ledger = bootstrap_capability_ledger();
    assert_eq!(ledger.len(), 16);
    assert_eq!(ledger[0].id.display_name(), "Shadowkeep bootstrap and input layouts");
    assert_eq!(ledger[0].id.identifier(), "bootstrap");
}

#[test]
fn global_lighting_shows_in_the_pass_ledger() {
    let with = GlobalPipelines::load_shadowkeep(&[NamedTag {
        name: "global_lighting".to_string(),
        tag: 0x8080_0011,
    }]);
    let without = GlobalPipelines::load_shadowkeep(&[]);
    let states = |pipelines: &GlobalPipelines| -> Vec<ShadowkeepPassState> {
        pass_status_ledger(pipelines).iter().map(|record| record.state).collect()
    };
    let expected = |available: bool| -> Vec<ShadowkeepPassState> {
        pass_status_ledger_with_global_lighting(available)
            .iter()
            .map(|record| record.state)
            .collect()
    };
    assert_eq!(states(&with), expected(true));
    assert_eq!(states(&without), expected(false));
    assert_ne!(expected(true), expected(false));
}
