use proxy::k8s_native_port_forward::{
    apply_overrides, bridge_command, forward_plan, select_pod, CliOverrides, K8sNativeConfig,
    K8sNativePortForwardPlugin, ResolutionError, ResolveStep, TargetSelector, UsageError,
};
use proxy::protocol::Protocol;

fn no_overrides() -> CliOverrides {
    CliOverrides { pod: None, selector: None, namespace: None, local_port: None, remote_port: None }
}

#[test]
fn default_config_targets_nothing_yet() {
    let c = K8sNativeConfig::default();
    assert_eq!(c.namespace, "default");
    assert!(c.pod_name.is_none());
    assert!(c.pod_selector.is_none());
    assert_eq!(c.local_port, 8080);
    assert_eq!(c.remote_port, 80);
    assert_eq!(c.protocol.as_deref(), Some("tcp"));
}

#[test]
fn pod_override_clears_selector() {
    let mut cfg = K8sNativeConfig::default();
    cfg.pod_selector = Some("app=nginx".to_string());
    let mut ov = no_overrides();
    ov.pod = Some("my-pod".to_string());
    let c = apply_overrides(cfg, ov).unwrap();
    assert_eq!(c.pod_name.as_deref(), Some("my-pod"));
    assert!(c.pod_selector.is_none());
}

#[test]
fn selector_override_clears_pod_name() {
    let mut cfg = K8sNativeConfig::default();
    cfg.pod_name = Some("my-pod".to_string());
    let mut ov = no_overrides();
    ov.pod = Some("other-pod".to_string());
    ov.selector = Some("app=nginx".to_string());
    let c = apply_overrides(cfg, ov).unwrap();
    assert!(c.pod_name.is_none());
    assert_eq!(c.pod_selector.as_deref(), Some("app=nginx"));
}

#[test]
fn empty_overrides_are_rejected_in_order() {
    let cfg = K8sNativeConfig::default();
    let mut ov = no_overrides();
    ov.pod = Some(String::new());
    ov.selector = Some(String::new());
    assert!(matches!(apply_overrides(cfg, ov), Err(UsageError::EmptyPodName)));

    let cfg = K8sNativeConfig::default();
    let mut ov = no_overrides();
    ov.selector = Some(String::new());
    assert!(matches!(apply_overrides(cfg, ov), Err(UsageError::EmptyPodSelector)));

    let cfg = K8sNativeConfig::default();
    let mut ov = no_overrides();
    ov.pod = Some("p".to_string());
    ov.namespace = Some(String::new());
    assert!(matches!(apply_overrides(cfg, ov), Err(UsageError::EmptyNamespace)));
}

#[test]
fn both_target_forms_absent_is_a_usage_error() {
    let cfg = K8sNativeConfig::default();
    assert!(matches!(
        apply_overrides(cfg, no_overrides()),
        Err(UsageError::MissingTarget)
    ));
}

#[test]
fn port_and_namespace_overrides_apply() {
    let mut cfg = K8sNativeConfig::default();
    cfg.pod_name = Some("p".to_string());
    let mut ov = no_overrides();
    ov.namespace = Some("prod".to_string());
    ov.local_port = Some(9000);
    ov.remote_port = Some(5432);
    let c = apply_overrides(cfg, ov).unwrap();
    assert_eq!(c.namespace, "prod");
    assert_eq!(c.local_port, 9000);
    assert_eq!(c.remote_port, 5432);
    assert_eq!(c.protocol.as_deref(), Some("tcp"));
}

#[test]
fn forward_plan_prefers_the_explicit_name() {
    let mut cfg = K8sNativeConfig::default();
    cfg.pod_name = Some("my-pod".to_string());
    cfg.pod_selector = Some("app=nginx".to_string());
    let f = forward_plan(cfg, Some("http".to_string())).unwrap();
    match &f.selector {
        TargetSelector::ByName(n) => assert_eq!(n, "my-pod"),
        _ => panic!("the explicit name must win"),
    }
    assert_eq!(f.protocol, Protocol::Http);
    assert_eq!(f.local_port, 8080);
    assert_eq!(f.remote_port, 80);
}

#[test]
fn forward_plan_without_target_fails() {
    let cfg = K8sNativeConfig::default();
    assert!(matches!(forward_plan(cfg, None), Err(UsageError::MissingTarget)));
}

#[test]
fn explicit_pod_name_resolves_without_listing() {
    let mut cfg = K8sNativeConfig::default();
    cfg.pod_name = Some("my-pod".to_string());
    let f = forward_plan(cfg, None).unwrap();
    match f.resolve_step() {
        ResolveStep::UseName(n) => assert_eq!(n, "my-pod"),
        ResolveStep::NeedListing(_) => panic!("a name must not trigger a listing"),
    }
}

#[test]
fn selector_resolution_needs_a_listing() {
    let mut cfg = K8sNativeConfig::default();
    cfg.pod_selector = Some("app=nginx,version=v1".to_string());
    let f = forward_plan(cfg, None).unwrap();
    match f.resolve_step() {
        ResolveStep::NeedListing(s) => assert_eq!(s, "app=nginx,version=v1"),
        ResolveStep::UseName(_) => panic!("a selector needs the pods listed"),
    }
}

#[test]
fn selector_matching_zero_pods_is_fatal() {
    let selector = "app=nginx".to_string();
    match select_pod(&selector, Vec::new()) {
        Err(ResolutionError::NoMatch(s)) => assert_eq!(s, "app=nginx"),
        _ => panic!("zero matches must be a resolution error"),
    }
}

#[test]
fn selector_matching_one_pod_uses_it() {
    let selector = "app=nginx".to_string();
    let choice = select_pod(&selector, vec![Some("web-1".to_string())]).unwrap();
    assert_eq!(choice.chosen, "web-1");
    assert_eq!(choice.matches, vec!["web-1".to_string()]);
}

#[test]
fn selector_matching_many_pods_uses_the_first_and_reports_all() {
    let selector = "app=nginx".to_string();
    let listing = vec![
        Some("web-1".to_string()),
        Some("web-2".to_string()),
        None,
        Some("web-3".to_string()),
    ];
    let choice = select_pod(&selector, listing).unwrap();
    assert_eq!(choice.chosen, "web-1");
    assert_eq!(
        choice.matches,
        vec!["web-1".to_string(), "web-2".to_string(), "web-3".to_string()]
    );
}

#[test]
fn unnamed_first_pod_is_a_resolution_error() {
    let selector = "app=nginx".to_string();
    assert!(matches!(
        select_pod(&selector, vec![None, Some("web-2".to_string())]),
        Err(ResolutionError::UnnamedPod)
    ));
}

#[test]
fn bridge_command_runs_bash_against_the_remote_port() {
    let cmd = bridge_command(5432);
    assert_eq!(cmd.len(), 3);
    assert_eq!(cmd[0], "bash");
    assert_eq!(cmd[1], "-c");
    assert_eq!(
        cmd[2],
        "exec 3<>/dev/tcp/localhost/5432; (cat <&3 &); cat >&3; kill %1 2>/dev/null; exec 3>&-"
    );
}

#[test]
fn relay_capability_descriptor_lists_its_options() {
    let plugin = K8sNativePortForwardPlugin;
    assert_eq!(plugin.name(), "k8s_native_port_forward");
    assert_eq!(plugin.version(), "0.1.0");
    assert_eq!(
        plugin.description(),
        "Native Kubernetes port forwarding with protocol-aware message logging"
    );
    let d = plugin.descriptor();
    let names: Vec<&str> = d.args.iter().map(|a| a.name.as_str()).collect();
    assert_eq!(
        names,
        vec!["pod", "selector", "namespace", "local-port", "remote-port", "protocol"]
    );
    assert!(!K8sNativePortForwardPlugin::sample_config().is_empty());
}
