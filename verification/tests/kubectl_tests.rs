use proxy::k8s_port_forward::{
    filter_forwards, kind_for_type, kubectl_forward_args, kubectl_plan, port_map, resolve_listing,
    ForwardConfig, KubectlPlanError, KubectlStep, PortForward, ProxyPlugin,
};
use proxy::strutil::str_contains;

fn forward(name: Option<&str>, labels: Option<&str>) -> PortForward {
    PortForward {
        name: name.map(|s| s.to_string()),
        labels: labels.map(|s| s.to_string()),
        namespace: "default".to_string(),
        kind: "pod".to_string(),
        local_port: 8080,
        remote_port: 80,
    }
}

#[test]
fn kind_maps_service_to_svc() {
    assert_eq!(kind_for_type(&"pod".to_string()).as_deref(), Some("pod"));
    assert_eq!(kind_for_type(&"service".to_string()).as_deref(), Some("svc"));
    assert!(kind_for_type(&"deployment".to_string()).is_none());
}

#[test]
fn exact_name_match_beats_label_match() {
    let forwards = vec![
        forward(None, Some("app=alpha")),
        forward(Some("alpha"), None),
        forward(Some("beta"), None),
    ];
    let picked = filter_forwards(forwards, &Some("alpha".to_string()));
    assert_eq!(picked.len(), 1);
    assert_eq!(picked[0].name.as_deref(), Some("alpha"));
}

#[test]
fn label_substring_match_is_the_fallback() {
    let forwards = vec![
        forward(Some("other"), None),
        forward(None, Some("app=nginx,version=v1")),
        forward(None, Some("app=db")),
    ];
    let picked = filter_forwards(forwards, &Some("nginx".to_string()));
    assert_eq!(picked.len(), 1);
    assert_eq!(picked[0].labels.as_deref(), Some("app=nginx,version=v1"));
}

#[test]
fn no_filter_keeps_every_forward() {
    let forwards = vec![forward(Some("a"), None), forward(Some("b"), None)];
    let picked = filter_forwards(forwards, &None);
    assert_eq!(picked.len(), 2);
}

#[test]
fn no_match_leaves_nothing() {
    let forwards = vec![forward(Some("a"), None)];
    let picked = filter_forwards(forwards, &Some("zzz".to_string()));
    assert!(picked.is_empty());
}

#[test]
fn substring_search_finds_runs_of_characters() {
    assert!(str_contains("app=nginx,version=v1", "nginx"));
    assert!(str_contains("abc", ""));
    assert!(!str_contains("abc", "abcd"));
    assert!(!str_contains("app=db", "nginx"));
}

#[test]
fn port_map_renders_both_ports() {
    assert_eq!(port_map(8080, 80), "8080:80");
    assert_eq!(port_map(0, 65535), "0:65535");
}

#[test]
fn named_pod_plans_a_direct_target() {
    let fwd = forward(Some("my-pod"), None);
    match kubectl_plan(&fwd).unwrap() {
        KubectlStep::Direct { target } => assert_eq!(target, "pod/my-pod"),
        _ => panic!("a named pod needs no listing"),
    }
}

#[test]
fn labelled_service_plans_a_listing() {
    let mut fwd = forward(None, Some("app=nginx"));
    fwd.kind = "service".to_string();
    match kubectl_plan(&fwd).unwrap() {
        KubectlStep::NeedListing { list_args } => {
            assert_eq!(
                list_args,
                vec!["get", "svc", "-l", "app=nginx", "-n", "default", "--no-headers", "-o", "name"]
            );
        },
        _ => panic!("a label query needs a listing"),
    }
}

#[test]
fn unknown_kind_and_missing_target_fail_the_plan() {
    let mut fwd = forward(Some("x"), None);
    fwd.kind = "deployment".to_string();
    match kubectl_plan(&fwd) {
        Err(KubectlPlanError::UnknownKind(k)) => assert_eq!(k, "deployment"),
        _ => panic!("an unknown kind must fail"),
    }
    let fwd = forward(None, None);
    assert!(matches!(kubectl_plan(&fwd), Err(KubectlPlanError::NoTarget)));
}

#[test]
fn forward_args_wrap_the_settled_target() {
    let args = kubectl_forward_args(&"pod/web-1".to_string(), 9090, 9000, &"prod".to_string());
    assert_eq!(args, vec!["port-forward", "pod/web-1", "9090:9000", "-n", "prod"]);
}

#[test]
fn listing_output_settles_on_the_first_resource() {
    let (chosen, all) = resolve_listing("pod/web-1\npod/web-2\n\n").unwrap();
    assert_eq!(chosen, "pod/web-1");
    assert_eq!(all, vec!["pod/web-1".to_string(), "pod/web-2".to_string()]);
}

#[test]
fn empty_listing_output_resolves_nothing() {
    assert!(resolve_listing("").is_none());
    assert!(resolve_listing("\n\n").is_none());
}

#[test]
fn listing_output_with_carriage_returns_is_cleaned() {
    let (chosen, all) = resolve_listing("svc/a\r\nsvc/b\r\n").unwrap();
    assert_eq!(chosen, "svc/a");
    assert_eq!(all, vec!["svc/a".to_string(), "svc/b".to_string()]);
}

#[test]
fn kubectl_capability_descriptor_has_one_option() {
    let plugin = ProxyPlugin;
    assert_eq!(plugin.name(), "k8s_port_forward");
    assert_eq!(plugin.description(), "Kubernetes port forwarding with name and label support");
    let d = plugin.descriptor();
    assert_eq!(d.args.len(), 1);
    assert_eq!(d.args[0].name, "name");
    assert!(!ProxyPlugin::sample_config().is_empty());
    let cfg = ForwardConfig { forward: vec![forward(Some("a"), None)] };
    assert_eq!(cfg.forward.len(), 1);
}
