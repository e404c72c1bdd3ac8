use proxy::host::ArgKind;
use proxy::ollama_chat::OllamaChatPlugin;
use proxy::proxy_plugin::ProxyPlugin;
use proxy::strutil::u64_dec;

#[test]
fn chat_capability_descriptor_lists_its_options() {
    let plugin = OllamaChatPlugin;
    assert_eq!(plugin.name(), "ollama_chat");
    assert_eq!(plugin.version(), "0.1.0");
    assert_eq!(plugin.description(), "Interactive streaming chat interface for Ollama");
    let d = plugin.descriptor();
    let names: Vec<&str> = d.args.iter().map(|a| a.name.as_str()).collect();
    assert_eq!(names, vec!["model", "url", "temperature"]);
    assert!(matches!(d.args[2].kind, ArgKind::Number));
    assert!(!OllamaChatPlugin::sample_config().is_empty());
}

#[test]
fn demo_proxy_descriptor_requires_a_target() {
    let plugin = ProxyPlugin;
    assert_eq!(plugin.name(), "ProxyPlugin");
    assert_eq!(plugin.description(), "A command line proxy tool");
    assert_eq!(plugin.default_port(), "8080");
    let d = plugin.descriptor();
    assert_eq!(d.args.len(), 3);
    assert!(!d.args[0].required);
    assert!(d.args[1].required);
    assert!(matches!(d.args[2].kind, ArgKind::Flag));
}

#[test]
fn decimal_rendering_is_exact() {
    assert_eq!(u64_dec(0), "0");
    assert_eq!(u64_dec(7), "7");
    assert_eq!(u64_dec(65535), "65535");
    assert_eq!(u64_dec(1000), "1000");
}
