use imageflow_core::context_methods::{context_method, ContextMethod};

#[test]
fn both_api_versions_route_to_the_same_methods() {
    assert_eq!(context_method("v0.1/build"), Some(ContextMethod::Build));
    assert_eq!(context_method("v1/build"), Some(ContextMethod::Build));
    assert_eq!(context_method("v0.1/get_image_info"), Some(ContextMethod::GetImageInfo));
    assert_eq!(context_method("v1/get_image_info"), Some(ContextMethod::GetImageInfo));
    assert_eq!(context_method("v0.1/tell_decoder"), Some(ContextMethod::TellDecoder));
    assert_eq!(context_method("v1/tell_decoder"), Some(ContextMethod::TellDecoder));
    assert_eq!(context_method("v0.1/execute"), Some(ContextMethod::Execute));
    assert_eq!(context_method("v1/execute"), Some(ContextMethod::Execute));
}

#[test]
fn some_methods_exist_only_in_v1() {
    assert_eq!(context_method("v1/get_scaled_image_info"), Some(ContextMethod::GetScaledImageInfo));
    assert_eq!(context_method("v0.1/get_scaled_image_info"), None);
    assert_eq!(context_method("v1/get_version_info"), Some(ContextMethod::GetVersionInfo));
    assert_eq!(context_method("v0.1/get_version_info"), None);
}

#[test]
fn unknown_names_route_nowhere() {
    assert_eq!(context_method("brew_coffee"), Some(ContextMethod::BrewCoffee));
    assert_eq!(context_method("v2/build"), None);
    assert_eq!(context_method(""), None);
    assert_eq!(context_method("v1/build "), None);
}
