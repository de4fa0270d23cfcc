use vade::{Vade, VadeError, VadePlugin, VadePluginResultValue, VadeResult};

const EXAMPLE_DID_DOCUMENT_STR: &str = r###"{
    "@context": "https://www.w3.org/ns/did/v1",
    "id": "did:example:123456789abcdefghi"
}"###;

pub struct TestPlugin {}

impl TestPlugin {
    pub fn new() -> TestPlugin {
        TestPlugin {}
    }
}

impl Default for TestPlugin {
    fn default() -> Self {
        TestPlugin::new()
    }
}

impl VadePlugin for TestPlugin {
    // test plugin did_create handles this request
    fn did_create(
        &mut self,
        _did_method: &str,
        _options: &str,
        _payload: &str,
    ) -> VadeResult<VadePluginResultValue<Option<String>>> {
        Ok(VadePluginResultValue::Success(Some(EXAMPLE_DID_DOCUMENT_STR.to_string())))
    }

    // test plugin did_resolve just ignores this request
    fn did_resolve(&mut self, _did: &str) -> VadeResult<VadePluginResultValue<Option<String>>> {
        Ok(VadePluginResultValue::Ignored)
    }

    // test plugin did_update returns an error
    fn did_update(
        &mut self,
        _did: &str,
        _options: &str,
        _payload: &str,
    ) -> VadeResult<VadePluginResultValue<Option<String>>> {
        Err(VadeError::new("yikes"))
    }
}

#[test]
fn vade_plugin_plugin_can_call_functions_implemented_in_plugin() {
    let mut tp: TestPlugin = TestPlugin::new();
    match tp.did_create("", "", "") {
        Ok(response) => match response {
            VadePluginResultValue::Success(result) => {
                assert_eq!(result.unwrap(), EXAMPLE_DID_DOCUMENT_STR.to_string())
            }
            _ => panic!("unexpected result"),
        },
        Err(e) => panic!("{}", e.message()),
    }
}

#[test]
fn vade_plugin_plugin_can_call_fallback_for_not_implemented() {
    let mut tp: TestPlugin = TestPlugin::new();
    match tp.vc_zkp_verify_proof("", "", "") {
        Ok(response) => {
            assert!(match response {
                VadePluginResultValue::NotImplemented => true,
                _ => false,
            });
        }
        Err(e) => panic!("{}", e.message()),
    }
}

#[test]
fn vade_plugin_vade_can_call_functions_implemented_in_plugin() {
    let tp: TestPlugin = TestPlugin::new();
    let mut vade = Vade::new();
    vade.register_plugin(Box::from(tp));
    match vade.did_create("", "", "") {
        Ok(results) => assert_eq!(
            results[0].as_ref().unwrap().to_string(),
            EXAMPLE_DID_DOCUMENT_STR.to_string()
        ),
        Err(e) => panic!("{}", e.message()),
    };
}

/// A plugin whose `did_create` answer is scripted per instance, so one
/// registry can mix succeeding, ignoring and failing plugins.
enum ScriptedPlugin {
    Succeed(&'static str),
    Ignore,
    Fail(&'static str),
    KeepQuiet,
}

impl VadePlugin for ScriptedPlugin {
    fn did_create(
        &mut self,
        _did_method: &str,
        _options: &str,
        _payload: &str,
    ) -> VadeResult<VadePluginResultValue<Option<String>>> {
        match self {
            ScriptedPlugin::Succeed(value) => {
                Ok(VadePluginResultValue::Success(Some(value.to_string())))
            }
            ScriptedPlugin::Ignore => Ok(VadePluginResultValue::Ignored),
            ScriptedPlugin::Fail(detail) => Err(VadeError::new(detail)),
            ScriptedPlugin::KeepQuiet => Ok(VadePluginResultValue::NotImplemented),
        }
    }
}

#[test]
fn vade_collects_no_results_without_plugins() {
    let mut vade: Vade<ScriptedPlugin> = Vade::new();
    let results = vade.did_create("did:example", "", "").unwrap();
    assert_eq!(results.len(), 0);
}

#[test]
fn vade_collects_an_empty_list_when_no_plugin_implements_the_operation() {
    // every plugin answers NotImplemented: an empty list, never an error
    let mut vade: Vade<ScriptedPlugin> = Vade::new();
    vade.register_plugin(Box::from(ScriptedPlugin::KeepQuiet));
    vade.register_plugin(Box::from(ScriptedPlugin::KeepQuiet));
    vade.register_plugin(Box::from(ScriptedPlugin::KeepQuiet));
    let results = vade.did_create("did:example", "", "").unwrap();
    assert_eq!(results.len(), 0);
}

#[test]
fn vade_keeps_success_values_in_registration_order() {
    // [A, B, C] where B ignores the request: the result is [A-value, C-value]
    let mut vade: Vade<ScriptedPlugin> = Vade::new();
    vade.register_plugin(Box::from(ScriptedPlugin::Succeed("value-a")));
    vade.register_plugin(Box::from(ScriptedPlugin::Ignore));
    vade.register_plugin(Box::from(ScriptedPlugin::Succeed("value-c")));
    let results = vade.did_create("did:example", "", "").unwrap();
    assert_eq!(results.len(), 2);
    assert_eq!(results[0].as_ref().unwrap(), "value-a");
    assert_eq!(results[1].as_ref().unwrap(), "value-c");
}

#[test]
fn vade_fails_the_whole_dispatch_on_a_hard_error() {
    // [A, B, C] where B raises a hard error: the dispatch fails even though
    // A and C would have succeeded, naming the operation and the target
    let mut vade: Vade<ScriptedPlugin> = Vade::new();
    vade.register_plugin(Box::from(ScriptedPlugin::Succeed("value-a")));
    vade.register_plugin(Box::from(ScriptedPlugin::Fail("boom")));
    vade.register_plugin(Box::from(ScriptedPlugin::Succeed("value-c")));
    let err = vade.did_create("did:example", "", "").unwrap_err();
    assert_eq!(err.message(), "could not run \"did_create\" for \"did:example\"; boom");
}

#[test]
fn vade_registries_built_alike_aggregate_alike() {
    // two freshly constructed registries, populated with the same plugins
    // in the same order, answer identical repeated calls identically
    let mut first: Vade<ScriptedPlugin> = Vade::new();
    first.register_plugin(Box::from(ScriptedPlugin::Succeed("value-a")));
    first.register_plugin(Box::from(ScriptedPlugin::Ignore));
    first.register_plugin(Box::from(ScriptedPlugin::Succeed("value-c")));
    let mut second: Vade<ScriptedPlugin> = Vade::new();
    second.register_plugin(Box::from(ScriptedPlugin::Succeed("value-a")));
    second.register_plugin(Box::from(ScriptedPlugin::Ignore));
    second.register_plugin(Box::from(ScriptedPlugin::Succeed("value-c")));

    for _ in 0..3 {
        let from_first = first.did_create("did:example", "", "").unwrap();
        let from_second = second.did_create("did:example", "", "").unwrap();
        assert_eq!(from_first, from_second);
        assert_eq!(from_first.len(), 2);
    }
}

#[test]
fn vade_filter_results_drops_everything_but_successes() {
    let vade: Vade<ScriptedPlugin> = Vade::new();
    let results = vec![
        VadePluginResultValue::Success(1u64),
        VadePluginResultValue::NotImplemented,
        VadePluginResultValue::Ignored,
        VadePluginResultValue::Success(2u64),
    ];
    let filtered = vade.filter_results("did_create", "did:example", results).unwrap();
    assert_eq!(filtered, vec![1u64, 2u64]);
}

#[test]
fn vade_skips_operations_a_plugin_leaves_unimplemented() {
    // TestPlugin overrides only the did operations: every other dispatch
    // falls back to NotImplemented and yields an empty list, never an error
    let mut vade = Vade::new();
    vade.register_plugin(Box::from(TestPlugin::new()));
    assert_eq!(vade.vc_zkp_verify_proof("did:example", "", "").unwrap().len(), 0);
    assert_eq!(vade.run_custom_function("did:example", "test connection", "", "").unwrap().len(), 0);
    assert_eq!(vade.didcomm_send("", "").unwrap().len(), 0);
    assert_eq!(vade.didcomm_receive("", "").unwrap().len(), 0);
}

#[test]
fn vade_surfaces_an_ignored_request_as_an_empty_list() {
    // the plugin implements did_resolve but declines the request: callers
    // cannot tell that apart from "not implemented"
    let mut vade = Vade::new();
    vade.register_plugin(Box::from(TestPlugin::new()));
    assert_eq!(vade.did_resolve("did:example:123").unwrap().len(), 0);
}

#[test]
fn vade_wraps_a_plugin_error_with_operation_and_target() {
    let mut vade = Vade::new();
    vade.register_plugin(Box::from(TestPlugin::new()));
    let err = vade.did_update("did:example:123", "", "").unwrap_err();
    assert_eq!(err.message(), "could not run \"did_update\" for \"did:example:123\"; yikes");
}

#[test]
fn vade_plugin_result_value_can_unwrap_success() {
    let value: VadePluginResultValue<u64> = VadePluginResultValue::Success(17);
    assert_eq!(value.unwrap(), 17);
}
