use path_intellisense_lsp::{
    ExtensionCapability, ResolutionStrategy, ResolveError, ServerLaunchResolver, WorktreeContext,
    fixed_server_path, lsp_program_name,
};

const CONFIGURED_PATH: &str = "/Users/menglinmaker/Documents/software-projects/open-source/path-intellisense-lsp/lsp/out/path-intellisense-lsp";

fn home_env() -> Vec<(String, String)> {
    vec![("HOME".to_string(), "/home/u".to_string())]
}

#[test]
fn program_name_is_the_conventional_binary_name() {
    assert_eq!(lsp_program_name(), "path-intellisense-lsp");
}

#[test]
fn fixed_server_path_is_the_configured_constant() {
    assert_eq!(fixed_server_path(), CONFIGURED_PATH);
}

#[test]
fn construct_configures_the_fixed_path_strategy() {
    let resolver = ServerLaunchResolver::construct();
    assert_eq!(resolver.strategy, ResolutionStrategy::FixedPath);
}

#[test]
fn fixed_path_scenario() {
    let resolver = ServerLaunchResolver::new(ResolutionStrategy::FixedPath);
    let context = WorktreeContext {
        shell_env: home_env(),
        binary_lookup: None,
    };
    let descriptor = resolver.resolve_launch(context).unwrap();
    assert_eq!(descriptor.path, CONFIGURED_PATH);
    assert!(descriptor.args.is_empty());
    assert_eq!(descriptor.env, home_env());
}

#[test]
fn fixed_path_passes_the_environment_through_verbatim() {
    let env = vec![
        ("PATH".to_string(), "/usr/bin:/bin".to_string()),
        ("HOME".to_string(), "/home/u".to_string()),
        ("LANG".to_string(), "en_US.UTF-8".to_string()),
    ];
    let resolver = ServerLaunchResolver::new(ResolutionStrategy::FixedPath);
    let context = WorktreeContext {
        shell_env: env.clone(),
        binary_lookup: Some("/ignored/by/this/strategy".to_string()),
    };
    let descriptor = resolver.resolve_launch(context).unwrap();
    assert_eq!(descriptor.env, env);
}

#[test]
fn discovery_found_scenario() {
    let resolver = ServerLaunchResolver::new(ResolutionStrategy::Discovery);
    let context = WorktreeContext {
        shell_env: home_env(),
        binary_lookup: Some("/usr/local/bin/path-intellisense-lsp".to_string()),
    };
    let descriptor = resolver.resolve_launch(context).unwrap();
    assert_eq!(descriptor.path, "/usr/local/bin/path-intellisense-lsp");
    assert!(descriptor.args.is_empty());
    assert_eq!(descriptor.env, home_env());
}

#[test]
fn discovery_not_found_scenario() {
    let resolver = ServerLaunchResolver::new(ResolutionStrategy::Discovery);
    let context = WorktreeContext {
        shell_env: home_env(),
        binary_lookup: None,
    };
    let error = resolver.resolve_launch(context).unwrap_err();
    let ResolveError::BinaryNotFound { searched_name } = &error;
    assert_eq!(searched_name, "path-intellisense-lsp");
    assert_eq!(error.message(), "Could not find path-intellisense-lsp binary");
}

#[test]
fn not_found_message_names_the_searched_binary() {
    let error = ResolveError::BinaryNotFound {
        searched_name: "some-other-tool".to_string(),
    };
    assert_eq!(error.message(), "Could not find some-other-tool binary");
}

#[test]
fn resolution_is_idempotent_under_fixed_path() {
    let resolver = ServerLaunchResolver::new(ResolutionStrategy::FixedPath);
    let context = || WorktreeContext {
        shell_env: home_env(),
        binary_lookup: None,
    };
    let first = resolver.resolve_launch(context());
    let second = resolver.resolve_launch(context());
    assert_eq!(first, second);
}

#[test]
fn resolution_is_idempotent_under_discovery() {
    let resolver = ServerLaunchResolver::new(ResolutionStrategy::Discovery);
    let found = || WorktreeContext {
        shell_env: home_env(),
        binary_lookup: Some("/opt/bin/path-intellisense-lsp".to_string()),
    };
    assert_eq!(
        resolver.resolve_launch(found()),
        resolver.resolve_launch(found())
    );
    let missing = || WorktreeContext {
        shell_env: home_env(),
        binary_lookup: None,
    };
    assert_eq!(
        resolver.resolve_launch(missing()),
        resolver.resolve_launch(missing())
    );
}
