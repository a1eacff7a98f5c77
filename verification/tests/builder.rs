//! Registration: the builder, the Router, and the initialize registrar.
use lspf::builder::{
    reserved_method, InitializeRegistrar, ProtocolNotification, Registrations, Route, Server,
    ServerBuilder,
};
use lspf::error::BuildError;
use lspf::features;
use lspf::options::{
    CompletionOptions, FileOperationFilter, FileOperationPattern, FileOperationPatternKind,
    FileOperationRegistrationOptions, Save, SaveOptions, ServerCapabilities, TextDocumentSync,
    TextDocumentSyncKind, TextDocumentSyncOptions, WorkspaceSymbolOptions,
};
use lspf::resource_policy::{
    ResourcePolicy, ResourcePolicyField, DEFAULT_OUTBOUND_WARNING_THRESHOLD,
};

struct DummyState;

fn builder() -> ServerBuilder<DummyState, &'static str> {
    Server::builder(DummyState)
}

#[test]
fn duplicate_request_method_is_a_build_error() {
    let err = builder()
        .request("textDocument/hover".to_string(), "ok_hover")
        .request("textDocument/hover".to_string(), "ok_hover")
        .build()
        .err()
        .expect("second registration for the same method must fail");
    assert_eq!(
        err,
        BuildError::DuplicateMethod("textDocument/hover".to_string())
    );
}

#[test]
fn registering_a_reserved_method_is_a_build_error() {
    let err = builder()
        .request("shutdown".to_string(), "shutdown_handler")
        .build()
        .err()
        .expect("shutdown is framework-reserved");
    assert_eq!(err, BuildError::ReservedMethod("shutdown".to_string()));
}

#[test]
fn a_single_registration_builds_and_advertises_no_extra_capabilities() {
    let server = builder()
        .request("textDocument/hover".to_string(), "ok_hover")
        .build()
        .expect("a lone custom request builds");
    let router = server.into_router();
    assert!(router.request("textDocument/hover").is_some());
    assert!(router.request("nope").is_none());
    assert_eq!(
        router.capabilities(),
        ServerCapabilities::default(),
        "custom requests must not contribute capabilities"
    );
}

#[test]
fn a_reserved_notification_method_is_a_build_error() {
    let err = builder()
        .notification("exit".to_string(), "hook")
        .build()
        .err()
        .expect("exit is framework-reserved");
    assert_eq!(err, BuildError::ReservedMethod("exit".to_string()));
}

#[test]
fn a_duplicate_notification_method_is_a_build_error() {
    let err = builder()
        .notification("workspace/didChangeConfiguration".to_string(), "hook")
        .notification("workspace/didChangeConfiguration".to_string(), "hook")
        .build()
        .err()
        .expect("a repeated notification method must fail");
    assert_eq!(
        err,
        BuildError::DuplicateMethod("workspace/didChangeConfiguration".to_string())
    );
}

#[test]
fn workspace_mutation_hooks_contribute_no_catalog_capabilities() {
    let server = builder()
        .notification("workspace/didChangeConfiguration".to_string(), "hook")
        .build()
        .expect("a lone notification builds");
    let router = server.into_router();
    assert!(
        router
            .built_in_hook("workspace/didChangeConfiguration")
            .is_some()
    );
    assert!(
        router
            .notification("workspace/didChangeConfiguration")
            .is_none()
    );
    assert_eq!(router.capabilities(), ServerCapabilities::default());
}

#[test]
fn a_document_sync_registration_records_a_hook_not_a_route() {
    let server = builder()
        .notification("textDocument/didOpen".to_string(), "hook")
        .notification("textDocument/didSave".to_string(), "hook")
        .build()
        .expect("one hook and one ordinary notification build");
    let router = server.into_router();

    assert!(
        router.built_in_hook("textDocument/didOpen").is_some(),
        "a built-in document notification records a post-validation hook"
    );
    assert!(
        router.notification("textDocument/didOpen").is_none(),
        "the hook is not a Router route, so it cannot shadow the built-in"
    );
    assert!(router.notification("textDocument/didSave").is_none());
    assert!(
        router.built_in_hook("textDocument/didSave").is_some(),
        "didSave is protocol-validated before its typed hook runs"
    );
}

#[test]
fn a_progress_cancel_registration_records_a_hook_not_a_route() {
    let server = builder()
        .notification("window/workDoneProgress/cancel".to_string(), "hook")
        .build()
        .expect("a lone progress-cancel hook builds");
    let router = server.into_router();

    assert!(
        router
            .built_in_hook("window/workDoneProgress/cancel")
            .is_some(),
        "the progress-cancel built-in records a post-validation hook"
    );
    assert!(
        router
            .notification("window/workDoneProgress/cancel")
            .is_none(),
        "the hook is not a Router route, so it cannot replace the built-in"
    );
    assert_eq!(
        router.capabilities(),
        ServerCapabilities::default(),
        "a progress-cancel hook contributes no capabilities"
    );
}

#[test]
fn a_duplicate_document_hook_is_a_build_error() {
    let err = builder()
        .notification("textDocument/didChange".to_string(), "hook")
        .notification("textDocument/didChange".to_string(), "hook")
        .build()
        .err()
        .expect("a built-in notification takes at most one hook");
    assert_eq!(
        err,
        BuildError::DuplicateMethod("textDocument/didChange".to_string())
    );
}

#[test]
fn document_hooks_contribute_no_capabilities() {
    let without_hook = builder()
        .build()
        .expect("an empty server builds")
        .into_router()
        .capabilities();
    let with_hook = builder()
        .notification("textDocument/didClose".to_string(), "hook")
        .build()
        .expect("a lone document hook builds")
        .into_router()
        .capabilities();
    // Compared against a hookless build rather than asserting an absolute
    // set: what a built-in itself advertises is the built-in's business,
    // and observing one must not change it either way.
    assert_eq!(
        with_hook, without_hook,
        "observing a built-in advertises nothing the built-in did not"
    );
}

#[test]
fn an_empty_command_name_is_a_build_error() {
    let err = builder()
        .command("".to_string(), "noop_command")
        .build()
        .err()
        .expect("an empty command name must fail");
    assert_eq!(err, BuildError::EmptyCommandName);
}

#[test]
fn a_duplicate_command_name_is_a_build_error() {
    let err = builder()
        .command("my.cmd".to_string(), "noop_command")
        .command("my.cmd".to_string(), "noop_command")
        .build()
        .err()
        .expect("a repeated command name must fail");
    assert_eq!(err, BuildError::DuplicateCommand("my.cmd".to_string()));
}

#[test]
fn commands_alongside_an_explicit_execute_command_handler_conflict() {
    let err = builder()
        .command("my.cmd".to_string(), "noop_command")
        .request("workspace/executeCommand".to_string(), "raw_execute")
        .build()
        .err()
        .expect("a command and a raw execute-command handler cannot coexist");
    assert_eq!(err, BuildError::ExecuteCommandConflict);
}

#[test]
fn registered_commands_contribute_one_execute_command_capability() {
    let server = builder()
        .command("b.cmd".to_string(), "noop_command")
        .command("a.cmd".to_string(), "noop_command")
        .build()
        .expect("commands build");
    let provider = server
        .into_router()
        .capabilities()
        .execute_command_provider
        .expect("commands advertise an execute-command capability");
    assert_eq!(
        provider.commands,
        vec!["b.cmd".to_string(), "a.cmd".to_string()],
        "command names merge into one de-duplicated, registration-order list"
    );
}

#[test]
fn hover_feature_sets_only_hover_provider() {
    let server = builder()
        .feature(features::hover(), "ok_hover")
        .build()
        .expect("hover builds");
    let router = server.into_router();
    let caps = router.capabilities();
    assert_eq!(
        caps.hover_provider,
        Some(true)
    );
    assert_eq!(caps.completion_provider, None);
    assert!(router.request("textDocument/hover").is_some());
}

#[test]
fn hover_and_completion_merge_independent_of_order() {
    let options = CompletionOptions {
        trigger_characters: Some(vec![".".to_string()]),
        ..CompletionOptions::default()
    };
    let hover_first = builder()
        .feature(features::hover(), "ok_hover")
        .feature(features::completion(options.clone()), "ok_completion")
        .build()
        .expect("hover then completion builds")
        .into_router()
        .capabilities();
    let completion_first = builder()
        .feature(features::completion(options.clone()), "ok_completion")
        .feature(features::hover(), "ok_hover")
        .build()
        .expect("completion then hover builds")
        .into_router()
        .capabilities();
    assert_eq!(
        hover_first, completion_first,
        "capability merge is independent of registration order"
    );
    assert_eq!(
        hover_first.completion_provider,
        Some(options),
        "completion advertises the supplied options"
    );
}

#[test]
fn a_duplicate_feature_is_a_build_error_not_last_write_wins() {
    let err = builder()
        .feature(features::hover(), "ok_hover")
        .feature(features::hover(), "ok_hover")
        .build()
        .err()
        .expect("registering hover twice must fail");
    assert_eq!(
        err,
        BuildError::DuplicateMethod("textDocument/hover".to_string())
    );
}

#[test]
fn completion_and_resolve_merge_into_one_capability_independent_of_order() {
    let options = || CompletionOptions {
        trigger_characters: Some(vec![".".to_string()]),
        ..CompletionOptions::default()
    };
    let base_first = builder()
        .feature(features::completion(options()), "ok_completion")
        .feature(features::completion_resolve(), "ok_resolve")
        .build()
        .expect("completion then resolve builds")
        .into_router();
    let resolve_first = builder()
        .feature(features::completion_resolve(), "ok_resolve")
        .feature(features::completion(options()), "ok_completion")
        .build()
        .expect("resolve then completion builds")
        .into_router();

    assert_eq!(
        base_first.capabilities(),
        resolve_first.capabilities(),
        "the family merge is independent of registration order"
    );
    let merged = base_first
        .capabilities()
        .completion_provider
        .expect("the family emits one completionProvider capability");
    assert_eq!(merged.resolve_provider, Some(true));
    assert_eq!(merged.trigger_characters, Some(vec![".".to_string()]));
    assert!(base_first.request("textDocument/completion").is_some());
    assert!(base_first.request("completionItem/resolve").is_some());
}

#[test]
fn completion_resolve_without_completion_is_a_build_error() {
    let err = builder()
        .feature(features::completion_resolve(), "ok_resolve")
        .build()
        .err()
        .expect("resolve without its base feature must fail");
    assert_eq!(
        err,
        BuildError::ConflictingCapability {
            field: "completionProvider"
        }
    );
}

#[test]
fn unequal_resolve_contributions_within_the_family_fail() {
    let err = builder()
        .feature(
            features::completion(CompletionOptions {
                resolve_provider: Some(false),
                ..CompletionOptions::default()
            }),
            "ok_completion",
        )
        .feature(features::completion_resolve(), "ok_resolve")
        .build()
        .err()
        .expect("a base that denies resolve and a resolve registration clash");
    assert_eq!(
        err,
        BuildError::ConflictingCapability {
            field: "completionProvider"
        },
        "capability construction never resolves a clash by last-write-wins"
    );
}

#[test]
fn duplicate_configure_initialize_is_a_build_error() {
    let err = builder()
        .configure_initialize("configure")
        .configure_initialize("configure")
        .build()
        .err()
        .expect("supplying configure_initialize twice must fail");
    assert_eq!(err, BuildError::DuplicateConfigureInitialize);
}

#[test]
fn duplicate_on_initialize_is_a_build_error() {
    let err = builder()
        .on_initialize("noop_on_initialize")
        .on_initialize("noop_on_initialize")
        .build()
        .err()
        .expect("supplying on_initialize twice must fail");
    assert_eq!(err, BuildError::DuplicateLifecycleHook("on_initialize"));
}

#[test]
fn duplicate_on_initialized_is_a_build_error() {
    let err = builder()
        .on_initialized("noop_on_initialized")
        .on_initialized("noop_on_initialized")
        .build()
        .err()
        .expect("supplying on_initialized twice must fail");
    assert_eq!(err, BuildError::DuplicateLifecycleHook("on_initialized"));
}

#[test]
fn duplicate_on_shutdown_is_a_build_error() {
    let err = builder()
        .on_shutdown("noop_on_shutdown")
        .on_shutdown("noop_on_shutdown")
        .build()
        .err()
        .expect("supplying on_shutdown twice must fail");
    assert_eq!(err, BuildError::DuplicateLifecycleHook("on_shutdown"));
}

#[test]
fn duplicate_on_exit_is_a_build_error() {
    let err = builder()
        .on_exit("noop_on_exit")
        .on_exit("noop_on_exit")
        .build()
        .err()
        .expect("supplying on_exit twice must fail");
    assert_eq!(err, BuildError::DuplicateLifecycleHook("on_exit"));
}

#[test]
fn lifecycle_hooks_contribute_no_catalog_capabilities() {
    let server = builder()
        .on_initialized("noop_on_initialized")
        .on_shutdown("noop_on_shutdown")
        .on_exit("noop_on_exit")
        .build()
        .expect("a server with only lifecycle hooks builds");
    let router = server.into_router();
    assert!(
        router.notification("initialized").is_none(),
        "initialized is not a Router route; it is a reserved lifecycle notification"
    );
    assert_eq!(
        router.capabilities(),
        ServerCapabilities::default(),
        "lifecycle hooks contribute nothing to the capability catalog"
    );
}

#[test]
fn initialized_is_a_reserved_notification_method() {
    let err = builder()
        .notification("initialized".to_string(), "hook")
        .build()
        .err()
        .expect("initialized is framework-reserved");
    assert_eq!(err, BuildError::ReservedMethod("initialized".to_string()));
}

fn rename_filters() -> FileOperationRegistrationOptions {
    FileOperationRegistrationOptions {
        filters: vec![FileOperationFilter {
            scheme: Some("file".to_string()),
            pattern: FileOperationPattern {
                glob: "**/*.rs".to_string(),
                matches: Some(FileOperationPatternKind::File),
                options: None,
            },
        }],
    }
}

fn workspace_symbol_options() -> WorkspaceSymbolOptions {
    WorkspaceSymbolOptions {
        work_done_progress_options: Default::default(),
        resolve_provider: None,
    }
}

#[test]
fn workspace_symbol_and_resolve_merge_into_one_capability_independent_of_order() {
    let base_first = builder()
        .feature(
            features::workspace_symbol(workspace_symbol_options()),
            "ok_workspace_symbol",
        )
        .feature(
            features::workspace_symbol_resolve(),
            "ok_symbol_resolve",
        )
        .build()
        .expect("workspace symbol then resolve builds")
        .into_router();
    let resolve_first = builder()
        .feature(
            features::workspace_symbol_resolve(),
            "ok_symbol_resolve",
        )
        .feature(
            features::workspace_symbol(workspace_symbol_options()),
            "ok_workspace_symbol",
        )
        .build()
        .expect("resolve then workspace symbol builds")
        .into_router();

    assert_eq!(
        base_first.capabilities(),
        resolve_first.capabilities(),
        "the family merge is independent of registration order"
    );
    let merged = base_first
        .capabilities()
        .workspace_symbol_provider
        .expect("the family emits one workspaceSymbolProvider capability");
    assert_eq!(merged.resolve_provider, Some(true));
    assert!(base_first.request("workspace/symbol").is_some());
    assert!(base_first.request("workspaceSymbol/resolve").is_some());
}

#[test]
fn workspace_symbol_resolve_without_workspace_symbol_is_a_build_error() {
    let err = builder()
        .feature(
            features::workspace_symbol_resolve(),
            "ok_symbol_resolve",
        )
        .build()
        .err()
        .expect("resolve without its base feature must fail");
    assert_eq!(
        err,
        BuildError::ConflictingCapability {
            field: "workspaceSymbolProvider"
        }
    );
}

#[test]
fn file_operation_features_share_one_family_capability() {
    let server = builder()
        .feature(
            features::will_rename_files(rename_filters()),
            "ok_will_rename",
        )
        .feature_notification(
            features::did_rename_files(rename_filters()),
            "noop_rename_files",
        )
        .build()
        .expect("identical will/did filters merge");
    let router = server.into_router();
    assert!(router.request("workspace/willRenameFiles").is_some());
    assert!(router.notification("workspace/didRenameFiles").is_some());
    let file_operations = router
        .capabilities()
        .workspace
        .expect("the family advertises the workspace object")
        .file_operations
        .expect("the family advertises a fileOperations capability");
    let expected = Some(rename_filters());
    assert_eq!(file_operations.will_rename, expected.clone());
    assert_eq!(file_operations.did_rename, expected);
    assert_eq!(file_operations.will_create, None);
}

#[test]
fn disagreeing_file_operation_filters_are_a_build_error() {
    let mut other = rename_filters();
    other.filters[0].pattern.glob = "**/*.toml".to_string();
    let err = builder()
        .feature(
            features::will_rename_files(rename_filters()),
            "ok_will_rename",
        )
        .feature_notification(features::did_rename_files(other), "noop_rename_files")
        .build()
        .err()
        .expect("differing filters within one family must fail");
    assert_eq!(
        err,
        BuildError::ConflictingCapability {
            field: "workspace.fileOperations.rename"
        }
    );
}

#[test]
fn a_duplicate_notification_feature_is_a_build_error() {
    let err = builder()
        .feature_notification(
            features::did_rename_files(rename_filters()),
            "noop_rename_files",
        )
        .feature_notification(
            features::did_rename_files(rename_filters()),
            "noop_rename_files",
        )
        .build()
        .err()
        .expect("registering the same notification feature twice must fail");
    assert_eq!(
        err,
        BuildError::DuplicateMethod("workspace/didRenameFiles".to_string())
    );
}

#[test]
fn watched_files_feature_registers_a_route_and_contributes_no_capability() {
    let server = builder()
        .feature_notification(features::did_change_watched_files(), "noop_watched")
        .build()
        .expect("the watched-files feature builds");
    let router = server.into_router();
    assert!(
        router
            .notification("workspace/didChangeWatchedFiles")
            .is_some(),
        "watched files is an ordinary route: the framework owns no mutation for it"
    );
    assert_eq!(
        router.capabilities(),
        ServerCapabilities::default(),
        "LSP 3.17 has no watched-files server capability, so none is advertised"
    );
}

#[test]
fn the_outbound_warning_threshold_defaults_to_1024() {
    let server = builder()
        .build()
        .expect("the default threshold builds");
    assert_eq!(server.resource_policy.max_outbound_messages, 1024);
    assert_eq!(
        server.resource_policy.max_outbound_messages,
        DEFAULT_OUTBOUND_WARNING_THRESHOLD
    );
}

#[test]
fn the_outbound_warning_threshold_accepts_positive_values() {
    let server = builder()
        .outbound_warning_threshold(7)
        .build()
        .expect("a positive threshold builds");
    assert_eq!(server.resource_policy.max_outbound_messages, 7);
}

#[test]
fn a_zero_outbound_warning_threshold_is_a_build_error() {
    let err = builder()
        .outbound_warning_threshold(0)
        .build()
        .err()
        .expect("a zero threshold must fail the build");
    assert_eq!(err, BuildError::InvalidOutboundWarningThreshold);
    assert_eq!(
        err.message(),
        "outbound warning threshold must be greater than zero"
    );
}

#[test]
fn the_first_mistake_is_the_one_reported() {
    let err = builder()
        .command("".to_string(), "command")
        .concurrency_limit(0)
        .request("shutdown".to_string(), "handler")
        .build()
        .err()
        .expect("the build fails");
    assert_eq!(err, BuildError::EmptyCommandName);
}

#[test]
fn settings_are_validated() {
    let err = builder().concurrency_limit(0).build().err().expect("no call could be admitted");
    assert_eq!(err, BuildError::InvalidConcurrencyLimit);
    let err = builder().on_error("a").on_error("b").build().err().expect("one error hook");
    assert_eq!(err, BuildError::DuplicateErrorHook);
    let err = builder()
        .resource_policy(ResourcePolicy { handler_timeout: 0, ..ResourcePolicy::default() })
        .build()
        .err()
        .expect("an enabled deadline is positive");
    assert_eq!(
        err,
        BuildError::InvalidResourcePolicy { field: ResourcePolicyField::HandlerTimeout }
    );
    let server = builder().concurrency_limit(3).build().expect("a positive limit builds");
    assert_eq!(server.resource_policy.max_inbound_requests, 3);
}

#[test]
fn framework_methods_are_reserved() {
    for method in ["initialize", "initialized", "shutdown", "exit", "$/cancelRequest"] {
        assert!(reserved_method(method), "{method}");
    }
    assert!(!reserved_method("textDocument/hover"));
    assert_eq!(
        ProtocolNotification::from_method("$/setTrace"),
        Some(ProtocolNotification::Trace)
    );
    assert_eq!(ProtocolNotification::from_method("custom/ping"), None);
}

#[test]
fn a_registrar_commits_all_or_nothing() {
    let mut registrar: InitializeRegistrar<&str> = InitializeRegistrar::new(Registrations::new());
    registrar.request("custom/a".to_string(), "a").command("c".to_string(), "c");
    let router = registrar.commit().expect("nothing clashes").freeze();
    assert_eq!(router.request("custom/a"), Some(&"a"));
    assert_eq!(router.command("c"), Some(&"c"));
    assert!(router.has_commands());

    let mut registrar: InitializeRegistrar<&str> = InitializeRegistrar::new(Registrations::new());
    registrar
        .request("custom/a".to_string(), "a")
        .request("custom/a".to_string(), "b")
        .command("".to_string(), "c");
    assert_eq!(
        registrar.commit().err(),
        Some(BuildError::DuplicateMethod("custom/a".to_string()))
    );
}

#[test]
fn configured_synchronization_is_advertised() {
    let options = TextDocumentSyncOptions {
        open_close: Some(true),
        change: Some(TextDocumentSyncKind::Full),
        will_save: None,
        will_save_wait_until: None,
        save: Some(Save::SaveOptions(SaveOptions { include_text: None })),
    };
    let router = builder()
        .text_document_sync(options)
        .notification("textDocument/didSave".to_string(), "saved")
        .build()
        .expect("the hook is synchronized")
        .into_router();
    assert_eq!(
        router.document_sync().capability,
        TextDocumentSync::Options(options)
    );
    assert_eq!(router.built_in_hook("textDocument/didSave"), Some(&"saved"));

    let err = builder()
        .text_document_sync(TextDocumentSyncOptions {
            open_close: Some(true),
            change: Some(TextDocumentSyncKind::Full),
            will_save: None,
            will_save_wait_until: None,
            save: Some(Save::Bool(false)),
        })
        .notification("textDocument/didSave".to_string(), "saved")
        .build()
        .err()
        .expect("a denied notification cannot be observed");
    assert!(matches!(err, BuildError::ConflictingCapability { .. }));
}

#[test]
fn commands_stand_in_for_the_execute_command_handler() {
    let json = |text: &str| serde_json::from_str::<serde_json::Value>(text).unwrap();
    let router = builder()
        .request("custom/echo".to_string(), "echo")
        .command("my.cmd".to_string(), "cmd")
        .build()
        .unwrap()
        .into_router();
    let method = "workspace/executeCommand";
    let named = json(r#"{"command": "my.cmd"}"#);
    assert!(matches!(router.route(method, &named), Route::Command(handler) if *handler == "cmd"));
    let other = json(r#"{"command": "other"}"#);
    assert!(matches!(router.route(method, &other), Route::UnknownCommand(name) if name == "other"));
    let unnamed = json(r#"{"command": 1}"#);
    assert!(matches!(router.route(method, &unnamed), Route::UnknownCommand(name) if name.is_empty()));
    assert!(matches!(router.route("custom/echo", &named), Route::Request(handler) if *handler == "echo"));
    assert!(matches!(router.route("custom/none", &named), Route::UnknownMethod));

    let plain = builder().request(method.to_string(), "all").build().unwrap().into_router();
    assert!(matches!(plain.route(method, &named), Route::Request(handler) if *handler == "all"));
}

#[test]
fn the_default_deadlines_are_a_minute_and_half_of_one() {
    let policy = ResourcePolicy::default();
    assert_eq!(policy.handler_timeout, 60_000_000_000);
    assert_eq!(policy.outbound_request_timeout, Some(30_000_000_000));
}
