//! The capability catalog: what each feature advertises and how features merge.
use lspf::capability::CapabilityBuilder;
use lspf::error::BuildError;
use lspf::options::{
    CallHierarchyOptions, CodeActionOptions, CodeLensOptions, CompletionOptions,
    DeclarationOptions, DefinitionOptions, DiagnosticOptions, DocumentColorOptions,
    DocumentFormattingOptions, DocumentHighlightOptions, DocumentLinkOptions,
    DocumentOnTypeFormattingOptions, DocumentRangeFormattingOptions, DocumentSymbolOptions,
    FileOperationFilter, FileOperationPattern, FileOperationPatternKind,
    FileOperationRegistrationOptions, FoldingRangeOptions, Full,
    ImplementationRegistrationOptions, InlayHintOptions, InlineValueOptions,
    LinkedEditingRangeOptions, MonikerOptions, ReferenceOptions, RenameOptions,
    SelectionRangeOptions, SemanticTokensFullDelta, SemanticTokensLegend, SemanticTokensOptions,
    SemanticTokensOptionsRange,
    ServerCapabilities, SignatureHelpOptions, StaticRegistrationOptions,
    TypeDefinitionRegistrationOptions, TypeHierarchyOptions, WorkDoneProgressOptions,
    WorkspaceSymbolOptions,
};

fn progress(value: Option<bool>) -> WorkDoneProgressOptions {
    WorkDoneProgressOptions {
        work_done_progress: value,
    }
}

#[test]
fn editing_features_set_only_their_provider_fields() {
    let formatting = DocumentFormattingOptions {
        work_done_progress_options: progress(Some(true)),
    };
    let mut caps = CapabilityBuilder::default();
    caps.set_document_formatting(formatting).unwrap();
    assert_eq!(
        caps.finish(),
        ServerCapabilities {
            document_formatting_provider: Some(formatting.into()),
            ..ServerCapabilities::default()
        }
    );

    let range = DocumentRangeFormattingOptions {
        work_done_progress_options: progress(Some(false)),
        ranges_support: None,
    };
    let mut caps = CapabilityBuilder::default();
    caps.set_range_formatting(range).unwrap();
    assert_eq!(
        caps.finish(),
        ServerCapabilities {
            document_range_formatting_provider: Some(range.into()),
            ..ServerCapabilities::default()
        }
    );

    let on_type = DocumentOnTypeFormattingOptions {
        first_trigger_character: "}".to_string(),
        more_trigger_character: Some(vec![";".to_string()]),
    };
    let mut caps = CapabilityBuilder::default();
    caps.set_on_type_formatting(on_type.clone()).unwrap();
    assert_eq!(
        caps.finish(),
        ServerCapabilities {
            document_on_type_formatting_provider: Some(on_type),
            ..ServerCapabilities::default()
        }
    );
}

#[test]
fn presentation_features_set_only_their_provider_fields() {
    let mut color = CapabilityBuilder::default();
    color.set_color_presentation();
    color
        .set_document_color(DocumentColorOptions::default())
        .unwrap();
    color.validate().unwrap();
    assert_eq!(
        color.finish(),
        ServerCapabilities {
            color_provider: Some(DocumentColorOptions::default().into()),
            ..ServerCapabilities::default()
        }
    );

    let mut folding = CapabilityBuilder::default();
    folding
        .set_folding_range(FoldingRangeOptions::default())
        .unwrap();
    assert_eq!(
        folding.finish(),
        ServerCapabilities {
            folding_range_provider: Some(FoldingRangeOptions::default().into()),
            ..ServerCapabilities::default()
        }
    );

    let selection_options = SelectionRangeOptions {
        work_done_progress_options: progress(Some(true)),
    };
    let mut selection = CapabilityBuilder::default();
    selection.set_selection_range(selection_options).unwrap();
    assert_eq!(
        selection.finish(),
        ServerCapabilities {
            selection_range_provider: Some(selection_options.into()),
            ..ServerCapabilities::default()
        }
    );

    let inline_options = InlineValueOptions {
        work_done_progress_options: progress(Some(false)),
    };
    let mut inline = CapabilityBuilder::default();
    inline.set_inline_value(inline_options).unwrap();
    assert_eq!(
        inline.finish(),
        ServerCapabilities {
            inline_value_provider: Some(inline_options.into()),
            ..ServerCapabilities::default()
        }
    );
}

#[test]
fn editing_and_presentation_singular_options_never_use_last_write_wins() {
    let expected = |field| BuildError::ConflictingCapability { field };

    let mut formatting = CapabilityBuilder::default();
    formatting
        .set_document_formatting(DocumentFormattingOptions {
            work_done_progress_options: progress(None),
        })
        .unwrap();
    assert_eq!(
        formatting.set_document_formatting(DocumentFormattingOptions {
            work_done_progress_options: progress(Some(true)),
        }),
        Err(expected("documentFormattingProvider"))
    );

    let mut range = CapabilityBuilder::default();
    range
        .set_range_formatting(DocumentRangeFormattingOptions {
            work_done_progress_options: progress(None),
            ..Default::default()
        })
        .unwrap();
    assert_eq!(
        range.set_range_formatting(DocumentRangeFormattingOptions {
            work_done_progress_options: progress(Some(true)),
            ..Default::default()
        }),
        Err(expected("documentRangeFormattingProvider"))
    );

    let mut on_type = CapabilityBuilder::default();
    on_type
        .set_on_type_formatting(DocumentOnTypeFormattingOptions {
            first_trigger_character: "}".into(),
            more_trigger_character: None,
        })
        .unwrap();
    assert_eq!(
        on_type.set_on_type_formatting(DocumentOnTypeFormattingOptions {
            first_trigger_character: ";".into(),
            more_trigger_character: None,
        }),
        Err(expected("documentOnTypeFormattingProvider"))
    );

    let mut color = CapabilityBuilder::default();
    color
        .set_document_color(DocumentColorOptions::default())
        .unwrap();
    color
        .set_document_color(DocumentColorOptions::default())
        .unwrap();

    let mut selection = CapabilityBuilder::default();
    selection
        .set_selection_range(SelectionRangeOptions {
            work_done_progress_options: progress(None),
        })
        .unwrap();
    assert_eq!(
        selection.set_selection_range(SelectionRangeOptions {
            work_done_progress_options: progress(Some(true)),
        }),
        Err(expected("selectionRangeProvider"))
    );

    let mut inline = CapabilityBuilder::default();
    inline
        .set_inline_value(InlineValueOptions {
            work_done_progress_options: progress(None),
        })
        .unwrap();
    assert_eq!(
        inline.set_inline_value(InlineValueOptions {
            work_done_progress_options: progress(Some(true)),
        }),
        Err(expected("inlineValueProvider"))
    );
}

#[test]
fn color_presentation_without_document_color_conflicts() {
    let mut caps = CapabilityBuilder::default();
    caps.set_color_presentation();
    assert_eq!(
        caps.validate(),
        Err(BuildError::ConflictingCapability {
            field: "colorProvider"
        })
    );
}

#[test]
fn hover_sets_only_hover_provider() {
    let mut caps = CapabilityBuilder::default();
    caps.set_hover().unwrap();
    let caps = caps.finish();
    assert_eq!(caps.hover_provider, Some(true));
    assert_eq!(caps.completion_provider, None);
    assert_eq!(caps.execute_command_provider, None);
}

#[test]
fn completion_advertises_supplied_options() {
    let options = CompletionOptions {
        trigger_characters: Some(vec![".".to_string()]),
        ..CompletionOptions::default()
    };
    let mut caps = CapabilityBuilder::default();
    caps.set_completion(options.clone()).unwrap();
    assert_eq!(caps.finish().completion_provider, Some(options));
}

#[test]
fn identical_completion_contributions_merge() {
    let options = CompletionOptions::default();
    let mut caps = CapabilityBuilder::default();
    caps.set_completion(options.clone()).unwrap();
    caps.set_completion(options.clone())
        .expect("identical options merge without conflict");
    assert_eq!(caps.finish().completion_provider, Some(options));
}

#[test]
fn completion_resolve_sets_resolve_provider_on_the_base_capability() {
    let options = CompletionOptions {
        trigger_characters: Some(vec![".".to_string()]),
        ..CompletionOptions::default()
    };
    let mut caps = CapabilityBuilder::default();
    caps.set_completion(options).unwrap();
    caps.set_completion_resolve();
    let merged = caps
        .finish()
        .completion_provider
        .expect("completion contributes a completionProvider capability");
    assert_eq!(
        merged.resolve_provider,
        Some(true),
        "the resolve contribution augments the same capability, not a second one"
    );
    assert_eq!(
        merged.trigger_characters,
        Some(vec![".".to_string()]),
        "the base feature's options survive the family merge"
    );
}

#[test]
fn completion_resolve_merge_is_independent_of_registration_order() {
    let options = || CompletionOptions {
        trigger_characters: Some(vec![".".to_string()]),
        ..CompletionOptions::default()
    };
    let mut base_first = CapabilityBuilder::default();
    base_first.set_completion(options()).unwrap();
    base_first.set_completion_resolve();

    let mut resolve_first = CapabilityBuilder::default();
    resolve_first.set_completion_resolve();
    resolve_first.set_completion(options()).unwrap();

    assert_eq!(
        base_first.finish().completion_provider,
        resolve_first.finish().completion_provider,
        "the merged capability does not depend on which feature registered first"
    );
}

#[test]
fn completion_resolve_without_completion_fails_validation() {
    let mut caps = CapabilityBuilder::default();
    caps.set_completion_resolve();
    let err = caps.validate().expect_err(
        "resolve without its base feature must not advertise a dangling capability",
    );
    assert_eq!(
        err,
        BuildError::ConflictingCapability {
            field: "completionProvider"
        }
    );
}

#[test]
fn a_base_that_denies_resolve_clashes_with_a_resolve_contribution() {
    let mut caps = CapabilityBuilder::default();
    caps.set_completion(CompletionOptions {
        resolve_provider: Some(false),
        ..CompletionOptions::default()
    })
    .unwrap();
    caps.set_completion_resolve();
    let err = caps
        .validate()
        .expect_err("a base denying resolve and a resolve contribution must clash");
    assert_eq!(
        err,
        BuildError::ConflictingCapability {
            field: "completionProvider"
        }
    );
}

#[test]
fn disagreeing_completion_contributions_conflict() {
    let mut caps = CapabilityBuilder::default();
    caps.set_completion(CompletionOptions::default()).unwrap();
    let err = caps
        .set_completion(CompletionOptions {
            trigger_characters: Some(vec![".".to_string()]),
            ..CompletionOptions::default()
        })
        .expect_err("differing completion options must not last-write-win");
    assert_eq!(
        err,
        BuildError::ConflictingCapability {
            field: "completionProvider"
        }
    );
}

fn diagnostic_options(
    identifier: Option<&str>,
    workspace_diagnostics: bool,
) -> DiagnosticOptions {
    DiagnosticOptions {
        identifier: identifier.map(str::to_string),
        inter_file_dependencies: true,
        workspace_diagnostics,
        work_done_progress_options: Default::default(),
    }
}

#[test]
fn identical_diagnostic_contributions_merge() {
    let options = diagnostic_options(Some("compiler"), true);
    let mut caps = CapabilityBuilder::default();
    caps.set_diagnostics(options.clone()).unwrap();
    caps.set_diagnostics(options.clone()).unwrap();
    assert_eq!(
        caps.finish().diagnostic_provider,
        Some(options)
    );
}

#[test]
fn conflicting_diagnostic_identifier_is_rejected() {
    let mut caps = CapabilityBuilder::default();
    caps.set_diagnostics(diagnostic_options(Some("compiler"), true))
        .unwrap();
    let error = caps
        .set_diagnostics(diagnostic_options(Some("linter"), true))
        .expect_err("identifier drift must conflict");
    assert_eq!(
        error,
        BuildError::ConflictingCapability {
            field: "diagnosticProvider"
        }
    );
}

#[test]
fn conflicting_workspace_diagnostics_setting_is_rejected() {
    let mut caps = CapabilityBuilder::default();
    caps.set_diagnostics(diagnostic_options(Some("compiler"), false))
        .unwrap();
    let error = caps
        .set_diagnostics(diagnostic_options(Some("compiler"), true))
        .expect_err("workspaceDiagnostics drift must conflict");
    assert_eq!(
        error,
        BuildError::ConflictingCapability {
            field: "diagnosticProvider"
        }
    );
}

#[test]
fn commands_merge_into_one_deduplicated_registration_order_list() {
    let mut caps = CapabilityBuilder::default();
    for name in ["b.cmd", "a.cmd", "b.cmd"] {
        caps.add_command(name.to_string());
    }
    let provider = caps
        .finish()
        .execute_command_provider
        .expect("registered commands contribute an execute-command capability");
    assert_eq!(
        provider.commands,
        vec!["b.cmd".to_string(), "a.cmd".to_string()],
        "commands are de-duplicated and keep registration order, not sorted order"
    );
}

#[test]
fn no_contributions_yield_default_capabilities() {
    assert_eq!(
        CapabilityBuilder::default().finish(),
        ServerCapabilities::default()
    );
}

fn workspace_symbol_options(resolve_provider: Option<bool>) -> WorkspaceSymbolOptions {
    WorkspaceSymbolOptions {
        work_done_progress_options: Default::default(),
        resolve_provider,
    }
}

#[test]
fn workspace_symbol_advertises_supplied_options() {
    let options = workspace_symbol_options(None);
    let mut caps = CapabilityBuilder::default();
    caps.set_workspace_symbol(options).unwrap();
    assert_eq!(
        caps.finish().workspace_symbol_provider,
        Some(options.into())
    );
}

#[test]
fn workspace_symbol_resolve_merge_is_independent_of_registration_order() {
    let mut base_first = CapabilityBuilder::default();
    base_first
        .set_workspace_symbol(workspace_symbol_options(None))
        .unwrap();
    base_first.set_workspace_symbol_resolve();

    let mut resolve_first = CapabilityBuilder::default();
    resolve_first.set_workspace_symbol_resolve();
    resolve_first
        .set_workspace_symbol(workspace_symbol_options(None))
        .unwrap();

    assert_eq!(
        base_first.finish().workspace_symbol_provider,
        resolve_first.finish().workspace_symbol_provider,
        "the merged capability does not depend on which feature registered first"
    );
    let mut merged = CapabilityBuilder::default();
    merged
        .set_workspace_symbol(workspace_symbol_options(None))
        .unwrap();
    merged.set_workspace_symbol_resolve();
    let merged = merged
        .finish()
        .workspace_symbol_provider
        .expect("the family emits one workspaceSymbolProvider capability");
    assert_eq!(
        merged,
        workspace_symbol_options(Some(true)).into(),
        "the resolve contribution augments the same capability, not a second one"
    );
}

#[test]
fn workspace_symbol_resolve_without_workspace_symbol_fails_validation() {
    let mut caps = CapabilityBuilder::default();
    caps.set_workspace_symbol_resolve();
    let err = caps.validate().expect_err(
        "resolve without its base feature must not advertise a dangling capability",
    );
    assert_eq!(
        err,
        BuildError::ConflictingCapability {
            field: "workspaceSymbolProvider"
        }
    );
}

#[test]
fn a_workspace_symbol_base_that_denies_resolve_clashes_with_a_resolve_contribution() {
    let mut caps = CapabilityBuilder::default();
    caps.set_workspace_symbol(workspace_symbol_options(Some(false)))
        .unwrap();
    caps.set_workspace_symbol_resolve();
    let err = caps
        .validate()
        .expect_err("a base denying resolve and a resolve contribution must clash");
    assert_eq!(
        err,
        BuildError::ConflictingCapability {
            field: "workspaceSymbolProvider"
        }
    );
}

#[test]
fn disagreeing_workspace_symbol_contributions_conflict() {
    let mut caps = CapabilityBuilder::default();
    caps.set_workspace_symbol(workspace_symbol_options(None))
        .unwrap();
    let err = caps
        .set_workspace_symbol(WorkspaceSymbolOptions {
            work_done_progress_options: WorkDoneProgressOptions {
                work_done_progress: Some(true),
            },
            resolve_provider: None,
        })
        .expect_err("differing workspace-symbol options must not last-write-win");
    assert_eq!(
        err,
        BuildError::ConflictingCapability {
            field: "workspaceSymbolProvider"
        }
    );
}

fn file_operation_options(glob: &str) -> FileOperationRegistrationOptions {
    FileOperationRegistrationOptions {
        filters: vec![FileOperationFilter {
            scheme: Some("file".to_string()),
            pattern: FileOperationPattern {
                glob: glob.to_string(),
                matches: Some(FileOperationPatternKind::File),
                options: None,
            },
        }],
    }
}

#[test]
fn will_and_did_sides_of_a_family_merge_into_shared_filters() {
    let mut caps = CapabilityBuilder::default();
    caps.set_will_create(file_operation_options("**/*.rs"))
        .unwrap();
    caps.set_did_create(file_operation_options("**/*.rs"))
        .unwrap();
    let file_operations = caps
        .finish()
        .workspace
        .expect("a registered file operation advertises the workspace object")
        .file_operations
        .expect("the family advertises a fileOperations capability");
    let expected = Some(file_operation_options("**/*.rs"));
    assert_eq!(file_operations.will_create, expected.clone());
    assert_eq!(
        file_operations.did_create, expected,
        "both sides of the family carry the one shared filters value"
    );
    assert_eq!(file_operations.will_rename, None);
    assert_eq!(file_operations.did_rename, None);
    assert_eq!(file_operations.will_delete, None);
    assert_eq!(file_operations.did_delete, None);
}

#[test]
fn file_operation_merge_is_independent_of_registration_order() {
    let mut will_first = CapabilityBuilder::default();
    will_first
        .set_will_rename(file_operation_options("**/*.rs"))
        .unwrap();
    will_first
        .set_did_rename(file_operation_options("**/*.rs"))
        .unwrap();

    let mut did_first = CapabilityBuilder::default();
    did_first
        .set_did_rename(file_operation_options("**/*.rs"))
        .unwrap();
    did_first
        .set_will_rename(file_operation_options("**/*.rs"))
        .unwrap();

    assert_eq!(
        will_first.finish().workspace,
        did_first.finish().workspace,
        "the family merge does not depend on which side registered first"
    );
}

#[test]
fn a_will_only_family_advertises_no_did_side() {
    let mut caps = CapabilityBuilder::default();
    caps.set_will_delete(file_operation_options("**/*.tmp"))
        .unwrap();
    let file_operations = caps
        .finish()
        .workspace
        .expect("a will-only family still advertises the workspace object")
        .file_operations
        .expect("the family advertises a fileOperations capability");
    assert_eq!(
        file_operations.will_delete,
        Some(file_operation_options("**/*.tmp"))
    );
    assert_eq!(file_operations.did_delete, None);
}

#[test]
fn disagreeing_filters_within_a_family_conflict() {
    let mut caps = CapabilityBuilder::default();
    caps.set_will_create(file_operation_options("**/*.rs"))
        .unwrap();
    let err = caps
        .set_did_create(file_operation_options("**/*.toml"))
        .expect_err("differing filters within one family must not last-write-win");
    assert_eq!(
        err,
        BuildError::ConflictingCapability {
            field: "workspace.fileOperations.create"
        }
    );
}

#[test]
fn disagreeing_filters_in_another_family_conflict_deterministically() {
    let mut caps = CapabilityBuilder::default();
    caps.set_did_rename(file_operation_options("**/*.rs"))
        .unwrap();
    let err = caps
        .set_will_rename(file_operation_options("**/*.toml"))
        .expect_err("the rename family rejects drifting filters as well");
    assert_eq!(
        err,
        BuildError::ConflictingCapability {
            field: "workspace.fileOperations.rename"
        }
    );
}

#[test]
fn no_file_operations_yield_no_workspace_capability() {
    let mut caps = CapabilityBuilder::default();
    caps.set_hover().unwrap();
    assert_eq!(caps.finish().workspace, None);
}

fn rename_options(prepare_provider: Option<bool>) -> RenameOptions {
    RenameOptions {
        prepare_provider,
        work_done_progress_options: Default::default(),
    }
}

#[test]
fn rename_advertises_supplied_options() {
    let options = rename_options(None);
    let mut caps = CapabilityBuilder::default();
    caps.set_rename(options).unwrap();
    assert_eq!(caps.finish().rename_provider, Some(options.into()));
}

#[test]
fn prepare_rename_merge_is_independent_of_registration_order() {
    let mut base_first = CapabilityBuilder::default();
    base_first.set_rename(rename_options(None)).unwrap();
    base_first.set_prepare_rename();

    let mut prepare_first = CapabilityBuilder::default();
    prepare_first.set_prepare_rename();
    prepare_first.set_rename(rename_options(None)).unwrap();

    assert_eq!(
        base_first.finish().rename_provider,
        prepare_first.finish().rename_provider,
        "the merged capability does not depend on which feature registered first"
    );
    let mut merged = CapabilityBuilder::default();
    merged.set_rename(rename_options(None)).unwrap();
    merged.set_prepare_rename();
    let merged = merged
        .finish()
        .rename_provider
        .expect("the family emits one renameProvider capability");
    assert_eq!(
        merged,
        rename_options(Some(true)).into(),
        "the prepare contribution augments the same capability, not a second one"
    );
}

#[test]
fn prepare_rename_without_rename_fails_validation() {
    let mut caps = CapabilityBuilder::default();
    caps.set_prepare_rename();
    let err = caps.validate().expect_err(
        "prepare without its base feature must not advertise a dangling capability",
    );
    assert_eq!(
        err,
        BuildError::ConflictingCapability {
            field: "renameProvider"
        }
    );
}

#[test]
fn a_rename_base_that_denies_prepare_clashes_with_a_prepare_contribution() {
    let mut caps = CapabilityBuilder::default();
    caps.set_rename(rename_options(Some(false))).unwrap();
    caps.set_prepare_rename();
    let err = caps
        .validate()
        .expect_err("a base denying prepare and a prepare contribution must clash");
    assert_eq!(
        err,
        BuildError::ConflictingCapability {
            field: "renameProvider"
        }
    );
}

#[test]
fn disagreeing_rename_contributions_conflict() {
    let mut caps = CapabilityBuilder::default();
    caps.set_rename(rename_options(None)).unwrap();
    let err = caps
        .set_rename(rename_options(Some(true)))
        .expect_err("differing rename options must not last-write-win");
    assert_eq!(
        err,
        BuildError::ConflictingCapability {
            field: "renameProvider"
        }
    );
}

fn code_action_options(resolve_provider: Option<bool>) -> CodeActionOptions {
    CodeActionOptions {
        code_action_kinds: Some(vec!["quickfix".to_string()]),
        work_done_progress_options: Default::default(),
        resolve_provider,
        ..Default::default()
    }
}

#[test]
fn code_action_advertises_supplied_options() {
    let options = code_action_options(None);
    let mut caps = CapabilityBuilder::default();
    caps.set_code_action(options.clone()).unwrap();
    assert_eq!(
        caps.finish().code_action_provider,
        Some(options)
    );
}

#[test]
fn code_action_resolve_merge_is_independent_of_registration_order() {
    let mut base_first = CapabilityBuilder::default();
    base_first
        .set_code_action(code_action_options(None))
        .unwrap();
    base_first.set_code_action_resolve();

    let mut resolve_first = CapabilityBuilder::default();
    resolve_first.set_code_action_resolve();
    resolve_first
        .set_code_action(code_action_options(None))
        .unwrap();

    assert_eq!(
        base_first.finish().code_action_provider,
        resolve_first.finish().code_action_provider,
        "the merged capability does not depend on which feature registered first"
    );
    let mut merged = CapabilityBuilder::default();
    merged.set_code_action(code_action_options(None)).unwrap();
    merged.set_code_action_resolve();
    let merged = merged
        .finish()
        .code_action_provider
        .expect("the family emits one codeActionProvider capability");
    assert_eq!(
        merged,
        code_action_options(Some(true)),
        "the resolve contribution augments the same capability, not a second one"
    );
}

#[test]
fn code_action_resolve_without_code_action_fails_validation() {
    let mut caps = CapabilityBuilder::default();
    caps.set_code_action_resolve();
    let err = caps.validate().expect_err(
        "resolve without its base feature must not advertise a dangling capability",
    );
    assert_eq!(
        err,
        BuildError::ConflictingCapability {
            field: "codeActionProvider"
        }
    );
}

#[test]
fn a_code_action_base_that_denies_resolve_clashes_with_a_resolve_contribution() {
    let mut caps = CapabilityBuilder::default();
    caps.set_code_action(code_action_options(Some(false)))
        .unwrap();
    caps.set_code_action_resolve();
    let err = caps
        .validate()
        .expect_err("a base denying resolve and a resolve contribution must clash");
    assert_eq!(
        err,
        BuildError::ConflictingCapability {
            field: "codeActionProvider"
        }
    );
}

#[test]
fn disagreeing_code_action_contributions_conflict() {
    let mut caps = CapabilityBuilder::default();
    caps.set_code_action(code_action_options(None)).unwrap();
    let err = caps
        .set_code_action(CodeActionOptions::default())
        .expect_err("differing code-action options must not last-write-win");
    assert_eq!(
        err,
        BuildError::ConflictingCapability {
            field: "codeActionProvider"
        }
    );
}

fn code_lens_options(resolve_provider: Option<bool>) -> CodeLensOptions {
    CodeLensOptions {
        resolve_provider,
        ..Default::default()
    }
}

#[test]
fn code_lens_advertises_supplied_options() {
    let options = code_lens_options(None);
    let mut caps = CapabilityBuilder::default();
    caps.set_code_lens(options).unwrap();
    assert_eq!(caps.finish().code_lens_provider, Some(options));
}

#[test]
fn code_lens_resolve_merge_is_independent_of_registration_order() {
    let mut base_first = CapabilityBuilder::default();
    base_first.set_code_lens(code_lens_options(None)).unwrap();
    base_first.set_code_lens_resolve();

    let mut resolve_first = CapabilityBuilder::default();
    resolve_first.set_code_lens_resolve();
    resolve_first
        .set_code_lens(code_lens_options(None))
        .unwrap();

    assert_eq!(
        base_first.finish().code_lens_provider,
        resolve_first.finish().code_lens_provider,
        "the merged capability does not depend on which feature registered first"
    );
    let mut merged = CapabilityBuilder::default();
    merged.set_code_lens(code_lens_options(None)).unwrap();
    merged.set_code_lens_resolve();
    let merged = merged
        .finish()
        .code_lens_provider
        .expect("the family emits one codeLensProvider capability");
    assert_eq!(
        merged,
        code_lens_options(Some(true)),
        "the resolve contribution augments the same capability, not a second one"
    );
}

#[test]
fn code_lens_resolve_without_code_lens_fails_validation() {
    let mut caps = CapabilityBuilder::default();
    caps.set_code_lens_resolve();
    let err = caps.validate().expect_err(
        "resolve without its base feature must not advertise a dangling capability",
    );
    assert_eq!(
        err,
        BuildError::ConflictingCapability {
            field: "codeLensProvider"
        }
    );
}

#[test]
fn a_code_lens_base_that_denies_resolve_clashes_with_a_resolve_contribution() {
    let mut caps = CapabilityBuilder::default();
    caps.set_code_lens(code_lens_options(Some(false))).unwrap();
    caps.set_code_lens_resolve();
    let err = caps
        .validate()
        .expect_err("a base denying resolve and a resolve contribution must clash");
    assert_eq!(
        err,
        BuildError::ConflictingCapability {
            field: "codeLensProvider"
        }
    );
}

#[test]
fn disagreeing_code_lens_contributions_conflict() {
    let mut caps = CapabilityBuilder::default();
    caps.set_code_lens(code_lens_options(Some(true))).unwrap();
    let err = caps
        .set_code_lens(code_lens_options(None))
        .expect_err("differing code-lens options must not last-write-win");
    assert_eq!(
        err,
        BuildError::ConflictingCapability {
            field: "codeLensProvider"
        }
    );
}

fn document_link_options(resolve_provider: Option<bool>) -> DocumentLinkOptions {
    DocumentLinkOptions {
        resolve_provider,
        work_done_progress_options: Default::default(),
    }
}

#[test]
fn document_link_advertises_supplied_options() {
    let options = document_link_options(None);
    let mut caps = CapabilityBuilder::default();
    caps.set_document_link(options).unwrap();
    assert_eq!(caps.finish().document_link_provider, Some(options));
}

#[test]
fn document_link_resolve_merge_is_independent_of_registration_order() {
    let mut base_first = CapabilityBuilder::default();
    base_first
        .set_document_link(document_link_options(None))
        .unwrap();
    base_first.set_document_link_resolve();

    let mut resolve_first = CapabilityBuilder::default();
    resolve_first.set_document_link_resolve();
    resolve_first
        .set_document_link(document_link_options(None))
        .unwrap();

    assert_eq!(
        base_first.finish().document_link_provider,
        resolve_first.finish().document_link_provider,
        "the merged capability does not depend on which feature registered first"
    );
    let mut merged = CapabilityBuilder::default();
    merged
        .set_document_link(document_link_options(None))
        .unwrap();
    merged.set_document_link_resolve();
    let merged = merged
        .finish()
        .document_link_provider
        .expect("the family emits one documentLinkProvider capability");
    assert_eq!(
        merged,
        document_link_options(Some(true)),
        "the resolve contribution augments the same capability, not a second one"
    );
}

#[test]
fn document_link_resolve_without_document_link_fails_validation() {
    let mut caps = CapabilityBuilder::default();
    caps.set_document_link_resolve();
    let err = caps.validate().expect_err(
        "resolve without its base feature must not advertise a dangling capability",
    );
    assert_eq!(
        err,
        BuildError::ConflictingCapability {
            field: "documentLinkProvider"
        }
    );
}

#[test]
fn a_document_link_base_that_denies_resolve_clashes_with_a_resolve_contribution() {
    let mut caps = CapabilityBuilder::default();
    caps.set_document_link(document_link_options(Some(false)))
        .unwrap();
    caps.set_document_link_resolve();
    let err = caps
        .validate()
        .expect_err("a base denying resolve and a resolve contribution must clash");
    assert_eq!(
        err,
        BuildError::ConflictingCapability {
            field: "documentLinkProvider"
        }
    );
}

#[test]
fn disagreeing_document_link_contributions_conflict() {
    let mut caps = CapabilityBuilder::default();
    caps.set_document_link(document_link_options(None)).unwrap();
    let err = caps
        .set_document_link(DocumentLinkOptions {
            resolve_provider: None,
            work_done_progress_options: WorkDoneProgressOptions {
                work_done_progress: Some(true),
            },
        })
        .expect_err("differing document-link options must not last-write-win");
    assert_eq!(
        err,
        BuildError::ConflictingCapability {
            field: "documentLinkProvider"
        }
    );
}

fn inlay_hint_options(resolve_provider: Option<bool>) -> InlayHintOptions {
    InlayHintOptions {
        work_done_progress_options: Default::default(),
        resolve_provider,
    }
}

#[test]
fn inlay_hint_advertises_supplied_options() {
    let options = inlay_hint_options(None);
    let mut caps = CapabilityBuilder::default();
    caps.set_inlay_hint(options).unwrap();
    assert_eq!(caps.finish().inlay_hint_provider, Some(options.into()));
}

#[test]
fn inlay_hint_resolve_merge_is_independent_of_registration_order() {
    let mut base_first = CapabilityBuilder::default();
    base_first.set_inlay_hint(inlay_hint_options(None)).unwrap();
    base_first.set_inlay_hint_resolve();

    let mut resolve_first = CapabilityBuilder::default();
    resolve_first.set_inlay_hint_resolve();
    resolve_first
        .set_inlay_hint(inlay_hint_options(None))
        .unwrap();

    assert_eq!(
        base_first.finish().inlay_hint_provider,
        resolve_first.finish().inlay_hint_provider,
        "the merged capability does not depend on which feature registered first"
    );
    let mut merged = CapabilityBuilder::default();
    merged.set_inlay_hint(inlay_hint_options(None)).unwrap();
    merged.set_inlay_hint_resolve();
    let merged = merged
        .finish()
        .inlay_hint_provider
        .expect("the family emits one inlayHintProvider capability");
    assert_eq!(
        merged,
        inlay_hint_options(Some(true)).into(),
        "the resolve contribution augments the same capability, not a second one"
    );
}

#[test]
fn inlay_hint_resolve_without_inlay_hint_fails_validation() {
    let mut caps = CapabilityBuilder::default();
    caps.set_inlay_hint_resolve();
    let err = caps.validate().expect_err(
        "resolve without its base feature must not advertise a dangling capability",
    );
    assert_eq!(
        err,
        BuildError::ConflictingCapability {
            field: "inlayHintProvider"
        }
    );
}

#[test]
fn an_inlay_hint_base_that_denies_resolve_clashes_with_a_resolve_contribution() {
    let mut caps = CapabilityBuilder::default();
    caps.set_inlay_hint(inlay_hint_options(Some(false)))
        .unwrap();
    caps.set_inlay_hint_resolve();
    let err = caps
        .validate()
        .expect_err("a base denying resolve and a resolve contribution must clash");
    assert_eq!(
        err,
        BuildError::ConflictingCapability {
            field: "inlayHintProvider"
        }
    );
}

#[test]
fn disagreeing_inlay_hint_contributions_conflict() {
    let mut caps = CapabilityBuilder::default();
    caps.set_inlay_hint(inlay_hint_options(None)).unwrap();
    let err = caps
        .set_inlay_hint(InlayHintOptions {
            work_done_progress_options: WorkDoneProgressOptions {
                work_done_progress: Some(true),
            },
            resolve_provider: None,
        })
        .expect_err("differing inlay-hint options must not last-write-win");
    assert_eq!(
        err,
        BuildError::ConflictingCapability {
            field: "inlayHintProvider"
        }
    );
}

#[test]
fn call_hierarchy_routes_merge_into_one_prepare_capability() {
    let options = CallHierarchyOptions {
        work_done_progress_options: WorkDoneProgressOptions {
            work_done_progress: Some(true),
        },
    };
    let mut caps = CapabilityBuilder::default();
    caps.set_call_hierarchy_incoming_calls();
    caps.set_call_hierarchy(options).unwrap();
    caps.set_call_hierarchy_outgoing_calls();
    caps.validate().unwrap();

    assert_eq!(caps.finish().call_hierarchy_provider, Some(options.into()));
}

#[test]
fn call_hierarchy_subordinate_without_prepare_conflicts() {
    let mut caps = CapabilityBuilder::default();
    caps.set_call_hierarchy_incoming_calls();

    assert_eq!(
        caps.validate(),
        Err(BuildError::ConflictingCapability {
            field: "callHierarchyProvider"
        })
    );
}

#[test]
fn type_hierarchy_routes_share_the_prepare_options() {
    let options = TypeHierarchyOptions {
        work_done_progress_options: WorkDoneProgressOptions {
            work_done_progress: Some(true),
        },
    };
    let mut caps = CapabilityBuilder::default();
    caps.set_type_hierarchy_subtypes();
    caps.set_type_hierarchy(options).unwrap();
    caps.set_type_hierarchy_supertypes();
    caps.validate().unwrap();

    assert_eq!(
        caps.finish_generated().type_hierarchy_provider,
        Some(options.into())
    );
}

#[test]
fn type_hierarchy_subordinate_without_prepare_conflicts() {
    let mut caps = CapabilityBuilder::default();
    caps.set_type_hierarchy_supertypes();

    assert_eq!(
        caps.validate(),
        Err(BuildError::ConflictingCapability {
            field: "typeHierarchyProvider"
        })
    );
}

fn semantic_options() -> SemanticTokensOptions {
    SemanticTokensOptions {
        work_done_progress_options: WorkDoneProgressOptions {
            work_done_progress: Some(true),
        },
        legend: SemanticTokensLegend {
            token_types: vec!["keyword".to_string()],
            token_modifiers: vec![],
        },
        range: None,
        full: None,
    }
}

#[test]
fn semantic_token_routes_merge_shared_options_and_modes() {
    let mut caps = CapabilityBuilder::default();
    let mut full = semantic_options();
    full.full = Some(Full::Bool(true));
    caps.set_semantic_tokens_full(full).unwrap();
    let mut delta = semantic_options();
    delta.full = Some(Full::SemanticTokensFullDelta(SemanticTokensFullDelta {
        delta: Some(true),
    }));
    caps.set_semantic_tokens_full_delta(delta).unwrap();
    let mut range = semantic_options();
    range.range = Some(SemanticTokensOptionsRange::Bool(true));
    caps.set_semantic_tokens_range(range).unwrap();
    caps.validate().unwrap();

    let options = caps
        .finish()
        .semantic_tokens_provider
        .expect("one semanticTokensProvider");
    assert_eq!(options.legend, semantic_options().legend);
    assert_eq!(options.range, Some(SemanticTokensOptionsRange::Bool(true)));
    assert_eq!(
        options.full,
        Some(Full::SemanticTokensFullDelta(SemanticTokensFullDelta {
            delta: Some(true),
        }))
    );
}

#[test]
fn semantic_token_delta_without_full_conflicts() {
    let mut caps = CapabilityBuilder::default();
    caps.set_semantic_tokens_full_delta(semantic_options())
        .unwrap();

    assert_eq!(
        caps.validate(),
        Err(BuildError::ConflictingCapability {
            field: "semanticTokensProvider"
        })
    );
}

#[test]
fn semantic_token_legend_mode_and_shared_option_conflicts_are_rejected() {
    let mut caps = CapabilityBuilder::default();
    caps.set_semantic_tokens_full(semantic_options()).unwrap();
    let mut different_legend = semantic_options();
    different_legend.legend.token_types = vec!["string".to_string()];
    assert_eq!(
        caps.set_semantic_tokens_range(different_legend),
        Err(BuildError::ConflictingCapability {
            field: "semanticTokensProvider"
        })
    );

    let mut shared_options = CapabilityBuilder::default();
    shared_options
        .set_semantic_tokens_full(semantic_options())
        .unwrap();
    let mut different_progress = semantic_options();
    different_progress
        .work_done_progress_options
        .work_done_progress = Some(false);
    assert_eq!(
        shared_options.set_semantic_tokens_range(different_progress),
        Err(BuildError::ConflictingCapability {
            field: "semanticTokensProvider"
        })
    );

    let mut denied = CapabilityBuilder::default();
    let mut options = semantic_options();
    options.full = Some(Full::Bool(false));
    denied.set_semantic_tokens_full(options).unwrap();
    assert_eq!(
        denied.validate(),
        Err(BuildError::ConflictingCapability {
            field: "semanticTokensProvider"
        })
    );
}

fn signature_options(trigger: &str) -> SignatureHelpOptions {
    SignatureHelpOptions {
        trigger_characters: Some(vec![trigger.to_string()]),
        retrigger_characters: None,
        work_done_progress_options: Default::default(),
    }
}

fn declaration_options() -> DeclarationOptions {
    DeclarationOptions {
        work_done_progress_options: progress(Some(true)),
    }
}

fn definition_options() -> DefinitionOptions {
    DefinitionOptions {
        work_done_progress_options: progress(Some(true)),
    }
}

fn type_definition_registration_options(id: &str) -> TypeDefinitionRegistrationOptions {
    TypeDefinitionRegistrationOptions {
        static_registration_options: StaticRegistrationOptions {
            id: Some(id.to_string()),
        },
        ..TypeDefinitionRegistrationOptions::default()
    }
}

fn implementation_registration_options(id: &str) -> ImplementationRegistrationOptions {
    ImplementationRegistrationOptions {
        static_registration_options: StaticRegistrationOptions {
            id: Some(id.to_string()),
        },
        ..ImplementationRegistrationOptions::default()
    }
}

fn references_options() -> ReferenceOptions {
    ReferenceOptions {
        work_done_progress_options: progress(Some(true)),
    }
}

fn document_highlight_options() -> DocumentHighlightOptions {
    DocumentHighlightOptions {
        work_done_progress_options: progress(Some(true)),
    }
}

fn document_symbol_options(label: &str) -> DocumentSymbolOptions {
    DocumentSymbolOptions {
        label: Some(label.to_string()),
        work_done_progress_options: progress(Some(true)),
    }
}

fn linked_editing_range_options() -> LinkedEditingRangeOptions {
    LinkedEditingRangeOptions {
        work_done_progress_options: progress(Some(true)),
    }
}

fn moniker_options() -> MonikerOptions {
    MonikerOptions {
        work_done_progress_options: progress(Some(true)),
    }
}

#[test]
fn navigation_features_set_only_their_provider_fields() {
    let signature = signature_options("(");
    let mut caps = CapabilityBuilder::default();
    caps.set_signature_help(signature.clone()).unwrap();
    assert_eq!(
        caps.finish(),
        ServerCapabilities {
            signature_help_provider: Some(signature),
            ..ServerCapabilities::default()
        }
    );

    let declaration = declaration_options();
    let mut caps = CapabilityBuilder::default();
    caps.set_declaration(declaration).unwrap();
    assert_eq!(
        caps.finish(),
        ServerCapabilities {
            declaration_provider: Some(declaration.into()),
            ..ServerCapabilities::default()
        }
    );

    let definition = definition_options();
    let mut caps = CapabilityBuilder::default();
    caps.set_definition(definition).unwrap();
    assert_eq!(
        caps.finish(),
        ServerCapabilities {
            definition_provider: Some(definition.into()),
            ..ServerCapabilities::default()
        }
    );

    let type_definition = type_definition_registration_options("type");
    let mut caps = CapabilityBuilder::default();
    caps.set_type_definition(type_definition.clone()).unwrap();
    assert_eq!(
        caps.finish(),
        ServerCapabilities {
            type_definition_provider: Some(type_definition.into()),
            ..ServerCapabilities::default()
        }
    );

    let implementation = implementation_registration_options("impl");
    let mut caps = CapabilityBuilder::default();
    caps.set_implementation(implementation.clone()).unwrap();
    assert_eq!(
        caps.finish(),
        ServerCapabilities {
            implementation_provider: Some(implementation.into()),
            ..ServerCapabilities::default()
        }
    );
}

#[test]
fn lookup_features_set_only_their_provider_fields() {
    let references = references_options();
    let mut caps = CapabilityBuilder::default();
    caps.set_references(references).unwrap();
    assert_eq!(
        caps.finish(),
        ServerCapabilities {
            references_provider: Some(references.into()),
            ..ServerCapabilities::default()
        }
    );

    let highlight = document_highlight_options();
    let mut caps = CapabilityBuilder::default();
    caps.set_document_highlight(highlight).unwrap();
    assert_eq!(
        caps.finish(),
        ServerCapabilities {
            document_highlight_provider: Some(highlight.into()),
            ..ServerCapabilities::default()
        }
    );

    let symbols = document_symbol_options("outline");
    let mut caps = CapabilityBuilder::default();
    caps.set_document_symbol(symbols.clone()).unwrap();
    assert_eq!(
        caps.finish(),
        ServerCapabilities {
            document_symbol_provider: Some(symbols.into()),
            ..ServerCapabilities::default()
        }
    );

    let linked = linked_editing_range_options();
    let mut caps = CapabilityBuilder::default();
    caps.set_linked_editing_range(linked).unwrap();
    assert_eq!(
        caps.finish(),
        ServerCapabilities {
            linked_editing_range_provider: Some(linked.into()),
            ..ServerCapabilities::default()
        }
    );

    let monikers = moniker_options();
    let mut caps = CapabilityBuilder::default();
    caps.set_moniker(monikers).unwrap();
    assert_eq!(
        caps.finish(),
        ServerCapabilities {
            moniker_provider: Some(monikers.into()),
            ..ServerCapabilities::default()
        }
    );
}

#[test]
fn navigation_and_lookup_singular_options_never_use_last_write_wins() {
    let mut signature = CapabilityBuilder::default();
    signature
        .set_signature_help(signature_options("("))
        .unwrap();
    assert_eq!(
        signature.set_signature_help(signature_options("[")),
        Err(BuildError::ConflictingCapability {
            field: "signatureHelpProvider"
        })
    );

    let mut declaration = CapabilityBuilder::default();
    declaration.set_declaration(declaration_options()).unwrap();
    assert_eq!(
        declaration.set_declaration(DeclarationOptions {
            work_done_progress_options: progress(Some(false)),
        }),
        Err(BuildError::ConflictingCapability {
            field: "declarationProvider"
        })
    );

    let mut definition = CapabilityBuilder::default();
    definition.set_definition(definition_options()).unwrap();
    assert_eq!(
        definition.set_definition(DefinitionOptions {
            work_done_progress_options: progress(Some(false)),
        }),
        Err(BuildError::ConflictingCapability {
            field: "definitionProvider"
        })
    );

    let mut type_definition = CapabilityBuilder::default();
    type_definition
        .set_type_definition(type_definition_registration_options("type"))
        .unwrap();
    assert_eq!(
        type_definition.set_type_definition(type_definition_registration_options("other")),
        Err(BuildError::ConflictingCapability {
            field: "typeDefinitionProvider"
        })
    );

    let mut implementation = CapabilityBuilder::default();
    implementation
        .set_implementation(implementation_registration_options("impl"))
        .unwrap();
    assert_eq!(
        implementation.set_implementation(implementation_registration_options("other")),
        Err(BuildError::ConflictingCapability {
            field: "implementationProvider"
        })
    );

    let mut references = CapabilityBuilder::default();
    references.set_references(references_options()).unwrap();
    assert_eq!(
        references.set_references(ReferenceOptions {
            work_done_progress_options: progress(Some(false)),
        }),
        Err(BuildError::ConflictingCapability {
            field: "referencesProvider"
        })
    );

    let mut highlight = CapabilityBuilder::default();
    highlight
        .set_document_highlight(document_highlight_options())
        .unwrap();
    assert_eq!(
        highlight.set_document_highlight(DocumentHighlightOptions {
            work_done_progress_options: progress(Some(false)),
        }),
        Err(BuildError::ConflictingCapability {
            field: "documentHighlightProvider"
        })
    );

    let mut symbols = CapabilityBuilder::default();
    symbols
        .set_document_symbol(document_symbol_options("outline"))
        .unwrap();
    assert_eq!(
        symbols.set_document_symbol(document_symbol_options("other")),
        Err(BuildError::ConflictingCapability {
            field: "documentSymbolProvider"
        })
    );

    let mut linked = CapabilityBuilder::default();
    linked
        .set_linked_editing_range(linked_editing_range_options())
        .unwrap();
    assert_eq!(
        linked.set_linked_editing_range(LinkedEditingRangeOptions {
            work_done_progress_options: progress(Some(false)),
        }),
        Err(BuildError::ConflictingCapability {
            field: "linkedEditingRangeProvider"
        })
    );

    let mut moniker = CapabilityBuilder::default();
    moniker.set_moniker(moniker_options()).unwrap();
    assert_eq!(
        moniker.set_moniker(MonikerOptions {
            work_done_progress_options: progress(Some(false)),
        }),
        Err(BuildError::ConflictingCapability {
            field: "monikerProvider"
        })
    );
}

/// Make one of six contributions.
fn contribute(caps: &mut CapabilityBuilder, which: u32) {
    match which {
        0 => caps.set_hover().unwrap(),
        1 => caps.set_completion(CompletionOptions::default()).unwrap(),
        2 => caps.set_completion_resolve(),
        3 => caps.set_declaration(declaration_options()).unwrap(),
        4 => caps.add_command("b.cmd".to_string()),
        _ => caps.add_command("a.cmd".to_string()),
    }
}

fn advertised(order: &[u32]) -> ServerCapabilities {
    let mut caps = CapabilityBuilder::default();
    for which in order {
        contribute(&mut caps, *which);
    }
    caps.validate().unwrap();
    caps.finish()
}

#[test]
fn contributions_merge_in_any_order_that_keeps_the_commands() {
    let expected = advertised(&[0, 1, 2, 3, 4, 5]);
    assert_eq!(advertised(&[4, 3, 2, 5, 1, 0]), expected);
    assert_eq!(advertised(&[2, 4, 5, 0, 3, 1]), expected);
    assert_ne!(advertised(&[0, 1, 2, 3, 5, 4]), expected, "commands keep their order");
}

#[test]
fn repeated_contributions_change_nothing() {
    assert_eq!(
        advertised(&[0, 0, 1, 1, 2, 2, 3, 3, 4, 4, 5, 4]),
        advertised(&[0, 1, 2, 3, 4, 5])
    );
}
