//! The feature descriptors: the method each fixes and what each contributes.
use lsp_types::notification::{
    DidChangeWatchedFiles, DidCreateFiles, DidDeleteFiles, DidRenameFiles, Notification,
};
use lsp_types::request::{
    CallHierarchyIncomingCalls, CallHierarchyOutgoingCalls, CallHierarchyPrepare,
    CodeActionRequest, CodeActionResolveRequest, CodeLensRequest, CodeLensResolve,
    ColorPresentationRequest, Completion, DocumentColor, DocumentDiagnosticRequest,
    DocumentHighlightRequest, DocumentLinkRequest, DocumentLinkResolve, DocumentSymbolRequest,
    FoldingRangeRequest, Formatting, GotoDeclaration, GotoDefinition, GotoImplementation,
    GotoTypeDefinition, HoverRequest, InlayHintRequest, InlayHintResolveRequest,
    InlineValueRequest, LinkedEditingRange, MonikerRequest, OnTypeFormatting,
    PrepareRenameRequest, RangeFormatting, References, Rename, Request, ResolveCompletionItem,
    SelectionRangeRequest, SemanticTokensFullDeltaRequest, SemanticTokensFullRequest,
    SemanticTokensRangeRequest, SignatureHelpRequest, TypeHierarchyPrepare,
    TypeHierarchySubtypes, TypeHierarchySupertypes, WillCreateFiles, WillDeleteFiles,
    WillRenameFiles, WillSaveWaitUntil, WorkspaceDiagnosticRequest, WorkspaceSymbolRequest,
    WorkspaceSymbolResolve,
};
use lspf::capability::CapabilityBuilder;
use lspf::features::{
    call_hierarchy_incoming_calls, call_hierarchy_outgoing_calls, call_hierarchy_prepare,
    code_action, code_action_resolve, code_lens, code_lens_resolve, color_presentation,
    completion, completion_resolve, declaration, definition, did_change_watched_files,
    did_create_files, did_delete_files, did_rename_files, document_color, document_diagnostic,
    document_formatting, document_highlight, document_link, document_link_resolve,
    document_symbol, folding_range, hover, implementation, inlay_hint, inlay_hint_resolve,
    inline_value, linked_editing_range, moniker, on_type_formatting, prepare_rename,
    range_formatting, references, rename, selection_range, semantic_tokens_full,
    semantic_tokens_full_delta, semantic_tokens_range, signature_help, type_definition,
    type_hierarchy_prepare, type_hierarchy_subtypes, type_hierarchy_supertypes,
    will_create_files, will_delete_files, will_rename_files, will_save_wait_until,
    workspace_diagnostic, workspace_symbol, workspace_symbol_resolve, FeatureSpec,
    NotificationFeatureSpec, Sealed,
};
use lspf::options::{
    CallHierarchyOptions, CodeActionOptions, CodeLensOptions, CompletionOptions,
    DeclarationOptions, DefinitionOptions, DiagnosticOptions, DocumentColorOptions,
    DocumentFormattingOptions, DocumentHighlightOptions, DocumentLinkOptions,
    DocumentOnTypeFormattingOptions, DocumentRangeFormattingOptions, DocumentSymbolOptions,
    FileOperationRegistrationOptions, FoldingRangeOptions, ImplementationRegistrationOptions,
    InlayHintOptions, InlineValueOptions, LinkedEditingRangeOptions, MonikerOptions,
    ReferenceOptions, RenameOptions, SelectionRangeOptions, SemanticTokensOptions,
    ServerCapabilities, SignatureHelpOptions, StaticRegistrationOptions,
    TypeDefinitionRegistrationOptions, TypeHierarchyOptions, WorkDoneProgressOptions,
    WorkspaceSymbolOptions,
};

/// A request descriptor fixes a method, which is that of a standard request.
fn fixes<R: Request>(feature: impl FeatureSpec, method: &str) {
    assert_eq!(feature.method(), method);
    assert_eq!(R::METHOD, method);
    assert_ne!(method, "workspace/executeCommand");
}

/// A notification descriptor fixes a method, which is that of a standard
/// notification.
fn observes<N: Notification>(feature: impl NotificationFeatureSpec, method: &str) {
    assert_eq!(feature.method(), method);
    assert_eq!(N::METHOD, method);
}

fn progress(value: Option<bool>) -> WorkDoneProgressOptions {
    WorkDoneProgressOptions { work_done_progress: value }
}

#[test]
fn formatting_descriptors_fix_the_exact_lsp_types_contracts() {
    fixes::<Formatting>(
        document_formatting(DocumentFormattingOptions::default()),
        "textDocument/formatting",
    );
    fixes::<RangeFormatting>(
        range_formatting(DocumentRangeFormattingOptions::default()),
        "textDocument/rangeFormatting",
    );
    fixes::<OnTypeFormatting>(
        on_type_formatting(DocumentOnTypeFormattingOptions::default()),
        "textDocument/onTypeFormatting",
    );
}

#[test]
fn presentation_descriptors_fix_the_exact_lsp_types_contracts() {
    fixes::<DocumentColor>(
        document_color(DocumentColorOptions::default()),
        "textDocument/documentColor",
    );
    fixes::<ColorPresentationRequest>(color_presentation(), "textDocument/colorPresentation");
    fixes::<FoldingRangeRequest>(
        folding_range(FoldingRangeOptions::default()),
        "textDocument/foldingRange",
    );
    fixes::<SelectionRangeRequest>(
        selection_range(SelectionRangeOptions::default()),
        "textDocument/selectionRange",
    );
    fixes::<InlineValueRequest>(
        inline_value(InlineValueOptions::default()),
        "textDocument/inlineValue",
    );
}

#[test]
fn editing_and_presentation_descriptors_contribute_only_their_capabilities() {
    let formatting = DocumentFormattingOptions::default();
    let range = DocumentRangeFormattingOptions::default();
    let on_type = DocumentOnTypeFormattingOptions {
        first_trigger_character: "}".to_string(),
        more_trigger_character: Some(vec![";".to_string()]),
    };
    let selection = SelectionRangeOptions::default();
    let inline = InlineValueOptions::default();
    let mut caps = CapabilityBuilder::default();

    document_formatting(formatting).contribute(&mut caps).unwrap();
    range_formatting(range).contribute(&mut caps).unwrap();
    on_type_formatting(on_type.clone()).contribute(&mut caps).unwrap();
    document_color(DocumentColorOptions::default()).contribute(&mut caps).unwrap();
    color_presentation().contribute(&mut caps).unwrap();
    folding_range(FoldingRangeOptions::default()).contribute(&mut caps).unwrap();
    selection_range(selection).contribute(&mut caps).unwrap();
    inline_value(inline).contribute(&mut caps).unwrap();
    caps.validate().unwrap();

    assert_eq!(
        caps.finish(),
        ServerCapabilities {
            document_formatting_provider: Some(formatting),
            document_range_formatting_provider: Some(range),
            document_on_type_formatting_provider: Some(on_type),
            color_provider: Some(DocumentColorOptions::default()),
            folding_range_provider: Some(FoldingRangeOptions::default()),
            selection_range_provider: Some(selection),
            inline_value_provider: Some(inline),
            ..ServerCapabilities::default()
        }
    );
}

#[test]
fn call_hierarchy_descriptors_fix_the_exact_lsp_types_contracts() {
    fixes::<CallHierarchyPrepare>(
        call_hierarchy_prepare(CallHierarchyOptions::default()),
        "textDocument/prepareCallHierarchy",
    );
    fixes::<CallHierarchyIncomingCalls>(
        call_hierarchy_incoming_calls(),
        "callHierarchy/incomingCalls",
    );
    fixes::<CallHierarchyOutgoingCalls>(
        call_hierarchy_outgoing_calls(),
        "callHierarchy/outgoingCalls",
    );
}

#[test]
fn type_hierarchy_descriptors_fix_the_exact_lsp_types_contracts() {
    fixes::<TypeHierarchyPrepare>(
        type_hierarchy_prepare(TypeHierarchyOptions::default()),
        "textDocument/prepareTypeHierarchy",
    );
    fixes::<TypeHierarchySupertypes>(type_hierarchy_supertypes(), "typeHierarchy/supertypes");
    fixes::<TypeHierarchySubtypes>(type_hierarchy_subtypes(), "typeHierarchy/subtypes");
}

#[test]
fn semantic_token_descriptors_fix_the_exact_lsp_types_contracts() {
    let options = SemanticTokensOptions::default();
    fixes::<SemanticTokensFullRequest>(
        semantic_tokens_full(options.clone()),
        "textDocument/semanticTokens/full",
    );
    fixes::<SemanticTokensFullDeltaRequest>(
        semantic_tokens_full_delta(options.clone()),
        "textDocument/semanticTokens/full/delta",
    );
    fixes::<SemanticTokensRangeRequest>(
        semantic_tokens_range(options),
        "textDocument/semanticTokens/range",
    );
}

#[test]
fn will_save_wait_until_descriptor_fixes_the_typed_request_contract() {
    fixes::<WillSaveWaitUntil>(will_save_wait_until(), "textDocument/willSaveWaitUntil");
    let mut caps = CapabilityBuilder::default();
    assert!(!caps.has_will_save_wait_until());
    will_save_wait_until().contribute(&mut caps).unwrap();
    assert!(caps.has_will_save_wait_until());
}

#[test]
fn diagnostic_descriptors_fix_the_exact_lsp_types_contracts() {
    fixes::<DocumentDiagnosticRequest>(
        document_diagnostic(DiagnosticOptions::default()),
        "textDocument/diagnostic",
    );
    fixes::<WorkspaceDiagnosticRequest>(
        workspace_diagnostic(DiagnosticOptions::default()),
        "workspace/diagnostic",
    );
}

#[test]
fn workspace_symbol_descriptors_fix_the_exact_lsp_types_contracts() {
    fixes::<WorkspaceSymbolRequest>(
        workspace_symbol(WorkspaceSymbolOptions::default()),
        "workspace/symbol",
    );
    fixes::<WorkspaceSymbolResolve>(workspace_symbol_resolve(), "workspaceSymbol/resolve");
}

#[test]
fn file_operation_descriptors_fix_the_exact_lsp_types_contracts() {
    let options = FileOperationRegistrationOptions::default;
    fixes::<WillCreateFiles>(will_create_files(options()), "workspace/willCreateFiles");
    fixes::<WillRenameFiles>(will_rename_files(options()), "workspace/willRenameFiles");
    fixes::<WillDeleteFiles>(will_delete_files(options()), "workspace/willDeleteFiles");
    observes::<DidChangeWatchedFiles>(
        did_change_watched_files(),
        "workspace/didChangeWatchedFiles",
    );
    observes::<DidCreateFiles>(did_create_files(options()), "workspace/didCreateFiles");
    observes::<DidRenameFiles>(did_rename_files(options()), "workspace/didRenameFiles");
    observes::<DidDeleteFiles>(did_delete_files(options()), "workspace/didDeleteFiles");
}

#[test]
fn rename_descriptors_fix_the_exact_lsp_types_contracts() {
    fixes::<Rename>(rename(RenameOptions::default()), "textDocument/rename");
    fixes::<PrepareRenameRequest>(prepare_rename(), "textDocument/prepareRename");
}

#[test]
fn code_action_descriptors_fix_the_exact_lsp_types_contracts() {
    fixes::<CodeActionRequest>(
        code_action(CodeActionOptions::default()),
        "textDocument/codeAction",
    );
    fixes::<CodeActionResolveRequest>(code_action_resolve(), "codeAction/resolve");
}

#[test]
fn code_lens_descriptors_fix_the_exact_lsp_types_contracts() {
    fixes::<CodeLensRequest>(code_lens(CodeLensOptions::default()), "textDocument/codeLens");
    fixes::<CodeLensResolve>(code_lens_resolve(), "codeLens/resolve");
}

#[test]
fn document_link_descriptors_fix_the_exact_lsp_types_contracts() {
    fixes::<DocumentLinkRequest>(
        document_link(DocumentLinkOptions::default()),
        "textDocument/documentLink",
    );
    fixes::<DocumentLinkResolve>(document_link_resolve(), "documentLink/resolve");
}

#[test]
fn inlay_hint_descriptors_fix_the_exact_lsp_types_contracts() {
    fixes::<InlayHintRequest>(inlay_hint(InlayHintOptions::default()), "textDocument/inlayHint");
    fixes::<InlayHintResolveRequest>(inlay_hint_resolve(), "inlayHint/resolve");
}

fn type_definition_options() -> TypeDefinitionRegistrationOptions {
    TypeDefinitionRegistrationOptions {
        static_registration_options: StaticRegistrationOptions { id: Some("nav".to_string()) },
        ..TypeDefinitionRegistrationOptions::default()
    }
}

fn implementation_options() -> ImplementationRegistrationOptions {
    ImplementationRegistrationOptions {
        static_registration_options: StaticRegistrationOptions { id: Some("nav".to_string()) },
        ..ImplementationRegistrationOptions::default()
    }
}

#[test]
fn navigation_and_lookup_descriptors_fix_the_exact_lsp_types_contracts() {
    let work_done_progress_options = progress(Some(true));
    fixes::<SignatureHelpRequest>(
        signature_help(SignatureHelpOptions::default()),
        "textDocument/signatureHelp",
    );
    fixes::<GotoDeclaration>(
        declaration(DeclarationOptions { work_done_progress_options }),
        "textDocument/declaration",
    );
    fixes::<GotoDefinition>(
        definition(DefinitionOptions { work_done_progress_options }),
        "textDocument/definition",
    );
    fixes::<GotoTypeDefinition>(
        type_definition(type_definition_options()),
        "textDocument/typeDefinition",
    );
    fixes::<GotoImplementation>(
        implementation(implementation_options()),
        "textDocument/implementation",
    );
    fixes::<References>(
        references(ReferenceOptions { work_done_progress_options }),
        "textDocument/references",
    );
    fixes::<DocumentHighlightRequest>(
        document_highlight(DocumentHighlightOptions { work_done_progress_options }),
        "textDocument/documentHighlight",
    );
    fixes::<DocumentSymbolRequest>(
        document_symbol(DocumentSymbolOptions {
            label: Some("outline".to_string()),
            work_done_progress_options,
        }),
        "textDocument/documentSymbol",
    );
    fixes::<LinkedEditingRange>(
        linked_editing_range(LinkedEditingRangeOptions { work_done_progress_options }),
        "textDocument/linkedEditingRange",
    );
    fixes::<MonikerRequest>(
        moniker(MonikerOptions { work_done_progress_options }),
        "textDocument/moniker",
    );
}

#[test]
fn navigation_and_lookup_descriptors_contribute_only_their_capabilities() {
    let work_done_progress_options = progress(Some(true));
    let signature_options = SignatureHelpOptions {
        trigger_characters: Some(vec!["(".to_string()]),
        retrigger_characters: None,
        work_done_progress_options: WorkDoneProgressOptions::default(),
    };
    let declaration_options = DeclarationOptions { work_done_progress_options };
    let definition_options = DefinitionOptions { work_done_progress_options };
    let references_options = ReferenceOptions { work_done_progress_options };
    let highlight_options = DocumentHighlightOptions { work_done_progress_options };
    let symbols_options = DocumentSymbolOptions {
        label: Some("outline".to_string()),
        work_done_progress_options,
    };
    let linked_options = LinkedEditingRangeOptions { work_done_progress_options };
    let moniker_options = MonikerOptions { work_done_progress_options };
    let mut caps = CapabilityBuilder::default();

    signature_help(signature_options.clone()).contribute(&mut caps).unwrap();
    declaration(declaration_options).contribute(&mut caps).unwrap();
    definition(definition_options).contribute(&mut caps).unwrap();
    type_definition(type_definition_options()).contribute(&mut caps).unwrap();
    implementation(implementation_options()).contribute(&mut caps).unwrap();
    references(references_options).contribute(&mut caps).unwrap();
    document_highlight(highlight_options).contribute(&mut caps).unwrap();
    document_symbol(symbols_options.clone()).contribute(&mut caps).unwrap();
    linked_editing_range(linked_options).contribute(&mut caps).unwrap();
    moniker(moniker_options).contribute(&mut caps).unwrap();
    caps.validate().unwrap();

    assert_eq!(
        caps.finish(),
        ServerCapabilities {
            signature_help_provider: Some(signature_options),
            declaration_provider: Some(declaration_options),
            definition_provider: Some(definition_options),
            type_definition_provider: Some(type_definition_options()),
            implementation_provider: Some(implementation_options()),
            references_provider: Some(references_options),
            document_highlight_provider: Some(highlight_options),
            document_symbol_provider: Some(symbols_options),
            linked_editing_range_provider: Some(linked_options),
            moniker_provider: Some(moniker_options),
            ..ServerCapabilities::default()
        }
    );
}

#[test]
fn no_request_descriptor_fixes_the_execute_command_method() {
    // `workspace/executeCommand` is reserved for the command registry.
    fixes::<HoverRequest>(hover(), "textDocument/hover");
    fixes::<Completion>(completion(CompletionOptions::default()), "textDocument/completion");
    fixes::<ResolveCompletionItem>(completion_resolve(), "completionItem/resolve");
    for method in [
        document_diagnostic(DiagnosticOptions::default()).method(),
        workspace_diagnostic(DiagnosticOptions::default()).method(),
        workspace_symbol(WorkspaceSymbolOptions::default()).method(),
        workspace_symbol_resolve().method(),
        rename(RenameOptions::default()).method(),
        prepare_rename().method(),
        code_action(CodeActionOptions::default()).method(),
        code_action_resolve().method(),
        code_lens(CodeLensOptions::default()).method(),
        code_lens_resolve().method(),
        document_link(DocumentLinkOptions::default()).method(),
        document_link_resolve().method(),
        inlay_hint(InlayHintOptions::default()).method(),
        inlay_hint_resolve().method(),
        will_create_files(FileOperationRegistrationOptions::default()).method(),
        will_rename_files(FileOperationRegistrationOptions::default()).method(),
        will_delete_files(FileOperationRegistrationOptions::default()).method(),
    ] {
        assert_ne!(method, "workspace/executeCommand");
    }
}
