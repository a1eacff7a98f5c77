//! What contributions to the capability catalog come to in the capabilities.
use vstd::prelude::*;

use crate::capability::{CatalogView, Contributed, FamilyView, SemanticTokensMode};
use crate::capability_laws::{
    contribute, contribute_all, keeps, lemma_contributions_are_kept,
    lemma_later_contributions_keep, lemma_what_is_kept_is_told, Contribution,
};
use crate::options::{
    CodeActionOptionsView, CodeLensOptions, CompletionOptionsView, DocumentLinkOptions, Full,
    InlayHintOptions, RenameOptions, SemanticTokensOptionsRange, ServerCapabilitiesView,
    WorkspaceSymbolOptions,
};

verus! {

/// Whether capabilities tell a client of a contribution: its options stand in its
/// field as they were contributed, and a request that depends on another is
/// flagged there.
#[verifier::opaque]
pub open spec fn tells_of(caps: ServerCapabilitiesView, contribution: Contribution) -> bool {
    match contribution {
        Contribution::Hover => caps.hover_provider == Some(true),
        Contribution::WillSaveWaitUntil => true,
        Contribution::Command(name) => caps.execute_command_provider is Some
            && caps.execute_command_provider->0.commands.contains(name),
        Contribution::Diagnostics(options) => caps.diagnostic_provider == Some(options),
        Contribution::SemanticTokens(options, mode) => {
            &&& caps.semantic_tokens_provider matches Some(told)
            &&& told.legend == options.legend
            &&& told.work_done_progress_options == options.work_done_progress_options
            &&& mode == SemanticTokensMode::Full ==> match told.full {
                Some(Full::Bool(full)) => full,
                Some(Full::SemanticTokensFullDelta(_)) => true,
                None => false,
            }
            &&& mode == SemanticTokensMode::Delta ==> match told.full {
                Some(Full::SemanticTokensFullDelta(full)) => full.delta == Some(true),
                _ => false,
            }
            &&& mode == SemanticTokensMode::Range ==> told.range == Some(
                SemanticTokensOptionsRange::Bool(true),
            )
        },
        Contribution::DocumentFormatting(options) => caps.document_formatting_provider == Some(options),
        Contribution::RangeFormatting(options) => caps.document_range_formatting_provider == Some(options),
        Contribution::OnTypeFormatting(options) => caps.document_on_type_formatting_provider == Some(options),
        Contribution::FoldingRange(options) => caps.folding_range_provider == Some(options),
        Contribution::SelectionRange(options) => caps.selection_range_provider == Some(options),
        Contribution::InlineValue(options) => caps.inline_value_provider == Some(options),
        Contribution::SignatureHelp(options) => caps.signature_help_provider == Some(options),
        Contribution::Declaration(options) => caps.declaration_provider == Some(options),
        Contribution::Definition(options) => caps.definition_provider == Some(options),
        Contribution::TypeDefinition(options) => caps.type_definition_provider == Some(options),
        Contribution::Implementation(options) => caps.implementation_provider == Some(options),
        Contribution::References(options) => caps.references_provider == Some(options),
        Contribution::DocumentHighlight(options) => caps.document_highlight_provider == Some(options),
        Contribution::DocumentSymbol(options) => caps.document_symbol_provider == Some(options),
        Contribution::LinkedEditingRange(options) => caps.linked_editing_range_provider == Some(options),
        Contribution::Moniker(options) => caps.moniker_provider == Some(options),
        Contribution::CallHierarchy(options) => caps.call_hierarchy_provider == Some(options),
        Contribution::CallHierarchyDependent => caps.call_hierarchy_provider is Some,
        Contribution::TypeHierarchy(options) => caps.type_hierarchy_provider == Some(options),
        Contribution::TypeHierarchyDependent => caps.type_hierarchy_provider is Some,
        Contribution::DocumentColor(options) => caps.color_provider == Some(options),
        Contribution::DocumentColorDependent => caps.color_provider is Some,
        Contribution::Completion(options) => caps.completion_provider == Some(options) || caps.completion_provider == Some(
            CompletionOptionsView { resolve_provider: Some(true), ..options },
        ),
        Contribution::CompletionResolve => caps.completion_provider is Some && caps.completion_provider->0.resolve_provider == Some(true),
        Contribution::WorkspaceSymbol(options) => caps.workspace_symbol_provider == Some(options) || caps.workspace_symbol_provider == Some(
            WorkspaceSymbolOptions { resolve_provider: Some(true), ..options },
        ),
        Contribution::WorkspaceSymbolResolve => caps.workspace_symbol_provider is Some && caps.workspace_symbol_provider->0.resolve_provider == Some(true),
        Contribution::Rename(options) => caps.rename_provider == Some(options) || caps.rename_provider == Some(
            RenameOptions { prepare_provider: Some(true), ..options },
        ),
        Contribution::PrepareRename => caps.rename_provider is Some && caps.rename_provider->0.prepare_provider == Some(true),
        Contribution::CodeAction(options) => caps.code_action_provider == Some(options) || caps.code_action_provider == Some(
            CodeActionOptionsView { resolve_provider: Some(true), ..options },
        ),
        Contribution::CodeActionResolve => caps.code_action_provider is Some && caps.code_action_provider->0.resolve_provider == Some(true),
        Contribution::CodeLens(options) => caps.code_lens_provider == Some(options) || caps.code_lens_provider == Some(
            CodeLensOptions { resolve_provider: Some(true), ..options },
        ),
        Contribution::CodeLensResolve => caps.code_lens_provider is Some && caps.code_lens_provider->0.resolve_provider == Some(true),
        Contribution::DocumentLink(options) => caps.document_link_provider == Some(options) || caps.document_link_provider == Some(
            DocumentLinkOptions { resolve_provider: Some(true), ..options },
        ),
        Contribution::DocumentLinkResolve => caps.document_link_provider is Some && caps.document_link_provider->0.resolve_provider == Some(true),
        Contribution::InlayHint(options) => caps.inlay_hint_provider == Some(options) || caps.inlay_hint_provider == Some(
            InlayHintOptions { resolve_provider: Some(true), ..options },
        ),
        Contribution::InlayHintResolve => caps.inlay_hint_provider is Some && caps.inlay_hint_provider->0.resolve_provider == Some(true),
        Contribution::FileCreate(options, will) => {
            &&& caps.workspace is Some
            &&& caps.workspace->0.file_operations matches Some(told)
            &&& will ==> told.will_create == Some(options)
            &&& !will ==> told.did_create == Some(options)
        },
        Contribution::FileRename(options, will) => {
            &&& caps.workspace is Some
            &&& caps.workspace->0.file_operations matches Some(told)
            &&& will ==> told.will_rename == Some(options)
            &&& !will ==> told.did_rename == Some(options)
        },
        Contribution::FileDelete(options, will) => {
            &&& caps.workspace is Some
            &&& caps.workspace->0.file_operations matches Some(told)
            &&& will ==> told.will_delete == Some(options)
            &&& !will ==> told.did_delete == Some(options)
        },
    }
}

/// Every contribution is told of, wherever in a sequence it came: once nothing
/// conflicts and every family is whole, the capabilities tell a client of each.
pub proof fn law_every_contribution_is_told(
    catalog: CatalogView,
    contributions: Seq<Contribution>,
    i: int,
)
    requires
        0 <= i < contributions.len(),
        contribute_all(catalog, contributions) is Some,
        contribute_all(catalog, contributions)->0.invalid_field() is None,
    ensures
        tells_of(contribute_all(catalog, contributions)->0.finish(), contributions[i]),
    decreases contributions.len(),
{
    let after = contribute(catalog, contributions[0])->Ok_0;
    let rest = contributions.skip(1);
    if i == 0 {
        lemma_contributions_are_kept(catalog, contributions[0]);
        lemma_rest_keeps(after, contributions[0], rest);
        lemma_what_is_kept_is_told(contribute_all(after, rest)->0, contributions[0]);
    } else {
        assert(rest[i - 1] == contributions[i]);
        law_every_contribution_is_told(after, rest, i - 1);
    }
}

proof fn lemma_rest_keeps(
    catalog: CatalogView,
    kept: Contribution,
    contributions: Seq<Contribution>,
)
    requires
        keeps(catalog, kept),
        contribute_all(catalog, contributions) is Some,
    ensures
        keeps(contribute_all(catalog, contributions)->0, kept),
    decreases contributions.len(),
{
    if contributions.len() > 0 {
        lemma_later_contributions_keep(catalog, kept, contributions[0]);
        lemma_rest_keeps(
            contribute(catalog, contributions[0])->Ok_0,
            kept,
            contributions.skip(1),
        );
    }
}

/// A contribution touches the fields of its own family and no other: every field
/// that it does not contribute to stays as it was.
#[verifier::spinoff_prover]
#[verifier::rlimit(60)]
pub proof fn law_a_contribution_leaves_other_fields(
    catalog: CatalogView,
    contribution: Contribution,
)
    requires
        contribute(catalog, contribution) is Ok,
    ensures
        ({
            let before = catalog.finish();
            let after = contribute(catalog, contribution)->Ok_0.finish();
            &&& !(contribution is Hover) ==> after.hover_provider == before.hover_provider
            &&& !(contribution is Command) ==> after.execute_command_provider
                == before.execute_command_provider
            &&& !(contribution is Diagnostics) ==> after.diagnostic_provider
                == before.diagnostic_provider
            &&& !(contribution is SemanticTokens) ==> after.semantic_tokens_provider
                == before.semantic_tokens_provider
            &&& !(contribution is DocumentFormatting) ==> after.document_formatting_provider
                == before.document_formatting_provider
            &&& !(contribution is RangeFormatting) ==> after.document_range_formatting_provider
                == before.document_range_formatting_provider
            &&& !(contribution is OnTypeFormatting) ==> after.document_on_type_formatting_provider
                == before.document_on_type_formatting_provider
            &&& !(contribution is FoldingRange) ==> after.folding_range_provider
                == before.folding_range_provider
            &&& !(contribution is SelectionRange) ==> after.selection_range_provider
                == before.selection_range_provider
            &&& !(contribution is InlineValue) ==> after.inline_value_provider
                == before.inline_value_provider
            &&& !(contribution is SignatureHelp) ==> after.signature_help_provider
                == before.signature_help_provider
            &&& !(contribution is Declaration) ==> after.declaration_provider
                == before.declaration_provider
            &&& !(contribution is Definition) ==> after.definition_provider
                == before.definition_provider
            &&& !(contribution is TypeDefinition) ==> after.type_definition_provider
                == before.type_definition_provider
            &&& !(contribution is Implementation) ==> after.implementation_provider
                == before.implementation_provider
            &&& !(contribution is References) ==> after.references_provider
                == before.references_provider
            &&& !(contribution is DocumentHighlight) ==> after.document_highlight_provider
                == before.document_highlight_provider
            &&& !(contribution is DocumentSymbol) ==> after.document_symbol_provider
                == before.document_symbol_provider
            &&& !(contribution is LinkedEditingRange) ==> after.linked_editing_range_provider
                == before.linked_editing_range_provider
            &&& !(contribution is Moniker) ==> after.moniker_provider
                == before.moniker_provider
            &&& !(contribution is CallHierarchy) ==> after.call_hierarchy_provider
                == before.call_hierarchy_provider
            &&& !(contribution is TypeHierarchy) ==> after.type_hierarchy_provider
                == before.type_hierarchy_provider
            &&& !(contribution is DocumentColor) ==> after.color_provider
                == before.color_provider
            &&& !(contribution is Completion || contribution is CompletionResolve)
                ==> after.completion_provider == before.completion_provider
            &&& !(contribution is WorkspaceSymbol || contribution is WorkspaceSymbolResolve)
                ==> after.workspace_symbol_provider == before.workspace_symbol_provider
            &&& !(contribution is Rename || contribution is PrepareRename)
                ==> after.rename_provider == before.rename_provider
            &&& !(contribution is CodeAction || contribution is CodeActionResolve)
                ==> after.code_action_provider == before.code_action_provider
            &&& !(contribution is CodeLens || contribution is CodeLensResolve)
                ==> after.code_lens_provider == before.code_lens_provider
            &&& !(contribution is DocumentLink || contribution is DocumentLinkResolve)
                ==> after.document_link_provider == before.document_link_provider
            &&& !(contribution is InlayHint || contribution is InlayHintResolve)
                ==> after.inlay_hint_provider == before.inlay_hint_provider
            &&& !(contribution is FileCreate || contribution is FileRename
                || contribution is FileDelete) ==> after.workspace == before.workspace
            &&& after.position_encoding == before.position_encoding
            &&& after.text_document_sync == before.text_document_sync
        }),
{
    reveal(contribute);
    match contribution {
        Contribution::Hover => {},
        Contribution::WillSaveWaitUntil => {},
        Contribution::Command(..) => {},
        Contribution::Diagnostics(..) => {},
        Contribution::SemanticTokens(..) => {},
        Contribution::DocumentFormatting(..) => {},
        Contribution::RangeFormatting(..) => {},
        Contribution::OnTypeFormatting(..) => {},
        Contribution::FoldingRange(..) => {},
        Contribution::SelectionRange(..) => {},
        Contribution::InlineValue(..) => {},
        Contribution::SignatureHelp(..) => {},
        Contribution::Declaration(..) => {},
        Contribution::Definition(..) => {},
        Contribution::TypeDefinition(..) => {},
        Contribution::Implementation(..) => {},
        Contribution::References(..) => {},
        Contribution::DocumentHighlight(..) => {},
        Contribution::DocumentSymbol(..) => {},
        Contribution::LinkedEditingRange(..) => {},
        Contribution::Moniker(..) => {},
        Contribution::CallHierarchy(..) => {},
        Contribution::CallHierarchyDependent => {},
        Contribution::TypeHierarchy(..) => {},
        Contribution::TypeHierarchyDependent => {},
        Contribution::DocumentColor(..) => {},
        Contribution::DocumentColorDependent => {},
        Contribution::Completion(..) => {},
        Contribution::CompletionResolve => {},
        Contribution::WorkspaceSymbol(..) => {},
        Contribution::WorkspaceSymbolResolve => {},
        Contribution::Rename(..) => {},
        Contribution::PrepareRename => {},
        Contribution::CodeAction(..) => {},
        Contribution::CodeActionResolve => {},
        Contribution::CodeLens(..) => {},
        Contribution::CodeLensResolve => {},
        Contribution::DocumentLink(..) => {},
        Contribution::DocumentLinkResolve => {},
        Contribution::InlayHint(..) => {},
        Contribution::InlayHintResolve => {},
        Contribution::FileCreate(..) => {},
        Contribution::FileRename(..) => {},
        Contribution::FileDelete(..) => {},
    }
}

/// A contribution is refused exactly if another value stands in its place already,
/// and the refusal names its field; what only adds is never refused.
#[verifier::spinoff_prover]
pub proof fn law_only_another_value_conflicts(catalog: CatalogView, contribution: Contribution)
    ensures
        match contribution {
            Contribution::Hover => contribute(catalog, contribution) is Ok,
            Contribution::WillSaveWaitUntil => contribute(catalog, contribution) is Ok,
            Contribution::Command(_) => contribute(catalog, contribution) is Ok,
            Contribution::Diagnostics(options) => refused_for(
                contribute(catalog, contribution),
                catalog.diagnostics is Some && catalog.diagnostics != Some(options),
                "diagnosticProvider"@,
            ),
            Contribution::SemanticTokens(options, _) => {
                let family = catalog.semantic_tokens;
                let (full, delta) = match options.full {
                    None => (None, None),
                    Some(Full::Bool(full)) => (Some(full), None),
                    Some(Full::SemanticTokensFullDelta(full)) => (Some(true), full.delta),
                };
                let range = match options.range {
                    None => None,
                    Some(SemanticTokensOptionsRange::Bool(range)) => Some(range),
                    Some(SemanticTokensOptionsRange::Object) => Some(true),
                };
                refused_for(
                    contribute(catalog, contribution),
                    (family.shared is Some && !(family.shared->0.legend == options.legend
                        && family.shared->0.work_done_progress_options
                        == options.work_done_progress_options && family.shared->0.full is None
                        && family.shared->0.range is None)) || (family.declared_full is Some
                        && full is Some && family.declared_full != full) || (
                    family.declared_delta is Some && delta is Some && family.declared_delta
                        != delta) || (family.declared_range is Some && range is Some
                        && family.declared_range != range),
                    "semanticTokensProvider"@,
                )
            },
            Contribution::DocumentFormatting(options) => refused_for(
                contribute(catalog, contribution),
                catalog.caps.document_formatting_provider is Some && catalog.caps.document_formatting_provider != Some(options),
                "documentFormattingProvider"@,
            ),
            Contribution::RangeFormatting(options) => refused_for(
                contribute(catalog, contribution),
                catalog.caps.document_range_formatting_provider is Some && catalog.caps.document_range_formatting_provider != Some(options),
                "documentRangeFormattingProvider"@,
            ),
            Contribution::OnTypeFormatting(options) => refused_for(
                contribute(catalog, contribution),
                catalog.caps.document_on_type_formatting_provider is Some && catalog.caps.document_on_type_formatting_provider != Some(options),
                "documentOnTypeFormattingProvider"@,
            ),
            Contribution::FoldingRange(options) => refused_for(
                contribute(catalog, contribution),
                catalog.caps.folding_range_provider is Some && catalog.caps.folding_range_provider != Some(options),
                "foldingRangeProvider"@,
            ),
            Contribution::SelectionRange(options) => refused_for(
                contribute(catalog, contribution),
                catalog.caps.selection_range_provider is Some && catalog.caps.selection_range_provider != Some(options),
                "selectionRangeProvider"@,
            ),
            Contribution::InlineValue(options) => refused_for(
                contribute(catalog, contribution),
                catalog.caps.inline_value_provider is Some && catalog.caps.inline_value_provider != Some(options),
                "inlineValueProvider"@,
            ),
            Contribution::SignatureHelp(options) => refused_for(
                contribute(catalog, contribution),
                catalog.caps.signature_help_provider is Some && catalog.caps.signature_help_provider != Some(options),
                "signatureHelpProvider"@,
            ),
            Contribution::Declaration(options) => refused_for(
                contribute(catalog, contribution),
                catalog.caps.declaration_provider is Some && catalog.caps.declaration_provider != Some(options),
                "declarationProvider"@,
            ),
            Contribution::Definition(options) => refused_for(
                contribute(catalog, contribution),
                catalog.caps.definition_provider is Some && catalog.caps.definition_provider != Some(options),
                "definitionProvider"@,
            ),
            Contribution::TypeDefinition(options) => refused_for(
                contribute(catalog, contribution),
                catalog.caps.type_definition_provider is Some && catalog.caps.type_definition_provider != Some(options),
                "typeDefinitionProvider"@,
            ),
            Contribution::Implementation(options) => refused_for(
                contribute(catalog, contribution),
                catalog.caps.implementation_provider is Some && catalog.caps.implementation_provider != Some(options),
                "implementationProvider"@,
            ),
            Contribution::References(options) => refused_for(
                contribute(catalog, contribution),
                catalog.caps.references_provider is Some && catalog.caps.references_provider != Some(options),
                "referencesProvider"@,
            ),
            Contribution::DocumentHighlight(options) => refused_for(
                contribute(catalog, contribution),
                catalog.caps.document_highlight_provider is Some && catalog.caps.document_highlight_provider != Some(options),
                "documentHighlightProvider"@,
            ),
            Contribution::DocumentSymbol(options) => refused_for(
                contribute(catalog, contribution),
                catalog.caps.document_symbol_provider is Some && catalog.caps.document_symbol_provider != Some(options),
                "documentSymbolProvider"@,
            ),
            Contribution::LinkedEditingRange(options) => refused_for(
                contribute(catalog, contribution),
                catalog.caps.linked_editing_range_provider is Some && catalog.caps.linked_editing_range_provider != Some(options),
                "linkedEditingRangeProvider"@,
            ),
            Contribution::Moniker(options) => refused_for(
                contribute(catalog, contribution),
                catalog.caps.moniker_provider is Some && catalog.caps.moniker_provider != Some(options),
                "monikerProvider"@,
            ),
            Contribution::CallHierarchy(options) => refused_for(
                contribute(catalog, contribution),
                catalog.call_hierarchy.options is Some && catalog.call_hierarchy.options != Some(options),
                "callHierarchyProvider"@,
            ),
            Contribution::CallHierarchyDependent => contribute(catalog, contribution) is Ok,
            Contribution::TypeHierarchy(options) => refused_for(
                contribute(catalog, contribution),
                catalog.type_hierarchy.options is Some && catalog.type_hierarchy.options != Some(options),
                "typeHierarchyProvider"@,
            ),
            Contribution::TypeHierarchyDependent => contribute(catalog, contribution) is Ok,
            Contribution::DocumentColor(options) => refused_for(
                contribute(catalog, contribution),
                catalog.color.options is Some && catalog.color.options != Some(options),
                "colorProvider"@,
            ),
            Contribution::DocumentColorDependent => contribute(catalog, contribution) is Ok,
            Contribution::Completion(options) => refused_for(
                contribute(catalog, contribution),
                catalog.completion.options is Some && catalog.completion.options != Some(options),
                "completionProvider"@,
            ),
            Contribution::CompletionResolve => contribute(catalog, contribution) is Ok,
            Contribution::WorkspaceSymbol(options) => refused_for(
                contribute(catalog, contribution),
                catalog.workspace_symbols.options is Some && catalog.workspace_symbols.options != Some(options),
                "workspaceSymbolProvider"@,
            ),
            Contribution::WorkspaceSymbolResolve => contribute(catalog, contribution) is Ok,
            Contribution::Rename(options) => refused_for(
                contribute(catalog, contribution),
                catalog.rename.options is Some && catalog.rename.options != Some(options),
                "renameProvider"@,
            ),
            Contribution::PrepareRename => contribute(catalog, contribution) is Ok,
            Contribution::CodeAction(options) => refused_for(
                contribute(catalog, contribution),
                catalog.code_actions.options is Some && catalog.code_actions.options != Some(options),
                "codeActionProvider"@,
            ),
            Contribution::CodeActionResolve => contribute(catalog, contribution) is Ok,
            Contribution::CodeLens(options) => refused_for(
                contribute(catalog, contribution),
                catalog.code_lens.options is Some && catalog.code_lens.options != Some(options),
                "codeLensProvider"@,
            ),
            Contribution::CodeLensResolve => contribute(catalog, contribution) is Ok,
            Contribution::DocumentLink(options) => refused_for(
                contribute(catalog, contribution),
                catalog.document_links.options is Some && catalog.document_links.options != Some(options),
                "documentLinkProvider"@,
            ),
            Contribution::DocumentLinkResolve => contribute(catalog, contribution) is Ok,
            Contribution::InlayHint(options) => refused_for(
                contribute(catalog, contribution),
                catalog.inlay_hints.options is Some && catalog.inlay_hints.options != Some(options),
                "inlayHintProvider"@,
            ),
            Contribution::InlayHintResolve => contribute(catalog, contribution) is Ok,
            Contribution::FileCreate(options, _) => refused_for(
                contribute(catalog, contribution),
                catalog.file_create.options is Some && catalog.file_create.options != Some(options),
                "workspace.fileOperations.create"@,
            ),
            Contribution::FileRename(options, _) => refused_for(
                contribute(catalog, contribution),
                catalog.file_rename.options is Some && catalog.file_rename.options != Some(options),
                "workspace.fileOperations.rename"@,
            ),
            Contribution::FileDelete(options, _) => refused_for(
                contribute(catalog, contribution),
                catalog.file_delete.options is Some && catalog.file_delete.options != Some(options),
                "workspace.fileOperations.delete"@,
            ),
        },
{
    reveal(contribute);
}

/// A contribution fails exactly under a condition, and then on a field.
pub open spec fn refused_for(result: Contributed, condition: bool, field: Seq<char>) -> bool {
    &&& result is Err == condition
    &&& result matches Err(named) ==> named == field
}

/// Whether a family is whole: what depends on its base has the base, and the base
/// does not deny it.
pub open spec fn is_whole<V>(family: FamilyView<V>, denied: bool) -> bool {
    family.dependent ==> family.options is Some && !denied
}

/// A catalog is valid exactly if every family is whole and semantic tokens are
/// contributed in the modes that were declared, deltas only beside full documents;
/// where it is not, the field that is named is one that is not whole.
#[verifier::spinoff_prover]
pub proof fn law_a_catalog_of_whole_families_is_valid(catalog: CatalogView)
    ensures
        ({
            let tokens = catalog.semantic_tokens;
            let tokens_agree = (tokens.declared_full is Some ==> tokens.declared_full->0
                == tokens.full) && (tokens.declared_delta is Some ==> tokens.declared_delta->0
                == tokens.delta) && (tokens.declared_range is Some ==> tokens.declared_range->0
                == tokens.range) && (tokens.delta ==> tokens.full);
            let whole_hierarchies = is_whole(catalog.call_hierarchy, false) && is_whole(
                catalog.type_hierarchy,
                false,
            ) && is_whole(catalog.color, false);
            let whole_completion = is_whole(
                catalog.completion,
                catalog.completion.options is Some && catalog.completion.options->0.resolve_provider == Some(false),
            );
            let whole_workspace_symbols = is_whole(
                catalog.workspace_symbols,
                catalog.workspace_symbols.options is Some && catalog.workspace_symbols.options->0.resolve_provider == Some(false),
            );
            let whole_rename = is_whole(
                catalog.rename,
                catalog.rename.options is Some && catalog.rename.options->0.prepare_provider == Some(false),
            );
            let whole_code_actions = is_whole(
                catalog.code_actions,
                catalog.code_actions.options is Some && catalog.code_actions.options->0.resolve_provider == Some(false),
            );
            let whole_code_lens = is_whole(
                catalog.code_lens,
                catalog.code_lens.options is Some && catalog.code_lens.options->0.resolve_provider == Some(false),
            );
            let whole_document_links = is_whole(
                catalog.document_links,
                catalog.document_links.options is Some && catalog.document_links.options->0.resolve_provider == Some(false),
            );
            let whole_inlay_hints = is_whole(
                catalog.inlay_hints,
                catalog.inlay_hints.options is Some && catalog.inlay_hints.options->0.resolve_provider == Some(false),
            );
            &&& catalog.invalid_field() is None <==> tokens_agree && whole_hierarchies && whole_completion && whole_workspace_symbols && whole_rename && whole_code_actions && whole_code_lens && whole_document_links && whole_inlay_hints
            &&& catalog.invalid_field() matches Some(field) ==> {
                ||| field == "semanticTokensProvider"@ && !tokens_agree
                ||| field == "callHierarchyProvider"@ && !is_whole(catalog.call_hierarchy, false)
                ||| field == "typeHierarchyProvider"@ && !is_whole(catalog.type_hierarchy, false)
                ||| field == "colorProvider"@ && !is_whole(catalog.color, false)
                ||| field == "completionProvider"@ && !whole_completion
                ||| field == "workspaceSymbolProvider"@ && !whole_workspace_symbols
                ||| field == "renameProvider"@ && !whole_rename
                ||| field == "codeActionProvider"@ && !whole_code_actions
                ||| field == "codeLensProvider"@ && !whole_code_lens
                ||| field == "documentLinkProvider"@ && !whole_document_links
                ||| field == "inlayHintProvider"@ && !whole_inlay_hints
            }
        }),
{
}

/// The commands that are told are those that were contributed, in their order, each
/// once, and the workspace tells of exactly the sides of file operations that were
/// contributed.
pub proof fn law_only_what_is_contributed_is_told(catalog: CatalogView)
    requires
        catalog.caps == ServerCapabilitiesView::empty(),
    ensures
        ({
            let told = catalog.finish();
            &&& catalog.commands.len() > 0 ==> told.execute_command_provider is Some
                && told.execute_command_provider->0.commands == catalog.commands
            &&& catalog.commands.len() == 0 ==> told.execute_command_provider is None
            &&& catalog.diagnostics is None ==> told.diagnostic_provider is None
            &&& catalog.semantic_tokens.shared is None ==> told.semantic_tokens_provider is None
            &&& catalog.semantic_tokens.shared is Some ==> {
                &&& told.semantic_tokens_provider matches Some(tokens)
                &&& (tokens.range is Some) == catalog.semantic_tokens.range
                &&& (tokens.full is Some) == (catalog.semantic_tokens.full
                    || catalog.semantic_tokens.delta)
                &&& (tokens.full matches Some(Full::SemanticTokensFullDelta(_)))
                    == catalog.semantic_tokens.delta
            }
            &&& catalog.call_hierarchy.options is None ==> told.call_hierarchy_provider is None
            &&& catalog.type_hierarchy.options is None ==> told.type_hierarchy_provider is None
            &&& catalog.color.options is None ==> told.color_provider is None
            &&& catalog.completion.options is None ==> told.completion_provider is None
            &&& catalog.completion.options is Some && !catalog.completion.dependent
                ==> told.completion_provider == catalog.completion.options
            &&& catalog.workspace_symbols.options is None ==> told.workspace_symbol_provider is None
            &&& catalog.workspace_symbols.options is Some && !catalog.workspace_symbols.dependent
                ==> told.workspace_symbol_provider == catalog.workspace_symbols.options
            &&& catalog.rename.options is None ==> told.rename_provider is None
            &&& catalog.rename.options is Some && !catalog.rename.dependent
                ==> told.rename_provider == catalog.rename.options
            &&& catalog.code_actions.options is None ==> told.code_action_provider is None
            &&& catalog.code_actions.options is Some && !catalog.code_actions.dependent
                ==> told.code_action_provider == catalog.code_actions.options
            &&& catalog.code_lens.options is None ==> told.code_lens_provider is None
            &&& catalog.code_lens.options is Some && !catalog.code_lens.dependent
                ==> told.code_lens_provider == catalog.code_lens.options
            &&& catalog.document_links.options is None ==> told.document_link_provider is None
            &&& catalog.document_links.options is Some && !catalog.document_links.dependent
                ==> told.document_link_provider == catalog.document_links.options
            &&& catalog.inlay_hints.options is None ==> told.inlay_hint_provider is None
            &&& catalog.inlay_hints.options is Some && !catalog.inlay_hints.dependent
                ==> told.inlay_hint_provider == catalog.inlay_hints.options
            &&& told.workspace is Some ==> {
                &&& told.workspace->0.file_operations is Some
                &&& !catalog.file_create.will ==> told.workspace->0.file_operations->0.will_create is None
                &&& !catalog.file_create.did ==> told.workspace->0.file_operations->0.did_create is None
            }
            &&& told.workspace is Some ==> {
                &&& told.workspace->0.file_operations is Some
                &&& !catalog.file_rename.will ==> told.workspace->0.file_operations->0.will_rename is None
                &&& !catalog.file_rename.did ==> told.workspace->0.file_operations->0.did_rename is None
            }
            &&& told.workspace is Some ==> {
                &&& told.workspace->0.file_operations is Some
                &&& !catalog.file_delete.will ==> told.workspace->0.file_operations->0.will_delete is None
                &&& !catalog.file_delete.did ==> told.workspace->0.file_operations->0.did_delete is None
            }
            &&& !catalog.file_create.will && !catalog.file_create.did && !catalog.file_rename.will
                && !catalog.file_rename.did && !catalog.file_delete.will
                && !catalog.file_delete.did ==> told.workspace is None
        }),
{
}

} // verus!
