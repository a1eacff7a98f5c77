//! What holds of contributions to the capability catalog, whatever they are and
//! in whatever order they come.
use vstd::prelude::*;

use crate::capability::{CatalogView, Contributed, SemanticTokensMode};
use crate::catalog_laws::tells_of;
use crate::options::{
    CallHierarchyOptions, CodeActionOptionsView, CodeLensOptions, CompletionOptionsView,
    DeclarationOptions, DefinitionOptions, DiagnosticOptionsView, DocumentColorOptions,
    DocumentFormattingOptions, DocumentHighlightOptions, DocumentLinkOptions,
    DocumentOnTypeFormattingOptionsView, DocumentRangeFormattingOptions,
    DocumentSymbolOptionsView, FileOperationRegistrationOptionsView, FoldingRangeOptions,
    ImplementationRegistrationOptionsView, InlayHintOptions, InlineValueOptions,
    LinkedEditingRangeOptions, MonikerOptions, ReferenceOptions, RenameOptions,
    SelectionRangeOptions, SemanticTokensOptionsView, ServerCapabilitiesView,
    SignatureHelpOptionsView, TypeDefinitionRegistrationOptionsView, TypeHierarchyOptions,
    WorkspaceSymbolOptions,
};

verus! {

/// One contribution to the capability catalog.
#[allow(inconsistent_fields)]
pub enum Contribution {
    Hover,
    WillSaveWaitUntil,
    Command(Seq<char>),
    Diagnostics(DiagnosticOptionsView),
    SemanticTokens(SemanticTokensOptionsView, SemanticTokensMode),
    DocumentFormatting(DocumentFormattingOptions),
    RangeFormatting(DocumentRangeFormattingOptions),
    OnTypeFormatting(DocumentOnTypeFormattingOptionsView),
    FoldingRange(FoldingRangeOptions),
    SelectionRange(SelectionRangeOptions),
    InlineValue(InlineValueOptions),
    SignatureHelp(SignatureHelpOptionsView),
    Declaration(DeclarationOptions),
    Definition(DefinitionOptions),
    TypeDefinition(TypeDefinitionRegistrationOptionsView),
    Implementation(ImplementationRegistrationOptionsView),
    References(ReferenceOptions),
    DocumentHighlight(DocumentHighlightOptions),
    DocumentSymbol(DocumentSymbolOptionsView),
    LinkedEditingRange(LinkedEditingRangeOptions),
    Moniker(MonikerOptions),
    CallHierarchy(CallHierarchyOptions),
    CallHierarchyDependent,
    TypeHierarchy(TypeHierarchyOptions),
    TypeHierarchyDependent,
    DocumentColor(DocumentColorOptions),
    DocumentColorDependent,
    Completion(CompletionOptionsView),
    CompletionResolve,
    WorkspaceSymbol(WorkspaceSymbolOptions),
    WorkspaceSymbolResolve,
    Rename(RenameOptions),
    PrepareRename,
    CodeAction(CodeActionOptionsView),
    CodeActionResolve,
    CodeLens(CodeLensOptions),
    CodeLensResolve,
    DocumentLink(DocumentLinkOptions),
    DocumentLinkResolve,
    InlayHint(InlayHintOptions),
    InlayHintResolve,
    FileCreate(FileOperationRegistrationOptionsView, bool),
    FileRename(FileOperationRegistrationOptionsView, bool),
    FileDelete(FileOperationRegistrationOptionsView, bool),
}

/// The parts of the catalog. A contribution reads and writes one of them.
enum Slot {
    HoverProvider,
    WillSaveWaitUntil,
    Commands,
    Diagnostics,
    SemanticTokens,
    DocumentFormattingProvider,
    DocumentRangeFormattingProvider,
    DocumentOnTypeFormattingProvider,
    FoldingRangeProvider,
    SelectionRangeProvider,
    InlineValueProvider,
    SignatureHelpProvider,
    DeclarationProvider,
    DefinitionProvider,
    TypeDefinitionProvider,
    ImplementationProvider,
    ReferencesProvider,
    DocumentHighlightProvider,
    DocumentSymbolProvider,
    LinkedEditingRangeProvider,
    MonikerProvider,
    CallHierarchy,
    TypeHierarchy,
    Color,
    Completion,
    WorkspaceSymbols,
    Rename,
    CodeActions,
    CodeLens,
    DocumentLinks,
    InlayHints,
    FileCreate,
    FileRename,
    FileDelete,
    /// What no contribution touches.
    Rest,
}

impl Contribution {
    /// The part of the catalog that is contributed to.
    spec fn slot(self) -> Slot {
        match self {
            Contribution::Hover => Slot::HoverProvider,
            Contribution::WillSaveWaitUntil => Slot::WillSaveWaitUntil,
            Contribution::Command(..) => Slot::Commands,
            Contribution::Diagnostics(..) => Slot::Diagnostics,
            Contribution::SemanticTokens(..) => Slot::SemanticTokens,
            Contribution::DocumentFormatting(..) => Slot::DocumentFormattingProvider,
            Contribution::RangeFormatting(..) => Slot::DocumentRangeFormattingProvider,
            Contribution::OnTypeFormatting(..) => Slot::DocumentOnTypeFormattingProvider,
            Contribution::FoldingRange(..) => Slot::FoldingRangeProvider,
            Contribution::SelectionRange(..) => Slot::SelectionRangeProvider,
            Contribution::InlineValue(..) => Slot::InlineValueProvider,
            Contribution::SignatureHelp(..) => Slot::SignatureHelpProvider,
            Contribution::Declaration(..) => Slot::DeclarationProvider,
            Contribution::Definition(..) => Slot::DefinitionProvider,
            Contribution::TypeDefinition(..) => Slot::TypeDefinitionProvider,
            Contribution::Implementation(..) => Slot::ImplementationProvider,
            Contribution::References(..) => Slot::ReferencesProvider,
            Contribution::DocumentHighlight(..) => Slot::DocumentHighlightProvider,
            Contribution::DocumentSymbol(..) => Slot::DocumentSymbolProvider,
            Contribution::LinkedEditingRange(..) => Slot::LinkedEditingRangeProvider,
            Contribution::Moniker(..) => Slot::MonikerProvider,
            Contribution::CallHierarchy(..) | Contribution::CallHierarchyDependent =>
                Slot::CallHierarchy,
            Contribution::TypeHierarchy(..) | Contribution::TypeHierarchyDependent =>
                Slot::TypeHierarchy,
            Contribution::DocumentColor(..) | Contribution::DocumentColorDependent => Slot::Color,
            Contribution::Completion(..) | Contribution::CompletionResolve => Slot::Completion,
            Contribution::WorkspaceSymbol(..) | Contribution::WorkspaceSymbolResolve =>
                Slot::WorkspaceSymbols,
            Contribution::Rename(..) | Contribution::PrepareRename => Slot::Rename,
            Contribution::CodeAction(..) | Contribution::CodeActionResolve => Slot::CodeActions,
            Contribution::CodeLens(..) | Contribution::CodeLensResolve => Slot::CodeLens,
            Contribution::DocumentLink(..) | Contribution::DocumentLinkResolve =>
                Slot::DocumentLinks,
            Contribution::InlayHint(..) | Contribution::InlayHintResolve => Slot::InlayHints,
            Contribution::FileCreate(..) => Slot::FileCreate,
            Contribution::FileRename(..) => Slot::FileRename,
            Contribution::FileDelete(..) => Slot::FileDelete,
        }
    }

    /// Whether a request is contributed that depends on its family's base.
    spec fn is_dependent(self) -> bool {
        match self {
            Contribution::CallHierarchyDependent => true,
            Contribution::TypeHierarchyDependent => true,
            Contribution::DocumentColorDependent => true,
            Contribution::CompletionResolve => true,
            Contribution::WorkspaceSymbolResolve => true,
            Contribution::PrepareRename => true,
            Contribution::CodeActionResolve => true,
            Contribution::CodeLensResolve => true,
            Contribution::DocumentLinkResolve => true,
            Contribution::InlayHintResolve => true,
            _ => false,
        }
    }

    /// Whether options are contributed that several routes of a family share.
    spec fn is_merging(self) -> bool {
        match self {
            Contribution::SemanticTokens(..) => true,
            Contribution::FileCreate(..) | Contribution::FileRename(..) => true,
            Contribution::FileDelete(..) => true,
            _ => false,
        }
    }

    /// Whether options are contributed that stand alone.
    spec fn is_singular(self) -> bool {
        match self {
            Contribution::Hover | Contribution::WillSaveWaitUntil => false,
            Contribution::Command(..) => false,
            _ => !self.is_dependent() && !self.is_merging(),
        }
    }
}

/// The catalog after a contribution, or the field that it conflicts on.
#[verifier::opaque]
pub open spec fn contribute(catalog: CatalogView, contribution: Contribution) -> Contributed {
    match contribution {
        Contribution::Hover => Ok(catalog.set_hover()),
        Contribution::WillSaveWaitUntil => Ok(catalog.set_will_save_wait_until()),
        Contribution::Command(name) => Ok(catalog.add_command(name)),
        Contribution::Diagnostics(options) => catalog.set_diagnostics(options),
        Contribution::SemanticTokens(options, mode) => catalog.set_semantic_tokens(options, mode),
        Contribution::DocumentFormatting(options) => catalog.set_document_formatting(options),
        Contribution::RangeFormatting(options) => catalog.set_range_formatting(options),
        Contribution::OnTypeFormatting(options) => catalog.set_on_type_formatting(options),
        Contribution::FoldingRange(options) => catalog.set_folding_range(options),
        Contribution::SelectionRange(options) => catalog.set_selection_range(options),
        Contribution::InlineValue(options) => catalog.set_inline_value(options),
        Contribution::SignatureHelp(options) => catalog.set_signature_help(options),
        Contribution::Declaration(options) => catalog.set_declaration(options),
        Contribution::Definition(options) => catalog.set_definition(options),
        Contribution::TypeDefinition(options) => catalog.set_type_definition(options),
        Contribution::Implementation(options) => catalog.set_implementation(options),
        Contribution::References(options) => catalog.set_references(options),
        Contribution::DocumentHighlight(options) => catalog.set_document_highlight(options),
        Contribution::DocumentSymbol(options) => catalog.set_document_symbol(options),
        Contribution::LinkedEditingRange(options) => catalog.set_linked_editing_range(options),
        Contribution::Moniker(options) => catalog.set_moniker(options),
        Contribution::CallHierarchy(options) => catalog.set_call_hierarchy(options),
        Contribution::CallHierarchyDependent => Ok(catalog.set_call_hierarchy_dependent()),
        Contribution::TypeHierarchy(options) => catalog.set_type_hierarchy(options),
        Contribution::TypeHierarchyDependent => Ok(catalog.set_type_hierarchy_dependent()),
        Contribution::DocumentColor(options) => catalog.set_document_color(options),
        Contribution::DocumentColorDependent => Ok(catalog.set_document_color_dependent()),
        Contribution::Completion(options) => catalog.set_completion(options),
        Contribution::CompletionResolve => Ok(catalog.set_completion_resolve()),
        Contribution::WorkspaceSymbol(options) => catalog.set_workspace_symbol(options),
        Contribution::WorkspaceSymbolResolve => Ok(catalog.set_workspace_symbol_resolve()),
        Contribution::Rename(options) => catalog.set_rename(options),
        Contribution::PrepareRename => Ok(catalog.set_prepare_rename()),
        Contribution::CodeAction(options) => catalog.set_code_action(options),
        Contribution::CodeActionResolve => Ok(catalog.set_code_action_resolve()),
        Contribution::CodeLens(options) => catalog.set_code_lens(options),
        Contribution::CodeLensResolve => Ok(catalog.set_code_lens_resolve()),
        Contribution::DocumentLink(options) => catalog.set_document_link(options),
        Contribution::DocumentLinkResolve => Ok(catalog.set_document_link_resolve()),
        Contribution::InlayHint(options) => catalog.set_inlay_hint(options),
        Contribution::InlayHintResolve => Ok(catalog.set_inlay_hint_resolve()),
        Contribution::FileCreate(options, will) => catalog.set_file_create(options, will),
        Contribution::FileRename(options, will) => catalog.set_file_rename(options, will),
        Contribution::FileDelete(options, will) => catalog.set_file_delete(options, will),
    }
}

/// The catalog after two contributions, where neither conflicts.
pub open spec fn contribute_both(
    catalog: CatalogView,
    first: Contribution,
    second: Contribution,
) -> Option<CatalogView> {
    match contribute(catalog, first) {
        Ok(after) => match contribute(after, second) {
            Ok(done) => Some(done),
            Err(_) => None,
        },
        Err(_) => None,
    }
}

/// The capabilities without what contributions write.
spec fn rest(caps: ServerCapabilitiesView) -> ServerCapabilitiesView {
    ServerCapabilitiesView {
        hover_provider: None,
        document_formatting_provider: None,
        document_range_formatting_provider: None,
        document_on_type_formatting_provider: None,
        folding_range_provider: None,
        selection_range_provider: None,
        inline_value_provider: None,
        signature_help_provider: None,
        declaration_provider: None,
        definition_provider: None,
        type_definition_provider: None,
        implementation_provider: None,
        references_provider: None,
        document_highlight_provider: None,
        document_symbol_provider: None,
        linked_editing_range_provider: None,
        moniker_provider: None,
        ..caps
    }
}

/// Two catalogs have one part in common.
#[verifier::opaque]
spec fn agree(left: CatalogView, right: CatalogView, slot: Slot) -> bool {
    match slot {
        Slot::HoverProvider => left.caps.hover_provider == right.caps.hover_provider,
        Slot::WillSaveWaitUntil => left.will_save_wait_until == right.will_save_wait_until,
        Slot::Commands => left.commands == right.commands,
        Slot::Diagnostics => left.diagnostics == right.diagnostics,
        Slot::SemanticTokens => left.semantic_tokens == right.semantic_tokens,
        Slot::DocumentFormattingProvider => left.caps.document_formatting_provider
            == right.caps.document_formatting_provider,
        Slot::DocumentRangeFormattingProvider => left.caps.document_range_formatting_provider
            == right.caps.document_range_formatting_provider,
        Slot::DocumentOnTypeFormattingProvider => left.caps.document_on_type_formatting_provider
            == right.caps.document_on_type_formatting_provider,
        Slot::FoldingRangeProvider => left.caps.folding_range_provider
            == right.caps.folding_range_provider,
        Slot::SelectionRangeProvider => left.caps.selection_range_provider
            == right.caps.selection_range_provider,
        Slot::InlineValueProvider => left.caps.inline_value_provider
            == right.caps.inline_value_provider,
        Slot::SignatureHelpProvider => left.caps.signature_help_provider
            == right.caps.signature_help_provider,
        Slot::DeclarationProvider => left.caps.declaration_provider
            == right.caps.declaration_provider,
        Slot::DefinitionProvider => left.caps.definition_provider == right.caps.definition_provider,
        Slot::TypeDefinitionProvider => left.caps.type_definition_provider
            == right.caps.type_definition_provider,
        Slot::ImplementationProvider => left.caps.implementation_provider
            == right.caps.implementation_provider,
        Slot::ReferencesProvider => left.caps.references_provider == right.caps.references_provider,
        Slot::DocumentHighlightProvider => left.caps.document_highlight_provider
            == right.caps.document_highlight_provider,
        Slot::DocumentSymbolProvider => left.caps.document_symbol_provider
            == right.caps.document_symbol_provider,
        Slot::LinkedEditingRangeProvider => left.caps.linked_editing_range_provider
            == right.caps.linked_editing_range_provider,
        Slot::MonikerProvider => left.caps.moniker_provider == right.caps.moniker_provider,
        Slot::CallHierarchy => left.call_hierarchy == right.call_hierarchy,
        Slot::TypeHierarchy => left.type_hierarchy == right.type_hierarchy,
        Slot::Color => left.color == right.color,
        Slot::Completion => left.completion == right.completion,
        Slot::WorkspaceSymbols => left.workspace_symbols == right.workspace_symbols,
        Slot::Rename => left.rename == right.rename,
        Slot::CodeActions => left.code_actions == right.code_actions,
        Slot::CodeLens => left.code_lens == right.code_lens,
        Slot::DocumentLinks => left.document_links == right.document_links,
        Slot::InlayHints => left.inlay_hints == right.inlay_hints,
        Slot::FileCreate => left.file_create == right.file_create,
        Slot::FileRename => left.file_rename == right.file_rename,
        Slot::FileDelete => left.file_delete == right.file_delete,
        Slot::Rest => rest(left.caps) == rest(right.caps),
    }
}

proof fn lemma_agreement_is_an_equivalence(
    a: CatalogView,
    b: CatalogView,
    c: CatalogView,
    slot: Slot,
)
    ensures
        agree(a, a, slot),
        agree(a, b, slot) ==> agree(b, a, slot),
        agree(a, b, slot) && agree(b, c, slot) ==> agree(a, c, slot),
{
    reveal(agree);
}

/// Catalogs that have every part in common are the same.
proof fn lemma_parts_make_the_catalog(left: CatalogView, right: CatalogView)
    requires
        forall|slot: Slot| agree(left, right, slot),
    ensures
        left == right,
{
    reveal(agree);
    assert(agree(left, right, Slot::HoverProvider));
    assert(agree(left, right, Slot::WillSaveWaitUntil));
    assert(agree(left, right, Slot::Commands));
    assert(agree(left, right, Slot::Diagnostics));
    assert(agree(left, right, Slot::SemanticTokens));
    assert(agree(left, right, Slot::DocumentFormattingProvider));
    assert(agree(left, right, Slot::DocumentRangeFormattingProvider));
    assert(agree(left, right, Slot::DocumentOnTypeFormattingProvider));
    assert(agree(left, right, Slot::FoldingRangeProvider));
    assert(agree(left, right, Slot::SelectionRangeProvider));
    assert(agree(left, right, Slot::InlineValueProvider));
    assert(agree(left, right, Slot::SignatureHelpProvider));
    assert(agree(left, right, Slot::DeclarationProvider));
    assert(agree(left, right, Slot::DefinitionProvider));
    assert(agree(left, right, Slot::TypeDefinitionProvider));
    assert(agree(left, right, Slot::ImplementationProvider));
    assert(agree(left, right, Slot::ReferencesProvider));
    assert(agree(left, right, Slot::DocumentHighlightProvider));
    assert(agree(left, right, Slot::DocumentSymbolProvider));
    assert(agree(left, right, Slot::LinkedEditingRangeProvider));
    assert(agree(left, right, Slot::MonikerProvider));
    assert(agree(left, right, Slot::CallHierarchy));
    assert(agree(left, right, Slot::TypeHierarchy));
    assert(agree(left, right, Slot::Color));
    assert(agree(left, right, Slot::Completion));
    assert(agree(left, right, Slot::WorkspaceSymbols));
    assert(agree(left, right, Slot::Rename));
    assert(agree(left, right, Slot::CodeActions));
    assert(agree(left, right, Slot::CodeLens));
    assert(agree(left, right, Slot::DocumentLinks));
    assert(agree(left, right, Slot::InlayHints));
    assert(agree(left, right, Slot::FileCreate));
    assert(agree(left, right, Slot::FileRename));
    assert(agree(left, right, Slot::FileDelete));
    assert(agree(left, right, Slot::Rest));
    assert(left.caps == right.caps);
}

/// A contribution leaves every part but its own as it was.
#[verifier::spinoff_prover]
proof fn lemma_other_parts_stay(catalog: CatalogView, contribution: Contribution, slot: Slot)
    requires
        contribute(catalog, contribution) is Ok,
        contribution.slot() != slot,
    ensures
        agree(catalog, contribute(catalog, contribution)->Ok_0, slot),
{
    reveal(agree);
    reveal(contribute);
    let after = contribute(catalog, contribution)->Ok_0;
    match contribution {
        Contribution::Hover => {
            assert(agree(catalog, after, slot));
        },
        Contribution::WillSaveWaitUntil => {
            assert(agree(catalog, after, slot));
        },
        Contribution::Command(..) => {
            assert(agree(catalog, after, slot));
        },
        Contribution::Diagnostics(..) => {
            assert(agree(catalog, after, slot));
        },
        Contribution::SemanticTokens(..) => {
            assert(agree(catalog, after, slot));
        },
        Contribution::DocumentFormatting(..) => {
            assert(agree(catalog, after, slot));
        },
        Contribution::RangeFormatting(..) => {
            assert(agree(catalog, after, slot));
        },
        Contribution::OnTypeFormatting(..) => {
            assert(agree(catalog, after, slot));
        },
        Contribution::FoldingRange(..) => {
            assert(agree(catalog, after, slot));
        },
        Contribution::SelectionRange(..) => {
            assert(agree(catalog, after, slot));
        },
        Contribution::InlineValue(..) => {
            assert(agree(catalog, after, slot));
        },
        Contribution::SignatureHelp(..) => {
            assert(agree(catalog, after, slot));
        },
        Contribution::Declaration(..) => {
            assert(agree(catalog, after, slot));
        },
        Contribution::Definition(..) => {
            assert(agree(catalog, after, slot));
        },
        Contribution::TypeDefinition(..) => {
            assert(agree(catalog, after, slot));
        },
        Contribution::Implementation(..) => {
            assert(agree(catalog, after, slot));
        },
        Contribution::References(..) => {
            assert(agree(catalog, after, slot));
        },
        Contribution::DocumentHighlight(..) => {
            assert(agree(catalog, after, slot));
        },
        Contribution::DocumentSymbol(..) => {
            assert(agree(catalog, after, slot));
        },
        Contribution::LinkedEditingRange(..) => {
            assert(agree(catalog, after, slot));
        },
        Contribution::Moniker(..) => {
            assert(agree(catalog, after, slot));
        },
        Contribution::CallHierarchy(..) => {
            assert(agree(catalog, after, slot));
        },
        Contribution::CallHierarchyDependent => {
            assert(agree(catalog, after, slot));
        },
        Contribution::TypeHierarchy(..) => {
            assert(agree(catalog, after, slot));
        },
        Contribution::TypeHierarchyDependent => {
            assert(agree(catalog, after, slot));
        },
        Contribution::DocumentColor(..) => {
            assert(agree(catalog, after, slot));
        },
        Contribution::DocumentColorDependent => {
            assert(agree(catalog, after, slot));
        },
        Contribution::Completion(..) => {
            assert(agree(catalog, after, slot));
        },
        Contribution::CompletionResolve => {
            assert(agree(catalog, after, slot));
        },
        Contribution::WorkspaceSymbol(..) => {
            assert(agree(catalog, after, slot));
        },
        Contribution::WorkspaceSymbolResolve => {
            assert(agree(catalog, after, slot));
        },
        Contribution::Rename(..) => {
            assert(agree(catalog, after, slot));
        },
        Contribution::PrepareRename => {
            assert(agree(catalog, after, slot));
        },
        Contribution::CodeAction(..) => {
            assert(agree(catalog, after, slot));
        },
        Contribution::CodeActionResolve => {
            assert(agree(catalog, after, slot));
        },
        Contribution::CodeLens(..) => {
            assert(agree(catalog, after, slot));
        },
        Contribution::CodeLensResolve => {
            assert(agree(catalog, after, slot));
        },
        Contribution::DocumentLink(..) => {
            assert(agree(catalog, after, slot));
        },
        Contribution::DocumentLinkResolve => {
            assert(agree(catalog, after, slot));
        },
        Contribution::InlayHint(..) => {
            assert(agree(catalog, after, slot));
        },
        Contribution::InlayHintResolve => {
            assert(agree(catalog, after, slot));
        },
        Contribution::FileCreate(..) => {
            assert(agree(catalog, after, slot));
        },
        Contribution::FileRename(..) => {
            assert(agree(catalog, after, slot));
        },
        Contribution::FileDelete(..) => {
            assert(agree(catalog, after, slot));
        },
    }
}

/// What becomes of a contribution, and of its part, depends on that part alone.
#[verifier::spinoff_prover]
proof fn lemma_only_the_part_is_read(
    left: CatalogView,
    right: CatalogView,
    contribution: Contribution,
)
    requires
        agree(left, right, contribution.slot()),
    ensures
        contribute(left, contribution) is Ok == contribute(right, contribution) is Ok,
        contribute(left, contribution) is Ok ==> agree(
            contribute(left, contribution)->Ok_0,
            contribute(right, contribution)->Ok_0,
            contribution.slot(),
        ),
{
    reveal(agree);
    reveal(contribute);
}

/// Two contributions may come in either order.
spec fn swaps(catalog: CatalogView, first: Contribution, second: Contribution) -> bool {
    contribute_both(catalog, first, second) == contribute_both(catalog, second, first)
}

/// Options that differ are never both accepted.
#[verifier::spinoff_prover]
proof fn lemma_different_options_conflict(
    catalog: CatalogView,
    first: Contribution,
    second: Contribution,
)
    requires
        first != second,
        first.slot() == second.slot(),
        first.is_singular(),
        second.is_singular(),
        contribute(catalog, first) is Ok,
    ensures
        contribute(contribute(catalog, first)->Ok_0, second) is Err,
{
    reveal(contribute);
}

/// A dependent request may come before its base or after it.
#[verifier::spinoff_prover]
proof fn lemma_base_and_dependent_swap(
    catalog: CatalogView,
    base: Contribution,
    dependent: Contribution,
)
    requires
        base.slot() == dependent.slot(),
        base.is_singular(),
        dependent.is_dependent(),
    ensures
        swaps(catalog, base, dependent),
{
    reveal(contribute);
}

/// Contributions that merge within their family may come in either order.
#[verifier::spinoff_prover]
proof fn lemma_merging_contributions_swap(
    catalog: CatalogView,
    first: Contribution,
    second: Contribution,
)
    requires
        first.slot() == second.slot(),
        first.is_merging(),
        second.is_merging(),
    ensures
        swaps(catalog, first, second),
{
    reveal(contribute);
}

/// Contributions to one part may come in either order.
proof fn lemma_one_part_merges(catalog: CatalogView, first: Contribution, second: Contribution)
    requires
        first.slot() == second.slot(),
        !(first is Command),
    ensures
        swaps(catalog, first, second),
{
    if first == second {
    } else if first.is_merging() {
        lemma_merging_contributions_swap(catalog, first, second);
    } else if first.is_dependent() {
        lemma_base_and_dependent_swap(catalog, second, first);
    } else if second.is_dependent() {
        lemma_base_and_dependent_swap(catalog, first, second);
    } else {
        if contribute(catalog, first) is Ok {
            lemma_different_options_conflict(catalog, first, second);
        }
        if contribute(catalog, second) is Ok {
            lemma_different_options_conflict(catalog, second, first);
        }
    }
}

/// Two contributions leave every other part as it was.
proof fn lemma_other_parts_stay_for_both(
    catalog: CatalogView,
    first: Contribution,
    second: Contribution,
    slot: Slot,
)
    requires
        contribute_both(catalog, first, second) is Some,
        first.slot() != slot,
        second.slot() != slot,
    ensures
        agree(catalog, contribute_both(catalog, first, second)->0, slot),
{
    let between = contribute(catalog, first)->Ok_0;
    lemma_other_parts_stay(catalog, first, slot);
    lemma_other_parts_stay(between, second, slot);
    lemma_agreement_is_an_equivalence(
        catalog,
        between,
        contribute_both(catalog, first, second)->0,
        slot,
    );
}

/// What two contributions to different parts make of the catalog: each makes of
/// its own part what it would have made of it alone.
proof fn lemma_two_parts_merge(catalog: CatalogView, first: Contribution, second: Contribution)
    requires
        first.slot() != second.slot(),
    ensures
        contribute_both(catalog, first, second) is Some == (contribute(catalog, first) is Ok
            && contribute(catalog, second) is Ok),
        contribute_both(catalog, first, second) is Some ==> {
            let done = contribute_both(catalog, first, second)->0;
            &&& agree(done, contribute(catalog, first)->Ok_0, first.slot())
            &&& agree(done, contribute(catalog, second)->Ok_0, second.slot())
        },
{
    if contribute(catalog, first) is Ok {
        let between = contribute(catalog, first)->Ok_0;
        lemma_other_parts_stay(catalog, first, second.slot());
        lemma_only_the_part_is_read(catalog, between, second);
        if contribute(between, second) is Ok {
            let done = contribute(between, second)->Ok_0;
            lemma_other_parts_stay(between, second, first.slot());
            lemma_agreement_is_an_equivalence(between, done, done, first.slot());
            lemma_agreement_is_an_equivalence(
                contribute(catalog, second)->Ok_0,
                done,
                done,
                second.slot(),
            );
        }
    }
}

/// Two contributions may come in either order, unless both are commands: either
/// order leads to the same catalog, or either ends in a conflict.
pub proof fn law_two_contributions_merge_in_either_order(
    catalog: CatalogView,
    first: Contribution,
    second: Contribution,
)
    requires
        !(first is Command && second is Command),
    ensures
        contribute_both(catalog, first, second) == contribute_both(catalog, second, first),
{
    if first.slot() == second.slot() {
        assert(first is Command == second is Command);
        lemma_one_part_merges(catalog, first, second);
    } else {
        lemma_two_parts_merge(catalog, first, second);
        lemma_two_parts_merge(catalog, second, first);
    }
    if first.slot() != second.slot() && contribute_both(catalog, first, second) is Some {
        let left = contribute_both(catalog, first, second)->0;
        let right = contribute_both(catalog, second, first)->0;
        let one = contribute(catalog, first)->Ok_0;
        let other = contribute(catalog, second)->Ok_0;
        assert forall|slot: Slot| agree(left, right, slot) by {
            if slot != first.slot() && slot != second.slot() {
                lemma_other_parts_stay_for_both(catalog, first, second, slot);
                lemma_other_parts_stay_for_both(catalog, second, first, slot);
                lemma_agreement_is_an_equivalence(catalog, left, left, slot);
                lemma_agreement_is_an_equivalence(left, catalog, right, slot);
            } else {
                let alone = if slot == first.slot() {
                    one
                } else {
                    other
                };
                lemma_agreement_is_an_equivalence(right, alone, alone, slot);
                lemma_agreement_is_an_equivalence(left, alone, right, slot);
            }
        }
        lemma_parts_make_the_catalog(left, right);
    }
}

/// A contribution that was accepted is accepted again and changes nothing.
spec fn repeats(catalog: CatalogView, contribution: Contribution) -> bool {
    contribute(contribute(catalog, contribution)->Ok_0, contribution) == contribute(
        catalog,
        contribution,
    )
}

/// Options may be contributed again.
#[verifier::spinoff_prover]
proof fn lemma_options_repeat(catalog: CatalogView, contribution: Contribution)
    requires
        contribute(catalog, contribution) is Ok,
        contribution.is_singular(),
    ensures
        repeats(catalog, contribution),
{
    reveal(contribute);
}

/// A dependent request may be contributed again.
#[verifier::spinoff_prover]
proof fn lemma_dependents_repeat(catalog: CatalogView, contribution: Contribution)
    requires
        contribute(catalog, contribution) is Ok,
        contribution.is_dependent(),
    ensures
        repeats(catalog, contribution),
{
    reveal(contribute);
}

/// Options that routes share may be contributed again.
#[verifier::spinoff_prover]
proof fn lemma_merging_contributions_repeat(catalog: CatalogView, contribution: Contribution)
    requires
        contribute(catalog, contribution) is Ok,
        contribution.is_merging(),
    ensures
        repeats(catalog, contribution),
{
    reveal(contribute);
}

/// A command may be contributed again.
proof fn lemma_commands_repeat(catalog: CatalogView, name: Seq<char>)
    ensures
        repeats(catalog, Contribution::Command(name)),
{
    reveal(contribute);
    let once = catalog.add_command(name);
    if !catalog.commands.contains(name) {
        assert(once.commands[catalog.commands.len() as int] == name);
    }
    assert(once.commands.contains(name));
}

/// A contribution that is repeated changes nothing.
pub proof fn law_a_repeated_contribution_changes_nothing(
    catalog: CatalogView,
    contribution: Contribution,
)
    requires
        contribute(catalog, contribution) is Ok,
    ensures
        contribute(contribute(catalog, contribution)->Ok_0, contribution) == contribute(
            catalog,
            contribution,
        ),
{
    if contribution is Command {
        lemma_commands_repeat(catalog, contribution->Command_0);
    } else if contribution.is_merging() {
        lemma_merging_contributions_repeat(catalog, contribution);
    } else if contribution.is_dependent() {
        lemma_dependents_repeat(catalog, contribution);
    } else if contribution.is_singular() {
        lemma_options_repeat(catalog, contribution);
    } else {
        reveal(contribute);
    }
}

/// The catalog after contributions in order, where none conflicts.
pub open spec fn contribute_all(
    catalog: CatalogView,
    contributions: Seq<Contribution>,
) -> Option<CatalogView>
    decreases contributions.len(),
{
    if contributions.len() == 0 {
        Some(catalog)
    } else {
        match contribute(catalog, contributions[0]) {
            Ok(after) => contribute_all(after, contributions.skip(1)),
            Err(_) => None,
        }
    }
}

/// The commands among contributions, in order.
pub open spec fn commands_of(contributions: Seq<Contribution>) -> Seq<Contribution>
    decreases contributions.len(),
{
    if contributions.len() == 0 {
        Seq::empty()
    } else if contributions[0] is Command {
        seq![contributions[0]] + commands_of(contributions.skip(1))
    } else {
        commands_of(contributions.skip(1))
    }
}

/// A contribution may come first where no command stands before a command.
proof fn lemma_one_comes_first(catalog: CatalogView, contributions: Seq<Contribution>, i: int)
    requires
        0 <= i < contributions.len(),
        contributions[i] is Command ==> forall|j: int|
            0 <= j < i ==> !(#[trigger] contributions[j] is Command),
    ensures
        contribute_all(catalog, contributions) == contribute_all(
            catalog,
            seq![contributions[i]] + contributions.remove(i),
        ),
    decreases i,
{
    let one = contributions[i];
    let moved = seq![one] + contributions.remove(i);
    if i == 0 {
        assert(moved =~= contributions);
    } else {
        reveal_with_fuel(contribute_all, 3);
        let head = contributions[0];
        let tail = contributions.skip(1);
        let rest = tail.remove(i - 1);
        assert(tail[i - 1] == one);
        assert(moved.skip(1) =~= seq![head] + rest);
        assert(moved.skip(1).skip(1) =~= rest);
        assert((seq![one] + rest).skip(1) =~= rest);
        law_two_contributions_merge_in_either_order(catalog, head, one);
        if contribute(catalog, head) is Ok {
            lemma_one_comes_first(contribute(catalog, head)->Ok_0, tail, i - 1);
        }
    }
}

/// The commands before and after one contribution is taken out.
proof fn lemma_commands_without_one(contributions: Seq<Contribution>, i: int)
    requires
        0 <= i < contributions.len(),
        contributions[i] is Command ==> forall|j: int|
            0 <= j < i ==> !(#[trigger] contributions[j] is Command),
    ensures
        commands_of(contributions) == if contributions[i] is Command {
            seq![contributions[i]] + commands_of(contributions.remove(i))
        } else {
            commands_of(contributions.remove(i))
        },
    decreases i,
{
    if i == 0 {
        assert(contributions.remove(0) =~= contributions.skip(1));
    } else {
        let tail = contributions.skip(1);
        assert(tail[i - 1] == contributions[i]);
        assert(contributions.remove(i).skip(1) =~= tail.remove(i - 1));
        lemma_commands_without_one(tail, i - 1);
    }
}

/// No command stands before the first one.
proof fn lemma_nothing_before_the_first_command(contributions: Seq<Contribution>, i: int)
    requires
        0 <= i < contributions.len(),
        commands_of(contributions).len() > 0,
        commands_of(contributions)[0] == contributions[i],
        forall|j: int| 0 <= j < i ==> #[trigger] contributions[j] != contributions[i],
    ensures
        forall|j: int| 0 <= j < i ==> !(#[trigger] contributions[j] is Command),
    decreases i,
{
    if i > 0 {
        let tail = contributions.skip(1);
        assert(tail[i - 1] == contributions[i]);
        assert(contributions[0] != contributions[i]);
        assert forall|j: int| 0 <= j < i - 1 implies #[trigger] tail[j] != tail[i - 1] by {
            assert(tail[j] == contributions[j + 1]);
        }
        lemma_nothing_before_the_first_command(tail, i - 1);
        assert forall|j: int| 0 <= j < i implies !(#[trigger] contributions[j] is Command) by {
            if j > 0 {
                assert(tail[j - 1] == contributions[j]);
            }
        }
    }
}

/// Merging is independent of the order of registration, and commands keep
/// theirs: the same contributions with the same order of commands lead to the
/// same catalog, or end in a conflict, whatever their order is otherwise.
pub proof fn law_contributions_merge_in_any_order(
    catalog: CatalogView,
    left: Seq<Contribution>,
    right: Seq<Contribution>,
)
    requires
        left.to_multiset() == right.to_multiset(),
        commands_of(left) == commands_of(right),
    ensures
        contribute_all(catalog, left) == contribute_all(catalog, right),
    decreases left.len(),
{
    left.to_multiset_ensures();
    right.to_multiset_ensures();
    if left.len() > 0 {
        let one = left[0];
        assert(left.contains(one));
        assert(left.to_multiset().count(one) > 0);
        right.index_of_first_ensures(one);
        let i = right.index_of_first(one)->0;
        if one is Command {
            assert(commands_of(left)[0] == one);
            lemma_nothing_before_the_first_command(right, i);
        }
        lemma_commands_without_one(right, i);
        lemma_one_comes_first(catalog, right, i);
        let moved = seq![one] + right.remove(i);
        assert(moved.skip(1) =~= right.remove(i));
        assert(left.remove(0) =~= left.skip(1));
        if one is Command {
            assert(commands_of(left).skip(1) =~= commands_of(left.skip(1)));
            assert(commands_of(right).skip(1) =~= commands_of(right.remove(i)));
        }
        if contribute(catalog, one) is Ok {
            law_contributions_merge_in_any_order(
                contribute(catalog, one)->Ok_0,
                left.skip(1),
                right.remove(i),
            );
        }
    }
}

/// Whether a catalog keeps a contribution.
#[verifier::opaque]
pub closed spec fn keeps(catalog: CatalogView, contribution: Contribution) -> bool {
    match contribution {
        Contribution::Hover => catalog.caps.hover_provider == Some(true),
        Contribution::WillSaveWaitUntil => catalog.will_save_wait_until,
        Contribution::Command(name) => catalog.commands.contains(name),
        Contribution::Diagnostics(options) => catalog.diagnostics == Some(options),
        Contribution::SemanticTokens(options, mode) => {
            let family = catalog.semantic_tokens;
            &&& family.shared is Some
            &&& family.shared->0.legend == options.legend
            &&& family.shared->0.work_done_progress_options == options.work_done_progress_options
            &&& mode == SemanticTokensMode::Full ==> family.full
            &&& mode == SemanticTokensMode::Delta ==> family.delta
            &&& mode == SemanticTokensMode::Range ==> family.range
        },
        Contribution::DocumentFormatting(options) => catalog.caps.document_formatting_provider == Some(options),
        Contribution::RangeFormatting(options) => catalog.caps.document_range_formatting_provider == Some(options),
        Contribution::OnTypeFormatting(options) => catalog.caps.document_on_type_formatting_provider == Some(options),
        Contribution::FoldingRange(options) => catalog.caps.folding_range_provider == Some(options),
        Contribution::SelectionRange(options) => catalog.caps.selection_range_provider == Some(options),
        Contribution::InlineValue(options) => catalog.caps.inline_value_provider == Some(options),
        Contribution::SignatureHelp(options) => catalog.caps.signature_help_provider == Some(options),
        Contribution::Declaration(options) => catalog.caps.declaration_provider == Some(options),
        Contribution::Definition(options) => catalog.caps.definition_provider == Some(options),
        Contribution::TypeDefinition(options) => catalog.caps.type_definition_provider == Some(options),
        Contribution::Implementation(options) => catalog.caps.implementation_provider == Some(options),
        Contribution::References(options) => catalog.caps.references_provider == Some(options),
        Contribution::DocumentHighlight(options) => catalog.caps.document_highlight_provider == Some(options),
        Contribution::DocumentSymbol(options) => catalog.caps.document_symbol_provider == Some(options),
        Contribution::LinkedEditingRange(options) => catalog.caps.linked_editing_range_provider == Some(options),
        Contribution::Moniker(options) => catalog.caps.moniker_provider == Some(options),
        Contribution::CallHierarchy(options) => catalog.call_hierarchy.options == Some(options),
        Contribution::CallHierarchyDependent => catalog.call_hierarchy.dependent,
        Contribution::TypeHierarchy(options) => catalog.type_hierarchy.options == Some(options),
        Contribution::TypeHierarchyDependent => catalog.type_hierarchy.dependent,
        Contribution::DocumentColor(options) => catalog.color.options == Some(options),
        Contribution::DocumentColorDependent => catalog.color.dependent,
        Contribution::Completion(options) => catalog.completion.options == Some(options),
        Contribution::CompletionResolve => catalog.completion.dependent,
        Contribution::WorkspaceSymbol(options) => catalog.workspace_symbols.options == Some(options),
        Contribution::WorkspaceSymbolResolve => catalog.workspace_symbols.dependent,
        Contribution::Rename(options) => catalog.rename.options == Some(options),
        Contribution::PrepareRename => catalog.rename.dependent,
        Contribution::CodeAction(options) => catalog.code_actions.options == Some(options),
        Contribution::CodeActionResolve => catalog.code_actions.dependent,
        Contribution::CodeLens(options) => catalog.code_lens.options == Some(options),
        Contribution::CodeLensResolve => catalog.code_lens.dependent,
        Contribution::DocumentLink(options) => catalog.document_links.options == Some(options),
        Contribution::DocumentLinkResolve => catalog.document_links.dependent,
        Contribution::InlayHint(options) => catalog.inlay_hints.options == Some(options),
        Contribution::InlayHintResolve => catalog.inlay_hints.dependent,
        Contribution::FileCreate(options, will) => catalog.file_create.options == Some(options) && if will {
            catalog.file_create.will
        } else {
            catalog.file_create.did
        },
        Contribution::FileRename(options, will) => catalog.file_rename.options == Some(options) && if will {
            catalog.file_rename.will
        } else {
            catalog.file_rename.did
        },
        Contribution::FileDelete(options, will) => catalog.file_delete.options == Some(options) && if will {
            catalog.file_delete.will
        } else {
            catalog.file_delete.did
        },
    }
}

/// A catalog keeps what was just contributed.
#[verifier::spinoff_prover]
pub proof fn lemma_contributions_are_kept(catalog: CatalogView, contribution: Contribution)
    requires
        contribute(catalog, contribution) is Ok,
    ensures
        keeps(contribute(catalog, contribution)->Ok_0, contribution),
{
    reveal(contribute);
    reveal(keeps);
    if let Contribution::Command(name) = contribution {
        let commands = catalog.commands.push(name);
        assert(commands[commands.len() - 1] == name);
    }
}

/// What a catalog keeps of a contribution stands in its part.
#[verifier::spinoff_prover]
proof fn lemma_the_part_keeps(left: CatalogView, right: CatalogView, kept: Contribution)
    requires
        keeps(left, kept),
        agree(left, right, kept.slot()),
    ensures
        keeps(right, kept),
{
    reveal(agree);
    reveal(keeps);
}

/// A contribution to one part keeps what was contributed to it before.
#[verifier::spinoff_prover]
proof fn lemma_the_same_part_keeps(catalog: CatalogView, kept: Contribution, later: Contribution)
    requires
        keeps(catalog, kept),
        contribute(catalog, later) is Ok,
        kept.slot() == later.slot(),
    ensures
        keeps(contribute(catalog, later)->Ok_0, kept),
{
    let after = contribute(catalog, later)->Ok_0;
    match (kept, later) {
        (Contribution::Command(name), Contribution::Command(_)) => {
            reveal(contribute);
            reveal(keeps);
            let i = choose|i: int| 0 <= i < catalog.commands.len() && catalog.commands[i] == name;
            assert(i < after.commands.len() && after.commands[i] == name);
        },
        (Contribution::Hover, Contribution::Hover) => {
            assert(keeps(after, kept)) by {
                reveal(contribute);
                reveal(keeps);
            }
        },
        (Contribution::WillSaveWaitUntil, Contribution::WillSaveWaitUntil) => {
            assert(keeps(after, kept)) by {
                reveal(contribute);
                reveal(keeps);
            }
        },
        (Contribution::Diagnostics(..), Contribution::Diagnostics(..)) => {
            assert(keeps(after, kept)) by {
                reveal(contribute);
                reveal(keeps);
            }
        },
        (Contribution::SemanticTokens(..), Contribution::SemanticTokens(..)) => {
            assert(keeps(after, kept)) by {
                reveal(contribute);
                reveal(keeps);
            }
        },
        (Contribution::DocumentFormatting(..), Contribution::DocumentFormatting(..)) => {
            assert(keeps(after, kept)) by {
                reveal(contribute);
                reveal(keeps);
            }
        },
        (Contribution::RangeFormatting(..), Contribution::RangeFormatting(..)) => {
            assert(keeps(after, kept)) by {
                reveal(contribute);
                reveal(keeps);
            }
        },
        (Contribution::OnTypeFormatting(..), Contribution::OnTypeFormatting(..)) => {
            assert(keeps(after, kept)) by {
                reveal(contribute);
                reveal(keeps);
            }
        },
        (Contribution::FoldingRange(..), Contribution::FoldingRange(..)) => {
            assert(keeps(after, kept)) by {
                reveal(contribute);
                reveal(keeps);
            }
        },
        (Contribution::SelectionRange(..), Contribution::SelectionRange(..)) => {
            assert(keeps(after, kept)) by {
                reveal(contribute);
                reveal(keeps);
            }
        },
        (Contribution::InlineValue(..), Contribution::InlineValue(..)) => {
            assert(keeps(after, kept)) by {
                reveal(contribute);
                reveal(keeps);
            }
        },
        (Contribution::SignatureHelp(..), Contribution::SignatureHelp(..)) => {
            assert(keeps(after, kept)) by {
                reveal(contribute);
                reveal(keeps);
            }
        },
        (Contribution::Declaration(..), Contribution::Declaration(..)) => {
            assert(keeps(after, kept)) by {
                reveal(contribute);
                reveal(keeps);
            }
        },
        (Contribution::Definition(..), Contribution::Definition(..)) => {
            assert(keeps(after, kept)) by {
                reveal(contribute);
                reveal(keeps);
            }
        },
        (Contribution::TypeDefinition(..), Contribution::TypeDefinition(..)) => {
            assert(keeps(after, kept)) by {
                reveal(contribute);
                reveal(keeps);
            }
        },
        (Contribution::Implementation(..), Contribution::Implementation(..)) => {
            assert(keeps(after, kept)) by {
                reveal(contribute);
                reveal(keeps);
            }
        },
        (Contribution::References(..), Contribution::References(..)) => {
            assert(keeps(after, kept)) by {
                reveal(contribute);
                reveal(keeps);
            }
        },
        (Contribution::DocumentHighlight(..), Contribution::DocumentHighlight(..)) => {
            assert(keeps(after, kept)) by {
                reveal(contribute);
                reveal(keeps);
            }
        },
        (Contribution::DocumentSymbol(..), Contribution::DocumentSymbol(..)) => {
            assert(keeps(after, kept)) by {
                reveal(contribute);
                reveal(keeps);
            }
        },
        (Contribution::LinkedEditingRange(..), Contribution::LinkedEditingRange(..)) => {
            assert(keeps(after, kept)) by {
                reveal(contribute);
                reveal(keeps);
            }
        },
        (Contribution::Moniker(..), Contribution::Moniker(..)) => {
            assert(keeps(after, kept)) by {
                reveal(contribute);
                reveal(keeps);
            }
        },
        (Contribution::CallHierarchy(..), Contribution::CallHierarchy(..)) => {
            assert(keeps(after, kept)) by {
                reveal(contribute);
                reveal(keeps);
            }
        },
        (Contribution::CallHierarchy(..), Contribution::CallHierarchyDependent) => {
            assert(keeps(after, kept)) by {
                reveal(contribute);
                reveal(keeps);
            }
        },
        (Contribution::CallHierarchyDependent, Contribution::CallHierarchy(..)) => {
            assert(keeps(after, kept)) by {
                reveal(contribute);
                reveal(keeps);
            }
        },
        (Contribution::CallHierarchyDependent, Contribution::CallHierarchyDependent) => {
            assert(keeps(after, kept)) by {
                reveal(contribute);
                reveal(keeps);
            }
        },
        (Contribution::TypeHierarchy(..), Contribution::TypeHierarchy(..)) => {
            assert(keeps(after, kept)) by {
                reveal(contribute);
                reveal(keeps);
            }
        },
        (Contribution::TypeHierarchy(..), Contribution::TypeHierarchyDependent) => {
            assert(keeps(after, kept)) by {
                reveal(contribute);
                reveal(keeps);
            }
        },
        (Contribution::TypeHierarchyDependent, Contribution::TypeHierarchy(..)) => {
            assert(keeps(after, kept)) by {
                reveal(contribute);
                reveal(keeps);
            }
        },
        (Contribution::TypeHierarchyDependent, Contribution::TypeHierarchyDependent) => {
            assert(keeps(after, kept)) by {
                reveal(contribute);
                reveal(keeps);
            }
        },
        (Contribution::DocumentColor(..), Contribution::DocumentColor(..)) => {
            assert(keeps(after, kept)) by {
                reveal(contribute);
                reveal(keeps);
            }
        },
        (Contribution::DocumentColor(..), Contribution::DocumentColorDependent) => {
            assert(keeps(after, kept)) by {
                reveal(contribute);
                reveal(keeps);
            }
        },
        (Contribution::DocumentColorDependent, Contribution::DocumentColor(..)) => {
            assert(keeps(after, kept)) by {
                reveal(contribute);
                reveal(keeps);
            }
        },
        (Contribution::DocumentColorDependent, Contribution::DocumentColorDependent) => {
            assert(keeps(after, kept)) by {
                reveal(contribute);
                reveal(keeps);
            }
        },
        (Contribution::Completion(..), Contribution::Completion(..)) => {
            assert(keeps(after, kept)) by {
                reveal(contribute);
                reveal(keeps);
            }
        },
        (Contribution::Completion(..), Contribution::CompletionResolve) => {
            assert(keeps(after, kept)) by {
                reveal(contribute);
                reveal(keeps);
            }
        },
        (Contribution::CompletionResolve, Contribution::Completion(..)) => {
            assert(keeps(after, kept)) by {
                reveal(contribute);
                reveal(keeps);
            }
        },
        (Contribution::CompletionResolve, Contribution::CompletionResolve) => {
            assert(keeps(after, kept)) by {
                reveal(contribute);
                reveal(keeps);
            }
        },
        (Contribution::WorkspaceSymbol(..), Contribution::WorkspaceSymbol(..)) => {
            assert(keeps(after, kept)) by {
                reveal(contribute);
                reveal(keeps);
            }
        },
        (Contribution::WorkspaceSymbol(..), Contribution::WorkspaceSymbolResolve) => {
            assert(keeps(after, kept)) by {
                reveal(contribute);
                reveal(keeps);
            }
        },
        (Contribution::WorkspaceSymbolResolve, Contribution::WorkspaceSymbol(..)) => {
            assert(keeps(after, kept)) by {
                reveal(contribute);
                reveal(keeps);
            }
        },
        (Contribution::WorkspaceSymbolResolve, Contribution::WorkspaceSymbolResolve) => {
            assert(keeps(after, kept)) by {
                reveal(contribute);
                reveal(keeps);
            }
        },
        (Contribution::Rename(..), Contribution::Rename(..)) => {
            assert(keeps(after, kept)) by {
                reveal(contribute);
                reveal(keeps);
            }
        },
        (Contribution::Rename(..), Contribution::PrepareRename) => {
            assert(keeps(after, kept)) by {
                reveal(contribute);
                reveal(keeps);
            }
        },
        (Contribution::PrepareRename, Contribution::Rename(..)) => {
            assert(keeps(after, kept)) by {
                reveal(contribute);
                reveal(keeps);
            }
        },
        (Contribution::PrepareRename, Contribution::PrepareRename) => {
            assert(keeps(after, kept)) by {
                reveal(contribute);
                reveal(keeps);
            }
        },
        (Contribution::CodeAction(..), Contribution::CodeAction(..)) => {
            assert(keeps(after, kept)) by {
                reveal(contribute);
                reveal(keeps);
            }
        },
        (Contribution::CodeAction(..), Contribution::CodeActionResolve) => {
            assert(keeps(after, kept)) by {
                reveal(contribute);
                reveal(keeps);
            }
        },
        (Contribution::CodeActionResolve, Contribution::CodeAction(..)) => {
            assert(keeps(after, kept)) by {
                reveal(contribute);
                reveal(keeps);
            }
        },
        (Contribution::CodeActionResolve, Contribution::CodeActionResolve) => {
            assert(keeps(after, kept)) by {
                reveal(contribute);
                reveal(keeps);
            }
        },
        (Contribution::CodeLens(..), Contribution::CodeLens(..)) => {
            assert(keeps(after, kept)) by {
                reveal(contribute);
                reveal(keeps);
            }
        },
        (Contribution::CodeLens(..), Contribution::CodeLensResolve) => {
            assert(keeps(after, kept)) by {
                reveal(contribute);
                reveal(keeps);
            }
        },
        (Contribution::CodeLensResolve, Contribution::CodeLens(..)) => {
            assert(keeps(after, kept)) by {
                reveal(contribute);
                reveal(keeps);
            }
        },
        (Contribution::CodeLensResolve, Contribution::CodeLensResolve) => {
            assert(keeps(after, kept)) by {
                reveal(contribute);
                reveal(keeps);
            }
        },
        (Contribution::DocumentLink(..), Contribution::DocumentLink(..)) => {
            assert(keeps(after, kept)) by {
                reveal(contribute);
                reveal(keeps);
            }
        },
        (Contribution::DocumentLink(..), Contribution::DocumentLinkResolve) => {
            assert(keeps(after, kept)) by {
                reveal(contribute);
                reveal(keeps);
            }
        },
        (Contribution::DocumentLinkResolve, Contribution::DocumentLink(..)) => {
            assert(keeps(after, kept)) by {
                reveal(contribute);
                reveal(keeps);
            }
        },
        (Contribution::DocumentLinkResolve, Contribution::DocumentLinkResolve) => {
            assert(keeps(after, kept)) by {
                reveal(contribute);
                reveal(keeps);
            }
        },
        (Contribution::InlayHint(..), Contribution::InlayHint(..)) => {
            assert(keeps(after, kept)) by {
                reveal(contribute);
                reveal(keeps);
            }
        },
        (Contribution::InlayHint(..), Contribution::InlayHintResolve) => {
            assert(keeps(after, kept)) by {
                reveal(contribute);
                reveal(keeps);
            }
        },
        (Contribution::InlayHintResolve, Contribution::InlayHint(..)) => {
            assert(keeps(after, kept)) by {
                reveal(contribute);
                reveal(keeps);
            }
        },
        (Contribution::InlayHintResolve, Contribution::InlayHintResolve) => {
            assert(keeps(after, kept)) by {
                reveal(contribute);
                reveal(keeps);
            }
        },
        (Contribution::FileCreate(..), Contribution::FileCreate(..)) => {
            assert(keeps(after, kept)) by {
                reveal(contribute);
                reveal(keeps);
            }
        },
        (Contribution::FileRename(..), Contribution::FileRename(..)) => {
            assert(keeps(after, kept)) by {
                reveal(contribute);
                reveal(keeps);
            }
        },
        (Contribution::FileDelete(..), Contribution::FileDelete(..)) => {
            assert(keeps(after, kept)) by {
                reveal(contribute);
                reveal(keeps);
            }
        },
        _ => {
            assert(kept.slot() != later.slot());
        },
    }
}

/// A catalog keeps what was contributed before.
pub proof fn lemma_later_contributions_keep(
    catalog: CatalogView,
    kept: Contribution,
    later: Contribution,
)
    requires
        keeps(catalog, kept),
        contribute(catalog, later) is Ok,
    ensures
        keeps(contribute(catalog, later)->Ok_0, kept),
{
    if kept.slot() == later.slot() {
        lemma_the_same_part_keeps(catalog, kept, later);
    } else {
        lemma_other_parts_stay(catalog, later, kept.slot());
        lemma_the_part_keeps(catalog, contribute(catalog, later)->Ok_0, kept);
    }
}

/// A valid catalog tells of what it keeps.
#[verifier::spinoff_prover]
pub proof fn lemma_what_is_kept_is_told(catalog: CatalogView, contribution: Contribution)
    requires
        keeps(catalog, contribution),
        catalog.invalid_field() is None,
    ensures
        tells_of(catalog.finish(), contribution),
{
    reveal(keeps);
    reveal(tells_of);
}

} // verus!
