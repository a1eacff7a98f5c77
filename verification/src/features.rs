//! Standard feature descriptors.
//!
//! Each constructor returns a descriptor implementing [`FeatureSpec`] (request
//! features) or [`NotificationFeatureSpec`] (notification features). A
//! descriptor fixes the wire method, the descriptor's public options, and the
//! single deterministic contribution the feature makes to the capability
//! catalog.
use vstd::prelude::*;

use crate::capability::{
    contributed, CapabilityBuilder, CatalogView, Contributed, SemanticTokensMode,
};
use crate::capability_laws::{contribute, Contribution};
use crate::error::BuildError;
use crate::options::{
    CallHierarchyOptions, CodeActionOptions, CodeLensOptions, CompletionOptions,
    DeclarationOptions, DefinitionOptions, DiagnosticOptions, DocumentColorOptions,
    DocumentFormattingOptions, DocumentHighlightOptions, DocumentLinkOptions,
    DocumentOnTypeFormattingOptions, DocumentRangeFormattingOptions, DocumentSymbolOptions,
    FileOperationRegistrationOptions, FoldingRangeOptions, ImplementationRegistrationOptions,
    InlayHintOptions, InlineValueOptions, LinkedEditingRangeOptions, MonikerOptions,
    ReferenceOptions, RenameOptions, SelectionRangeOptions, SemanticTokensOptions,
    SignatureHelpOptions, TypeDefinitionRegistrationOptions, TypeHierarchyOptions,
    WorkspaceSymbolOptions, Content,
};

verus! {

/// What a feature descriptor contributes to the capability catalog.
pub trait Sealed {
    /// The catalog after the contribution, or the field that it conflicts on.
    spec fn contribution(&self, before: CatalogView) -> Contributed;

    /// Record this feature's contribution to the capability catalog, or
    /// return a [`BuildError`] if it conflicts with an existing one.
    fn contribute(&self, caps: &mut CapabilityBuilder) -> (result: Result<(), BuildError>)
        ensures
            contributed(old(caps)@, self.contribution(old(caps)@), result, final(caps)@),
    ;
}

/// The descriptor contract for a standard request feature.
pub trait FeatureSpec: Sealed {
    /// The characters of the feature's method.
    spec fn method_name() -> Seq<char>;

    /// The request method this feature dispatches.
    fn method(&self) -> (method: &'static str)
        ensures
            method@ == Self::method_name(),
    ;
}

/// The descriptor contract for a standard notification feature.
pub trait NotificationFeatureSpec: Sealed {
    /// The characters of the feature's method.
    spec fn method_name() -> Seq<char>;

    /// The notification method this feature dispatches.
    fn method(&self) -> (method: &'static str)
        ensures
            method@ == Self::method_name(),
    ;
}

/// The `textDocument/willSaveWaitUntil` feature descriptor.
/// Construct it with [`will_save_wait_until`].
pub struct WillSaveWaitUntilFeature(());

/// Describe the typed pre-save edit request. Its registration contributes
/// `willSaveWaitUntil: true` to the effective text-document sync options.
pub fn will_save_wait_until() -> (feature: WillSaveWaitUntilFeature)
    ensures
        forall|before: CatalogView| #[trigger] feature.contribution(before) == Contributed::Ok(before.set_will_save_wait_until()),
{
    WillSaveWaitUntilFeature(())
}

impl Sealed for WillSaveWaitUntilFeature {
    open spec fn contribution(&self, before: CatalogView) -> Contributed {
        Ok(before.set_will_save_wait_until())
    }

    fn contribute(&self, caps: &mut CapabilityBuilder) -> (result: Result<(), BuildError>) {
        caps.set_will_save_wait_until();
        Ok(())
    }
}

impl FeatureSpec for WillSaveWaitUntilFeature {
    open spec fn method_name() -> Seq<char> {
        "textDocument/willSaveWaitUntil"@
    }

    fn method(&self) -> (method: &'static str) {
        "textDocument/willSaveWaitUntil"
    }
}

/// The `textDocument/hover` feature descriptor.
/// Construct it with [`hover`].
pub struct HoverFeature(());

/// Describe the standard hover feature, which advertises `hoverProvider`.
pub fn hover() -> (feature: HoverFeature)
    ensures
        forall|before: CatalogView| #[trigger] feature.contribution(before) == Contributed::Ok(before.set_hover()),
{
    HoverFeature(())
}

impl Sealed for HoverFeature {
    open spec fn contribution(&self, before: CatalogView) -> Contributed {
        Ok(before.set_hover())
    }

    fn contribute(&self, caps: &mut CapabilityBuilder) -> (result: Result<(), BuildError>) {
        caps.set_hover()
    }
}

impl FeatureSpec for HoverFeature {
    open spec fn method_name() -> Seq<char> {
        "textDocument/hover"@
    }

    fn method(&self) -> (method: &'static str) {
        "textDocument/hover"
    }
}

/// The `textDocument/colorPresentation` feature descriptor.
/// Construct it with [`color_presentation`].
pub struct ColorPresentationFeature(());

/// Describe color presentation, the subordinate route of `colorProvider`.
pub fn color_presentation() -> (feature: ColorPresentationFeature)
    ensures
        forall|before: CatalogView| #[trigger] feature.contribution(before) == Contributed::Ok(before.set_document_color_dependent()),
{
    ColorPresentationFeature(())
}

impl Sealed for ColorPresentationFeature {
    open spec fn contribution(&self, before: CatalogView) -> Contributed {
        Ok(before.set_document_color_dependent())
    }

    fn contribute(&self, caps: &mut CapabilityBuilder) -> (result: Result<(), BuildError>) {
        caps.set_color_presentation();
        Ok(())
    }
}

impl FeatureSpec for ColorPresentationFeature {
    open spec fn method_name() -> Seq<char> {
        "textDocument/colorPresentation"@
    }

    fn method(&self) -> (method: &'static str) {
        "textDocument/colorPresentation"
    }
}

/// The `callHierarchy/incomingCalls` feature descriptor.
/// Construct it with [`call_hierarchy_incoming_calls`].
pub struct CallHierarchyIncomingCallsFeature(());

/// Describe the incoming-call route. It contributes membership to the
/// call-hierarchy family without emitting a second provider capability.
pub fn call_hierarchy_incoming_calls() -> (feature: CallHierarchyIncomingCallsFeature)
    ensures
        forall|before: CatalogView| #[trigger] feature.contribution(before) == Contributed::Ok(before.set_call_hierarchy_dependent()),
{
    CallHierarchyIncomingCallsFeature(())
}

impl Sealed for CallHierarchyIncomingCallsFeature {
    open spec fn contribution(&self, before: CatalogView) -> Contributed {
        Ok(before.set_call_hierarchy_dependent())
    }

    fn contribute(&self, caps: &mut CapabilityBuilder) -> (result: Result<(), BuildError>) {
        caps.set_call_hierarchy_incoming_calls();
        Ok(())
    }
}

impl FeatureSpec for CallHierarchyIncomingCallsFeature {
    open spec fn method_name() -> Seq<char> {
        "callHierarchy/incomingCalls"@
    }

    fn method(&self) -> (method: &'static str) {
        "callHierarchy/incomingCalls"
    }
}

/// The `callHierarchy/outgoingCalls` feature descriptor.
/// Construct it with [`call_hierarchy_outgoing_calls`].
pub struct CallHierarchyOutgoingCallsFeature(());

/// Describe the outgoing-call route. It contributes membership to the
/// call-hierarchy family without emitting a second provider capability.
pub fn call_hierarchy_outgoing_calls() -> (feature: CallHierarchyOutgoingCallsFeature)
    ensures
        forall|before: CatalogView| #[trigger] feature.contribution(before) == Contributed::Ok(before.set_call_hierarchy_dependent()),
{
    CallHierarchyOutgoingCallsFeature(())
}

impl Sealed for CallHierarchyOutgoingCallsFeature {
    open spec fn contribution(&self, before: CatalogView) -> Contributed {
        Ok(before.set_call_hierarchy_dependent())
    }

    fn contribute(&self, caps: &mut CapabilityBuilder) -> (result: Result<(), BuildError>) {
        caps.set_call_hierarchy_outgoing_calls();
        Ok(())
    }
}

impl FeatureSpec for CallHierarchyOutgoingCallsFeature {
    open spec fn method_name() -> Seq<char> {
        "callHierarchy/outgoingCalls"@
    }

    fn method(&self) -> (method: &'static str) {
        "callHierarchy/outgoingCalls"
    }
}

/// The `typeHierarchy/supertypes` feature descriptor.
/// Construct it with [`type_hierarchy_supertypes`].
pub struct TypeHierarchySupertypesFeature(());

/// Describe the supertype route without emitting another prepare capability.
pub fn type_hierarchy_supertypes() -> (feature: TypeHierarchySupertypesFeature)
    ensures
        forall|before: CatalogView| #[trigger] feature.contribution(before) == Contributed::Ok(before.set_type_hierarchy_dependent()),
{
    TypeHierarchySupertypesFeature(())
}

impl Sealed for TypeHierarchySupertypesFeature {
    open spec fn contribution(&self, before: CatalogView) -> Contributed {
        Ok(before.set_type_hierarchy_dependent())
    }

    fn contribute(&self, caps: &mut CapabilityBuilder) -> (result: Result<(), BuildError>) {
        caps.set_type_hierarchy_supertypes();
        Ok(())
    }
}

impl FeatureSpec for TypeHierarchySupertypesFeature {
    open spec fn method_name() -> Seq<char> {
        "typeHierarchy/supertypes"@
    }

    fn method(&self) -> (method: &'static str) {
        "typeHierarchy/supertypes"
    }
}

/// The `typeHierarchy/subtypes` feature descriptor.
/// Construct it with [`type_hierarchy_subtypes`].
pub struct TypeHierarchySubtypesFeature(());

/// Describe the subtype route without emitting another prepare capability.
pub fn type_hierarchy_subtypes() -> (feature: TypeHierarchySubtypesFeature)
    ensures
        forall|before: CatalogView| #[trigger] feature.contribution(before) == Contributed::Ok(before.set_type_hierarchy_dependent()),
{
    TypeHierarchySubtypesFeature(())
}

impl Sealed for TypeHierarchySubtypesFeature {
    open spec fn contribution(&self, before: CatalogView) -> Contributed {
        Ok(before.set_type_hierarchy_dependent())
    }

    fn contribute(&self, caps: &mut CapabilityBuilder) -> (result: Result<(), BuildError>) {
        caps.set_type_hierarchy_subtypes();
        Ok(())
    }
}

impl FeatureSpec for TypeHierarchySubtypesFeature {
    open spec fn method_name() -> Seq<char> {
        "typeHierarchy/subtypes"@
    }

    fn method(&self) -> (method: &'static str) {
        "typeHierarchy/subtypes"
    }
}

/// The `completionItem/resolve` feature descriptor.
/// Construct it with [`completion_resolve`].
pub struct CompletionResolveFeature(());

/// Describe the standard completion-item resolve feature, which augments the
/// completion family's capability with `resolveProvider`. Registering it without
/// the base [`completion`] feature fails validation.
pub fn completion_resolve() -> (feature: CompletionResolveFeature)
    ensures
        forall|before: CatalogView| #[trigger] feature.contribution(before) == Contributed::Ok(before.set_completion_resolve()),
{
    CompletionResolveFeature(())
}

impl Sealed for CompletionResolveFeature {
    open spec fn contribution(&self, before: CatalogView) -> Contributed {
        Ok(before.set_completion_resolve())
    }

    fn contribute(&self, caps: &mut CapabilityBuilder) -> (result: Result<(), BuildError>) {
        caps.set_completion_resolve();
        Ok(())
    }
}

impl FeatureSpec for CompletionResolveFeature {
    open spec fn method_name() -> Seq<char> {
        "completionItem/resolve"@
    }

    fn method(&self) -> (method: &'static str) {
        "completionItem/resolve"
    }
}

/// The `workspaceSymbol/resolve` feature descriptor.
/// Construct it with [`workspace_symbol_resolve`].
pub struct WorkspaceSymbolResolveFeature(());

/// Describe the standard workspace-symbol resolve feature, which augments the
/// workspace-symbol family's capability with `resolveProvider`. Registering it
/// without the base [`workspace_symbol`] feature fails validation.
pub fn workspace_symbol_resolve() -> (feature: WorkspaceSymbolResolveFeature)
    ensures
        forall|before: CatalogView| #[trigger] feature.contribution(before) == Contributed::Ok(before.set_workspace_symbol_resolve()),
{
    WorkspaceSymbolResolveFeature(())
}

impl Sealed for WorkspaceSymbolResolveFeature {
    open spec fn contribution(&self, before: CatalogView) -> Contributed {
        Ok(before.set_workspace_symbol_resolve())
    }

    fn contribute(&self, caps: &mut CapabilityBuilder) -> (result: Result<(), BuildError>) {
        caps.set_workspace_symbol_resolve();
        Ok(())
    }
}

impl FeatureSpec for WorkspaceSymbolResolveFeature {
    open spec fn method_name() -> Seq<char> {
        "workspaceSymbol/resolve"@
    }

    fn method(&self) -> (method: &'static str) {
        "workspaceSymbol/resolve"
    }
}

/// The `textDocument/prepareRename` feature descriptor.
/// Construct it with [`prepare_rename`].
pub struct PrepareRenameFeature(());

/// Describe the standard prepare-rename feature, which augments the rename
/// family's capability with `prepareProvider`. Registering it without the base
/// [`rename`] feature fails validation.
pub fn prepare_rename() -> (feature: PrepareRenameFeature)
    ensures
        forall|before: CatalogView| #[trigger] feature.contribution(before) == Contributed::Ok(before.set_prepare_rename()),
{
    PrepareRenameFeature(())
}

impl Sealed for PrepareRenameFeature {
    open spec fn contribution(&self, before: CatalogView) -> Contributed {
        Ok(before.set_prepare_rename())
    }

    fn contribute(&self, caps: &mut CapabilityBuilder) -> (result: Result<(), BuildError>) {
        caps.set_prepare_rename();
        Ok(())
    }
}

impl FeatureSpec for PrepareRenameFeature {
    open spec fn method_name() -> Seq<char> {
        "textDocument/prepareRename"@
    }

    fn method(&self) -> (method: &'static str) {
        "textDocument/prepareRename"
    }
}

/// The `codeAction/resolve` feature descriptor.
/// Construct it with [`code_action_resolve`].
pub struct CodeActionResolveFeature(());

/// Describe the standard code-action resolve feature, which augments the
/// code-action family's capability with `resolveProvider`. Registering it
/// without the base [`code_action`] feature fails validation.
pub fn code_action_resolve() -> (feature: CodeActionResolveFeature)
    ensures
        forall|before: CatalogView| #[trigger] feature.contribution(before) == Contributed::Ok(before.set_code_action_resolve()),
{
    CodeActionResolveFeature(())
}

impl Sealed for CodeActionResolveFeature {
    open spec fn contribution(&self, before: CatalogView) -> Contributed {
        Ok(before.set_code_action_resolve())
    }

    fn contribute(&self, caps: &mut CapabilityBuilder) -> (result: Result<(), BuildError>) {
        caps.set_code_action_resolve();
        Ok(())
    }
}

impl FeatureSpec for CodeActionResolveFeature {
    open spec fn method_name() -> Seq<char> {
        "codeAction/resolve"@
    }

    fn method(&self) -> (method: &'static str) {
        "codeAction/resolve"
    }
}

/// The `codeLens/resolve` feature descriptor.
/// Construct it with [`code_lens_resolve`].
pub struct CodeLensResolveFeature(());

/// Describe the standard code-lens resolve feature, which augments the
/// code-lens family's capability with `resolveProvider`. Registering it without
/// the base [`code_lens`] feature fails validation.
pub fn code_lens_resolve() -> (feature: CodeLensResolveFeature)
    ensures
        forall|before: CatalogView| #[trigger] feature.contribution(before) == Contributed::Ok(before.set_code_lens_resolve()),
{
    CodeLensResolveFeature(())
}

impl Sealed for CodeLensResolveFeature {
    open spec fn contribution(&self, before: CatalogView) -> Contributed {
        Ok(before.set_code_lens_resolve())
    }

    fn contribute(&self, caps: &mut CapabilityBuilder) -> (result: Result<(), BuildError>) {
        caps.set_code_lens_resolve();
        Ok(())
    }
}

impl FeatureSpec for CodeLensResolveFeature {
    open spec fn method_name() -> Seq<char> {
        "codeLens/resolve"@
    }

    fn method(&self) -> (method: &'static str) {
        "codeLens/resolve"
    }
}

/// The `documentLink/resolve` feature descriptor.
/// Construct it with [`document_link_resolve`].
pub struct DocumentLinkResolveFeature(());

/// Describe the standard document-link resolve feature, which augments the
/// document-link family's capability with `resolveProvider`. Registering it
/// without the base [`document_link`] feature fails validation.
pub fn document_link_resolve() -> (feature: DocumentLinkResolveFeature)
    ensures
        forall|before: CatalogView| #[trigger] feature.contribution(before) == Contributed::Ok(before.set_document_link_resolve()),
{
    DocumentLinkResolveFeature(())
}

impl Sealed for DocumentLinkResolveFeature {
    open spec fn contribution(&self, before: CatalogView) -> Contributed {
        Ok(before.set_document_link_resolve())
    }

    fn contribute(&self, caps: &mut CapabilityBuilder) -> (result: Result<(), BuildError>) {
        caps.set_document_link_resolve();
        Ok(())
    }
}

impl FeatureSpec for DocumentLinkResolveFeature {
    open spec fn method_name() -> Seq<char> {
        "documentLink/resolve"@
    }

    fn method(&self) -> (method: &'static str) {
        "documentLink/resolve"
    }
}

/// The `inlayHint/resolve` feature descriptor.
/// Construct it with [`inlay_hint_resolve`].
pub struct InlayHintResolveFeature(());

/// Describe the standard inlay-hint resolve feature, which augments the
/// inlay-hint family's capability with `resolveProvider`. Registering it without
/// the base [`inlay_hint`] feature fails validation.
pub fn inlay_hint_resolve() -> (feature: InlayHintResolveFeature)
    ensures
        forall|before: CatalogView| #[trigger] feature.contribution(before) == Contributed::Ok(before.set_inlay_hint_resolve()),
{
    InlayHintResolveFeature(())
}

impl Sealed for InlayHintResolveFeature {
    open spec fn contribution(&self, before: CatalogView) -> Contributed {
        Ok(before.set_inlay_hint_resolve())
    }

    fn contribute(&self, caps: &mut CapabilityBuilder) -> (result: Result<(), BuildError>) {
        caps.set_inlay_hint_resolve();
        Ok(())
    }
}

impl FeatureSpec for InlayHintResolveFeature {
    open spec fn method_name() -> Seq<char> {
        "inlayHint/resolve"@
    }

    fn method(&self) -> (method: &'static str) {
        "inlayHint/resolve"
    }
}

/// The `workspace/didChangeWatchedFiles` feature descriptor.
/// Construct it with [`did_change_watched_files`].
pub struct DidChangeWatchedFilesFeature(());

/// Describe the standard watched-files notification feature.
///
/// The protocol has no server capability field for watched files — a server
/// subscribes through dynamic registration — so this descriptor contributes
/// nothing to the capability catalog.
pub fn did_change_watched_files() -> (feature: DidChangeWatchedFilesFeature)
    ensures
        forall|before: CatalogView| #[trigger] feature.contribution(before) == Contributed::Ok(before),
{
    DidChangeWatchedFilesFeature(())
}

impl Sealed for DidChangeWatchedFilesFeature {
    open spec fn contribution(&self, before: CatalogView) -> Contributed {
        Ok(before)
    }

    fn contribute(&self, caps: &mut CapabilityBuilder) -> (result: Result<(), BuildError>) {
        Ok(())
    }
}

impl NotificationFeatureSpec for DidChangeWatchedFilesFeature {
    open spec fn method_name() -> Seq<char> {
        "workspace/didChangeWatchedFiles"@
    }

    fn method(&self) -> (method: &'static str) {
        "workspace/didChangeWatchedFiles"
    }
}

/// The `textDocument/signatureHelp` feature descriptor.
/// Construct it with [`signature_help`].
pub struct SignatureHelpFeature {
    options: SignatureHelpOptions,
}

/// Describe the standard `textDocument/signatureHelp` feature with its
/// options.
pub fn signature_help(options: SignatureHelpOptions) -> (feature: SignatureHelpFeature)
    ensures
        forall|before: CatalogView| #[trigger]
            feature.contribution(before) == before.set_signature_help(options.deep_view()),
{
    SignatureHelpFeature { options }
}

impl Sealed for SignatureHelpFeature {
    closed spec fn contribution(&self, before: CatalogView) -> Contributed {
        before.set_signature_help(self.options.deep_view())
    }

    fn contribute(&self, caps: &mut CapabilityBuilder) -> (result: Result<(), BuildError>) {
        caps.set_signature_help(self.options.copy_content())
    }
}

impl FeatureSpec for SignatureHelpFeature {
    open spec fn method_name() -> Seq<char> {
        "textDocument/signatureHelp"@
    }

    fn method(&self) -> (method: &'static str) {
        "textDocument/signatureHelp"
    }
}

/// The `textDocument/declaration` feature descriptor.
/// Construct it with [`declaration`].
pub struct DeclarationFeature {
    options: DeclarationOptions,
}

/// Describe the standard `textDocument/declaration` feature with its
/// options.
pub fn declaration(options: DeclarationOptions) -> (feature: DeclarationFeature)
    ensures
        forall|before: CatalogView| #[trigger]
            feature.contribution(before) == before.set_declaration(options.deep_view()),
{
    DeclarationFeature { options }
}

impl Sealed for DeclarationFeature {
    closed spec fn contribution(&self, before: CatalogView) -> Contributed {
        before.set_declaration(self.options.deep_view())
    }

    fn contribute(&self, caps: &mut CapabilityBuilder) -> (result: Result<(), BuildError>) {
        caps.set_declaration(self.options)
    }
}

impl FeatureSpec for DeclarationFeature {
    open spec fn method_name() -> Seq<char> {
        "textDocument/declaration"@
    }

    fn method(&self) -> (method: &'static str) {
        "textDocument/declaration"
    }
}

/// The `textDocument/definition` feature descriptor.
/// Construct it with [`definition`].
pub struct DefinitionFeature {
    options: DefinitionOptions,
}

/// Describe the standard `textDocument/definition` feature with its
/// options.
pub fn definition(options: DefinitionOptions) -> (feature: DefinitionFeature)
    ensures
        forall|before: CatalogView| #[trigger]
            feature.contribution(before) == before.set_definition(options.deep_view()),
{
    DefinitionFeature { options }
}

impl Sealed for DefinitionFeature {
    closed spec fn contribution(&self, before: CatalogView) -> Contributed {
        before.set_definition(self.options.deep_view())
    }

    fn contribute(&self, caps: &mut CapabilityBuilder) -> (result: Result<(), BuildError>) {
        caps.set_definition(self.options)
    }
}

impl FeatureSpec for DefinitionFeature {
    open spec fn method_name() -> Seq<char> {
        "textDocument/definition"@
    }

    fn method(&self) -> (method: &'static str) {
        "textDocument/definition"
    }
}

/// The `textDocument/typeDefinition` feature descriptor.
/// Construct it with [`type_definition`].
pub struct TypeDefinitionFeature {
    options: TypeDefinitionRegistrationOptions,
}

/// Describe the standard `textDocument/typeDefinition` feature with its
/// options.
pub fn type_definition(options: TypeDefinitionRegistrationOptions) -> (feature: TypeDefinitionFeature)
    ensures
        forall|before: CatalogView| #[trigger]
            feature.contribution(before) == before.set_type_definition(options.deep_view()),
{
    TypeDefinitionFeature { options }
}

impl Sealed for TypeDefinitionFeature {
    closed spec fn contribution(&self, before: CatalogView) -> Contributed {
        before.set_type_definition(self.options.deep_view())
    }

    fn contribute(&self, caps: &mut CapabilityBuilder) -> (result: Result<(), BuildError>) {
        caps.set_type_definition(self.options.copy_content())
    }
}

impl FeatureSpec for TypeDefinitionFeature {
    open spec fn method_name() -> Seq<char> {
        "textDocument/typeDefinition"@
    }

    fn method(&self) -> (method: &'static str) {
        "textDocument/typeDefinition"
    }
}

/// The `textDocument/implementation` feature descriptor.
/// Construct it with [`implementation`].
pub struct ImplementationFeature {
    options: ImplementationRegistrationOptions,
}

/// Describe the standard `textDocument/implementation` feature with its
/// options.
pub fn implementation(options: ImplementationRegistrationOptions) -> (feature: ImplementationFeature)
    ensures
        forall|before: CatalogView| #[trigger]
            feature.contribution(before) == before.set_implementation(options.deep_view()),
{
    ImplementationFeature { options }
}

impl Sealed for ImplementationFeature {
    closed spec fn contribution(&self, before: CatalogView) -> Contributed {
        before.set_implementation(self.options.deep_view())
    }

    fn contribute(&self, caps: &mut CapabilityBuilder) -> (result: Result<(), BuildError>) {
        caps.set_implementation(self.options.copy_content())
    }
}

impl FeatureSpec for ImplementationFeature {
    open spec fn method_name() -> Seq<char> {
        "textDocument/implementation"@
    }

    fn method(&self) -> (method: &'static str) {
        "textDocument/implementation"
    }
}

/// The `textDocument/references` feature descriptor.
/// Construct it with [`references`].
pub struct ReferencesFeature {
    options: ReferenceOptions,
}

/// Describe the standard `textDocument/references` feature with its
/// options.
pub fn references(options: ReferenceOptions) -> (feature: ReferencesFeature)
    ensures
        forall|before: CatalogView| #[trigger]
            feature.contribution(before) == before.set_references(options.deep_view()),
{
    ReferencesFeature { options }
}

impl Sealed for ReferencesFeature {
    closed spec fn contribution(&self, before: CatalogView) -> Contributed {
        before.set_references(self.options.deep_view())
    }

    fn contribute(&self, caps: &mut CapabilityBuilder) -> (result: Result<(), BuildError>) {
        caps.set_references(self.options)
    }
}

impl FeatureSpec for ReferencesFeature {
    open spec fn method_name() -> Seq<char> {
        "textDocument/references"@
    }

    fn method(&self) -> (method: &'static str) {
        "textDocument/references"
    }
}

/// The `textDocument/documentHighlight` feature descriptor.
/// Construct it with [`document_highlight`].
pub struct DocumentHighlightFeature {
    options: DocumentHighlightOptions,
}

/// Describe the standard `textDocument/documentHighlight` feature with its
/// options.
pub fn document_highlight(options: DocumentHighlightOptions) -> (feature: DocumentHighlightFeature)
    ensures
        forall|before: CatalogView| #[trigger]
            feature.contribution(before) == before.set_document_highlight(options.deep_view()),
{
    DocumentHighlightFeature { options }
}

impl Sealed for DocumentHighlightFeature {
    closed spec fn contribution(&self, before: CatalogView) -> Contributed {
        before.set_document_highlight(self.options.deep_view())
    }

    fn contribute(&self, caps: &mut CapabilityBuilder) -> (result: Result<(), BuildError>) {
        caps.set_document_highlight(self.options)
    }
}

impl FeatureSpec for DocumentHighlightFeature {
    open spec fn method_name() -> Seq<char> {
        "textDocument/documentHighlight"@
    }

    fn method(&self) -> (method: &'static str) {
        "textDocument/documentHighlight"
    }
}

/// The `textDocument/documentSymbol` feature descriptor.
/// Construct it with [`document_symbol`].
pub struct DocumentSymbolFeature {
    options: DocumentSymbolOptions,
}

/// Describe the standard `textDocument/documentSymbol` feature with its
/// options.
pub fn document_symbol(options: DocumentSymbolOptions) -> (feature: DocumentSymbolFeature)
    ensures
        forall|before: CatalogView| #[trigger]
            feature.contribution(before) == before.set_document_symbol(options.deep_view()),
{
    DocumentSymbolFeature { options }
}

impl Sealed for DocumentSymbolFeature {
    closed spec fn contribution(&self, before: CatalogView) -> Contributed {
        before.set_document_symbol(self.options.deep_view())
    }

    fn contribute(&self, caps: &mut CapabilityBuilder) -> (result: Result<(), BuildError>) {
        caps.set_document_symbol(self.options.copy_content())
    }
}

impl FeatureSpec for DocumentSymbolFeature {
    open spec fn method_name() -> Seq<char> {
        "textDocument/documentSymbol"@
    }

    fn method(&self) -> (method: &'static str) {
        "textDocument/documentSymbol"
    }
}

/// The `textDocument/linkedEditingRange` feature descriptor.
/// Construct it with [`linked_editing_range`].
pub struct LinkedEditingRangeFeature {
    options: LinkedEditingRangeOptions,
}

/// Describe the standard `textDocument/linkedEditingRange` feature with its
/// options.
pub fn linked_editing_range(options: LinkedEditingRangeOptions) -> (feature: LinkedEditingRangeFeature)
    ensures
        forall|before: CatalogView| #[trigger]
            feature.contribution(before) == before.set_linked_editing_range(options.deep_view()),
{
    LinkedEditingRangeFeature { options }
}

impl Sealed for LinkedEditingRangeFeature {
    closed spec fn contribution(&self, before: CatalogView) -> Contributed {
        before.set_linked_editing_range(self.options.deep_view())
    }

    fn contribute(&self, caps: &mut CapabilityBuilder) -> (result: Result<(), BuildError>) {
        caps.set_linked_editing_range(self.options)
    }
}

impl FeatureSpec for LinkedEditingRangeFeature {
    open spec fn method_name() -> Seq<char> {
        "textDocument/linkedEditingRange"@
    }

    fn method(&self) -> (method: &'static str) {
        "textDocument/linkedEditingRange"
    }
}

/// The `textDocument/moniker` feature descriptor.
/// Construct it with [`moniker`].
pub struct MonikerFeature {
    options: MonikerOptions,
}

/// Describe the standard `textDocument/moniker` feature with its
/// options.
pub fn moniker(options: MonikerOptions) -> (feature: MonikerFeature)
    ensures
        forall|before: CatalogView| #[trigger]
            feature.contribution(before) == before.set_moniker(options.deep_view()),
{
    MonikerFeature { options }
}

impl Sealed for MonikerFeature {
    closed spec fn contribution(&self, before: CatalogView) -> Contributed {
        before.set_moniker(self.options.deep_view())
    }

    fn contribute(&self, caps: &mut CapabilityBuilder) -> (result: Result<(), BuildError>) {
        caps.set_moniker(self.options)
    }
}

impl FeatureSpec for MonikerFeature {
    open spec fn method_name() -> Seq<char> {
        "textDocument/moniker"@
    }

    fn method(&self) -> (method: &'static str) {
        "textDocument/moniker"
    }
}

/// The `textDocument/formatting` feature descriptor.
/// Construct it with [`document_formatting`].
pub struct DocumentFormattingFeature {
    options: DocumentFormattingOptions,
}

/// Describe the standard `textDocument/formatting` feature with its
/// options.
pub fn document_formatting(options: DocumentFormattingOptions) -> (feature: DocumentFormattingFeature)
    ensures
        forall|before: CatalogView| #[trigger]
            feature.contribution(before) == before.set_document_formatting(options.deep_view()),
{
    DocumentFormattingFeature { options }
}

impl Sealed for DocumentFormattingFeature {
    closed spec fn contribution(&self, before: CatalogView) -> Contributed {
        before.set_document_formatting(self.options.deep_view())
    }

    fn contribute(&self, caps: &mut CapabilityBuilder) -> (result: Result<(), BuildError>) {
        caps.set_document_formatting(self.options)
    }
}

impl FeatureSpec for DocumentFormattingFeature {
    open spec fn method_name() -> Seq<char> {
        "textDocument/formatting"@
    }

    fn method(&self) -> (method: &'static str) {
        "textDocument/formatting"
    }
}

/// The `textDocument/rangeFormatting` feature descriptor.
/// Construct it with [`range_formatting`].
pub struct RangeFormattingFeature {
    options: DocumentRangeFormattingOptions,
}

/// Describe the standard `textDocument/rangeFormatting` feature with its
/// options.
pub fn range_formatting(options: DocumentRangeFormattingOptions) -> (feature: RangeFormattingFeature)
    ensures
        forall|before: CatalogView| #[trigger]
            feature.contribution(before) == before.set_range_formatting(options.deep_view()),
{
    RangeFormattingFeature { options }
}

impl Sealed for RangeFormattingFeature {
    closed spec fn contribution(&self, before: CatalogView) -> Contributed {
        before.set_range_formatting(self.options.deep_view())
    }

    fn contribute(&self, caps: &mut CapabilityBuilder) -> (result: Result<(), BuildError>) {
        caps.set_range_formatting(self.options)
    }
}

impl FeatureSpec for RangeFormattingFeature {
    open spec fn method_name() -> Seq<char> {
        "textDocument/rangeFormatting"@
    }

    fn method(&self) -> (method: &'static str) {
        "textDocument/rangeFormatting"
    }
}

/// The `textDocument/onTypeFormatting` feature descriptor.
/// Construct it with [`on_type_formatting`].
pub struct OnTypeFormattingFeature {
    options: DocumentOnTypeFormattingOptions,
}

/// Describe the standard `textDocument/onTypeFormatting` feature with its
/// options.
pub fn on_type_formatting(options: DocumentOnTypeFormattingOptions) -> (feature: OnTypeFormattingFeature)
    ensures
        forall|before: CatalogView| #[trigger]
            feature.contribution(before) == before.set_on_type_formatting(options.deep_view()),
{
    OnTypeFormattingFeature { options }
}

impl Sealed for OnTypeFormattingFeature {
    closed spec fn contribution(&self, before: CatalogView) -> Contributed {
        before.set_on_type_formatting(self.options.deep_view())
    }

    fn contribute(&self, caps: &mut CapabilityBuilder) -> (result: Result<(), BuildError>) {
        caps.set_on_type_formatting(self.options.copy_content())
    }
}

impl FeatureSpec for OnTypeFormattingFeature {
    open spec fn method_name() -> Seq<char> {
        "textDocument/onTypeFormatting"@
    }

    fn method(&self) -> (method: &'static str) {
        "textDocument/onTypeFormatting"
    }
}

/// The `textDocument/documentColor` feature descriptor.
/// Construct it with [`document_color`].
pub struct DocumentColorFeature {
    options: DocumentColorOptions,
}

/// Describe the standard `textDocument/documentColor` feature with its
/// options.
pub fn document_color(options: DocumentColorOptions) -> (feature: DocumentColorFeature)
    ensures
        forall|before: CatalogView| #[trigger]
            feature.contribution(before) == before.set_document_color(options.deep_view()),
{
    DocumentColorFeature { options }
}

impl Sealed for DocumentColorFeature {
    closed spec fn contribution(&self, before: CatalogView) -> Contributed {
        before.set_document_color(self.options.deep_view())
    }

    fn contribute(&self, caps: &mut CapabilityBuilder) -> (result: Result<(), BuildError>) {
        caps.set_document_color(self.options)
    }
}

impl FeatureSpec for DocumentColorFeature {
    open spec fn method_name() -> Seq<char> {
        "textDocument/documentColor"@
    }

    fn method(&self) -> (method: &'static str) {
        "textDocument/documentColor"
    }
}

/// The `textDocument/foldingRange` feature descriptor.
/// Construct it with [`folding_range`].
pub struct FoldingRangeFeature {
    options: FoldingRangeOptions,
}

/// Describe the standard `textDocument/foldingRange` feature with its
/// options.
pub fn folding_range(options: FoldingRangeOptions) -> (feature: FoldingRangeFeature)
    ensures
        forall|before: CatalogView| #[trigger]
            feature.contribution(before) == before.set_folding_range(options.deep_view()),
{
    FoldingRangeFeature { options }
}

impl Sealed for FoldingRangeFeature {
    closed spec fn contribution(&self, before: CatalogView) -> Contributed {
        before.set_folding_range(self.options.deep_view())
    }

    fn contribute(&self, caps: &mut CapabilityBuilder) -> (result: Result<(), BuildError>) {
        caps.set_folding_range(self.options)
    }
}

impl FeatureSpec for FoldingRangeFeature {
    open spec fn method_name() -> Seq<char> {
        "textDocument/foldingRange"@
    }

    fn method(&self) -> (method: &'static str) {
        "textDocument/foldingRange"
    }
}

/// The `textDocument/selectionRange` feature descriptor.
/// Construct it with [`selection_range`].
pub struct SelectionRangeFeature {
    options: SelectionRangeOptions,
}

/// Describe the standard `textDocument/selectionRange` feature with its
/// options.
pub fn selection_range(options: SelectionRangeOptions) -> (feature: SelectionRangeFeature)
    ensures
        forall|before: CatalogView| #[trigger]
            feature.contribution(before) == before.set_selection_range(options.deep_view()),
{
    SelectionRangeFeature { options }
}

impl Sealed for SelectionRangeFeature {
    closed spec fn contribution(&self, before: CatalogView) -> Contributed {
        before.set_selection_range(self.options.deep_view())
    }

    fn contribute(&self, caps: &mut CapabilityBuilder) -> (result: Result<(), BuildError>) {
        caps.set_selection_range(self.options)
    }
}

impl FeatureSpec for SelectionRangeFeature {
    open spec fn method_name() -> Seq<char> {
        "textDocument/selectionRange"@
    }

    fn method(&self) -> (method: &'static str) {
        "textDocument/selectionRange"
    }
}

/// The `textDocument/inlineValue` feature descriptor.
/// Construct it with [`inline_value`].
pub struct InlineValueFeature {
    options: InlineValueOptions,
}

/// Describe the standard `textDocument/inlineValue` feature with its
/// options.
pub fn inline_value(options: InlineValueOptions) -> (feature: InlineValueFeature)
    ensures
        forall|before: CatalogView| #[trigger]
            feature.contribution(before) == before.set_inline_value(options.deep_view()),
{
    InlineValueFeature { options }
}

impl Sealed for InlineValueFeature {
    closed spec fn contribution(&self, before: CatalogView) -> Contributed {
        before.set_inline_value(self.options.deep_view())
    }

    fn contribute(&self, caps: &mut CapabilityBuilder) -> (result: Result<(), BuildError>) {
        caps.set_inline_value(self.options)
    }
}

impl FeatureSpec for InlineValueFeature {
    open spec fn method_name() -> Seq<char> {
        "textDocument/inlineValue"@
    }

    fn method(&self) -> (method: &'static str) {
        "textDocument/inlineValue"
    }
}

/// The `textDocument/prepareCallHierarchy` feature descriptor.
/// Construct it with [`call_hierarchy_prepare`].
pub struct CallHierarchyPrepareFeature {
    options: CallHierarchyOptions,
}

/// Describe the standard `textDocument/prepareCallHierarchy` feature with its
/// options.
pub fn call_hierarchy_prepare(options: CallHierarchyOptions) -> (feature: CallHierarchyPrepareFeature)
    ensures
        forall|before: CatalogView| #[trigger]
            feature.contribution(before) == before.set_call_hierarchy(options.deep_view()),
{
    CallHierarchyPrepareFeature { options }
}

impl Sealed for CallHierarchyPrepareFeature {
    closed spec fn contribution(&self, before: CatalogView) -> Contributed {
        before.set_call_hierarchy(self.options.deep_view())
    }

    fn contribute(&self, caps: &mut CapabilityBuilder) -> (result: Result<(), BuildError>) {
        caps.set_call_hierarchy(self.options)
    }
}

impl FeatureSpec for CallHierarchyPrepareFeature {
    open spec fn method_name() -> Seq<char> {
        "textDocument/prepareCallHierarchy"@
    }

    fn method(&self) -> (method: &'static str) {
        "textDocument/prepareCallHierarchy"
    }
}

/// The `textDocument/prepareTypeHierarchy` feature descriptor.
/// Construct it with [`type_hierarchy_prepare`].
pub struct TypeHierarchyPrepareFeature {
    options: TypeHierarchyOptions,
}

/// Describe the standard `textDocument/prepareTypeHierarchy` feature with its
/// options.
pub fn type_hierarchy_prepare(options: TypeHierarchyOptions) -> (feature: TypeHierarchyPrepareFeature)
    ensures
        forall|before: CatalogView| #[trigger]
            feature.contribution(before) == before.set_type_hierarchy(options.deep_view()),
{
    TypeHierarchyPrepareFeature { options }
}

impl Sealed for TypeHierarchyPrepareFeature {
    closed spec fn contribution(&self, before: CatalogView) -> Contributed {
        before.set_type_hierarchy(self.options.deep_view())
    }

    fn contribute(&self, caps: &mut CapabilityBuilder) -> (result: Result<(), BuildError>) {
        caps.set_type_hierarchy(self.options)
    }
}

impl FeatureSpec for TypeHierarchyPrepareFeature {
    open spec fn method_name() -> Seq<char> {
        "textDocument/prepareTypeHierarchy"@
    }

    fn method(&self) -> (method: &'static str) {
        "textDocument/prepareTypeHierarchy"
    }
}

/// The `textDocument/semanticTokens/full` feature descriptor.
/// Construct it with [`semantic_tokens_full`].
pub struct SemanticTokensFullFeature {
    options: SemanticTokensOptions,
}

/// Describe the standard `textDocument/semanticTokens/full` feature with its
/// options.
pub fn semantic_tokens_full(options: SemanticTokensOptions) -> (feature: SemanticTokensFullFeature)
    ensures
        forall|before: CatalogView| #[trigger]
            feature.contribution(before) == before.set_semantic_tokens(options.deep_view(), SemanticTokensMode::Full),
{
    SemanticTokensFullFeature { options }
}

impl Sealed for SemanticTokensFullFeature {
    closed spec fn contribution(&self, before: CatalogView) -> Contributed {
        before.set_semantic_tokens(self.options.deep_view(), SemanticTokensMode::Full)
    }

    fn contribute(&self, caps: &mut CapabilityBuilder) -> (result: Result<(), BuildError>) {
        caps.set_semantic_tokens_full(self.options.copy_content())
    }
}

impl FeatureSpec for SemanticTokensFullFeature {
    open spec fn method_name() -> Seq<char> {
        "textDocument/semanticTokens/full"@
    }

    fn method(&self) -> (method: &'static str) {
        "textDocument/semanticTokens/full"
    }
}

/// The `textDocument/semanticTokens/full/delta` feature descriptor.
/// Construct it with [`semantic_tokens_full_delta`].
pub struct SemanticTokensFullDeltaFeature {
    options: SemanticTokensOptions,
}

/// Describe the standard `textDocument/semanticTokens/full/delta` feature with its
/// options.
pub fn semantic_tokens_full_delta(options: SemanticTokensOptions) -> (feature: SemanticTokensFullDeltaFeature)
    ensures
        forall|before: CatalogView| #[trigger]
            feature.contribution(before) == before.set_semantic_tokens(options.deep_view(), SemanticTokensMode::Delta),
{
    SemanticTokensFullDeltaFeature { options }
}

impl Sealed for SemanticTokensFullDeltaFeature {
    closed spec fn contribution(&self, before: CatalogView) -> Contributed {
        before.set_semantic_tokens(self.options.deep_view(), SemanticTokensMode::Delta)
    }

    fn contribute(&self, caps: &mut CapabilityBuilder) -> (result: Result<(), BuildError>) {
        caps.set_semantic_tokens_full_delta(self.options.copy_content())
    }
}

impl FeatureSpec for SemanticTokensFullDeltaFeature {
    open spec fn method_name() -> Seq<char> {
        "textDocument/semanticTokens/full/delta"@
    }

    fn method(&self) -> (method: &'static str) {
        "textDocument/semanticTokens/full/delta"
    }
}

/// The `textDocument/semanticTokens/range` feature descriptor.
/// Construct it with [`semantic_tokens_range`].
pub struct SemanticTokensRangeFeature {
    options: SemanticTokensOptions,
}

/// Describe the standard `textDocument/semanticTokens/range` feature with its
/// options.
pub fn semantic_tokens_range(options: SemanticTokensOptions) -> (feature: SemanticTokensRangeFeature)
    ensures
        forall|before: CatalogView| #[trigger]
            feature.contribution(before) == before.set_semantic_tokens(options.deep_view(), SemanticTokensMode::Range),
{
    SemanticTokensRangeFeature { options }
}

impl Sealed for SemanticTokensRangeFeature {
    closed spec fn contribution(&self, before: CatalogView) -> Contributed {
        before.set_semantic_tokens(self.options.deep_view(), SemanticTokensMode::Range)
    }

    fn contribute(&self, caps: &mut CapabilityBuilder) -> (result: Result<(), BuildError>) {
        caps.set_semantic_tokens_range(self.options.copy_content())
    }
}

impl FeatureSpec for SemanticTokensRangeFeature {
    open spec fn method_name() -> Seq<char> {
        "textDocument/semanticTokens/range"@
    }

    fn method(&self) -> (method: &'static str) {
        "textDocument/semanticTokens/range"
    }
}

/// The `textDocument/completion` feature descriptor.
/// Construct it with [`completion`].
pub struct CompletionFeature {
    options: CompletionOptions,
}

/// Describe the standard `textDocument/completion` feature with its
/// options.
pub fn completion(options: CompletionOptions) -> (feature: CompletionFeature)
    ensures
        forall|before: CatalogView| #[trigger]
            feature.contribution(before) == before.set_completion(options.deep_view()),
{
    CompletionFeature { options }
}

impl Sealed for CompletionFeature {
    closed spec fn contribution(&self, before: CatalogView) -> Contributed {
        before.set_completion(self.options.deep_view())
    }

    fn contribute(&self, caps: &mut CapabilityBuilder) -> (result: Result<(), BuildError>) {
        caps.set_completion(self.options.copy_content())
    }
}

impl FeatureSpec for CompletionFeature {
    open spec fn method_name() -> Seq<char> {
        "textDocument/completion"@
    }

    fn method(&self) -> (method: &'static str) {
        "textDocument/completion"
    }
}

/// The `textDocument/diagnostic` feature descriptor.
/// Construct it with [`document_diagnostic`].
pub struct DocumentDiagnosticFeature {
    options: DiagnosticOptions,
}

/// Describe the standard `textDocument/diagnostic` feature with its
/// options.
pub fn document_diagnostic(options: DiagnosticOptions) -> (feature: DocumentDiagnosticFeature)
    ensures
        forall|before: CatalogView| #[trigger]
            feature.contribution(before) == before.set_diagnostics(options.deep_view()),
{
    DocumentDiagnosticFeature { options }
}

impl Sealed for DocumentDiagnosticFeature {
    closed spec fn contribution(&self, before: CatalogView) -> Contributed {
        before.set_diagnostics(self.options.deep_view())
    }

    fn contribute(&self, caps: &mut CapabilityBuilder) -> (result: Result<(), BuildError>) {
        caps.set_diagnostics(self.options.copy_content())
    }
}

impl FeatureSpec for DocumentDiagnosticFeature {
    open spec fn method_name() -> Seq<char> {
        "textDocument/diagnostic"@
    }

    fn method(&self) -> (method: &'static str) {
        "textDocument/diagnostic"
    }
}

/// The `workspace/diagnostic` feature descriptor.
/// Construct it with [`workspace_diagnostic`].
pub struct WorkspaceDiagnosticFeature {
    options: DiagnosticOptions,
}

/// Describe the standard `workspace/diagnostic` feature with its
/// options.
pub fn workspace_diagnostic(options: DiagnosticOptions) -> (feature: WorkspaceDiagnosticFeature)
    ensures
        forall|before: CatalogView| #[trigger]
            feature.contribution(before) == before.set_diagnostics(options.deep_view()),
{
    WorkspaceDiagnosticFeature { options }
}

impl Sealed for WorkspaceDiagnosticFeature {
    closed spec fn contribution(&self, before: CatalogView) -> Contributed {
        before.set_diagnostics(self.options.deep_view())
    }

    fn contribute(&self, caps: &mut CapabilityBuilder) -> (result: Result<(), BuildError>) {
        caps.set_diagnostics(self.options.copy_content())
    }
}

impl FeatureSpec for WorkspaceDiagnosticFeature {
    open spec fn method_name() -> Seq<char> {
        "workspace/diagnostic"@
    }

    fn method(&self) -> (method: &'static str) {
        "workspace/diagnostic"
    }
}

/// The `workspace/symbol` feature descriptor.
/// Construct it with [`workspace_symbol`].
pub struct WorkspaceSymbolFeature {
    options: WorkspaceSymbolOptions,
}

/// Describe the standard `workspace/symbol` feature with its
/// options.
pub fn workspace_symbol(options: WorkspaceSymbolOptions) -> (feature: WorkspaceSymbolFeature)
    ensures
        forall|before: CatalogView| #[trigger]
            feature.contribution(before) == before.set_workspace_symbol(options.deep_view()),
{
    WorkspaceSymbolFeature { options }
}

impl Sealed for WorkspaceSymbolFeature {
    closed spec fn contribution(&self, before: CatalogView) -> Contributed {
        before.set_workspace_symbol(self.options.deep_view())
    }

    fn contribute(&self, caps: &mut CapabilityBuilder) -> (result: Result<(), BuildError>) {
        caps.set_workspace_symbol(self.options)
    }
}

impl FeatureSpec for WorkspaceSymbolFeature {
    open spec fn method_name() -> Seq<char> {
        "workspace/symbol"@
    }

    fn method(&self) -> (method: &'static str) {
        "workspace/symbol"
    }
}

/// The `textDocument/rename` feature descriptor.
/// Construct it with [`rename`].
pub struct RenameFeature {
    options: RenameOptions,
}

/// Describe the standard `textDocument/rename` feature with its
/// options.
pub fn rename(options: RenameOptions) -> (feature: RenameFeature)
    ensures
        forall|before: CatalogView| #[trigger]
            feature.contribution(before) == before.set_rename(options.deep_view()),
{
    RenameFeature { options }
}

impl Sealed for RenameFeature {
    closed spec fn contribution(&self, before: CatalogView) -> Contributed {
        before.set_rename(self.options.deep_view())
    }

    fn contribute(&self, caps: &mut CapabilityBuilder) -> (result: Result<(), BuildError>) {
        caps.set_rename(self.options)
    }
}

impl FeatureSpec for RenameFeature {
    open spec fn method_name() -> Seq<char> {
        "textDocument/rename"@
    }

    fn method(&self) -> (method: &'static str) {
        "textDocument/rename"
    }
}

/// The `textDocument/codeAction` feature descriptor.
/// Construct it with [`code_action`].
pub struct CodeActionFeature {
    options: CodeActionOptions,
}

/// Describe the standard `textDocument/codeAction` feature with its
/// options.
pub fn code_action(options: CodeActionOptions) -> (feature: CodeActionFeature)
    ensures
        forall|before: CatalogView| #[trigger]
            feature.contribution(before) == before.set_code_action(options.deep_view()),
{
    CodeActionFeature { options }
}

impl Sealed for CodeActionFeature {
    closed spec fn contribution(&self, before: CatalogView) -> Contributed {
        before.set_code_action(self.options.deep_view())
    }

    fn contribute(&self, caps: &mut CapabilityBuilder) -> (result: Result<(), BuildError>) {
        caps.set_code_action(self.options.copy_content())
    }
}

impl FeatureSpec for CodeActionFeature {
    open spec fn method_name() -> Seq<char> {
        "textDocument/codeAction"@
    }

    fn method(&self) -> (method: &'static str) {
        "textDocument/codeAction"
    }
}

/// The `textDocument/codeLens` feature descriptor.
/// Construct it with [`code_lens`].
pub struct CodeLensFeature {
    options: CodeLensOptions,
}

/// Describe the standard `textDocument/codeLens` feature with its
/// options.
pub fn code_lens(options: CodeLensOptions) -> (feature: CodeLensFeature)
    ensures
        forall|before: CatalogView| #[trigger]
            feature.contribution(before) == before.set_code_lens(options.deep_view()),
{
    CodeLensFeature { options }
}

impl Sealed for CodeLensFeature {
    closed spec fn contribution(&self, before: CatalogView) -> Contributed {
        before.set_code_lens(self.options.deep_view())
    }

    fn contribute(&self, caps: &mut CapabilityBuilder) -> (result: Result<(), BuildError>) {
        caps.set_code_lens(self.options)
    }
}

impl FeatureSpec for CodeLensFeature {
    open spec fn method_name() -> Seq<char> {
        "textDocument/codeLens"@
    }

    fn method(&self) -> (method: &'static str) {
        "textDocument/codeLens"
    }
}

/// The `textDocument/documentLink` feature descriptor.
/// Construct it with [`document_link`].
pub struct DocumentLinkFeature {
    options: DocumentLinkOptions,
}

/// Describe the standard `textDocument/documentLink` feature with its
/// options.
pub fn document_link(options: DocumentLinkOptions) -> (feature: DocumentLinkFeature)
    ensures
        forall|before: CatalogView| #[trigger]
            feature.contribution(before) == before.set_document_link(options.deep_view()),
{
    DocumentLinkFeature { options }
}

impl Sealed for DocumentLinkFeature {
    closed spec fn contribution(&self, before: CatalogView) -> Contributed {
        before.set_document_link(self.options.deep_view())
    }

    fn contribute(&self, caps: &mut CapabilityBuilder) -> (result: Result<(), BuildError>) {
        caps.set_document_link(self.options)
    }
}

impl FeatureSpec for DocumentLinkFeature {
    open spec fn method_name() -> Seq<char> {
        "textDocument/documentLink"@
    }

    fn method(&self) -> (method: &'static str) {
        "textDocument/documentLink"
    }
}

/// The `textDocument/inlayHint` feature descriptor.
/// Construct it with [`inlay_hint`].
pub struct InlayHintFeature {
    options: InlayHintOptions,
}

/// Describe the standard `textDocument/inlayHint` feature with its
/// options.
pub fn inlay_hint(options: InlayHintOptions) -> (feature: InlayHintFeature)
    ensures
        forall|before: CatalogView| #[trigger]
            feature.contribution(before) == before.set_inlay_hint(options.deep_view()),
{
    InlayHintFeature { options }
}

impl Sealed for InlayHintFeature {
    closed spec fn contribution(&self, before: CatalogView) -> Contributed {
        before.set_inlay_hint(self.options.deep_view())
    }

    fn contribute(&self, caps: &mut CapabilityBuilder) -> (result: Result<(), BuildError>) {
        caps.set_inlay_hint(self.options)
    }
}

impl FeatureSpec for InlayHintFeature {
    open spec fn method_name() -> Seq<char> {
        "textDocument/inlayHint"@
    }

    fn method(&self) -> (method: &'static str) {
        "textDocument/inlayHint"
    }
}

/// The `workspace/willCreateFiles` feature descriptor.
/// Construct it with [`will_create_files`].
pub struct WillCreateFilesFeature {
    options: FileOperationRegistrationOptions,
}

/// Describe the standard `workspace/willCreateFiles` feature with its
/// options.
pub fn will_create_files(options: FileOperationRegistrationOptions) -> (feature: WillCreateFilesFeature)
    ensures
        forall|before: CatalogView| #[trigger]
            feature.contribution(before) == before.set_file_create(options.deep_view(), true),
{
    WillCreateFilesFeature { options }
}

impl Sealed for WillCreateFilesFeature {
    closed spec fn contribution(&self, before: CatalogView) -> Contributed {
        before.set_file_create(self.options.deep_view(), true)
    }

    fn contribute(&self, caps: &mut CapabilityBuilder) -> (result: Result<(), BuildError>) {
        caps.set_will_create(self.options.copy_content())
    }
}

impl FeatureSpec for WillCreateFilesFeature {
    open spec fn method_name() -> Seq<char> {
        "workspace/willCreateFiles"@
    }

    fn method(&self) -> (method: &'static str) {
        "workspace/willCreateFiles"
    }
}

/// The `workspace/willRenameFiles` feature descriptor.
/// Construct it with [`will_rename_files`].
pub struct WillRenameFilesFeature {
    options: FileOperationRegistrationOptions,
}

/// Describe the standard `workspace/willRenameFiles` feature with its
/// options.
pub fn will_rename_files(options: FileOperationRegistrationOptions) -> (feature: WillRenameFilesFeature)
    ensures
        forall|before: CatalogView| #[trigger]
            feature.contribution(before) == before.set_file_rename(options.deep_view(), true),
{
    WillRenameFilesFeature { options }
}

impl Sealed for WillRenameFilesFeature {
    closed spec fn contribution(&self, before: CatalogView) -> Contributed {
        before.set_file_rename(self.options.deep_view(), true)
    }

    fn contribute(&self, caps: &mut CapabilityBuilder) -> (result: Result<(), BuildError>) {
        caps.set_will_rename(self.options.copy_content())
    }
}

impl FeatureSpec for WillRenameFilesFeature {
    open spec fn method_name() -> Seq<char> {
        "workspace/willRenameFiles"@
    }

    fn method(&self) -> (method: &'static str) {
        "workspace/willRenameFiles"
    }
}

/// The `workspace/willDeleteFiles` feature descriptor.
/// Construct it with [`will_delete_files`].
pub struct WillDeleteFilesFeature {
    options: FileOperationRegistrationOptions,
}

/// Describe the standard `workspace/willDeleteFiles` feature with its
/// options.
pub fn will_delete_files(options: FileOperationRegistrationOptions) -> (feature: WillDeleteFilesFeature)
    ensures
        forall|before: CatalogView| #[trigger]
            feature.contribution(before) == before.set_file_delete(options.deep_view(), true),
{
    WillDeleteFilesFeature { options }
}

impl Sealed for WillDeleteFilesFeature {
    closed spec fn contribution(&self, before: CatalogView) -> Contributed {
        before.set_file_delete(self.options.deep_view(), true)
    }

    fn contribute(&self, caps: &mut CapabilityBuilder) -> (result: Result<(), BuildError>) {
        caps.set_will_delete(self.options.copy_content())
    }
}

impl FeatureSpec for WillDeleteFilesFeature {
    open spec fn method_name() -> Seq<char> {
        "workspace/willDeleteFiles"@
    }

    fn method(&self) -> (method: &'static str) {
        "workspace/willDeleteFiles"
    }
}

/// The `workspace/didCreateFiles` feature descriptor.
/// Construct it with [`did_create_files`].
pub struct DidCreateFilesFeature {
    options: FileOperationRegistrationOptions,
}

/// Describe the standard `workspace/didCreateFiles` feature with its
/// options.
pub fn did_create_files(options: FileOperationRegistrationOptions) -> (feature: DidCreateFilesFeature)
    ensures
        forall|before: CatalogView| #[trigger]
            feature.contribution(before) == before.set_file_create(options.deep_view(), false),
{
    DidCreateFilesFeature { options }
}

impl Sealed for DidCreateFilesFeature {
    closed spec fn contribution(&self, before: CatalogView) -> Contributed {
        before.set_file_create(self.options.deep_view(), false)
    }

    fn contribute(&self, caps: &mut CapabilityBuilder) -> (result: Result<(), BuildError>) {
        caps.set_did_create(self.options.copy_content())
    }
}

impl NotificationFeatureSpec for DidCreateFilesFeature {
    open spec fn method_name() -> Seq<char> {
        "workspace/didCreateFiles"@
    }

    fn method(&self) -> (method: &'static str) {
        "workspace/didCreateFiles"
    }
}

/// The `workspace/didRenameFiles` feature descriptor.
/// Construct it with [`did_rename_files`].
pub struct DidRenameFilesFeature {
    options: FileOperationRegistrationOptions,
}

/// Describe the standard `workspace/didRenameFiles` feature with its
/// options.
pub fn did_rename_files(options: FileOperationRegistrationOptions) -> (feature: DidRenameFilesFeature)
    ensures
        forall|before: CatalogView| #[trigger]
            feature.contribution(before) == before.set_file_rename(options.deep_view(), false),
{
    DidRenameFilesFeature { options }
}

impl Sealed for DidRenameFilesFeature {
    closed spec fn contribution(&self, before: CatalogView) -> Contributed {
        before.set_file_rename(self.options.deep_view(), false)
    }

    fn contribute(&self, caps: &mut CapabilityBuilder) -> (result: Result<(), BuildError>) {
        caps.set_did_rename(self.options.copy_content())
    }
}

impl NotificationFeatureSpec for DidRenameFilesFeature {
    open spec fn method_name() -> Seq<char> {
        "workspace/didRenameFiles"@
    }

    fn method(&self) -> (method: &'static str) {
        "workspace/didRenameFiles"
    }
}

/// The `workspace/didDeleteFiles` feature descriptor.
/// Construct it with [`did_delete_files`].
pub struct DidDeleteFilesFeature {
    options: FileOperationRegistrationOptions,
}

/// Describe the standard `workspace/didDeleteFiles` feature with its
/// options.
pub fn did_delete_files(options: FileOperationRegistrationOptions) -> (feature: DidDeleteFilesFeature)
    ensures
        forall|before: CatalogView| #[trigger]
            feature.contribution(before) == before.set_file_delete(options.deep_view(), false),
{
    DidDeleteFilesFeature { options }
}

impl Sealed for DidDeleteFilesFeature {
    closed spec fn contribution(&self, before: CatalogView) -> Contributed {
        before.set_file_delete(self.options.deep_view(), false)
    }

    fn contribute(&self, caps: &mut CapabilityBuilder) -> (result: Result<(), BuildError>) {
        caps.set_did_delete(self.options.copy_content())
    }
}

impl NotificationFeatureSpec for DidDeleteFilesFeature {
    open spec fn method_name() -> Seq<char> {
        "workspace/didDeleteFiles"@
    }

    fn method(&self) -> (method: &'static str) {
        "workspace/didDeleteFiles"
    }
}

/// Whether a feature makes one and the same contribution to every catalog.
pub open spec fn makes<F: Sealed>(feature: F, contribution: Contribution) -> bool {
    forall|before: CatalogView| #[trigger]
        feature.contribution(before) == contribute(before, contribution)
}

/// Every feature is registered under its own wire method.
pub proof fn law_features_have_their_methods()
    ensures
        <WillSaveWaitUntilFeature as FeatureSpec>::method_name() == "textDocument/willSaveWaitUntil"@,
        <HoverFeature as FeatureSpec>::method_name() == "textDocument/hover"@,
        <ColorPresentationFeature as FeatureSpec>::method_name() == "textDocument/colorPresentation"@,
        <CallHierarchyIncomingCallsFeature as FeatureSpec>::method_name() == "callHierarchy/incomingCalls"@,
        <CallHierarchyOutgoingCallsFeature as FeatureSpec>::method_name() == "callHierarchy/outgoingCalls"@,
        <TypeHierarchySupertypesFeature as FeatureSpec>::method_name() == "typeHierarchy/supertypes"@,
        <TypeHierarchySubtypesFeature as FeatureSpec>::method_name() == "typeHierarchy/subtypes"@,
        <CompletionResolveFeature as FeatureSpec>::method_name() == "completionItem/resolve"@,
        <WorkspaceSymbolResolveFeature as FeatureSpec>::method_name() == "workspaceSymbol/resolve"@,
        <PrepareRenameFeature as FeatureSpec>::method_name() == "textDocument/prepareRename"@,
        <CodeActionResolveFeature as FeatureSpec>::method_name() == "codeAction/resolve"@,
        <CodeLensResolveFeature as FeatureSpec>::method_name() == "codeLens/resolve"@,
        <DocumentLinkResolveFeature as FeatureSpec>::method_name() == "documentLink/resolve"@,
        <InlayHintResolveFeature as FeatureSpec>::method_name() == "inlayHint/resolve"@,
        <DidChangeWatchedFilesFeature as NotificationFeatureSpec>::method_name() == "workspace/didChangeWatchedFiles"@,
        <SignatureHelpFeature as FeatureSpec>::method_name() == "textDocument/signatureHelp"@,
        <DeclarationFeature as FeatureSpec>::method_name() == "textDocument/declaration"@,
        <DefinitionFeature as FeatureSpec>::method_name() == "textDocument/definition"@,
        <TypeDefinitionFeature as FeatureSpec>::method_name() == "textDocument/typeDefinition"@,
        <ImplementationFeature as FeatureSpec>::method_name() == "textDocument/implementation"@,
        <ReferencesFeature as FeatureSpec>::method_name() == "textDocument/references"@,
        <DocumentHighlightFeature as FeatureSpec>::method_name() == "textDocument/documentHighlight"@,
        <DocumentSymbolFeature as FeatureSpec>::method_name() == "textDocument/documentSymbol"@,
        <LinkedEditingRangeFeature as FeatureSpec>::method_name() == "textDocument/linkedEditingRange"@,
        <MonikerFeature as FeatureSpec>::method_name() == "textDocument/moniker"@,
        <DocumentFormattingFeature as FeatureSpec>::method_name() == "textDocument/formatting"@,
        <RangeFormattingFeature as FeatureSpec>::method_name() == "textDocument/rangeFormatting"@,
        <OnTypeFormattingFeature as FeatureSpec>::method_name() == "textDocument/onTypeFormatting"@,
        <DocumentColorFeature as FeatureSpec>::method_name() == "textDocument/documentColor"@,
        <FoldingRangeFeature as FeatureSpec>::method_name() == "textDocument/foldingRange"@,
        <SelectionRangeFeature as FeatureSpec>::method_name() == "textDocument/selectionRange"@,
        <InlineValueFeature as FeatureSpec>::method_name() == "textDocument/inlineValue"@,
        <CallHierarchyPrepareFeature as FeatureSpec>::method_name() == "textDocument/prepareCallHierarchy"@,
        <TypeHierarchyPrepareFeature as FeatureSpec>::method_name() == "textDocument/prepareTypeHierarchy"@,
        <SemanticTokensFullFeature as FeatureSpec>::method_name() == "textDocument/semanticTokens/full"@,
        <SemanticTokensFullDeltaFeature as FeatureSpec>::method_name() == "textDocument/semanticTokens/full/delta"@,
        <SemanticTokensRangeFeature as FeatureSpec>::method_name() == "textDocument/semanticTokens/range"@,
        <CompletionFeature as FeatureSpec>::method_name() == "textDocument/completion"@,
        <DocumentDiagnosticFeature as FeatureSpec>::method_name() == "textDocument/diagnostic"@,
        <WorkspaceDiagnosticFeature as FeatureSpec>::method_name() == "workspace/diagnostic"@,
        <WorkspaceSymbolFeature as FeatureSpec>::method_name() == "workspace/symbol"@,
        <RenameFeature as FeatureSpec>::method_name() == "textDocument/rename"@,
        <CodeActionFeature as FeatureSpec>::method_name() == "textDocument/codeAction"@,
        <CodeLensFeature as FeatureSpec>::method_name() == "textDocument/codeLens"@,
        <DocumentLinkFeature as FeatureSpec>::method_name() == "textDocument/documentLink"@,
        <InlayHintFeature as FeatureSpec>::method_name() == "textDocument/inlayHint"@,
        <WillCreateFilesFeature as FeatureSpec>::method_name() == "workspace/willCreateFiles"@,
        <WillRenameFilesFeature as FeatureSpec>::method_name() == "workspace/willRenameFiles"@,
        <WillDeleteFilesFeature as FeatureSpec>::method_name() == "workspace/willDeleteFiles"@,
        <DidCreateFilesFeature as NotificationFeatureSpec>::method_name() == "workspace/didCreateFiles"@,
        <DidRenameFilesFeature as NotificationFeatureSpec>::method_name() == "workspace/didRenameFiles"@,
        <DidDeleteFilesFeature as NotificationFeatureSpec>::method_name() == "workspace/didDeleteFiles"@,
{
}

/// A feature without options contributes what its method implies: hover, the
/// pre-save edits, or a request that depends on another feature. Watched files
/// contribute nothing.
#[verifier::spinoff_prover]
pub proof fn law_plain_features_contribute(
    will_save_wait_until: WillSaveWaitUntilFeature,
    hover: HoverFeature,
    color_presentation: ColorPresentationFeature,
    call_hierarchy_incoming_calls: CallHierarchyIncomingCallsFeature,
    call_hierarchy_outgoing_calls: CallHierarchyOutgoingCallsFeature,
    type_hierarchy_supertypes: TypeHierarchySupertypesFeature,
    type_hierarchy_subtypes: TypeHierarchySubtypesFeature,
    completion_resolve: CompletionResolveFeature,
    workspace_symbol_resolve: WorkspaceSymbolResolveFeature,
    prepare_rename: PrepareRenameFeature,
    code_action_resolve: CodeActionResolveFeature,
    code_lens_resolve: CodeLensResolveFeature,
    document_link_resolve: DocumentLinkResolveFeature,
    inlay_hint_resolve: InlayHintResolveFeature,
    watched_files: DidChangeWatchedFilesFeature,
    before: CatalogView,
)
    ensures
        makes(will_save_wait_until, Contribution::WillSaveWaitUntil),
        makes(hover, Contribution::Hover),
        makes(color_presentation, Contribution::DocumentColorDependent),
        makes(call_hierarchy_incoming_calls, Contribution::CallHierarchyDependent),
        makes(call_hierarchy_outgoing_calls, Contribution::CallHierarchyDependent),
        makes(type_hierarchy_supertypes, Contribution::TypeHierarchyDependent),
        makes(type_hierarchy_subtypes, Contribution::TypeHierarchyDependent),
        makes(completion_resolve, Contribution::CompletionResolve),
        makes(workspace_symbol_resolve, Contribution::WorkspaceSymbolResolve),
        makes(prepare_rename, Contribution::PrepareRename),
        makes(code_action_resolve, Contribution::CodeActionResolve),
        makes(code_lens_resolve, Contribution::CodeLensResolve),
        makes(document_link_resolve, Contribution::DocumentLinkResolve),
        makes(inlay_hint_resolve, Contribution::InlayHintResolve),
        watched_files.contribution(before) == Contributed::Ok(before),
{
    reveal(contribute);
}

/// A feature on documents contributes its own options to its own field.
#[verifier::spinoff_prover]
pub proof fn law_document_features_contribute(
    signature_help: SignatureHelpFeature,
    declaration: DeclarationFeature,
    definition: DefinitionFeature,
    type_definition: TypeDefinitionFeature,
    implementation: ImplementationFeature,
    references: ReferencesFeature,
    document_highlight: DocumentHighlightFeature,
    document_symbol: DocumentSymbolFeature,
    linked_editing_range: LinkedEditingRangeFeature,
    moniker: MonikerFeature,
    document_formatting: DocumentFormattingFeature,
    range_formatting: RangeFormattingFeature,
    on_type_formatting: OnTypeFormattingFeature,
    folding_range: FoldingRangeFeature,
    selection_range: SelectionRangeFeature,
    inline_value: InlineValueFeature,
)
    ensures
        exists|options: <SignatureHelpOptions as DeepView>::V| #[trigger]
            makes(signature_help, Contribution::SignatureHelp(options)),
        exists|options: <DeclarationOptions as DeepView>::V| #[trigger]
            makes(declaration, Contribution::Declaration(options)),
        exists|options: <DefinitionOptions as DeepView>::V| #[trigger]
            makes(definition, Contribution::Definition(options)),
        exists|options: <TypeDefinitionRegistrationOptions as DeepView>::V| #[trigger]
            makes(type_definition, Contribution::TypeDefinition(options)),
        exists|options: <ImplementationRegistrationOptions as DeepView>::V| #[trigger]
            makes(implementation, Contribution::Implementation(options)),
        exists|options: <ReferenceOptions as DeepView>::V| #[trigger]
            makes(references, Contribution::References(options)),
        exists|options: <DocumentHighlightOptions as DeepView>::V| #[trigger]
            makes(document_highlight, Contribution::DocumentHighlight(options)),
        exists|options: <DocumentSymbolOptions as DeepView>::V| #[trigger]
            makes(document_symbol, Contribution::DocumentSymbol(options)),
        exists|options: <LinkedEditingRangeOptions as DeepView>::V| #[trigger]
            makes(linked_editing_range, Contribution::LinkedEditingRange(options)),
        exists|options: <MonikerOptions as DeepView>::V| #[trigger]
            makes(moniker, Contribution::Moniker(options)),
        exists|options: <DocumentFormattingOptions as DeepView>::V| #[trigger]
            makes(document_formatting, Contribution::DocumentFormatting(options)),
        exists|options: <DocumentRangeFormattingOptions as DeepView>::V| #[trigger]
            makes(range_formatting, Contribution::RangeFormatting(options)),
        exists|options: <DocumentOnTypeFormattingOptions as DeepView>::V| #[trigger]
            makes(on_type_formatting, Contribution::OnTypeFormatting(options)),
        exists|options: <FoldingRangeOptions as DeepView>::V| #[trigger]
            makes(folding_range, Contribution::FoldingRange(options)),
        exists|options: <SelectionRangeOptions as DeepView>::V| #[trigger]
            makes(selection_range, Contribution::SelectionRange(options)),
        exists|options: <InlineValueOptions as DeepView>::V| #[trigger]
            makes(inline_value, Contribution::InlineValue(options)),
{
    reveal(contribute);
    assert(makes(signature_help, Contribution::SignatureHelp(signature_help.options.deep_view())));
    assert(makes(declaration, Contribution::Declaration(declaration.options.deep_view())));
    assert(makes(definition, Contribution::Definition(definition.options.deep_view())));
    assert(makes(type_definition, Contribution::TypeDefinition(type_definition.options.deep_view())));
    assert(makes(implementation, Contribution::Implementation(implementation.options.deep_view())));
    assert(makes(references, Contribution::References(references.options.deep_view())));
    assert(makes(document_highlight, Contribution::DocumentHighlight(document_highlight.options.deep_view())));
    assert(makes(document_symbol, Contribution::DocumentSymbol(document_symbol.options.deep_view())));
    assert(makes(linked_editing_range, Contribution::LinkedEditingRange(linked_editing_range.options.deep_view())));
    assert(makes(moniker, Contribution::Moniker(moniker.options.deep_view())));
    assert(makes(document_formatting, Contribution::DocumentFormatting(document_formatting.options.deep_view())));
    assert(makes(range_formatting, Contribution::RangeFormatting(range_formatting.options.deep_view())));
    assert(makes(on_type_formatting, Contribution::OnTypeFormatting(on_type_formatting.options.deep_view())));
    assert(makes(folding_range, Contribution::FoldingRange(folding_range.options.deep_view())));
    assert(makes(selection_range, Contribution::SelectionRange(selection_range.options.deep_view())));
    assert(makes(inline_value, Contribution::InlineValue(inline_value.options.deep_view())));
}

/// A feature that others depend on contributes its own options to its own family.
#[verifier::spinoff_prover]
pub proof fn law_base_features_contribute(
    document_color: DocumentColorFeature,
    call_hierarchy_prepare: CallHierarchyPrepareFeature,
    type_hierarchy_prepare: TypeHierarchyPrepareFeature,
    completion: CompletionFeature,
    workspace_symbol: WorkspaceSymbolFeature,
    rename: RenameFeature,
    code_action: CodeActionFeature,
    code_lens: CodeLensFeature,
    document_link: DocumentLinkFeature,
    inlay_hint: InlayHintFeature,
)
    ensures
        exists|options: <DocumentColorOptions as DeepView>::V| #[trigger]
            makes(document_color, Contribution::DocumentColor(options)),
        exists|options: <CallHierarchyOptions as DeepView>::V| #[trigger]
            makes(call_hierarchy_prepare, Contribution::CallHierarchy(options)),
        exists|options: <TypeHierarchyOptions as DeepView>::V| #[trigger]
            makes(type_hierarchy_prepare, Contribution::TypeHierarchy(options)),
        exists|options: <CompletionOptions as DeepView>::V| #[trigger]
            makes(completion, Contribution::Completion(options)),
        exists|options: <WorkspaceSymbolOptions as DeepView>::V| #[trigger]
            makes(workspace_symbol, Contribution::WorkspaceSymbol(options)),
        exists|options: <RenameOptions as DeepView>::V| #[trigger]
            makes(rename, Contribution::Rename(options)),
        exists|options: <CodeActionOptions as DeepView>::V| #[trigger]
            makes(code_action, Contribution::CodeAction(options)),
        exists|options: <CodeLensOptions as DeepView>::V| #[trigger]
            makes(code_lens, Contribution::CodeLens(options)),
        exists|options: <DocumentLinkOptions as DeepView>::V| #[trigger]
            makes(document_link, Contribution::DocumentLink(options)),
        exists|options: <InlayHintOptions as DeepView>::V| #[trigger]
            makes(inlay_hint, Contribution::InlayHint(options)),
{
    reveal(contribute);
    assert(makes(document_color, Contribution::DocumentColor(document_color.options.deep_view())));
    assert(makes(call_hierarchy_prepare, Contribution::CallHierarchy(call_hierarchy_prepare.options.deep_view())));
    assert(makes(type_hierarchy_prepare, Contribution::TypeHierarchy(type_hierarchy_prepare.options.deep_view())));
    assert(makes(completion, Contribution::Completion(completion.options.deep_view())));
    assert(makes(workspace_symbol, Contribution::WorkspaceSymbol(workspace_symbol.options.deep_view())));
    assert(makes(rename, Contribution::Rename(rename.options.deep_view())));
    assert(makes(code_action, Contribution::CodeAction(code_action.options.deep_view())));
    assert(makes(code_lens, Contribution::CodeLens(code_lens.options.deep_view())));
    assert(makes(document_link, Contribution::DocumentLink(document_link.options.deep_view())));
    assert(makes(inlay_hint, Contribution::InlayHint(inlay_hint.options.deep_view())));
}

/// Features that share a field contribute to it under the mode or the side that they serve.
#[verifier::spinoff_prover]
pub proof fn law_shared_features_contribute(
    semantic_tokens_full: SemanticTokensFullFeature,
    semantic_tokens_full_delta: SemanticTokensFullDeltaFeature,
    semantic_tokens_range: SemanticTokensRangeFeature,
    document_diagnostic: DocumentDiagnosticFeature,
    workspace_diagnostic: WorkspaceDiagnosticFeature,
    will_create_files: WillCreateFilesFeature,
    will_rename_files: WillRenameFilesFeature,
    will_delete_files: WillDeleteFilesFeature,
    did_create_files: DidCreateFilesFeature,
    did_rename_files: DidRenameFilesFeature,
    did_delete_files: DidDeleteFilesFeature,
)
    ensures
        exists|options: <SemanticTokensOptions as DeepView>::V| #[trigger]
            makes(semantic_tokens_full, Contribution::SemanticTokens(options, SemanticTokensMode::Full)),
        exists|options: <SemanticTokensOptions as DeepView>::V| #[trigger]
            makes(semantic_tokens_full_delta, Contribution::SemanticTokens(options, SemanticTokensMode::Delta)),
        exists|options: <SemanticTokensOptions as DeepView>::V| #[trigger]
            makes(semantic_tokens_range, Contribution::SemanticTokens(options, SemanticTokensMode::Range)),
        exists|options: <DiagnosticOptions as DeepView>::V| #[trigger]
            makes(document_diagnostic, Contribution::Diagnostics(options)),
        exists|options: <DiagnosticOptions as DeepView>::V| #[trigger]
            makes(workspace_diagnostic, Contribution::Diagnostics(options)),
        exists|options: <FileOperationRegistrationOptions as DeepView>::V| #[trigger]
            makes(will_create_files, Contribution::FileCreate(options, true)),
        exists|options: <FileOperationRegistrationOptions as DeepView>::V| #[trigger]
            makes(will_rename_files, Contribution::FileRename(options, true)),
        exists|options: <FileOperationRegistrationOptions as DeepView>::V| #[trigger]
            makes(will_delete_files, Contribution::FileDelete(options, true)),
        exists|options: <FileOperationRegistrationOptions as DeepView>::V| #[trigger]
            makes(did_create_files, Contribution::FileCreate(options, false)),
        exists|options: <FileOperationRegistrationOptions as DeepView>::V| #[trigger]
            makes(did_rename_files, Contribution::FileRename(options, false)),
        exists|options: <FileOperationRegistrationOptions as DeepView>::V| #[trigger]
            makes(did_delete_files, Contribution::FileDelete(options, false)),
{
    reveal(contribute);
    assert(makes(semantic_tokens_full, Contribution::SemanticTokens(semantic_tokens_full.options.deep_view(), SemanticTokensMode::Full)));
    assert(makes(semantic_tokens_full_delta, Contribution::SemanticTokens(semantic_tokens_full_delta.options.deep_view(), SemanticTokensMode::Delta)));
    assert(makes(semantic_tokens_range, Contribution::SemanticTokens(semantic_tokens_range.options.deep_view(), SemanticTokensMode::Range)));
    assert(makes(document_diagnostic, Contribution::Diagnostics(document_diagnostic.options.deep_view())));
    assert(makes(workspace_diagnostic, Contribution::Diagnostics(workspace_diagnostic.options.deep_view())));
    assert(makes(will_create_files, Contribution::FileCreate(will_create_files.options.deep_view(), true)));
    assert(makes(will_rename_files, Contribution::FileRename(will_rename_files.options.deep_view(), true)));
    assert(makes(will_delete_files, Contribution::FileDelete(will_delete_files.options.deep_view(), true)));
    assert(makes(did_create_files, Contribution::FileCreate(did_create_files.options.deep_view(), false)));
    assert(makes(did_rename_files, Contribution::FileRename(did_rename_files.options.deep_view(), false)));
    assert(makes(did_delete_files, Contribution::FileDelete(did_delete_files.options.deep_view(), false)));
}

} // verus!
