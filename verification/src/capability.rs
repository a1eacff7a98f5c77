//! The internal capability catalog.
//!
//! Standard features and commands each contribute to one destination field of
//! [`ServerCapabilities`]. [`CapabilityBuilder`] accumulates those
//! contributions by field rather than by method, so a family spread across
//! several methods — completion and completion-item resolve merging into one
//! `completionProvider`, or execute-command merging every command into one
//! de-duplicated list — produces a single deterministic capability. Family
//! merging is independent of registration order; the execute-command list
//! preserves registration order. Custom requests and notifications contribute
//! nothing.
//!
//! Merging never uses last-write-wins: a contribution that disagrees with an
//! already-recorded singular field, and a dependent contribution whose base
//! is absent, are both a [`BuildError::ConflictingCapability`].
use vstd::prelude::*;

use crate::error::BuildError;
use crate::options::{
    CallHierarchyOptions, CodeActionOptions, CodeActionOptionsView, CodeLensOptions,
    CompletionOptions, CompletionOptionsView, Content, DeclarationOptions, DefinitionOptions,
    DiagnosticOptions, DiagnosticOptionsView, DocumentColorOptions, DocumentFormattingOptions,
    DocumentHighlightOptions, DocumentLinkOptions, DocumentOnTypeFormattingOptions,
    DocumentOnTypeFormattingOptionsView, DocumentRangeFormattingOptions, DocumentSymbolOptions,
    DocumentSymbolOptionsView, ExecuteCommandOptions, ExecuteCommandOptionsView,
    FileOperationOptions, FileOperationOptionsView, FileOperationRegistrationOptions,
    FileOperationRegistrationOptionsView, FoldingRangeOptions, Full,
    ImplementationRegistrationOptions, ImplementationRegistrationOptionsView, InlayHintOptions,
    InlineValueOptions, LinkedEditingRangeOptions, MonikerOptions, ReferenceOptions, RenameOptions,
    SelectionRangeOptions, SemanticTokensFullDelta, SemanticTokensOptions,
    SemanticTokensOptionsRange, SemanticTokensOptionsView, ServerCapabilities,
    ServerCapabilitiesView, SignatureHelpOptions, SignatureHelpOptionsView,
    TypeDefinitionRegistrationOptions, TypeDefinitionRegistrationOptionsView,
    TypeHierarchyOptions, WorkDoneProgressOptions, WorkspaceOptions, WorkspaceOptionsView,
    WorkspaceSymbolOptions,
};

verus! {

/// The catalog after a contribution, or the capability field that it conflicts
/// on.
pub type Contributed = Result<CatalogView, Seq<char>>;

/// Whether a contribution disagrees with what a singular field already holds.
pub open spec fn conflicts<V>(existing: Option<V>, contribution: V) -> bool {
    existing is Some && existing->0 != contribution
}

/// Whether a result is the conflict on a capability field.
pub open spec fn is_conflict(result: Result<(), BuildError>, expected: Seq<char>) -> bool {
    result matches Err(BuildError::ConflictingCapability { field }) && field@ == expected
}

/// A contribution came out as expected: it succeeded and left the expected
/// catalog, or it failed on the expected field and left the catalog as it was.
pub open spec fn contributed(
    before: CatalogView,
    expected: Contributed,
    result: Result<(), BuildError>,
    after: CatalogView,
) -> bool {
    match expected {
        Ok(catalog) => result is Ok && after == catalog,
        Err(invalid) => is_conflict(result, invalid) && after == before,
    }
}

/// Options that a dependent request marks with a flag: `resolveProvider` or
/// `prepareProvider`.
pub trait Dependable: Content {
    /// The flag that options hold.
    spec fn flag_of(view: Self::V) -> Option<bool>;

    /// The options with the flag set.
    spec fn with_flag(view: Self::V) -> Self::V;

    /// The flag that the options hold.
    fn flag(&self) -> (flag: Option<bool>)
        ensures
            flag == Self::flag_of(self.deep_view()),
    ;

    /// Set the flag.
    fn set_flag(&mut self)
        ensures
            final(self).deep_view() == Self::with_flag(old(self).deep_view()),
    ;
}

/// What a [`BaseDependentFamily`] has gathered.
pub struct FamilyView<V> {
    /// The options of the base.
    pub options: Option<V>,
    /// Whether a request that depends on the base was contributed.
    pub dependent: bool,
}

impl<V> FamilyView<V> {
    /// Nothing gathered.
    pub open spec fn empty() -> Self {
        FamilyView { options: None, dependent: false }
    }

    /// A dependent request stands without its base.
    pub open spec fn is_dangling(self) -> bool {
        self.options is None && self.dependent
    }

    /// The options of the base, or else what stood there.
    pub open spec fn options_or(self, other: Option<V>) -> Option<V> {
        if self.options is Some {
            self.options
        } else {
            other
        }
    }

    /// The base explicitly denies the request that depends on it.
    pub open spec fn denies<T: Dependable<V = V>>(self) -> bool {
        &&& self.dependent
        &&& self.options is Some
        &&& T::flag_of(self.options->0) == Some(false)
    }

    /// The options of the base with the flag of the dependent request folded
    /// in, or else what stood there.
    pub open spec fn folded_or<T: Dependable<V = V>>(self, other: Option<V>) -> Option<V> {
        match self.options {
            Some(options) => Some(
                if self.dependent {
                    T::with_flag(options)
                } else {
                    options
                },
            ),
            None => other,
        }
    }
}

/// A capability family with one option-bearing base route and one or more
/// dependent routes that advertise no separate provider.
///
/// Hierarchy prepare routes, document color, completion and the like are bases;
/// hierarchy traversal, color presentation and resolve requests are their
/// dependents. Tracking dependent presence lets validation reject incomplete
/// families deterministically.
pub struct BaseDependentFamily<Options> {
    options: Option<Options>,
    has_subordinate: bool,
}

impl<Options: DeepView> View for BaseDependentFamily<Options> {
    type V = FamilyView<Options::V>;

    closed spec fn view(&self) -> FamilyView<Options::V> {
        FamilyView { options: self.options.deep_view(), dependent: self.has_subordinate }
    }
}

impl<Options: DeepView> Default for BaseDependentFamily<Options> {
    fn default() -> (family: Self)
        ensures
            family@ == FamilyView::<Options::V>::empty(),
    {
        BaseDependentFamily { options: None, has_subordinate: false }
    }
}

impl<Options: Content> BaseDependentFamily<Options> {
    /// Contribute the options of the base. Two that disagree are a conflict.
    pub fn contribute_base(&mut self, options: Options, field: &'static str) -> (result: Result<
        (),
        BuildError,
    >)
        ensures
            if conflicts(old(self)@.options, options.deep_view()) {
                is_conflict(result, field@) && final(self)@ == old(self)@
            } else {
                &&& result is Ok
                &&& final(self)@ == (FamilyView {
                    options: Some(options.deep_view()),
                    ..old(self)@
                })
            },
    {
        match &self.options {
            Some(existing) => {
                if !existing.same_content(&options) {
                    return Err(BuildError::ConflictingCapability { field });
                }
            },
            None => {},
        }
        self.options = Some(options);
        Ok(())
    }

    /// Contribute a route that depends on the base.
    pub fn contribute_subordinate(&mut self)
        ensures
            final(self)@ == (FamilyView { dependent: true, ..old(self)@ }),
    {
        self.has_subordinate = true;
    }

    /// Reject a dependent route without its base.
    pub fn validate(&self, field: &'static str) -> (result: Result<(), BuildError>)
        ensures
            if self@.is_dangling() {
                is_conflict(result, field@)
            } else {
                result is Ok
            },
    {
        if self.options.is_none() && self.has_subordinate {
            return Err(BuildError::ConflictingCapability { field });
        }
        Ok(())
    }
}

impl<Options: Dependable> BaseDependentFamily<Options> {
    /// Reject a dependent request without its base, and one that the base
    /// explicitly denies.
    pub fn validate_flag(&self, field: &'static str) -> (result: Result<(), BuildError>)
        ensures
            if self@.is_dangling() || self@.denies::<Options>() {
                is_conflict(result, field@)
            } else {
                result is Ok
            },
    {
        if !self.has_subordinate {
            return Ok(());
        }
        match &self.options {
            None => Err(BuildError::ConflictingCapability { field }),
            Some(options) => match options.flag() {
                Some(false) => Err(BuildError::ConflictingCapability { field }),
                _ => Ok(()),
            },
        }
    }

    /// The options of the base with the flag of the dependent request folded
    /// in.
    pub fn fold(self) -> (options: Option<Options>)
        ensures
            options.deep_view() == self@.folded_or::<Options>(None),
    {
        match self.options {
            Some(options) => {
                let mut options = options;
                if self.has_subordinate {
                    options.set_flag();
                }
                Some(options)
            },
            None => None,
        }
    }
}

/// Fill a singular field, unless it holds something else.
pub fn contribute_singular<T: Content>(
    target: &mut Option<T>,
    contribution: T,
    field: &'static str,
) -> (result: Result<(), BuildError>)
    ensures
        if conflicts(old(target).deep_view(), contribution.deep_view()) {
            is_conflict(result, field@) && *final(target) == *old(target)
        } else {
            &&& result is Ok
            &&& final(target).deep_view() == Some(contribution.deep_view())
        },
{
    match target.as_ref() {
        Some(existing) => {
            if !existing.same_content(&contribution) {
                return Err(BuildError::ConflictingCapability { field });
            }
        },
        None => {},
    }
    *target = Some(contribution);
    Ok(())
}

/// The first option if it holds something, else the second.
fn first_of<T: DeepView>(first: Option<T>, second: Option<T>) -> (either: Option<T>)
    ensures
        either.deep_view() == if first.deep_view() is Some {
            first.deep_view()
        } else {
            second.deep_view()
        },
{
    if first.is_some() {
        first
    } else {
        second
    }
}

/// One of the requests for semantic tokens.
#[derive(Debug, Clone, Copy, PartialEq, Eq, Structural)]
pub enum SemanticTokensMode {
    /// The tokens of a whole document.
    Full,
    /// What changed in them.
    Delta,
    /// The tokens of a range.
    Range,
}

/// What the semantic-token family has gathered.
pub struct SemanticTokensFamilyView {
    /// The options that all requests share, without their modes.
    pub shared: Option<SemanticTokensOptionsView>,
    /// The requests that were contributed.
    pub full: bool,
    pub delta: bool,
    pub range: bool,
    /// What the options say of the requests.
    pub declared_full: Option<bool>,
    pub declared_delta: Option<bool>,
    pub declared_range: Option<bool>,
}

/// Whether two declarations of one mode disagree.
pub open spec fn disagree(existing: Option<bool>, contribution: Option<bool>) -> bool {
    existing is Some && contribution is Some && existing != contribution
}

/// The declaration of a mode after one more.
pub open spec fn declared(existing: Option<bool>, contribution: Option<bool>) -> Option<bool> {
    if existing is Some {
        existing
    } else {
        contribution
    }
}

/// What `full` says of the full-document request.
pub open spec fn says_full(full: Option<Full>) -> Option<bool> {
    match full {
        None => None,
        Some(Full::Bool(value)) => Some(value),
        Some(Full::SemanticTokensFullDelta(_)) => Some(true),
    }
}

/// What `full` says of the delta request.
pub open spec fn says_delta(full: Option<Full>) -> Option<bool> {
    match full {
        Some(Full::SemanticTokensFullDelta(options)) => options.delta,
        _ => None,
    }
}

/// What `range` says of the range request.
pub open spec fn says_range(range: Option<SemanticTokensOptionsRange>) -> Option<bool> {
    match range {
        None => None,
        Some(SemanticTokensOptionsRange::Bool(value)) => Some(value),
        Some(SemanticTokensOptionsRange::Object) => Some(true),
    }
}

/// Whether a declaration, if there is one, is what was contributed.
pub open spec fn is_honored(declaration: Option<bool>, contributed: bool) -> bool {
    declaration is None || declaration == Some(contributed)
}

impl SemanticTokensFamilyView {
    /// Nothing gathered.
    pub open spec fn empty() -> Self {
        SemanticTokensFamilyView {
            shared: None,
            full: false,
            delta: false,
            range: false,
            declared_full: None,
            declared_delta: None,
            declared_range: None,
        }
    }

    /// The family after a contribution; `None` where it disagrees on the shared
    /// options or on the declaration of a mode.
    pub open spec fn contribute(
        self,
        options: SemanticTokensOptionsView,
        mode: SemanticTokensMode,
    ) -> Option<Self> {
        let shared = SemanticTokensOptionsView { full: None, range: None, ..options };
        if conflicts(self.shared, shared) || disagree(self.declared_full, says_full(options.full))
            || disagree(self.declared_delta, says_delta(options.full)) || disagree(
            self.declared_range,
            says_range(options.range),
        ) {
            None
        } else {
            Some(
                SemanticTokensFamilyView {
                    shared: Some(shared),
                    full: self.full || mode == SemanticTokensMode::Full,
                    delta: self.delta || mode == SemanticTokensMode::Delta,
                    range: self.range || mode == SemanticTokensMode::Range,
                    declared_full: declared(self.declared_full, says_full(options.full)),
                    declared_delta: declared(self.declared_delta, says_delta(options.full)),
                    declared_range: declared(self.declared_range, says_range(options.range)),
                },
            )
        }
    }

    /// Every declared mode was contributed, every denied one was not, and deltas
    /// do not stand without full documents.
    pub open spec fn is_valid(self) -> bool {
        &&& is_honored(self.declared_full, self.full)
        &&& is_honored(self.declared_delta, self.delta)
        &&& is_honored(self.declared_range, self.range)
        &&& self.delta ==> self.full
    }

    /// The shared options with the modes that were contributed.
    pub open spec fn finish(self) -> Option<SemanticTokensOptionsView> {
        match self.shared {
            None => None,
            Some(shared) => Some(
                SemanticTokensOptionsView {
                    range: if self.range {
                        Some(SemanticTokensOptionsRange::Bool(true))
                    } else {
                        None
                    },
                    full: if self.delta {
                        Some(
                            Full::SemanticTokensFullDelta(
                                SemanticTokensFullDelta { delta: Some(true) },
                            ),
                        )
                    } else if self.full {
                        Some(Full::Bool(true))
                    } else {
                        None
                    },
                    ..shared
                },
            ),
        }
    }
}

/// The in-progress `semanticTokensProvider` capability family.
pub struct SemanticTokensFamily {
    shared_options: Option<SemanticTokensOptions>,
    full: bool,
    delta: bool,
    range: bool,
    declared_full: Option<bool>,
    declared_delta: Option<bool>,
    declared_range: Option<bool>,
}

impl View for SemanticTokensFamily {
    type V = SemanticTokensFamilyView;

    closed spec fn view(&self) -> SemanticTokensFamilyView {
        SemanticTokensFamilyView {
            shared: self.shared_options.deep_view(),
            full: self.full,
            delta: self.delta,
            range: self.range,
            declared_full: self.declared_full,
            declared_delta: self.declared_delta,
            declared_range: self.declared_range,
        }
    }
}

impl Default for SemanticTokensFamily {
    fn default() -> (family: Self)
        ensures
            family@ == SemanticTokensFamilyView::empty(),
    {
        SemanticTokensFamily {
            shared_options: None,
            full: false,
            delta: false,
            range: false,
            declared_full: None,
            declared_delta: None,
            declared_range: None,
        }
    }
}

impl SemanticTokensFamily {
    /// Contribute one request with its options.
    pub fn contribute(
        &mut self,
        options: SemanticTokensOptions,
        mode: SemanticTokensMode,
    ) -> (result: Result<(), BuildError>)
        ensures
            match old(self)@.contribute(options.deep_view(), mode) {
                Some(family) => result is Ok && final(self)@ == family,
                None => is_conflict(result, "semanticTokensProvider"@) && final(self)@ == old(
                    self,
                )@,
            },
    {
        let (declared_full, declared_delta) = match options.full {
            None => (None, None),
            Some(Full::Bool(value)) => (Some(value), None),
            Some(Full::SemanticTokensFullDelta(delta)) => (Some(true), delta.delta),
        };
        let declared_range = match options.range {
            None => None,
            Some(SemanticTokensOptionsRange::Bool(value)) => Some(value),
            Some(SemanticTokensOptionsRange::Object) => Some(true),
        };
        let mut options = options;
        options.full = None;
        options.range = None;
        match &self.shared_options {
            Some(existing) => {
                if !existing.same_content(&options) {
                    return Err(
                        BuildError::ConflictingCapability { field: "semanticTokensProvider" },
                    );
                }
            },
            None => {},
        }
        let mut next_full = self.declared_full;
        let mut next_delta = self.declared_delta;
        let mut next_range = self.declared_range;
        match Self::merge_declaration(&mut next_full, declared_full) {
            Ok(()) => {},
            Err(error) => return Err(error),
        }
        match Self::merge_declaration(&mut next_delta, declared_delta) {
            Ok(()) => {},
            Err(error) => return Err(error),
        }
        match Self::merge_declaration(&mut next_range, declared_range) {
            Ok(()) => {},
            Err(error) => return Err(error),
        }
        self.shared_options = Some(options);
        self.declared_full = next_full;
        self.declared_delta = next_delta;
        self.declared_range = next_range;
        match mode {
            SemanticTokensMode::Full => {
                self.full = true;
            },
            SemanticTokensMode::Delta => {
                self.delta = true;
            },
            SemanticTokensMode::Range => {
                self.range = true;
            },
        }
        Ok(())
    }

    fn merge_declaration(target: &mut Option<bool>, contribution: Option<bool>) -> (result: Result<
        (),
        BuildError,
    >)
        ensures
            if disagree(*old(target), contribution) {
                is_conflict(result, "semanticTokensProvider"@) && *final(target) == *old(target)
            } else {
                result is Ok && *final(target) == declared(*old(target), contribution)
            },
    {
        match (*target, contribution) {
            (Some(existing), Some(value)) => {
                if existing != value {
                    return Err(
                        BuildError::ConflictingCapability { field: "semanticTokensProvider" },
                    );
                }
            },
            (None, Some(value)) => {
                *target = Some(value);
            },
            _ => {},
        }
        Ok(())
    }

    /// Reject a mode that was declared otherwise than it was contributed, and
    /// deltas without full documents.
    pub fn validate(&self) -> (result: Result<(), BuildError>)
        ensures
            if self@.is_valid() {
                result is Ok
            } else {
                is_conflict(result, "semanticTokensProvider"@)
            },
    {
        let full_matches = match self.declared_full {
            Some(value) => value == self.full,
            None => true,
        };
        let delta_matches = match self.declared_delta {
            Some(value) => value == self.delta,
            None => true,
        };
        let range_matches = match self.declared_range {
            Some(value) => value == self.range,
            None => true,
        };
        if !full_matches || !delta_matches || !range_matches || (self.delta && !self.full) {
            return Err(BuildError::ConflictingCapability { field: "semanticTokensProvider" });
        }
        Ok(())
    }

    /// The shared options with the modes that were contributed.
    pub fn finish(self) -> (options: Option<SemanticTokensOptions>)
        ensures
            options.deep_view() == self@.finish(),
    {
        match self.shared_options {
            None => None,
            Some(options) => {
                let mut options = options;
                options.range = if self.range {
                    Some(SemanticTokensOptionsRange::Bool(true))
                } else {
                    None
                };
                options.full = if self.delta {
                    Some(
                        Full::SemanticTokensFullDelta(
                            SemanticTokensFullDelta { delta: Some(true) },
                        ),
                    )
                } else if self.full {
                    Some(Full::Bool(true))
                } else {
                    None
                };
                Some(options)
            },
        }
    }
}

/// What a file-operation family has gathered.
pub struct FileOperationFamilyView {
    /// The filters that both sides share.
    pub options: Option<FileOperationRegistrationOptionsView>,
    /// Whether the request before the operation was contributed.
    pub will: bool,
    /// Whether the notification after it was.
    pub did: bool,
}

impl FileOperationFamilyView {
    /// Nothing gathered.
    pub open spec fn empty() -> Self {
        FileOperationFamilyView { options: None, will: false, did: false }
    }

    /// The family after a contribution from one side; `None` where it disagrees
    /// on the filters.
    pub open spec fn contribute(
        self,
        options: FileOperationRegistrationOptionsView,
        will: bool,
    ) -> Option<Self> {
        if conflicts(self.options, options) {
            None
        } else {
            Some(
                FileOperationFamilyView {
                    options: Some(options),
                    will: self.will || will,
                    did: self.did || !will,
                },
            )
        }
    }

    /// Whether a side was contributed.
    pub open spec fn is_reported(self) -> bool {
        self.will || self.did
    }

    /// The filters, for a side that was contributed.
    pub open spec fn side(self, contributed: bool) -> Option<FileOperationRegistrationOptionsView> {
        if contributed {
            self.options
        } else {
            None
        }
    }
}

/// The in-progress state of one file-operation family (create, rename, or
/// delete). The family's `will*` request route and its `did*` notification
/// route share one [`FileOperationRegistrationOptions`] value, so either side
/// can contribute the family without allowing its singular filters to drift;
/// `will` and `did` record which sides registered, and
/// [`finish`](CapabilityBuilder::finish) advertises exactly those sides.
pub struct FileOperationFamily {
    options: Option<FileOperationRegistrationOptions>,
    will: bool,
    did: bool,
}

impl View for FileOperationFamily {
    type V = FileOperationFamilyView;

    closed spec fn view(&self) -> FileOperationFamilyView {
        FileOperationFamilyView {
            options: self.options.deep_view(),
            will: self.will,
            did: self.did,
        }
    }
}

impl Default for FileOperationFamily {
    fn default() -> (family: Self)
        ensures
            family@ == FileOperationFamilyView::empty(),
    {
        FileOperationFamily { options: None, will: false, did: false }
    }
}

impl FileOperationFamily {
    /// Contribute registration options to this family, marking the
    /// contributing side. Identical options merge; a disagreement is a
    /// [`BuildError::ConflictingCapability`] naming the family rather than a
    /// silent overwrite.
    pub fn contribute(
        &mut self,
        options: FileOperationRegistrationOptions,
        will: bool,
        field: &'static str,
    ) -> (result: Result<(), BuildError>)
        ensures
            match old(self)@.contribute(options.deep_view(), will) {
                Some(family) => result is Ok && final(self)@ == family,
                None => is_conflict(result, field@) && final(self)@ == old(self)@,
            },
    {
        match contribute_singular(&mut self.options, options, field) {
            Ok(()) => {},
            Err(error) => return Err(error),
        }
        if will {
            self.will = true;
        } else {
            self.did = true;
        }
        Ok(())
    }

    /// The family's shared options when its `will*` side registered.
    fn will_options(&self) -> (options: Option<FileOperationRegistrationOptions>)
        ensures
            options.deep_view() == self@.side(self@.will),
    {
        if self.will {
            self.options.copy_content()
        } else {
            None
        }
    }

    /// The family's shared options when its `did*` side registered.
    fn did_options(&self) -> (options: Option<FileOperationRegistrationOptions>)
        ensures
            options.deep_view() == self@.side(self@.did),
    {
        if self.did {
            self.options.copy_content()
        } else {
            None
        }
    }
}

impl Dependable for CompletionOptions {
    open spec fn flag_of(view: CompletionOptionsView) -> Option<bool> {
        view.resolve_provider
    }

    open spec fn with_flag(view: CompletionOptionsView) -> CompletionOptionsView {
        CompletionOptionsView { resolve_provider: Some(true), ..view }
    }

    fn flag(&self) -> (flag: Option<bool>) {
        self.resolve_provider
    }

    fn set_flag(&mut self) {
        self.resolve_provider = Some(true);
    }
}

impl Dependable for WorkspaceSymbolOptions {
    open spec fn flag_of(view: WorkspaceSymbolOptions) -> Option<bool> {
        view.resolve_provider
    }

    open spec fn with_flag(view: WorkspaceSymbolOptions) -> WorkspaceSymbolOptions {
        WorkspaceSymbolOptions { resolve_provider: Some(true), ..view }
    }

    fn flag(&self) -> (flag: Option<bool>) {
        self.resolve_provider
    }

    fn set_flag(&mut self) {
        self.resolve_provider = Some(true);
    }
}

impl Dependable for RenameOptions {
    open spec fn flag_of(view: RenameOptions) -> Option<bool> {
        view.prepare_provider
    }

    open spec fn with_flag(view: RenameOptions) -> RenameOptions {
        RenameOptions { prepare_provider: Some(true), ..view }
    }

    fn flag(&self) -> (flag: Option<bool>) {
        self.prepare_provider
    }

    fn set_flag(&mut self) {
        self.prepare_provider = Some(true);
    }
}

impl Dependable for CodeActionOptions {
    open spec fn flag_of(view: CodeActionOptionsView) -> Option<bool> {
        view.resolve_provider
    }

    open spec fn with_flag(view: CodeActionOptionsView) -> CodeActionOptionsView {
        CodeActionOptionsView { resolve_provider: Some(true), ..view }
    }

    fn flag(&self) -> (flag: Option<bool>) {
        self.resolve_provider
    }

    fn set_flag(&mut self) {
        self.resolve_provider = Some(true);
    }
}

impl Dependable for CodeLensOptions {
    open spec fn flag_of(view: CodeLensOptions) -> Option<bool> {
        view.resolve_provider
    }

    open spec fn with_flag(view: CodeLensOptions) -> CodeLensOptions {
        CodeLensOptions { resolve_provider: Some(true), ..view }
    }

    fn flag(&self) -> (flag: Option<bool>) {
        self.resolve_provider
    }

    fn set_flag(&mut self) {
        self.resolve_provider = Some(true);
    }
}

impl Dependable for DocumentLinkOptions {
    open spec fn flag_of(view: DocumentLinkOptions) -> Option<bool> {
        view.resolve_provider
    }

    open spec fn with_flag(view: DocumentLinkOptions) -> DocumentLinkOptions {
        DocumentLinkOptions { resolve_provider: Some(true), ..view }
    }

    fn flag(&self) -> (flag: Option<bool>) {
        self.resolve_provider
    }

    fn set_flag(&mut self) {
        self.resolve_provider = Some(true);
    }
}

impl Dependable for InlayHintOptions {
    open spec fn flag_of(view: InlayHintOptions) -> Option<bool> {
        view.resolve_provider
    }

    open spec fn with_flag(view: InlayHintOptions) -> InlayHintOptions {
        InlayHintOptions { resolve_provider: Some(true), ..view }
    }

    fn flag(&self) -> (flag: Option<bool>) {
        self.resolve_provider
    }

    fn set_flag(&mut self) {
        self.resolve_provider = Some(true);
    }
}

/// What a [`CapabilityBuilder`] has gathered.
pub struct CatalogView {
    /// The fields that no family stands behind.
    pub caps: ServerCapabilitiesView,
    /// The commands' names, in the order of their registration.
    pub commands: Seq<Seq<char>>,
    pub call_hierarchy: FamilyView<CallHierarchyOptions>,
    pub type_hierarchy: FamilyView<TypeHierarchyOptions>,
    pub color: FamilyView<DocumentColorOptions>,
    pub semantic_tokens: SemanticTokensFamilyView,
    pub completion: FamilyView<CompletionOptionsView>,
    pub workspace_symbols: FamilyView<WorkspaceSymbolOptions>,
    pub rename: FamilyView<RenameOptions>,
    pub code_actions: FamilyView<CodeActionOptionsView>,
    pub code_lens: FamilyView<CodeLensOptions>,
    pub document_links: FamilyView<DocumentLinkOptions>,
    pub inlay_hints: FamilyView<InlayHintOptions>,
    pub diagnostics: Option<DiagnosticOptionsView>,
    pub file_create: FileOperationFamilyView,
    pub file_rename: FileOperationFamilyView,
    pub file_delete: FileOperationFamilyView,
    pub will_save_wait_until: bool,
}

impl CatalogView {
    /// Nothing gathered.
    pub open spec fn empty() -> Self {
        CatalogView {
            caps: ServerCapabilitiesView::empty(),
            commands: Seq::empty(),
            call_hierarchy: FamilyView::empty(),
            type_hierarchy: FamilyView::empty(),
            color: FamilyView::empty(),
            semantic_tokens: SemanticTokensFamilyView::empty(),
            completion: FamilyView::empty(),
            workspace_symbols: FamilyView::empty(),
            rename: FamilyView::empty(),
            code_actions: FamilyView::empty(),
            code_lens: FamilyView::empty(),
            document_links: FamilyView::empty(),
            inlay_hints: FamilyView::empty(),
            diagnostics: None,
            file_create: FileOperationFamilyView::empty(),
            file_rename: FileOperationFamilyView::empty(),
            file_delete: FileOperationFamilyView::empty(),
            will_save_wait_until: false,
        }
    }

    /// The catalog with the hover capability.
    pub open spec fn set_hover(self) -> Self {
        CatalogView {
            caps: ServerCapabilitiesView { hover_provider: Some(true), ..self.caps },
            ..self
        }
    }

    /// The catalog with the pre-save edit request.
    pub open spec fn set_will_save_wait_until(self) -> Self {
        CatalogView { will_save_wait_until: true, ..self }
    }

    /// The catalog with one command more, unless it has it already.
    pub open spec fn add_command(self, name: Seq<char>) -> Self {
        if self.commands.contains(name) {
            self
        } else {
            CatalogView { commands: self.commands.push(name), ..self }
        }
    }

    /// The catalog with options of pull diagnostics.
    pub open spec fn set_diagnostics(self, options: DiagnosticOptionsView) -> Contributed {
        if conflicts(self.diagnostics, options) {
            Err("diagnosticProvider"@)
        } else {
            Ok(CatalogView { diagnostics: Some(options), ..self })
        }
    }

    /// The catalog with options of semantic tokens for one kind of request.
    pub open spec fn set_semantic_tokens(
        self,
        options: SemanticTokensOptionsView,
        mode: SemanticTokensMode,
    ) -> Contributed {
        match self.semantic_tokens.contribute(options, mode) {
            Some(semantic_tokens) => Ok(CatalogView { semantic_tokens, ..self }),
            None => Err("semanticTokensProvider"@),
        }
    }

    /// The catalog with document-formatting options.
    pub open spec fn set_document_formatting(self, options: DocumentFormattingOptions) -> Contributed {
        if conflicts(self.caps.document_formatting_provider, options) {
            Err("documentFormattingProvider"@)
        } else {
            Ok(
                CatalogView {
                    caps: ServerCapabilitiesView {
                        document_formatting_provider: Some(options),
                        ..self.caps
                    },
                    ..self
                },
            )
        }
    }

    /// The catalog with range-formatting options.
    pub open spec fn set_range_formatting(self, options: DocumentRangeFormattingOptions) -> Contributed {
        if conflicts(self.caps.document_range_formatting_provider, options) {
            Err("documentRangeFormattingProvider"@)
        } else {
            Ok(
                CatalogView {
                    caps: ServerCapabilitiesView {
                        document_range_formatting_provider: Some(options),
                        ..self.caps
                    },
                    ..self
                },
            )
        }
    }

    /// The catalog with on-type-formatting options.
    pub open spec fn set_on_type_formatting(self, options: DocumentOnTypeFormattingOptionsView) -> Contributed {
        if conflicts(self.caps.document_on_type_formatting_provider, options) {
            Err("documentOnTypeFormattingProvider"@)
        } else {
            Ok(
                CatalogView {
                    caps: ServerCapabilitiesView {
                        document_on_type_formatting_provider: Some(options),
                        ..self.caps
                    },
                    ..self
                },
            )
        }
    }

    /// The catalog with folding-range options.
    pub open spec fn set_folding_range(self, options: FoldingRangeOptions) -> Contributed {
        if conflicts(self.caps.folding_range_provider, options) {
            Err("foldingRangeProvider"@)
        } else {
            Ok(
                CatalogView {
                    caps: ServerCapabilitiesView {
                        folding_range_provider: Some(options),
                        ..self.caps
                    },
                    ..self
                },
            )
        }
    }

    /// The catalog with selection-range options.
    pub open spec fn set_selection_range(self, options: SelectionRangeOptions) -> Contributed {
        if conflicts(self.caps.selection_range_provider, options) {
            Err("selectionRangeProvider"@)
        } else {
            Ok(
                CatalogView {
                    caps: ServerCapabilitiesView {
                        selection_range_provider: Some(options),
                        ..self.caps
                    },
                    ..self
                },
            )
        }
    }

    /// The catalog with inline-value options.
    pub open spec fn set_inline_value(self, options: InlineValueOptions) -> Contributed {
        if conflicts(self.caps.inline_value_provider, options) {
            Err("inlineValueProvider"@)
        } else {
            Ok(
                CatalogView {
                    caps: ServerCapabilitiesView {
                        inline_value_provider: Some(options),
                        ..self.caps
                    },
                    ..self
                },
            )
        }
    }

    /// The catalog with signature-help options.
    pub open spec fn set_signature_help(self, options: SignatureHelpOptionsView) -> Contributed {
        if conflicts(self.caps.signature_help_provider, options) {
            Err("signatureHelpProvider"@)
        } else {
            Ok(
                CatalogView {
                    caps: ServerCapabilitiesView {
                        signature_help_provider: Some(options),
                        ..self.caps
                    },
                    ..self
                },
            )
        }
    }

    /// The catalog with declaration options.
    pub open spec fn set_declaration(self, options: DeclarationOptions) -> Contributed {
        if conflicts(self.caps.declaration_provider, options) {
            Err("declarationProvider"@)
        } else {
            Ok(
                CatalogView {
                    caps: ServerCapabilitiesView {
                        declaration_provider: Some(options),
                        ..self.caps
                    },
                    ..self
                },
            )
        }
    }

    /// The catalog with definition options.
    pub open spec fn set_definition(self, options: DefinitionOptions) -> Contributed {
        if conflicts(self.caps.definition_provider, options) {
            Err("definitionProvider"@)
        } else {
            Ok(
                CatalogView {
                    caps: ServerCapabilitiesView {
                        definition_provider: Some(options),
                        ..self.caps
                    },
                    ..self
                },
            )
        }
    }

    /// The catalog with type-definition options.
    pub open spec fn set_type_definition(self, options: TypeDefinitionRegistrationOptionsView) -> Contributed {
        if conflicts(self.caps.type_definition_provider, options) {
            Err("typeDefinitionProvider"@)
        } else {
            Ok(
                CatalogView {
                    caps: ServerCapabilitiesView {
                        type_definition_provider: Some(options),
                        ..self.caps
                    },
                    ..self
                },
            )
        }
    }

    /// The catalog with implementation options.
    pub open spec fn set_implementation(self, options: ImplementationRegistrationOptionsView) -> Contributed {
        if conflicts(self.caps.implementation_provider, options) {
            Err("implementationProvider"@)
        } else {
            Ok(
                CatalogView {
                    caps: ServerCapabilitiesView {
                        implementation_provider: Some(options),
                        ..self.caps
                    },
                    ..self
                },
            )
        }
    }

    /// The catalog with references options.
    pub open spec fn set_references(self, options: ReferenceOptions) -> Contributed {
        if conflicts(self.caps.references_provider, options) {
            Err("referencesProvider"@)
        } else {
            Ok(
                CatalogView {
                    caps: ServerCapabilitiesView {
                        references_provider: Some(options),
                        ..self.caps
                    },
                    ..self
                },
            )
        }
    }

    /// The catalog with document-highlight options.
    pub open spec fn set_document_highlight(self, options: DocumentHighlightOptions) -> Contributed {
        if conflicts(self.caps.document_highlight_provider, options) {
            Err("documentHighlightProvider"@)
        } else {
            Ok(
                CatalogView {
                    caps: ServerCapabilitiesView {
                        document_highlight_provider: Some(options),
                        ..self.caps
                    },
                    ..self
                },
            )
        }
    }

    /// The catalog with document-symbol options.
    pub open spec fn set_document_symbol(self, options: DocumentSymbolOptionsView) -> Contributed {
        if conflicts(self.caps.document_symbol_provider, options) {
            Err("documentSymbolProvider"@)
        } else {
            Ok(
                CatalogView {
                    caps: ServerCapabilitiesView {
                        document_symbol_provider: Some(options),
                        ..self.caps
                    },
                    ..self
                },
            )
        }
    }

    /// The catalog with linked-editing-range options.
    pub open spec fn set_linked_editing_range(self, options: LinkedEditingRangeOptions) -> Contributed {
        if conflicts(self.caps.linked_editing_range_provider, options) {
            Err("linkedEditingRangeProvider"@)
        } else {
            Ok(
                CatalogView {
                    caps: ServerCapabilitiesView {
                        linked_editing_range_provider: Some(options),
                        ..self.caps
                    },
                    ..self
                },
            )
        }
    }

    /// The catalog with moniker options.
    pub open spec fn set_moniker(self, options: MonikerOptions) -> Contributed {
        if conflicts(self.caps.moniker_provider, options) {
            Err("monikerProvider"@)
        } else {
            Ok(
                CatalogView {
                    caps: ServerCapabilitiesView {
                        moniker_provider: Some(options),
                        ..self.caps
                    },
                    ..self
                },
            )
        }
    }

    /// The catalog with call-hierarchy options.
    pub open spec fn set_call_hierarchy(self, options: CallHierarchyOptions) -> Contributed {
        if conflicts(self.call_hierarchy.options, options) {
            Err("callHierarchyProvider"@)
        } else {
            Ok(
                CatalogView {
                    call_hierarchy: FamilyView { options: Some(options), ..self.call_hierarchy },
                    ..self
                },
            )
        }
    }

    /// The catalog with a route that depends on call-hierarchy.
    pub open spec fn set_call_hierarchy_dependent(self) -> Self {
        CatalogView {
            call_hierarchy: FamilyView { dependent: true, ..self.call_hierarchy },
            ..self
        }
    }

    /// The catalog with type-hierarchy options.
    pub open spec fn set_type_hierarchy(self, options: TypeHierarchyOptions) -> Contributed {
        if conflicts(self.type_hierarchy.options, options) {
            Err("typeHierarchyProvider"@)
        } else {
            Ok(
                CatalogView {
                    type_hierarchy: FamilyView { options: Some(options), ..self.type_hierarchy },
                    ..self
                },
            )
        }
    }

    /// The catalog with a route that depends on type-hierarchy.
    pub open spec fn set_type_hierarchy_dependent(self) -> Self {
        CatalogView {
            type_hierarchy: FamilyView { dependent: true, ..self.type_hierarchy },
            ..self
        }
    }

    /// The catalog with document-color options.
    pub open spec fn set_document_color(self, options: DocumentColorOptions) -> Contributed {
        if conflicts(self.color.options, options) {
            Err("colorProvider"@)
        } else {
            Ok(
                CatalogView {
                    color: FamilyView { options: Some(options), ..self.color },
                    ..self
                },
            )
        }
    }

    /// The catalog with a route that depends on document-color.
    pub open spec fn set_document_color_dependent(self) -> Self {
        CatalogView {
            color: FamilyView { dependent: true, ..self.color },
            ..self
        }
    }

    /// The catalog with completion options.
    pub open spec fn set_completion(self, options: CompletionOptionsView) -> Contributed {
        if conflicts(self.completion.options, options) {
            Err("completionProvider"@)
        } else {
            Ok(
                CatalogView {
                    completion: FamilyView { options: Some(options), ..self.completion },
                    ..self
                },
            )
        }
    }

    /// The catalog with the request that depends on completion.
    pub open spec fn set_completion_resolve(self) -> Self {
        CatalogView {
            completion: FamilyView { dependent: true, ..self.completion },
            ..self
        }
    }

    /// The catalog with workspace-symbol options.
    pub open spec fn set_workspace_symbol(self, options: WorkspaceSymbolOptions) -> Contributed {
        if conflicts(self.workspace_symbols.options, options) {
            Err("workspaceSymbolProvider"@)
        } else {
            Ok(
                CatalogView {
                    workspace_symbols: FamilyView { options: Some(options), ..self.workspace_symbols },
                    ..self
                },
            )
        }
    }

    /// The catalog with the request that depends on workspace-symbol.
    pub open spec fn set_workspace_symbol_resolve(self) -> Self {
        CatalogView {
            workspace_symbols: FamilyView { dependent: true, ..self.workspace_symbols },
            ..self
        }
    }

    /// The catalog with rename options.
    pub open spec fn set_rename(self, options: RenameOptions) -> Contributed {
        if conflicts(self.rename.options, options) {
            Err("renameProvider"@)
        } else {
            Ok(
                CatalogView {
                    rename: FamilyView { options: Some(options), ..self.rename },
                    ..self
                },
            )
        }
    }

    /// The catalog with the request that depends on rename.
    pub open spec fn set_prepare_rename(self) -> Self {
        CatalogView {
            rename: FamilyView { dependent: true, ..self.rename },
            ..self
        }
    }

    /// The catalog with code-action options.
    pub open spec fn set_code_action(self, options: CodeActionOptionsView) -> Contributed {
        if conflicts(self.code_actions.options, options) {
            Err("codeActionProvider"@)
        } else {
            Ok(
                CatalogView {
                    code_actions: FamilyView { options: Some(options), ..self.code_actions },
                    ..self
                },
            )
        }
    }

    /// The catalog with the request that depends on code-action.
    pub open spec fn set_code_action_resolve(self) -> Self {
        CatalogView {
            code_actions: FamilyView { dependent: true, ..self.code_actions },
            ..self
        }
    }

    /// The catalog with code-lens options.
    pub open spec fn set_code_lens(self, options: CodeLensOptions) -> Contributed {
        if conflicts(self.code_lens.options, options) {
            Err("codeLensProvider"@)
        } else {
            Ok(
                CatalogView {
                    code_lens: FamilyView { options: Some(options), ..self.code_lens },
                    ..self
                },
            )
        }
    }

    /// The catalog with the request that depends on code-lens.
    pub open spec fn set_code_lens_resolve(self) -> Self {
        CatalogView {
            code_lens: FamilyView { dependent: true, ..self.code_lens },
            ..self
        }
    }

    /// The catalog with document-link options.
    pub open spec fn set_document_link(self, options: DocumentLinkOptions) -> Contributed {
        if conflicts(self.document_links.options, options) {
            Err("documentLinkProvider"@)
        } else {
            Ok(
                CatalogView {
                    document_links: FamilyView { options: Some(options), ..self.document_links },
                    ..self
                },
            )
        }
    }

    /// The catalog with the request that depends on document-link.
    pub open spec fn set_document_link_resolve(self) -> Self {
        CatalogView {
            document_links: FamilyView { dependent: true, ..self.document_links },
            ..self
        }
    }

    /// The catalog with inlay-hint options.
    pub open spec fn set_inlay_hint(self, options: InlayHintOptions) -> Contributed {
        if conflicts(self.inlay_hints.options, options) {
            Err("inlayHintProvider"@)
        } else {
            Ok(
                CatalogView {
                    inlay_hints: FamilyView { options: Some(options), ..self.inlay_hints },
                    ..self
                },
            )
        }
    }

    /// The catalog with the request that depends on inlay-hint.
    pub open spec fn set_inlay_hint_resolve(self) -> Self {
        CatalogView {
            inlay_hints: FamilyView { dependent: true, ..self.inlay_hints },
            ..self
        }
    }

    /// The catalog with filters of the create family, for one of its sides.
    pub open spec fn set_file_create(
        self,
        options: FileOperationRegistrationOptionsView,
        will: bool,
    ) -> Contributed {
        match self.file_create.contribute(options, will) {
            Some(file_create) => Ok(CatalogView { file_create, ..self }),
            None => Err("workspace.fileOperations.create"@),
        }
    }

    /// The catalog with filters of the rename family, for one of its sides.
    pub open spec fn set_file_rename(
        self,
        options: FileOperationRegistrationOptionsView,
        will: bool,
    ) -> Contributed {
        match self.file_rename.contribute(options, will) {
            Some(file_rename) => Ok(CatalogView { file_rename, ..self }),
            None => Err("workspace.fileOperations.rename"@),
        }
    }

    /// The catalog with filters of the delete family, for one of its sides.
    pub open spec fn set_file_delete(
        self,
        options: FileOperationRegistrationOptionsView,
        will: bool,
    ) -> Contributed {
        match self.file_delete.contribute(options, will) {
            Some(file_delete) => Ok(CatalogView { file_delete, ..self }),
            None => Err("workspace.fileOperations.delete"@),
        }
    }

    /// The first capability field that cannot be advertised as gathered, in the
    /// order in which the families are looked at.
    pub open spec fn invalid_field(self) -> Option<Seq<char>> {
        if self.call_hierarchy.is_dangling() {
            Some("callHierarchyProvider"@)
        }
        else if self.type_hierarchy.is_dangling() {
            Some("typeHierarchyProvider"@)
        }
        else if self.color.is_dangling() {
            Some("colorProvider"@)
        }
        else if !self.semantic_tokens.is_valid() {
            Some("semanticTokensProvider"@)
        }
        else if self.completion.is_dangling() || self.completion.denies::<CompletionOptions>() {
            Some("completionProvider"@)
        }
        else if self.workspace_symbols.is_dangling() || self.workspace_symbols.denies::<WorkspaceSymbolOptions>() {
            Some("workspaceSymbolProvider"@)
        }
        else if self.rename.is_dangling() || self.rename.denies::<RenameOptions>() {
            Some("renameProvider"@)
        }
        else if self.code_actions.is_dangling() || self.code_actions.denies::<CodeActionOptions>() {
            Some("codeActionProvider"@)
        }
        else if self.code_lens.is_dangling() || self.code_lens.denies::<CodeLensOptions>() {
            Some("codeLensProvider"@)
        }
        else if self.document_links.is_dangling() || self.document_links.denies::<DocumentLinkOptions>() {
            Some("documentLinkProvider"@)
        }
        else if self.inlay_hints.is_dangling() || self.inlay_hints.denies::<InlayHintOptions>() {
            Some("inlayHintProvider"@)
        }
        else {
            None
        }
    }

    /// The capabilities made of what was gathered.
    ///
    /// Each family gives one field: its base options, with the flag of its
    /// dependent request folded in. The command list appears where there is a
    /// command, and the workspace object where a file operation is reported.
    pub open spec fn finish(self) -> ServerCapabilitiesView {
        ServerCapabilitiesView {
            call_hierarchy_provider: self.call_hierarchy.options_or(self.caps.call_hierarchy_provider),
            type_hierarchy_provider: self.type_hierarchy.options,
            color_provider: self.color.options_or(self.caps.color_provider),
            semantic_tokens_provider: match self.semantic_tokens.finish() {
                Some(options) => Some(options),
                None => self.caps.semantic_tokens_provider,
            },
            completion_provider: self.completion.folded_or::<CompletionOptions>(self.caps.completion_provider),
            workspace_symbol_provider: self.workspace_symbols.folded_or::<WorkspaceSymbolOptions>(self.caps.workspace_symbol_provider),
            rename_provider: self.rename.folded_or::<RenameOptions>(self.caps.rename_provider),
            code_action_provider: self.code_actions.folded_or::<CodeActionOptions>(self.caps.code_action_provider),
            code_lens_provider: self.code_lens.folded_or::<CodeLensOptions>(self.caps.code_lens_provider),
            document_link_provider: self.document_links.folded_or::<DocumentLinkOptions>(self.caps.document_link_provider),
            inlay_hint_provider: self.inlay_hints.folded_or::<InlayHintOptions>(self.caps.inlay_hint_provider),
            execute_command_provider: if self.commands.len() > 0 {
                Some(
                    ExecuteCommandOptionsView {
                        commands: self.commands,
                        work_done_progress_options: WorkDoneProgressOptions {
                            work_done_progress: None,
                        },
                    },
                )
            } else {
                self.caps.execute_command_provider
            },
            diagnostic_provider: match self.diagnostics {
                Some(options) => Some(options),
                None => self.caps.diagnostic_provider,
            },
            workspace: if self.file_create.is_reported() || self.file_rename.is_reported()
                || self.file_delete.is_reported() {
                Some(
                    WorkspaceOptionsView {
                        workspace_folders: None,
                        file_operations: Some(
                            FileOperationOptionsView {
                                did_create: self.file_create.side(self.file_create.did),
                                will_create: self.file_create.side(self.file_create.will),
                                did_rename: self.file_rename.side(self.file_rename.did),
                                will_rename: self.file_rename.side(self.file_rename.will),
                                did_delete: self.file_delete.side(self.file_delete.did),
                                will_delete: self.file_delete.side(self.file_delete.will),
                            },
                        ),
                    },
                )
            } else {
                self.caps.workspace
            },
            ..self.caps
        }
    }
}

/// Accumulates standard-feature and command capability contributions and
/// freezes them into one [`ServerCapabilities`] value.
///
/// Multi-method families accumulate beside the in-progress capabilities rather
/// than in them: the completion family keeps its base options and its resolve
/// flag together so the base feature and the completion-item resolve feature
/// emit one merged `completionProvider` regardless of registration order. The
/// ordered list of command names makes the execute-command list de-duplicated
/// and registration-order preserving. Protocol-owned negotiated fields (for
/// example the position encoding) are layered on separately by the engine and
/// never pass through here.
pub struct CapabilityBuilder {
    caps: ServerCapabilities,
    commands: Vec<String>,
    call_hierarchy: BaseDependentFamily<CallHierarchyOptions>,
    type_hierarchy: BaseDependentFamily<TypeHierarchyOptions>,
    color: BaseDependentFamily<DocumentColorOptions>,
    semantic_tokens: SemanticTokensFamily,
    completion: BaseDependentFamily<CompletionOptions>,
    workspace_symbols: BaseDependentFamily<WorkspaceSymbolOptions>,
    rename: BaseDependentFamily<RenameOptions>,
    code_actions: BaseDependentFamily<CodeActionOptions>,
    code_lens: BaseDependentFamily<CodeLensOptions>,
    document_links: BaseDependentFamily<DocumentLinkOptions>,
    inlay_hints: BaseDependentFamily<InlayHintOptions>,
    diagnostics: Option<DiagnosticOptions>,
    file_create: FileOperationFamily,
    file_rename: FileOperationFamily,
    file_delete: FileOperationFamily,
    will_save_wait_until: bool,
}

impl View for CapabilityBuilder {
    type V = CatalogView;

    closed spec fn view(&self) -> CatalogView {
        CatalogView {
            caps: self.caps.deep_view(),
            commands: self.commands.deep_view(),
            call_hierarchy: self.call_hierarchy@,
            type_hierarchy: self.type_hierarchy@,
            color: self.color@,
            semantic_tokens: self.semantic_tokens@,
            completion: self.completion@,
            workspace_symbols: self.workspace_symbols@,
            rename: self.rename@,
            code_actions: self.code_actions@,
            code_lens: self.code_lens@,
            document_links: self.document_links@,
            inlay_hints: self.inlay_hints@,
            diagnostics: self.diagnostics.deep_view(),
            file_create: self.file_create@,
            file_rename: self.file_rename@,
            file_delete: self.file_delete@,
            will_save_wait_until: self.will_save_wait_until,
        }
    }
}

impl Default for CapabilityBuilder {
    fn default() -> (builder: Self)
        ensures
            builder@ == CatalogView::empty(),
    {
        let builder = CapabilityBuilder {
            caps: ServerCapabilities::default(),
            commands: Vec::new(),
            call_hierarchy: BaseDependentFamily::default(),
            type_hierarchy: BaseDependentFamily::default(),
            color: BaseDependentFamily::default(),
            semantic_tokens: SemanticTokensFamily::default(),
            completion: BaseDependentFamily::default(),
            workspace_symbols: BaseDependentFamily::default(),
            rename: BaseDependentFamily::default(),
            code_actions: BaseDependentFamily::default(),
            code_lens: BaseDependentFamily::default(),
            document_links: BaseDependentFamily::default(),
            inlay_hints: BaseDependentFamily::default(),
            diagnostics: None,
            file_create: FileOperationFamily::default(),
            file_rename: FileOperationFamily::default(),
            file_delete: FileOperationFamily::default(),
            will_save_wait_until: false,
        };
        assert(builder.commands.deep_view() =~= Seq::<Seq<char>>::empty());
        builder
    }
}

impl CapabilityBuilder {
    /// Record the typed `textDocument/willSaveWaitUntil` contribution. The
    /// protocol engine folds this into its protocol-owned sync options.
    pub fn set_will_save_wait_until(&mut self)
        ensures
            final(self)@ == old(self)@.set_will_save_wait_until(),
    {
        self.will_save_wait_until = true;
    }

    /// Whether the pre-save edit request was contributed.
    pub fn has_will_save_wait_until(&self) -> (has: bool)
        ensures
            has == self@.will_save_wait_until,
    {
        self.will_save_wait_until
    }

    /// Contribute the hover capability. Hover carries no options, so repeated
    /// contributions are identical and never conflict; the caller already
    /// rejects a duplicate `textDocument/hover` handler before reaching here.
    pub fn set_hover(&mut self) -> (result: Result<(), BuildError>)
        ensures
            result is Ok,
            final(self)@ == old(self)@.set_hover(),
    {
        self.caps.hover_provider = Some(true);
        Ok(())
    }

    /// Contribute the call-hierarchy options that its dependent routes need.
    pub fn set_call_hierarchy(&mut self, options: CallHierarchyOptions) -> (result: Result<(), BuildError>)
        ensures
            contributed(old(self)@, old(self)@.set_call_hierarchy(options.deep_view()), result, final(self)@),
    {
        self.call_hierarchy.contribute_base(options, "callHierarchyProvider")
    }

    /// Contribute the `callHierarchy/incomingCalls` route, which depends on the call-hierarchy
    /// options.
    pub fn set_call_hierarchy_incoming_calls(&mut self)
        ensures
            final(self)@ == old(self)@.set_call_hierarchy_dependent(),
    {
        self.call_hierarchy.contribute_subordinate();
    }

    /// Contribute the `callHierarchy/outgoingCalls` route, which depends on the call-hierarchy
    /// options.
    pub fn set_call_hierarchy_outgoing_calls(&mut self)
        ensures
            final(self)@ == old(self)@.set_call_hierarchy_dependent(),
    {
        self.call_hierarchy.contribute_subordinate();
    }

    /// Contribute the type-hierarchy options that its dependent routes need.
    pub fn set_type_hierarchy(&mut self, options: TypeHierarchyOptions) -> (result: Result<(), BuildError>)
        ensures
            contributed(old(self)@, old(self)@.set_type_hierarchy(options.deep_view()), result, final(self)@),
    {
        self.type_hierarchy.contribute_base(options, "typeHierarchyProvider")
    }

    /// Contribute the `typeHierarchy/supertypes` route, which depends on the type-hierarchy
    /// options.
    pub fn set_type_hierarchy_supertypes(&mut self)
        ensures
            final(self)@ == old(self)@.set_type_hierarchy_dependent(),
    {
        self.type_hierarchy.contribute_subordinate();
    }

    /// Contribute the `typeHierarchy/subtypes` route, which depends on the type-hierarchy
    /// options.
    pub fn set_type_hierarchy_subtypes(&mut self)
        ensures
            final(self)@ == old(self)@.set_type_hierarchy_dependent(),
    {
        self.type_hierarchy.contribute_subordinate();
    }

    /// Contribute the document-color options that its dependent routes need.
    pub fn set_document_color(&mut self, options: DocumentColorOptions) -> (result: Result<(), BuildError>)
        ensures
            contributed(old(self)@, old(self)@.set_document_color(options.deep_view()), result, final(self)@),
    {
        self.color.contribute_base(options, "colorProvider")
    }

    /// Contribute the `textDocument/colorPresentation` route, which depends on the document-color
    /// options.
    pub fn set_color_presentation(&mut self)
        ensures
            final(self)@ == old(self)@.set_document_color_dependent(),
    {
        self.color.contribute_subordinate();
    }

    /// Contribute semantic-token options through the full-document request.
    pub fn set_semantic_tokens_full(&mut self, options: SemanticTokensOptions) -> (result: Result<
        (),
        BuildError,
    >)
        ensures
            contributed(
                old(self)@,
                old(self)@.set_semantic_tokens(options.deep_view(), SemanticTokensMode::Full),
                result,
                final(self)@,
            ),
    {
        self.semantic_tokens.contribute(options, SemanticTokensMode::Full)
    }

    /// Contribute semantic-token options through the delta request.
    pub fn set_semantic_tokens_full_delta(&mut self, options: SemanticTokensOptions) -> (result: Result<
        (),
        BuildError,
    >)
        ensures
            contributed(
                old(self)@,
                old(self)@.set_semantic_tokens(options.deep_view(), SemanticTokensMode::Delta),
                result,
                final(self)@,
            ),
    {
        self.semantic_tokens.contribute(options, SemanticTokensMode::Delta)
    }

    /// Contribute semantic-token options through the range request.
    pub fn set_semantic_tokens_range(&mut self, options: SemanticTokensOptions) -> (result: Result<
        (),
        BuildError,
    >)
        ensures
            contributed(
                old(self)@,
                old(self)@.set_semantic_tokens(options.deep_view(), SemanticTokensMode::Range),
                result,
                final(self)@,
            ),
    {
        self.semantic_tokens.contribute(options, SemanticTokensMode::Range)
    }

    /// Contribute the supplied document-formatting options as the singular
    /// `documentFormattingProvider`. Two features that advertise different options
    /// cannot both be honored, so a mismatch is a
    /// [`BuildError::ConflictingCapability`] rather than a silent overwrite.
    pub fn set_document_formatting(&mut self, options: DocumentFormattingOptions) -> (result: Result<(), BuildError>)
        ensures
            contributed(old(self)@, old(self)@.set_document_formatting(options.deep_view()), result, final(self)@),
    {
        contribute_singular(&mut self.caps.document_formatting_provider, options, "documentFormattingProvider")
    }

    /// Contribute the supplied range-formatting options as the singular
    /// `documentRangeFormattingProvider`. Two features that advertise different options
    /// cannot both be honored, so a mismatch is a
    /// [`BuildError::ConflictingCapability`] rather than a silent overwrite.
    pub fn set_range_formatting(&mut self, options: DocumentRangeFormattingOptions) -> (result: Result<(), BuildError>)
        ensures
            contributed(old(self)@, old(self)@.set_range_formatting(options.deep_view()), result, final(self)@),
    {
        contribute_singular(&mut self.caps.document_range_formatting_provider, options, "documentRangeFormattingProvider")
    }

    /// Contribute the supplied on-type-formatting options as the singular
    /// `documentOnTypeFormattingProvider`. Two features that advertise different options
    /// cannot both be honored, so a mismatch is a
    /// [`BuildError::ConflictingCapability`] rather than a silent overwrite.
    pub fn set_on_type_formatting(&mut self, options: DocumentOnTypeFormattingOptions) -> (result: Result<(), BuildError>)
        ensures
            contributed(old(self)@, old(self)@.set_on_type_formatting(options.deep_view()), result, final(self)@),
    {
        contribute_singular(&mut self.caps.document_on_type_formatting_provider, options, "documentOnTypeFormattingProvider")
    }

    /// Contribute the supplied folding-range options as the singular
    /// `foldingRangeProvider`. Two features that advertise different options
    /// cannot both be honored, so a mismatch is a
    /// [`BuildError::ConflictingCapability`] rather than a silent overwrite.
    pub fn set_folding_range(&mut self, options: FoldingRangeOptions) -> (result: Result<(), BuildError>)
        ensures
            contributed(old(self)@, old(self)@.set_folding_range(options.deep_view()), result, final(self)@),
    {
        contribute_singular(&mut self.caps.folding_range_provider, options, "foldingRangeProvider")
    }

    /// Contribute the supplied selection-range options as the singular
    /// `selectionRangeProvider`. Two features that advertise different options
    /// cannot both be honored, so a mismatch is a
    /// [`BuildError::ConflictingCapability`] rather than a silent overwrite.
    pub fn set_selection_range(&mut self, options: SelectionRangeOptions) -> (result: Result<(), BuildError>)
        ensures
            contributed(old(self)@, old(self)@.set_selection_range(options.deep_view()), result, final(self)@),
    {
        contribute_singular(&mut self.caps.selection_range_provider, options, "selectionRangeProvider")
    }

    /// Contribute the supplied inline-value options as the singular
    /// `inlineValueProvider`. Two features that advertise different options
    /// cannot both be honored, so a mismatch is a
    /// [`BuildError::ConflictingCapability`] rather than a silent overwrite.
    pub fn set_inline_value(&mut self, options: InlineValueOptions) -> (result: Result<(), BuildError>)
        ensures
            contributed(old(self)@, old(self)@.set_inline_value(options.deep_view()), result, final(self)@),
    {
        contribute_singular(&mut self.caps.inline_value_provider, options, "inlineValueProvider")
    }

    /// Contribute the supplied signature-help options as the singular
    /// `signatureHelpProvider`. Two features that advertise different options
    /// cannot both be honored, so a mismatch is a
    /// [`BuildError::ConflictingCapability`] rather than a silent overwrite.
    pub fn set_signature_help(&mut self, options: SignatureHelpOptions) -> (result: Result<(), BuildError>)
        ensures
            contributed(old(self)@, old(self)@.set_signature_help(options.deep_view()), result, final(self)@),
    {
        contribute_singular(&mut self.caps.signature_help_provider, options, "signatureHelpProvider")
    }

    /// Contribute the supplied declaration options as the singular
    /// `declarationProvider`. Two features that advertise different options
    /// cannot both be honored, so a mismatch is a
    /// [`BuildError::ConflictingCapability`] rather than a silent overwrite.
    pub fn set_declaration(&mut self, options: DeclarationOptions) -> (result: Result<(), BuildError>)
        ensures
            contributed(old(self)@, old(self)@.set_declaration(options.deep_view()), result, final(self)@),
    {
        contribute_singular(&mut self.caps.declaration_provider, options, "declarationProvider")
    }

    /// Contribute the supplied definition options as the singular
    /// `definitionProvider`. Two features that advertise different options
    /// cannot both be honored, so a mismatch is a
    /// [`BuildError::ConflictingCapability`] rather than a silent overwrite.
    pub fn set_definition(&mut self, options: DefinitionOptions) -> (result: Result<(), BuildError>)
        ensures
            contributed(old(self)@, old(self)@.set_definition(options.deep_view()), result, final(self)@),
    {
        contribute_singular(&mut self.caps.definition_provider, options, "definitionProvider")
    }

    /// Contribute the supplied type-definition options as the singular
    /// `typeDefinitionProvider`. Two features that advertise different options
    /// cannot both be honored, so a mismatch is a
    /// [`BuildError::ConflictingCapability`] rather than a silent overwrite.
    pub fn set_type_definition(&mut self, options: TypeDefinitionRegistrationOptions) -> (result: Result<(), BuildError>)
        ensures
            contributed(old(self)@, old(self)@.set_type_definition(options.deep_view()), result, final(self)@),
    {
        contribute_singular(&mut self.caps.type_definition_provider, options, "typeDefinitionProvider")
    }

    /// Contribute the supplied implementation options as the singular
    /// `implementationProvider`. Two features that advertise different options
    /// cannot both be honored, so a mismatch is a
    /// [`BuildError::ConflictingCapability`] rather than a silent overwrite.
    pub fn set_implementation(&mut self, options: ImplementationRegistrationOptions) -> (result: Result<(), BuildError>)
        ensures
            contributed(old(self)@, old(self)@.set_implementation(options.deep_view()), result, final(self)@),
    {
        contribute_singular(&mut self.caps.implementation_provider, options, "implementationProvider")
    }

    /// Contribute the supplied references options as the singular
    /// `referencesProvider`. Two features that advertise different options
    /// cannot both be honored, so a mismatch is a
    /// [`BuildError::ConflictingCapability`] rather than a silent overwrite.
    pub fn set_references(&mut self, options: ReferenceOptions) -> (result: Result<(), BuildError>)
        ensures
            contributed(old(self)@, old(self)@.set_references(options.deep_view()), result, final(self)@),
    {
        contribute_singular(&mut self.caps.references_provider, options, "referencesProvider")
    }

    /// Contribute the supplied document-highlight options as the singular
    /// `documentHighlightProvider`. Two features that advertise different options
    /// cannot both be honored, so a mismatch is a
    /// [`BuildError::ConflictingCapability`] rather than a silent overwrite.
    pub fn set_document_highlight(&mut self, options: DocumentHighlightOptions) -> (result: Result<(), BuildError>)
        ensures
            contributed(old(self)@, old(self)@.set_document_highlight(options.deep_view()), result, final(self)@),
    {
        contribute_singular(&mut self.caps.document_highlight_provider, options, "documentHighlightProvider")
    }

    /// Contribute the supplied document-symbol options as the singular
    /// `documentSymbolProvider`. Two features that advertise different options
    /// cannot both be honored, so a mismatch is a
    /// [`BuildError::ConflictingCapability`] rather than a silent overwrite.
    pub fn set_document_symbol(&mut self, options: DocumentSymbolOptions) -> (result: Result<(), BuildError>)
        ensures
            contributed(old(self)@, old(self)@.set_document_symbol(options.deep_view()), result, final(self)@),
    {
        contribute_singular(&mut self.caps.document_symbol_provider, options, "documentSymbolProvider")
    }

    /// Contribute the supplied linked-editing-range options as the singular
    /// `linkedEditingRangeProvider`. Two features that advertise different options
    /// cannot both be honored, so a mismatch is a
    /// [`BuildError::ConflictingCapability`] rather than a silent overwrite.
    pub fn set_linked_editing_range(&mut self, options: LinkedEditingRangeOptions) -> (result: Result<(), BuildError>)
        ensures
            contributed(old(self)@, old(self)@.set_linked_editing_range(options.deep_view()), result, final(self)@),
    {
        contribute_singular(&mut self.caps.linked_editing_range_provider, options, "linkedEditingRangeProvider")
    }

    /// Contribute the supplied moniker options as the singular
    /// `monikerProvider`. Two features that advertise different options
    /// cannot both be honored, so a mismatch is a
    /// [`BuildError::ConflictingCapability`] rather than a silent overwrite.
    pub fn set_moniker(&mut self, options: MonikerOptions) -> (result: Result<(), BuildError>)
        ensures
            contributed(old(self)@, old(self)@.set_moniker(options.deep_view()), result, final(self)@),
    {
        contribute_singular(&mut self.caps.moniker_provider, options, "monikerProvider")
    }

    /// Contribute options to the shared document/workspace diagnostics
    /// capability. Every route must agree on the complete provider options;
    /// unequal contributions fail instead of making output order-dependent.
    pub fn set_diagnostics(&mut self, options: DiagnosticOptions) -> (result: Result<
        (),
        BuildError,
    >)
        ensures
            contributed(
                old(self)@,
                old(self)@.set_diagnostics(options.deep_view()),
                result,
                final(self)@,
            ),
    {
        contribute_singular(&mut self.diagnostics, options, "diagnosticProvider")
    }

    /// Contribute the supplied completion options as the base of their family.
    /// Two features that advertise different options cannot both be honored, so
    /// a mismatch is a [`BuildError::ConflictingCapability`] rather than a
    /// silent overwrite.
    pub fn set_completion(&mut self, options: CompletionOptions) -> (result: Result<(), BuildError>)
        ensures
            contributed(old(self)@, old(self)@.set_completion(options.deep_view()), result, final(self)@),
    {
        self.completion.contribute_base(options, "completionProvider")
    }

    /// Contribute the request that depends on completion. The contribution is
    /// idempotent, and one without its base is left to
    /// [`validate`](Self::validate), so the merge stays independent of
    /// registration order.
    pub fn set_completion_resolve(&mut self)
        ensures
            final(self)@ == old(self)@.set_completion_resolve(),
    {
        self.completion.contribute_subordinate();
    }

    /// Contribute the supplied workspace-symbol options as the base of their family.
    /// Two features that advertise different options cannot both be honored, so
    /// a mismatch is a [`BuildError::ConflictingCapability`] rather than a
    /// silent overwrite.
    pub fn set_workspace_symbol(&mut self, options: WorkspaceSymbolOptions) -> (result: Result<(), BuildError>)
        ensures
            contributed(old(self)@, old(self)@.set_workspace_symbol(options.deep_view()), result, final(self)@),
    {
        self.workspace_symbols.contribute_base(options, "workspaceSymbolProvider")
    }

    /// Contribute the request that depends on workspace-symbol. The contribution is
    /// idempotent, and one without its base is left to
    /// [`validate`](Self::validate), so the merge stays independent of
    /// registration order.
    pub fn set_workspace_symbol_resolve(&mut self)
        ensures
            final(self)@ == old(self)@.set_workspace_symbol_resolve(),
    {
        self.workspace_symbols.contribute_subordinate();
    }

    /// Contribute the supplied rename options as the base of their family.
    /// Two features that advertise different options cannot both be honored, so
    /// a mismatch is a [`BuildError::ConflictingCapability`] rather than a
    /// silent overwrite.
    pub fn set_rename(&mut self, options: RenameOptions) -> (result: Result<(), BuildError>)
        ensures
            contributed(old(self)@, old(self)@.set_rename(options.deep_view()), result, final(self)@),
    {
        self.rename.contribute_base(options, "renameProvider")
    }

    /// Contribute the request that depends on rename. The contribution is
    /// idempotent, and one without its base is left to
    /// [`validate`](Self::validate), so the merge stays independent of
    /// registration order.
    pub fn set_prepare_rename(&mut self)
        ensures
            final(self)@ == old(self)@.set_prepare_rename(),
    {
        self.rename.contribute_subordinate();
    }

    /// Contribute the supplied code-action options as the base of their family.
    /// Two features that advertise different options cannot both be honored, so
    /// a mismatch is a [`BuildError::ConflictingCapability`] rather than a
    /// silent overwrite.
    pub fn set_code_action(&mut self, options: CodeActionOptions) -> (result: Result<(), BuildError>)
        ensures
            contributed(old(self)@, old(self)@.set_code_action(options.deep_view()), result, final(self)@),
    {
        self.code_actions.contribute_base(options, "codeActionProvider")
    }

    /// Contribute the request that depends on code-action. The contribution is
    /// idempotent, and one without its base is left to
    /// [`validate`](Self::validate), so the merge stays independent of
    /// registration order.
    pub fn set_code_action_resolve(&mut self)
        ensures
            final(self)@ == old(self)@.set_code_action_resolve(),
    {
        self.code_actions.contribute_subordinate();
    }

    /// Contribute the supplied code-lens options as the base of their family.
    /// Two features that advertise different options cannot both be honored, so
    /// a mismatch is a [`BuildError::ConflictingCapability`] rather than a
    /// silent overwrite.
    pub fn set_code_lens(&mut self, options: CodeLensOptions) -> (result: Result<(), BuildError>)
        ensures
            contributed(old(self)@, old(self)@.set_code_lens(options.deep_view()), result, final(self)@),
    {
        self.code_lens.contribute_base(options, "codeLensProvider")
    }

    /// Contribute the request that depends on code-lens. The contribution is
    /// idempotent, and one without its base is left to
    /// [`validate`](Self::validate), so the merge stays independent of
    /// registration order.
    pub fn set_code_lens_resolve(&mut self)
        ensures
            final(self)@ == old(self)@.set_code_lens_resolve(),
    {
        self.code_lens.contribute_subordinate();
    }

    /// Contribute the supplied document-link options as the base of their family.
    /// Two features that advertise different options cannot both be honored, so
    /// a mismatch is a [`BuildError::ConflictingCapability`] rather than a
    /// silent overwrite.
    pub fn set_document_link(&mut self, options: DocumentLinkOptions) -> (result: Result<(), BuildError>)
        ensures
            contributed(old(self)@, old(self)@.set_document_link(options.deep_view()), result, final(self)@),
    {
        self.document_links.contribute_base(options, "documentLinkProvider")
    }

    /// Contribute the request that depends on document-link. The contribution is
    /// idempotent, and one without its base is left to
    /// [`validate`](Self::validate), so the merge stays independent of
    /// registration order.
    pub fn set_document_link_resolve(&mut self)
        ensures
            final(self)@ == old(self)@.set_document_link_resolve(),
    {
        self.document_links.contribute_subordinate();
    }

    /// Contribute the supplied inlay-hint options as the base of their family.
    /// Two features that advertise different options cannot both be honored, so
    /// a mismatch is a [`BuildError::ConflictingCapability`] rather than a
    /// silent overwrite.
    pub fn set_inlay_hint(&mut self, options: InlayHintOptions) -> (result: Result<(), BuildError>)
        ensures
            contributed(old(self)@, old(self)@.set_inlay_hint(options.deep_view()), result, final(self)@),
    {
        self.inlay_hints.contribute_base(options, "inlayHintProvider")
    }

    /// Contribute the request that depends on inlay-hint. The contribution is
    /// idempotent, and one without its base is left to
    /// [`validate`](Self::validate), so the merge stays independent of
    /// registration order.
    pub fn set_inlay_hint_resolve(&mut self)
        ensures
            final(self)@ == old(self)@.set_inlay_hint_resolve(),
    {
        self.inlay_hints.contribute_subordinate();
    }

    /// Contribute the supplied filters to the create file-operation family and
    /// advertise its `willCreateFiles` side. The `will*` and `did*` sides of a
    /// family share one filters value; unequal contributions fail instead of
    /// making output order-dependent.
    pub fn set_will_create(&mut self, options: FileOperationRegistrationOptions) -> (result: Result<
        (),
        BuildError,
    >)
        ensures
            contributed(
                old(self)@,
                old(self)@.set_file_create(options.deep_view(), true),
                result,
                final(self)@,
            ),
    {
        self.file_create.contribute(options, true, "workspace.fileOperations.create")
    }

    /// Contribute the supplied filters to the create file-operation family and
    /// advertise its `didCreateFiles` side. The `will*` and `did*` sides of a
    /// family share one filters value; unequal contributions fail instead of
    /// making output order-dependent.
    pub fn set_did_create(&mut self, options: FileOperationRegistrationOptions) -> (result: Result<
        (),
        BuildError,
    >)
        ensures
            contributed(
                old(self)@,
                old(self)@.set_file_create(options.deep_view(), false),
                result,
                final(self)@,
            ),
    {
        self.file_create.contribute(options, false, "workspace.fileOperations.create")
    }

    /// Contribute the supplied filters to the rename file-operation family and
    /// advertise its `willRenameFiles` side. The `will*` and `did*` sides of a
    /// family share one filters value; unequal contributions fail instead of
    /// making output order-dependent.
    pub fn set_will_rename(&mut self, options: FileOperationRegistrationOptions) -> (result: Result<
        (),
        BuildError,
    >)
        ensures
            contributed(
                old(self)@,
                old(self)@.set_file_rename(options.deep_view(), true),
                result,
                final(self)@,
            ),
    {
        self.file_rename.contribute(options, true, "workspace.fileOperations.rename")
    }

    /// Contribute the supplied filters to the rename file-operation family and
    /// advertise its `didRenameFiles` side. The `will*` and `did*` sides of a
    /// family share one filters value; unequal contributions fail instead of
    /// making output order-dependent.
    pub fn set_did_rename(&mut self, options: FileOperationRegistrationOptions) -> (result: Result<
        (),
        BuildError,
    >)
        ensures
            contributed(
                old(self)@,
                old(self)@.set_file_rename(options.deep_view(), false),
                result,
                final(self)@,
            ),
    {
        self.file_rename.contribute(options, false, "workspace.fileOperations.rename")
    }

    /// Contribute the supplied filters to the delete file-operation family and
    /// advertise its `willDeleteFiles` side. The `will*` and `did*` sides of a
    /// family share one filters value; unequal contributions fail instead of
    /// making output order-dependent.
    pub fn set_will_delete(&mut self, options: FileOperationRegistrationOptions) -> (result: Result<
        (),
        BuildError,
    >)
        ensures
            contributed(
                old(self)@,
                old(self)@.set_file_delete(options.deep_view(), true),
                result,
                final(self)@,
            ),
    {
        self.file_delete.contribute(options, true, "workspace.fileOperations.delete")
    }

    /// Contribute the supplied filters to the delete file-operation family and
    /// advertise its `didDeleteFiles` side. The `will*` and `did*` sides of a
    /// family share one filters value; unequal contributions fail instead of
    /// making output order-dependent.
    pub fn set_did_delete(&mut self, options: FileOperationRegistrationOptions) -> (result: Result<
        (),
        BuildError,
    >)
        ensures
            contributed(
                old(self)@,
                old(self)@.set_file_delete(options.deep_view(), false),
                result,
                final(self)@,
            ),
    {
        self.file_delete.contribute(options, false, "workspace.fileOperations.delete")
    }

    /// Cross-contribution validation a single contribution cannot perform on
    /// its own: a dependent feature whose required base is absent, or a base
    /// and a dependent that disagree on a singular family field. Run both at
    /// static build time and when the initialize transaction commits, so the
    /// rule applies identically to static and conditional registrations.
    pub fn validate(&self) -> (result: Result<(), BuildError>)
        ensures
            match self@.invalid_field() {
                Some(invalid) => is_conflict(result, invalid),
                None => result is Ok,
            },
    {
        match self.call_hierarchy.validate("callHierarchyProvider") {
            Ok(()) => {},
            Err(error) => return Err(error),
        }
        match self.type_hierarchy.validate("typeHierarchyProvider") {
            Ok(()) => {},
            Err(error) => return Err(error),
        }
        match self.color.validate("colorProvider") {
            Ok(()) => {},
            Err(error) => return Err(error),
        }
        match self.semantic_tokens.validate() {
            Ok(()) => {},
            Err(error) => return Err(error),
        }
        match self.completion.validate_flag("completionProvider") {
            Ok(()) => {},
            Err(error) => return Err(error),
        }
        match self.workspace_symbols.validate_flag("workspaceSymbolProvider") {
            Ok(()) => {},
            Err(error) => return Err(error),
        }
        match self.rename.validate_flag("renameProvider") {
            Ok(()) => {},
            Err(error) => return Err(error),
        }
        match self.code_actions.validate_flag("codeActionProvider") {
            Ok(()) => {},
            Err(error) => return Err(error),
        }
        match self.code_lens.validate_flag("codeLensProvider") {
            Ok(()) => {},
            Err(error) => return Err(error),
        }
        match self.document_links.validate_flag("documentLinkProvider") {
            Ok(()) => {},
            Err(error) => return Err(error),
        }
        match self.inlay_hints.validate_flag("inlayHintProvider") {
            Ok(()) => {},
            Err(error) => return Err(error),
        }
        Ok(())
    }

    /// Add one command name to the execute-command capability. Duplicate names
    /// are rejected earlier as a [`BuildError::DuplicateCommand`]; the ordered
    /// list only guarantees the emitted list is de-duplicated and preserves
    /// registration order.
    pub fn add_command(&mut self, name: String)
        ensures
            final(self)@ == old(self)@.add_command(name@),
    {
        let mut i: usize = 0;
        while i < self.commands.len()
            invariant
                i <= self.commands@.len(),
                *self == *old(self),
                forall|k: int| 0 <= k < i ==> #[trigger] self.commands@[k]@ != name@,
            decreases self.commands@.len() - i,
        {
            if self.commands[i] == name {
                assert(self@.commands[i as int] == name@);
                return ;
            }
            i = i + 1;
        }
        assert(!self@.commands.contains(name@)) by {
            if self@.commands.contains(name@) {
                let k = choose|k: int|
                    0 <= k < self@.commands.len() && self@.commands[k] == name@;
                assert(self.commands@[k]@ == name@);
            }
        }
        self.commands.push(name);
        assert(self.commands.deep_view() =~= old(self).commands.deep_view().push(name@));
    }

    /// Freeze the accumulated contributions into a `ServerCapabilities`.
    ///
    /// Each resolve/prepare family folds its dependent flag into the base
    /// options as `resolveProvider` or `prepareProvider`, emitting one merged
    /// provider capability per family. The diagnostics family emits its shared
    /// options as one `diagnosticProvider`. Each file-operation family emits
    /// its shared filters under exactly the `will*`/`did*` sides that
    /// registered, merged into one `workspace.fileOperations` object. The
    /// execute-command field appears only when at least one command was
    /// registered, and its command list exactly matches the frozen registry:
    /// de-duplicated and in registration order.
    pub fn finish(self) -> (capabilities: ServerCapabilities)
        ensures
            capabilities.deep_view() == self@.finish(),
    {
        self.finish_generated()
    }

    /// Freeze the accumulated contributions; see [`finish`](Self::finish).
    #[verifier::rlimit(100)]
    #[verifier::spinoff_prover]
    pub fn finish_generated(self) -> (capabilities: ServerCapabilities)
        ensures
            capabilities.deep_view() == self@.finish(),
    {
        let caps = self.caps;
        let workspace = if self.file_create.will || self.file_create.did || self.file_rename.will
            || self.file_rename.did || self.file_delete.will || self.file_delete.did {
            let file_operations = FileOperationOptions {
                did_create: self.file_create.did_options(),
                will_create: self.file_create.will_options(),
                did_rename: self.file_rename.did_options(),
                will_rename: self.file_rename.will_options(),
                did_delete: self.file_delete.did_options(),
                will_delete: self.file_delete.will_options(),
            };
            Some(
                WorkspaceOptions {
                    workspace_folders: None,
                    file_operations: Some(file_operations),
                },
            )
        } else {
            caps.workspace
        };
        let execute_command_provider = if self.commands.len() > 0 {
            Some(
                ExecuteCommandOptions {
                    commands: self.commands,
                    work_done_progress_options: WorkDoneProgressOptions::default(),
                },
            )
        } else {
            caps.execute_command_provider
        };
        ServerCapabilities {
            call_hierarchy_provider: first_of(self.call_hierarchy.options, caps.call_hierarchy_provider),
            type_hierarchy_provider: self.type_hierarchy.options,
            color_provider: first_of(self.color.options, caps.color_provider),
            semantic_tokens_provider: first_of(
                self.semantic_tokens.finish(),
                caps.semantic_tokens_provider,
            ),
            completion_provider: first_of(self.completion.fold(), caps.completion_provider),
            workspace_symbol_provider: first_of(self.workspace_symbols.fold(), caps.workspace_symbol_provider),
            rename_provider: first_of(self.rename.fold(), caps.rename_provider),
            code_action_provider: first_of(self.code_actions.fold(), caps.code_action_provider),
            code_lens_provider: first_of(self.code_lens.fold(), caps.code_lens_provider),
            document_link_provider: first_of(self.document_links.fold(), caps.document_link_provider),
            inlay_hint_provider: first_of(self.inlay_hints.fold(), caps.inlay_hint_provider),
            diagnostic_provider: first_of(self.diagnostics, caps.diagnostic_provider),
            execute_command_provider,
            workspace,
            position_encoding: caps.position_encoding,
            text_document_sync: caps.text_document_sync,
            hover_provider: caps.hover_provider,
            signature_help_provider: caps.signature_help_provider,
            declaration_provider: caps.declaration_provider,
            definition_provider: caps.definition_provider,
            type_definition_provider: caps.type_definition_provider,
            implementation_provider: caps.implementation_provider,
            references_provider: caps.references_provider,
            document_highlight_provider: caps.document_highlight_provider,
            document_symbol_provider: caps.document_symbol_provider,
            document_formatting_provider: caps.document_formatting_provider,
            document_range_formatting_provider: caps.document_range_formatting_provider,
            document_on_type_formatting_provider: caps.document_on_type_formatting_provider,
            folding_range_provider: caps.folding_range_provider,
            selection_range_provider: caps.selection_range_provider,
            linked_editing_range_provider: caps.linked_editing_range_provider,
            moniker_provider: caps.moniker_provider,
            inline_value_provider: caps.inline_value_provider,
        }
    }
}

/// Where nothing was contributed, nothing is advertised.
pub proof fn law_nothing_contributed_nothing_advertised()
    ensures
        CatalogView::empty().invalid_field() is None,
        CatalogView::empty().finish() == ServerCapabilitiesView::empty(),
{
}

/// A capability field that holds options takes the same options again and
/// changes nothing, and refuses others: the last write never wins.
pub proof fn law_the_last_write_never_wins(catalog: CatalogView)
    ensures
        forall|a: DocumentFormattingOptions, b: DocumentFormattingOptions|
            catalog.set_document_formatting(a) is Ok ==> #[trigger] catalog.set_document_formatting(a)->Ok_0.set_document_formatting(b) == if a == b {
                catalog.set_document_formatting(a)
            } else {
                Err("documentFormattingProvider"@)
            },
        forall|a: DocumentRangeFormattingOptions, b: DocumentRangeFormattingOptions|
            catalog.set_range_formatting(a) is Ok ==> #[trigger] catalog.set_range_formatting(a)->Ok_0.set_range_formatting(b) == if a == b {
                catalog.set_range_formatting(a)
            } else {
                Err("documentRangeFormattingProvider"@)
            },
        forall|a: DocumentOnTypeFormattingOptionsView, b: DocumentOnTypeFormattingOptionsView|
            catalog.set_on_type_formatting(a) is Ok ==> #[trigger] catalog.set_on_type_formatting(a)->Ok_0.set_on_type_formatting(b) == if a == b {
                catalog.set_on_type_formatting(a)
            } else {
                Err("documentOnTypeFormattingProvider"@)
            },
        forall|a: FoldingRangeOptions, b: FoldingRangeOptions|
            catalog.set_folding_range(a) is Ok ==> #[trigger] catalog.set_folding_range(a)->Ok_0.set_folding_range(b) == if a == b {
                catalog.set_folding_range(a)
            } else {
                Err("foldingRangeProvider"@)
            },
        forall|a: SelectionRangeOptions, b: SelectionRangeOptions|
            catalog.set_selection_range(a) is Ok ==> #[trigger] catalog.set_selection_range(a)->Ok_0.set_selection_range(b) == if a == b {
                catalog.set_selection_range(a)
            } else {
                Err("selectionRangeProvider"@)
            },
        forall|a: InlineValueOptions, b: InlineValueOptions|
            catalog.set_inline_value(a) is Ok ==> #[trigger] catalog.set_inline_value(a)->Ok_0.set_inline_value(b) == if a == b {
                catalog.set_inline_value(a)
            } else {
                Err("inlineValueProvider"@)
            },
        forall|a: SignatureHelpOptionsView, b: SignatureHelpOptionsView|
            catalog.set_signature_help(a) is Ok ==> #[trigger] catalog.set_signature_help(a)->Ok_0.set_signature_help(b) == if a == b {
                catalog.set_signature_help(a)
            } else {
                Err("signatureHelpProvider"@)
            },
        forall|a: DeclarationOptions, b: DeclarationOptions|
            catalog.set_declaration(a) is Ok ==> #[trigger] catalog.set_declaration(a)->Ok_0.set_declaration(b) == if a == b {
                catalog.set_declaration(a)
            } else {
                Err("declarationProvider"@)
            },
        forall|a: DefinitionOptions, b: DefinitionOptions|
            catalog.set_definition(a) is Ok ==> #[trigger] catalog.set_definition(a)->Ok_0.set_definition(b) == if a == b {
                catalog.set_definition(a)
            } else {
                Err("definitionProvider"@)
            },
        forall|a: TypeDefinitionRegistrationOptionsView, b: TypeDefinitionRegistrationOptionsView|
            catalog.set_type_definition(a) is Ok ==> #[trigger] catalog.set_type_definition(a)->Ok_0.set_type_definition(b) == if a == b {
                catalog.set_type_definition(a)
            } else {
                Err("typeDefinitionProvider"@)
            },
        forall|a: ImplementationRegistrationOptionsView, b: ImplementationRegistrationOptionsView|
            catalog.set_implementation(a) is Ok ==> #[trigger] catalog.set_implementation(a)->Ok_0.set_implementation(b) == if a == b {
                catalog.set_implementation(a)
            } else {
                Err("implementationProvider"@)
            },
        forall|a: ReferenceOptions, b: ReferenceOptions|
            catalog.set_references(a) is Ok ==> #[trigger] catalog.set_references(a)->Ok_0.set_references(b) == if a == b {
                catalog.set_references(a)
            } else {
                Err("referencesProvider"@)
            },
        forall|a: DocumentHighlightOptions, b: DocumentHighlightOptions|
            catalog.set_document_highlight(a) is Ok ==> #[trigger] catalog.set_document_highlight(a)->Ok_0.set_document_highlight(b) == if a == b {
                catalog.set_document_highlight(a)
            } else {
                Err("documentHighlightProvider"@)
            },
        forall|a: DocumentSymbolOptionsView, b: DocumentSymbolOptionsView|
            catalog.set_document_symbol(a) is Ok ==> #[trigger] catalog.set_document_symbol(a)->Ok_0.set_document_symbol(b) == if a == b {
                catalog.set_document_symbol(a)
            } else {
                Err("documentSymbolProvider"@)
            },
        forall|a: LinkedEditingRangeOptions, b: LinkedEditingRangeOptions|
            catalog.set_linked_editing_range(a) is Ok ==> #[trigger] catalog.set_linked_editing_range(a)->Ok_0.set_linked_editing_range(b) == if a == b {
                catalog.set_linked_editing_range(a)
            } else {
                Err("linkedEditingRangeProvider"@)
            },
        forall|a: MonikerOptions, b: MonikerOptions|
            catalog.set_moniker(a) is Ok ==> #[trigger] catalog.set_moniker(a)->Ok_0.set_moniker(b) == if a == b {
                catalog.set_moniker(a)
            } else {
                Err("monikerProvider"@)
            },
        forall|a: CallHierarchyOptions, b: CallHierarchyOptions|
            catalog.set_call_hierarchy(a) is Ok ==> #[trigger] catalog.set_call_hierarchy(a)->Ok_0.set_call_hierarchy(b) == if a == b {
                catalog.set_call_hierarchy(a)
            } else {
                Err("callHierarchyProvider"@)
            },
        forall|a: TypeHierarchyOptions, b: TypeHierarchyOptions|
            catalog.set_type_hierarchy(a) is Ok ==> #[trigger] catalog.set_type_hierarchy(a)->Ok_0.set_type_hierarchy(b) == if a == b {
                catalog.set_type_hierarchy(a)
            } else {
                Err("typeHierarchyProvider"@)
            },
        forall|a: DocumentColorOptions, b: DocumentColorOptions|
            catalog.set_document_color(a) is Ok ==> #[trigger] catalog.set_document_color(a)->Ok_0.set_document_color(b) == if a == b {
                catalog.set_document_color(a)
            } else {
                Err("colorProvider"@)
            },
        forall|a: CompletionOptionsView, b: CompletionOptionsView|
            catalog.set_completion(a) is Ok ==> #[trigger] catalog.set_completion(a)->Ok_0.set_completion(b) == if a == b {
                catalog.set_completion(a)
            } else {
                Err("completionProvider"@)
            },
        forall|a: WorkspaceSymbolOptions, b: WorkspaceSymbolOptions|
            catalog.set_workspace_symbol(a) is Ok ==> #[trigger] catalog.set_workspace_symbol(a)->Ok_0.set_workspace_symbol(b) == if a == b {
                catalog.set_workspace_symbol(a)
            } else {
                Err("workspaceSymbolProvider"@)
            },
        forall|a: RenameOptions, b: RenameOptions|
            catalog.set_rename(a) is Ok ==> #[trigger] catalog.set_rename(a)->Ok_0.set_rename(b) == if a == b {
                catalog.set_rename(a)
            } else {
                Err("renameProvider"@)
            },
        forall|a: CodeActionOptionsView, b: CodeActionOptionsView|
            catalog.set_code_action(a) is Ok ==> #[trigger] catalog.set_code_action(a)->Ok_0.set_code_action(b) == if a == b {
                catalog.set_code_action(a)
            } else {
                Err("codeActionProvider"@)
            },
        forall|a: CodeLensOptions, b: CodeLensOptions|
            catalog.set_code_lens(a) is Ok ==> #[trigger] catalog.set_code_lens(a)->Ok_0.set_code_lens(b) == if a == b {
                catalog.set_code_lens(a)
            } else {
                Err("codeLensProvider"@)
            },
        forall|a: DocumentLinkOptions, b: DocumentLinkOptions|
            catalog.set_document_link(a) is Ok ==> #[trigger] catalog.set_document_link(a)->Ok_0.set_document_link(b) == if a == b {
                catalog.set_document_link(a)
            } else {
                Err("documentLinkProvider"@)
            },
        forall|a: InlayHintOptions, b: InlayHintOptions|
            catalog.set_inlay_hint(a) is Ok ==> #[trigger] catalog.set_inlay_hint(a)->Ok_0.set_inlay_hint(b) == if a == b {
                catalog.set_inlay_hint(a)
            } else {
                Err("inlayHintProvider"@)
            },
        forall|a: DiagnosticOptionsView, b: DiagnosticOptionsView|
            catalog.set_diagnostics(a) is Ok ==> #[trigger] catalog.set_diagnostics(
                a,
            )->Ok_0.set_diagnostics(b) == if a == b {
                catalog.set_diagnostics(a)
            } else {
                Err("diagnosticProvider"@)
            },
{
}

/// A family's base and its dependent request may be contributed in either
/// order.
pub proof fn law_base_and_dependent_merge_in_either_order(catalog: CatalogView)
    ensures
        forall|options: CallHierarchyOptions| #[trigger]
            catalog.set_call_hierarchy_dependent().set_call_hierarchy(options) == match catalog.set_call_hierarchy(options) {
                Ok(after) => Ok(after.set_call_hierarchy_dependent()),
                Err(invalid) => Err(invalid),
            },
        forall|options: TypeHierarchyOptions| #[trigger]
            catalog.set_type_hierarchy_dependent().set_type_hierarchy(options) == match catalog.set_type_hierarchy(options) {
                Ok(after) => Ok(after.set_type_hierarchy_dependent()),
                Err(invalid) => Err(invalid),
            },
        forall|options: DocumentColorOptions| #[trigger]
            catalog.set_document_color_dependent().set_document_color(options) == match catalog.set_document_color(options) {
                Ok(after) => Ok(after.set_document_color_dependent()),
                Err(invalid) => Err(invalid),
            },
        forall|options: CompletionOptionsView| #[trigger]
            catalog.set_completion_resolve().set_completion(options) == match catalog.set_completion(options) {
                Ok(after) => Ok(after.set_completion_resolve()),
                Err(invalid) => Err(invalid),
            },
        forall|options: WorkspaceSymbolOptions| #[trigger]
            catalog.set_workspace_symbol_resolve().set_workspace_symbol(options) == match catalog.set_workspace_symbol(options) {
                Ok(after) => Ok(after.set_workspace_symbol_resolve()),
                Err(invalid) => Err(invalid),
            },
        forall|options: RenameOptions| #[trigger]
            catalog.set_prepare_rename().set_rename(options) == match catalog.set_rename(options) {
                Ok(after) => Ok(after.set_prepare_rename()),
                Err(invalid) => Err(invalid),
            },
        forall|options: CodeActionOptionsView| #[trigger]
            catalog.set_code_action_resolve().set_code_action(options) == match catalog.set_code_action(options) {
                Ok(after) => Ok(after.set_code_action_resolve()),
                Err(invalid) => Err(invalid),
            },
        forall|options: CodeLensOptions| #[trigger]
            catalog.set_code_lens_resolve().set_code_lens(options) == match catalog.set_code_lens(options) {
                Ok(after) => Ok(after.set_code_lens_resolve()),
                Err(invalid) => Err(invalid),
            },
        forall|options: DocumentLinkOptions| #[trigger]
            catalog.set_document_link_resolve().set_document_link(options) == match catalog.set_document_link(options) {
                Ok(after) => Ok(after.set_document_link_resolve()),
                Err(invalid) => Err(invalid),
            },
        forall|options: InlayHintOptions| #[trigger]
            catalog.set_inlay_hint_resolve().set_inlay_hint(options) == match catalog.set_inlay_hint(options) {
                Ok(after) => Ok(after.set_inlay_hint_resolve()),
                Err(invalid) => Err(invalid),
            },
{
}

/// The two sides of a file-operation family may be contributed in either
/// order.
pub proof fn law_both_sides_merge_in_either_order(
    family: FileOperationFamilyView,
    will: FileOperationRegistrationOptionsView,
    did: FileOperationRegistrationOptionsView,
)
    ensures
        ({
            let will_first = match family.contribute(will, true) {
                Some(after) => after.contribute(did, false),
                None => None,
            };
            let did_first = match family.contribute(did, false) {
                Some(after) => after.contribute(will, true),
                None => None,
            };
            will_first == did_first
        }),
{
}

/// In a valid catalog a dependent request never dangles: its family advertises
/// its base options, with the flag of the request set.
pub proof fn law_dependent_requests_are_advertised_on_their_base(catalog: CatalogView)
    requires
        catalog.invalid_field() is None,
    ensures
        catalog.completion.dependent ==> catalog.completion.options is Some && catalog.finish().completion_provider == Some(
            <CompletionOptions as Dependable>::with_flag(catalog.completion.options->0),
        ),
        catalog.workspace_symbols.dependent ==> catalog.workspace_symbols.options is Some && catalog.finish().workspace_symbol_provider == Some(
            <WorkspaceSymbolOptions as Dependable>::with_flag(catalog.workspace_symbols.options->0),
        ),
        catalog.rename.dependent ==> catalog.rename.options is Some && catalog.finish().rename_provider == Some(
            <RenameOptions as Dependable>::with_flag(catalog.rename.options->0),
        ),
        catalog.code_actions.dependent ==> catalog.code_actions.options is Some && catalog.finish().code_action_provider == Some(
            <CodeActionOptions as Dependable>::with_flag(catalog.code_actions.options->0),
        ),
        catalog.code_lens.dependent ==> catalog.code_lens.options is Some && catalog.finish().code_lens_provider == Some(
            <CodeLensOptions as Dependable>::with_flag(catalog.code_lens.options->0),
        ),
        catalog.document_links.dependent ==> catalog.document_links.options is Some && catalog.finish().document_link_provider == Some(
            <DocumentLinkOptions as Dependable>::with_flag(catalog.document_links.options->0),
        ),
        catalog.inlay_hints.dependent ==> catalog.inlay_hints.options is Some && catalog.finish().inlay_hint_provider == Some(
            <InlayHintOptions as Dependable>::with_flag(catalog.inlay_hints.options->0),
        ),
        catalog.call_hierarchy.dependent ==> catalog.call_hierarchy.options is Some && catalog.finish().call_hierarchy_provider
            == catalog.call_hierarchy.options,
        catalog.type_hierarchy.dependent ==> catalog.type_hierarchy.options is Some && catalog.finish().type_hierarchy_provider
            == catalog.type_hierarchy.options,
        catalog.color.dependent ==> catalog.color.options is Some && catalog.finish().color_provider
            == catalog.color.options,
{
}

/// The advertised commands are those that were added, each once and in the
/// order in which they were first added.
pub proof fn law_commands_are_listed_once_in_order(catalog: CatalogView, name: Seq<char>)
    requires
        catalog.commands.no_duplicates(),
    ensures
        catalog.add_command(name).commands.no_duplicates(),
        catalog.add_command(name).commands.contains(name),
        catalog.commands =~= catalog.add_command(name).commands.take(
            catalog.commands.len() as int,
        ),
        catalog.add_command(name).finish().execute_command_provider is Some,
        catalog.add_command(name).finish().execute_command_provider->0.commands
            == catalog.add_command(name).commands,
{
    let after = catalog.add_command(name).commands;
    if !catalog.commands.contains(name) {
        assert(after[after.len() - 1] == name);
    }
}


} // verus!
