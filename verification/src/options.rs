//! The options of the standard features and the capabilities made of them.
use vstd::prelude::*;

use crate::documents::PositionEncodingKind;

verus! {

/// A value that is compared and copied by what it holds.
pub trait Content: DeepView + Sized {
    /// Whether two values hold the same.
    fn same_content(&self, other: &Self) -> (same: bool)
        ensures
            same == (self.deep_view() == other.deep_view()),
    ;

    /// Another value that holds the same.
    fn copy_content(&self) -> (copy: Self)
        ensures
            copy.deep_view() == self.deep_view(),
    ;
}

impl Content for bool {
    fn same_content(&self, other: &Self) -> (same: bool) {
        *self == *other
    }

    fn copy_content(&self) -> (copy: Self) {
        *self
    }
}

impl Content for String {
    fn same_content(&self, other: &Self) -> (same: bool) {
        *self == *other
    }

    fn copy_content(&self) -> (copy: Self) {
        self.clone()
    }
}

impl<T: Content> Content for Option<T> {
    fn same_content(&self, other: &Self) -> (same: bool) {
        match (self, other) {
            (Some(left), Some(right)) => left.same_content(right),
            (None, None) => true,
            _ => false,
        }
    }

    fn copy_content(&self) -> (copy: Self) {
        match self {
            Some(value) => Some(value.copy_content()),
            None => None,
        }
    }
}

impl<T: Content> Content for Vec<T> {
    fn same_content(&self, other: &Self) -> (same: bool) {
        if self.len() != other.len() {
            assert(self.deep_view().len() != other.deep_view().len());
            return false;
        }
        let mut i: usize = 0;
        while i < self.len()
            invariant
                i <= self@.len(),
                self@.len() == other@.len(),
                forall|k: int|
                    0 <= k < i ==> #[trigger] self@[k].deep_view() == other@[k].deep_view(),
            decreases self@.len() - i,
        {
            if !self[i].same_content(&other[i]) {
                assert(self.deep_view()[i as int] != other.deep_view()[i as int]);
                return false;
            }
            i = i + 1;
        }
        assert(self.deep_view() =~= other.deep_view());
        true
    }

    fn copy_content(&self) -> (copy: Self) {
        let mut copy: Vec<T> = Vec::new();
        let mut i: usize = 0;
        while i < self.len()
            invariant
                i <= self@.len(),
                copy@.len() == i,
                forall|k: int|
                    0 <= k < i ==> #[trigger] copy@[k].deep_view() == self@[k].deep_view(),
            decreases self@.len() - i,
        {
            copy.push(self[i].copy_content());
            i = i + 1;
        }
        assert(copy.deep_view() =~= self.deep_view());
        copy
    }
}

/// What a [`PositionEncodingKind`] names.
pub enum PositionEncodingKindView {
    UTF8,
    UTF16,
    UTF32,
    Custom(Seq<char>),
}

impl DeepView for PositionEncodingKind {
    type V = PositionEncodingKindView;

    open spec fn deep_view(&self) -> PositionEncodingKindView {
        match *self {
            PositionEncodingKind::UTF8 => PositionEncodingKindView::UTF8,
            PositionEncodingKind::UTF16 => PositionEncodingKindView::UTF16,
            PositionEncodingKind::UTF32 => PositionEncodingKindView::UTF32,
            PositionEncodingKind::Custom(name) => PositionEncodingKindView::Custom(name@),
        }
    }
}

impl Content for PositionEncodingKind {
    fn same_content(&self, other: &Self) -> (same: bool) {
        match (self, other) {
            (PositionEncodingKind::UTF8, PositionEncodingKind::UTF8) => true,
            (PositionEncodingKind::UTF16, PositionEncodingKind::UTF16) => true,
            (PositionEncodingKind::UTF32, PositionEncodingKind::UTF32) => true,
            (PositionEncodingKind::Custom(left), PositionEncodingKind::Custom(right)) => *left
                == *right,
            _ => false,
        }
    }

    fn copy_content(&self) -> (copy: Self) {
        match self {
            PositionEncodingKind::UTF8 => PositionEncodingKind::UTF8,
            PositionEncodingKind::UTF16 => PositionEncodingKind::UTF16,
            PositionEncodingKind::UTF32 => PositionEncodingKind::UTF32,
            PositionEncodingKind::Custom(name) => PositionEncodingKind::Custom(name.clone()),
        }
    }
}

impl Clone for PositionEncodingKind {
    fn clone(&self) -> (copy: Self)
        ensures
            copy.deep_view() == self.deep_view(),
    {
        self.copy_content()
    }
}

/// Whether a feature reports work-done progress.
#[derive(Debug, Clone, Copy, PartialEq, Eq, Structural)]
pub struct WorkDoneProgressOptions {
    /// Whether work-done progress is reported.
    pub work_done_progress: Option<bool>,
}

impl Default for WorkDoneProgressOptions {
    fn default() -> (options: Self)
        ensures
            options == (WorkDoneProgressOptions { work_done_progress: None }),
    {
        WorkDoneProgressOptions { work_done_progress: None }
    }
}

/// What completion items may hold.
#[derive(Debug, Clone, Copy, PartialEq, Eq, Structural)]
pub struct ServerCompletionItemOptions {
    /// Whether items have label details.
    pub label_details_support: Option<bool>,
}

/// How a file pattern is matched.
#[derive(Debug, Clone, Copy, PartialEq, Eq, Structural)]
pub struct FileOperationPatternOptions {
    /// Whether letter case is ignored.
    pub ignore_case: Option<bool>,
}

/// What a file pattern matches.
#[derive(Debug, PartialEq, Eq)]
pub enum FileOperationPatternKind {
    /// Only files.
    File,
    /// Only folders.
    Folder,
    /// Another kind.
    Custom(String),
}

/// What a [`FileOperationPatternKind`] names.
pub enum FileOperationPatternKindView {
    File,
    Folder,
    Custom(Seq<char>),
}

impl DeepView for FileOperationPatternKind {
    type V = FileOperationPatternKindView;

    open spec fn deep_view(&self) -> FileOperationPatternKindView {
        match *self {
            FileOperationPatternKind::File => FileOperationPatternKindView::File,
            FileOperationPatternKind::Folder => FileOperationPatternKindView::Folder,
            FileOperationPatternKind::Custom(name) => FileOperationPatternKindView::Custom(name@),
        }
    }
}

impl Content for FileOperationPatternKind {
    fn same_content(&self, other: &Self) -> (same: bool) {
        match (self, other) {
            (FileOperationPatternKind::File, FileOperationPatternKind::File) => true,
            (FileOperationPatternKind::Folder, FileOperationPatternKind::Folder) => true,
            (
                FileOperationPatternKind::Custom(left),
                FileOperationPatternKind::Custom(right),
            ) => *left == *right,
            _ => false,
        }
    }

    fn copy_content(&self) -> (copy: Self) {
        match self {
            FileOperationPatternKind::File => FileOperationPatternKind::File,
            FileOperationPatternKind::Folder => FileOperationPatternKind::Folder,
            FileOperationPatternKind::Custom(name) => FileOperationPatternKind::Custom(
                name.clone(),
            ),
        }
    }
}

/// Whether semantic tokens of a document are served as deltas too.
#[derive(Debug, Clone, Copy, PartialEq, Eq, Structural)]
pub struct SemanticTokensFullDelta {
    /// Whether deltas are served.
    pub delta: Option<bool>,
}

/// Whether the semantic tokens of a whole document are served.
#[derive(Debug, Clone, Copy, PartialEq, Eq, Structural)]
pub enum Full {
    /// Plainly yes or no.
    Bool(bool),
    /// Yes, and whether as deltas.
    SemanticTokensFullDelta(SemanticTokensFullDelta),
}

/// Whether the semantic tokens of a range are served.
#[derive(Debug, Clone, Copy, PartialEq, Eq, Structural)]
pub enum SemanticTokensOptionsRange {
    /// Plainly yes or no.
    Bool(bool),
    /// Yes, with an object that says no more.
    Object,
}

/// Support for workspace folders.
#[derive(Debug, Clone, Copy, PartialEq, Eq, Structural)]
pub struct WorkspaceFoldersServerCapabilities {
    /// Whether there may be several workspace folders.
    pub supported: Option<bool>,
    /// Whether changes of the folders are to be reported.
    pub change_notifications: Option<bool>,
}

/// How the text of documents is synchronized.
#[derive(Debug, Clone, Copy, PartialEq, Eq, Structural)]
pub enum TextDocumentSyncKind {
    /// Not at all.
    Unsynced,
    /// By sending the whole text.
    Full,
    /// By sending the changes.
    Incremental,
    /// In another way.
    Custom(u32),
}

/// What a save notification holds.
#[derive(Debug, Clone, Copy, PartialEq, Eq, Structural)]
pub struct SaveOptions {
    /// Whether it holds the text.
    pub include_text: Option<bool>,
}

/// Whether saves are reported.
#[derive(Debug, Clone, Copy, PartialEq, Eq, Structural)]
pub enum Save {
    /// Plainly yes or no.
    Bool(bool),
    /// Yes, with options.
    SaveOptions(SaveOptions),
}

/// Which document notifications a server wants.
#[derive(Debug, Clone, Copy, PartialEq, Eq, Structural)]
pub struct TextDocumentSyncOptions {
    /// Whether opening and closing are reported.
    pub open_close: Option<bool>,
    /// How changes are reported.
    pub change: Option<TextDocumentSyncKind>,
    /// Whether a coming save is reported.
    pub will_save: Option<bool>,
    /// Whether a coming save waits for edits.
    pub will_save_wait_until: Option<bool>,
    /// Whether saves are reported.
    pub save: Option<Save>,
}

impl Default for TextDocumentSyncOptions {
    fn default() -> (options: Self)
        ensures
            options == (TextDocumentSyncOptions {
                open_close: None,
                change: None,
                will_save: None,
                will_save_wait_until: None,
                save: None,
            }),
    {
        TextDocumentSyncOptions {
            open_close: None,
            change: None,
            will_save: None,
            will_save_wait_until: None,
            save: None,
        }
    }
}

/// Document synchronization as a capability.
#[derive(Debug, Clone, Copy, PartialEq, Eq, Structural)]
pub enum TextDocumentSync {
    /// With all its options.
    Options(TextDocumentSyncOptions),
    /// Only how changes are reported.
    Kind(TextDocumentSyncKind),
}

/// Options of call-hierarchy preparation.
#[derive(Debug, Clone, Copy, PartialEq, Eq, Structural)]
pub struct CallHierarchyOptions {
    /// Whether work-done progress is reported.
    pub work_done_progress_options: WorkDoneProgressOptions,
}

impl Default for CallHierarchyOptions {
    fn default() -> (options: Self)
        ensures
            options == (CallHierarchyOptions {
                work_done_progress_options: WorkDoneProgressOptions { work_done_progress: None },
            }),
    {
        CallHierarchyOptions {
            work_done_progress_options: WorkDoneProgressOptions::default(),
        }
    }
}

/// Options of type-hierarchy preparation.
#[derive(Debug, Clone, Copy, PartialEq, Eq, Structural)]
pub struct TypeHierarchyOptions {
    /// Whether work-done progress is reported.
    pub work_done_progress_options: WorkDoneProgressOptions,
}

impl Default for TypeHierarchyOptions {
    fn default() -> (options: Self)
        ensures
            options == (TypeHierarchyOptions {
                work_done_progress_options: WorkDoneProgressOptions { work_done_progress: None },
            }),
    {
        TypeHierarchyOptions {
            work_done_progress_options: WorkDoneProgressOptions::default(),
        }
    }
}

/// Options of document colors.
#[derive(Debug, Clone, Copy, PartialEq, Eq, Structural)]
pub struct DocumentColorOptions {
    /// Whether work-done progress is reported.
    pub work_done_progress_options: WorkDoneProgressOptions,
}

impl Default for DocumentColorOptions {
    fn default() -> (options: Self)
        ensures
            options == (DocumentColorOptions {
                work_done_progress_options: WorkDoneProgressOptions { work_done_progress: None },
            }),
    {
        DocumentColorOptions {
            work_done_progress_options: WorkDoneProgressOptions::default(),
        }
    }
}

/// Options of go to declaration.
#[derive(Debug, Clone, Copy, PartialEq, Eq, Structural)]
pub struct DeclarationOptions {
    /// Whether work-done progress is reported.
    pub work_done_progress_options: WorkDoneProgressOptions,
}

impl Default for DeclarationOptions {
    fn default() -> (options: Self)
        ensures
            options == (DeclarationOptions {
                work_done_progress_options: WorkDoneProgressOptions { work_done_progress: None },
            }),
    {
        DeclarationOptions {
            work_done_progress_options: WorkDoneProgressOptions::default(),
        }
    }
}

/// Options of go to definition.
#[derive(Debug, Clone, Copy, PartialEq, Eq, Structural)]
pub struct DefinitionOptions {
    /// Whether work-done progress is reported.
    pub work_done_progress_options: WorkDoneProgressOptions,
}

impl Default for DefinitionOptions {
    fn default() -> (options: Self)
        ensures
            options == (DefinitionOptions {
                work_done_progress_options: WorkDoneProgressOptions { work_done_progress: None },
            }),
    {
        DefinitionOptions {
            work_done_progress_options: WorkDoneProgressOptions::default(),
        }
    }
}

/// Options of find references.
#[derive(Debug, Clone, Copy, PartialEq, Eq, Structural)]
pub struct ReferenceOptions {
    /// Whether work-done progress is reported.
    pub work_done_progress_options: WorkDoneProgressOptions,
}

impl Default for ReferenceOptions {
    fn default() -> (options: Self)
        ensures
            options == (ReferenceOptions {
                work_done_progress_options: WorkDoneProgressOptions { work_done_progress: None },
            }),
    {
        ReferenceOptions {
            work_done_progress_options: WorkDoneProgressOptions::default(),
        }
    }
}

/// Options of document highlights.
#[derive(Debug, Clone, Copy, PartialEq, Eq, Structural)]
pub struct DocumentHighlightOptions {
    /// Whether work-done progress is reported.
    pub work_done_progress_options: WorkDoneProgressOptions,
}

impl Default for DocumentHighlightOptions {
    fn default() -> (options: Self)
        ensures
            options == (DocumentHighlightOptions {
                work_done_progress_options: WorkDoneProgressOptions { work_done_progress: None },
            }),
    {
        DocumentHighlightOptions {
            work_done_progress_options: WorkDoneProgressOptions::default(),
        }
    }
}

/// Options of linked editing ranges.
#[derive(Debug, Clone, Copy, PartialEq, Eq, Structural)]
pub struct LinkedEditingRangeOptions {
    /// Whether work-done progress is reported.
    pub work_done_progress_options: WorkDoneProgressOptions,
}

impl Default for LinkedEditingRangeOptions {
    fn default() -> (options: Self)
        ensures
            options == (LinkedEditingRangeOptions {
                work_done_progress_options: WorkDoneProgressOptions { work_done_progress: None },
            }),
    {
        LinkedEditingRangeOptions {
            work_done_progress_options: WorkDoneProgressOptions::default(),
        }
    }
}

/// Options of monikers.
#[derive(Debug, Clone, Copy, PartialEq, Eq, Structural)]
pub struct MonikerOptions {
    /// Whether work-done progress is reported.
    pub work_done_progress_options: WorkDoneProgressOptions,
}

impl Default for MonikerOptions {
    fn default() -> (options: Self)
        ensures
            options == (MonikerOptions {
                work_done_progress_options: WorkDoneProgressOptions { work_done_progress: None },
            }),
    {
        MonikerOptions {
            work_done_progress_options: WorkDoneProgressOptions::default(),
        }
    }
}

/// Options of whole-document formatting.
#[derive(Debug, Clone, Copy, PartialEq, Eq, Structural)]
pub struct DocumentFormattingOptions {
    /// Whether work-done progress is reported.
    pub work_done_progress_options: WorkDoneProgressOptions,
}

impl Default for DocumentFormattingOptions {
    fn default() -> (options: Self)
        ensures
            options == (DocumentFormattingOptions {
                work_done_progress_options: WorkDoneProgressOptions { work_done_progress: None },
            }),
    {
        DocumentFormattingOptions {
            work_done_progress_options: WorkDoneProgressOptions::default(),
        }
    }
}

/// Options of folding ranges.
#[derive(Debug, Clone, Copy, PartialEq, Eq, Structural)]
pub struct FoldingRangeOptions {
    /// Whether work-done progress is reported.
    pub work_done_progress_options: WorkDoneProgressOptions,
}

impl Default for FoldingRangeOptions {
    fn default() -> (options: Self)
        ensures
            options == (FoldingRangeOptions {
                work_done_progress_options: WorkDoneProgressOptions { work_done_progress: None },
            }),
    {
        FoldingRangeOptions {
            work_done_progress_options: WorkDoneProgressOptions::default(),
        }
    }
}

/// Options of selection ranges.
#[derive(Debug, Clone, Copy, PartialEq, Eq, Structural)]
pub struct SelectionRangeOptions {
    /// Whether work-done progress is reported.
    pub work_done_progress_options: WorkDoneProgressOptions,
}

impl Default for SelectionRangeOptions {
    fn default() -> (options: Self)
        ensures
            options == (SelectionRangeOptions {
                work_done_progress_options: WorkDoneProgressOptions { work_done_progress: None },
            }),
    {
        SelectionRangeOptions {
            work_done_progress_options: WorkDoneProgressOptions::default(),
        }
    }
}

/// Options of inline values.
#[derive(Debug, Clone, Copy, PartialEq, Eq, Structural)]
pub struct InlineValueOptions {
    /// Whether work-done progress is reported.
    pub work_done_progress_options: WorkDoneProgressOptions,
}

impl Default for InlineValueOptions {
    fn default() -> (options: Self)
        ensures
            options == (InlineValueOptions {
                work_done_progress_options: WorkDoneProgressOptions { work_done_progress: None },
            }),
    {
        InlineValueOptions {
            work_done_progress_options: WorkDoneProgressOptions::default(),
        }
    }
}

/// Options of go to type definition.
#[derive(Debug, Clone, Copy, PartialEq, Eq, Structural)]
pub struct TypeDefinitionOptions {
    /// Whether work-done progress is reported.
    pub work_done_progress_options: WorkDoneProgressOptions,
}

impl Default for TypeDefinitionOptions {
    fn default() -> (options: Self)
        ensures
            options == (TypeDefinitionOptions {
                work_done_progress_options: WorkDoneProgressOptions { work_done_progress: None },
            }),
    {
        TypeDefinitionOptions {
            work_done_progress_options: WorkDoneProgressOptions::default(),
        }
    }
}

/// Options of go to implementation.
#[derive(Debug, Clone, Copy, PartialEq, Eq, Structural)]
pub struct ImplementationOptions {
    /// Whether work-done progress is reported.
    pub work_done_progress_options: WorkDoneProgressOptions,
}

impl Default for ImplementationOptions {
    fn default() -> (options: Self)
        ensures
            options == (ImplementationOptions {
                work_done_progress_options: WorkDoneProgressOptions { work_done_progress: None },
            }),
    {
        ImplementationOptions {
            work_done_progress_options: WorkDoneProgressOptions::default(),
        }
    }
}

/// Options of range formatting.
#[derive(Debug, Clone, Copy, PartialEq, Eq, Structural)]
pub struct DocumentRangeFormattingOptions {
    /// Whether several ranges are formatted at once.
    pub ranges_support: Option<bool>,
    /// Whether work-done progress is reported.
    pub work_done_progress_options: WorkDoneProgressOptions,
}

impl Default for DocumentRangeFormattingOptions {
    fn default() -> (options: Self)
        ensures
            options == (DocumentRangeFormattingOptions {
                ranges_support: None,
                work_done_progress_options: WorkDoneProgressOptions { work_done_progress: None },
            }),
    {
        DocumentRangeFormattingOptions {
            ranges_support: None,
            work_done_progress_options: WorkDoneProgressOptions::default(),
        }
    }
}

/// Options of workspace symbols.
#[derive(Debug, Clone, Copy, PartialEq, Eq, Structural)]
pub struct WorkspaceSymbolOptions {
    /// Whether a symbol is resolved later.
    pub resolve_provider: Option<bool>,
    /// Whether work-done progress is reported.
    pub work_done_progress_options: WorkDoneProgressOptions,
}

impl Default for WorkspaceSymbolOptions {
    fn default() -> (options: Self)
        ensures
            options == (WorkspaceSymbolOptions {
                resolve_provider: None,
                work_done_progress_options: WorkDoneProgressOptions { work_done_progress: None },
            }),
    {
        WorkspaceSymbolOptions {
            resolve_provider: None,
            work_done_progress_options: WorkDoneProgressOptions::default(),
        }
    }
}

/// Options of renaming.
#[derive(Debug, Clone, Copy, PartialEq, Eq, Structural)]
pub struct RenameOptions {
    /// Whether a rename is tested first.
    pub prepare_provider: Option<bool>,
    /// Whether work-done progress is reported.
    pub work_done_progress_options: WorkDoneProgressOptions,
}

impl Default for RenameOptions {
    fn default() -> (options: Self)
        ensures
            options == (RenameOptions {
                prepare_provider: None,
                work_done_progress_options: WorkDoneProgressOptions { work_done_progress: None },
            }),
    {
        RenameOptions {
            prepare_provider: None,
            work_done_progress_options: WorkDoneProgressOptions::default(),
        }
    }
}

/// Options of code lenses.
#[derive(Debug, Clone, Copy, PartialEq, Eq, Structural)]
pub struct CodeLensOptions {
    /// Whether a lens is resolved later.
    pub resolve_provider: Option<bool>,
    /// Whether work-done progress is reported.
    pub work_done_progress_options: WorkDoneProgressOptions,
}

impl Default for CodeLensOptions {
    fn default() -> (options: Self)
        ensures
            options == (CodeLensOptions {
                resolve_provider: None,
                work_done_progress_options: WorkDoneProgressOptions { work_done_progress: None },
            }),
    {
        CodeLensOptions {
            resolve_provider: None,
            work_done_progress_options: WorkDoneProgressOptions::default(),
        }
    }
}

/// Options of document links.
#[derive(Debug, Clone, Copy, PartialEq, Eq, Structural)]
pub struct DocumentLinkOptions {
    /// Whether a link is resolved later.
    pub resolve_provider: Option<bool>,
    /// Whether work-done progress is reported.
    pub work_done_progress_options: WorkDoneProgressOptions,
}

impl Default for DocumentLinkOptions {
    fn default() -> (options: Self)
        ensures
            options == (DocumentLinkOptions {
                resolve_provider: None,
                work_done_progress_options: WorkDoneProgressOptions { work_done_progress: None },
            }),
    {
        DocumentLinkOptions {
            resolve_provider: None,
            work_done_progress_options: WorkDoneProgressOptions::default(),
        }
    }
}

/// Options of inlay hints.
#[derive(Debug, Clone, Copy, PartialEq, Eq, Structural)]
pub struct InlayHintOptions {
    /// Whether a hint is resolved later.
    pub resolve_provider: Option<bool>,
    /// Whether work-done progress is reported.
    pub work_done_progress_options: WorkDoneProgressOptions,
}

impl Default for InlayHintOptions {
    fn default() -> (options: Self)
        ensures
            options == (InlayHintOptions {
                resolve_provider: None,
                work_done_progress_options: WorkDoneProgressOptions { work_done_progress: None },
            }),
    {
        InlayHintOptions {
            resolve_provider: None,
            work_done_progress_options: WorkDoneProgressOptions::default(),
        }
    }
}

impl DeepView for CallHierarchyOptions {
    type V = CallHierarchyOptions;

    open spec fn deep_view(&self) -> CallHierarchyOptions {
        *self
    }
}

impl Content for CallHierarchyOptions {
    fn same_content(&self, other: &Self) -> (same: bool) {
        *self == *other
    }

    fn copy_content(&self) -> (copy: Self) {
        *self
    }
}

impl DeepView for TypeHierarchyOptions {
    type V = TypeHierarchyOptions;

    open spec fn deep_view(&self) -> TypeHierarchyOptions {
        *self
    }
}

impl Content for TypeHierarchyOptions {
    fn same_content(&self, other: &Self) -> (same: bool) {
        *self == *other
    }

    fn copy_content(&self) -> (copy: Self) {
        *self
    }
}

impl DeepView for DocumentColorOptions {
    type V = DocumentColorOptions;

    open spec fn deep_view(&self) -> DocumentColorOptions {
        *self
    }
}

impl Content for DocumentColorOptions {
    fn same_content(&self, other: &Self) -> (same: bool) {
        *self == *other
    }

    fn copy_content(&self) -> (copy: Self) {
        *self
    }
}

impl DeepView for DeclarationOptions {
    type V = DeclarationOptions;

    open spec fn deep_view(&self) -> DeclarationOptions {
        *self
    }
}

impl Content for DeclarationOptions {
    fn same_content(&self, other: &Self) -> (same: bool) {
        *self == *other
    }

    fn copy_content(&self) -> (copy: Self) {
        *self
    }
}

impl DeepView for DefinitionOptions {
    type V = DefinitionOptions;

    open spec fn deep_view(&self) -> DefinitionOptions {
        *self
    }
}

impl Content for DefinitionOptions {
    fn same_content(&self, other: &Self) -> (same: bool) {
        *self == *other
    }

    fn copy_content(&self) -> (copy: Self) {
        *self
    }
}

impl DeepView for ReferenceOptions {
    type V = ReferenceOptions;

    open spec fn deep_view(&self) -> ReferenceOptions {
        *self
    }
}

impl Content for ReferenceOptions {
    fn same_content(&self, other: &Self) -> (same: bool) {
        *self == *other
    }

    fn copy_content(&self) -> (copy: Self) {
        *self
    }
}

impl DeepView for DocumentHighlightOptions {
    type V = DocumentHighlightOptions;

    open spec fn deep_view(&self) -> DocumentHighlightOptions {
        *self
    }
}

impl Content for DocumentHighlightOptions {
    fn same_content(&self, other: &Self) -> (same: bool) {
        *self == *other
    }

    fn copy_content(&self) -> (copy: Self) {
        *self
    }
}

impl DeepView for LinkedEditingRangeOptions {
    type V = LinkedEditingRangeOptions;

    open spec fn deep_view(&self) -> LinkedEditingRangeOptions {
        *self
    }
}

impl Content for LinkedEditingRangeOptions {
    fn same_content(&self, other: &Self) -> (same: bool) {
        *self == *other
    }

    fn copy_content(&self) -> (copy: Self) {
        *self
    }
}

impl DeepView for MonikerOptions {
    type V = MonikerOptions;

    open spec fn deep_view(&self) -> MonikerOptions {
        *self
    }
}

impl Content for MonikerOptions {
    fn same_content(&self, other: &Self) -> (same: bool) {
        *self == *other
    }

    fn copy_content(&self) -> (copy: Self) {
        *self
    }
}

impl DeepView for DocumentFormattingOptions {
    type V = DocumentFormattingOptions;

    open spec fn deep_view(&self) -> DocumentFormattingOptions {
        *self
    }
}

impl Content for DocumentFormattingOptions {
    fn same_content(&self, other: &Self) -> (same: bool) {
        *self == *other
    }

    fn copy_content(&self) -> (copy: Self) {
        *self
    }
}

impl DeepView for FoldingRangeOptions {
    type V = FoldingRangeOptions;

    open spec fn deep_view(&self) -> FoldingRangeOptions {
        *self
    }
}

impl Content for FoldingRangeOptions {
    fn same_content(&self, other: &Self) -> (same: bool) {
        *self == *other
    }

    fn copy_content(&self) -> (copy: Self) {
        *self
    }
}

impl DeepView for SelectionRangeOptions {
    type V = SelectionRangeOptions;

    open spec fn deep_view(&self) -> SelectionRangeOptions {
        *self
    }
}

impl Content for SelectionRangeOptions {
    fn same_content(&self, other: &Self) -> (same: bool) {
        *self == *other
    }

    fn copy_content(&self) -> (copy: Self) {
        *self
    }
}

impl DeepView for InlineValueOptions {
    type V = InlineValueOptions;

    open spec fn deep_view(&self) -> InlineValueOptions {
        *self
    }
}

impl Content for InlineValueOptions {
    fn same_content(&self, other: &Self) -> (same: bool) {
        *self == *other
    }

    fn copy_content(&self) -> (copy: Self) {
        *self
    }
}

impl DeepView for TypeDefinitionOptions {
    type V = TypeDefinitionOptions;

    open spec fn deep_view(&self) -> TypeDefinitionOptions {
        *self
    }
}

impl Content for TypeDefinitionOptions {
    fn same_content(&self, other: &Self) -> (same: bool) {
        *self == *other
    }

    fn copy_content(&self) -> (copy: Self) {
        *self
    }
}

impl DeepView for ImplementationOptions {
    type V = ImplementationOptions;

    open spec fn deep_view(&self) -> ImplementationOptions {
        *self
    }
}

impl Content for ImplementationOptions {
    fn same_content(&self, other: &Self) -> (same: bool) {
        *self == *other
    }

    fn copy_content(&self) -> (copy: Self) {
        *self
    }
}

impl DeepView for DocumentRangeFormattingOptions {
    type V = DocumentRangeFormattingOptions;

    open spec fn deep_view(&self) -> DocumentRangeFormattingOptions {
        *self
    }
}

impl Content for DocumentRangeFormattingOptions {
    fn same_content(&self, other: &Self) -> (same: bool) {
        *self == *other
    }

    fn copy_content(&self) -> (copy: Self) {
        *self
    }
}

impl DeepView for WorkspaceSymbolOptions {
    type V = WorkspaceSymbolOptions;

    open spec fn deep_view(&self) -> WorkspaceSymbolOptions {
        *self
    }
}

impl Content for WorkspaceSymbolOptions {
    fn same_content(&self, other: &Self) -> (same: bool) {
        *self == *other
    }

    fn copy_content(&self) -> (copy: Self) {
        *self
    }
}

impl DeepView for RenameOptions {
    type V = RenameOptions;

    open spec fn deep_view(&self) -> RenameOptions {
        *self
    }
}

impl Content for RenameOptions {
    fn same_content(&self, other: &Self) -> (same: bool) {
        *self == *other
    }

    fn copy_content(&self) -> (copy: Self) {
        *self
    }
}

impl DeepView for CodeLensOptions {
    type V = CodeLensOptions;

    open spec fn deep_view(&self) -> CodeLensOptions {
        *self
    }
}

impl Content for CodeLensOptions {
    fn same_content(&self, other: &Self) -> (same: bool) {
        *self == *other
    }

    fn copy_content(&self) -> (copy: Self) {
        *self
    }
}

impl DeepView for DocumentLinkOptions {
    type V = DocumentLinkOptions;

    open spec fn deep_view(&self) -> DocumentLinkOptions {
        *self
    }
}

impl Content for DocumentLinkOptions {
    fn same_content(&self, other: &Self) -> (same: bool) {
        *self == *other
    }

    fn copy_content(&self) -> (copy: Self) {
        *self
    }
}

impl DeepView for InlayHintOptions {
    type V = InlayHintOptions;

    open spec fn deep_view(&self) -> InlayHintOptions {
        *self
    }
}

impl Content for InlayHintOptions {
    fn same_content(&self, other: &Self) -> (same: bool) {
        *self == *other
    }

    fn copy_content(&self) -> (copy: Self) {
        *self
    }
}

impl DeepView for WorkDoneProgressOptions {
    type V = WorkDoneProgressOptions;

    open spec fn deep_view(&self) -> WorkDoneProgressOptions {
        *self
    }
}

impl Content for WorkDoneProgressOptions {
    fn same_content(&self, other: &Self) -> (same: bool) {
        *self == *other
    }

    fn copy_content(&self) -> (copy: Self) {
        *self
    }
}

impl DeepView for ServerCompletionItemOptions {
    type V = ServerCompletionItemOptions;

    open spec fn deep_view(&self) -> ServerCompletionItemOptions {
        *self
    }
}

impl Content for ServerCompletionItemOptions {
    fn same_content(&self, other: &Self) -> (same: bool) {
        *self == *other
    }

    fn copy_content(&self) -> (copy: Self) {
        *self
    }
}

impl DeepView for FileOperationPatternOptions {
    type V = FileOperationPatternOptions;

    open spec fn deep_view(&self) -> FileOperationPatternOptions {
        *self
    }
}

impl Content for FileOperationPatternOptions {
    fn same_content(&self, other: &Self) -> (same: bool) {
        *self == *other
    }

    fn copy_content(&self) -> (copy: Self) {
        *self
    }
}

impl DeepView for Full {
    type V = Full;

    open spec fn deep_view(&self) -> Full {
        *self
    }
}

impl Content for Full {
    fn same_content(&self, other: &Self) -> (same: bool) {
        *self == *other
    }

    fn copy_content(&self) -> (copy: Self) {
        *self
    }
}

impl DeepView for SemanticTokensOptionsRange {
    type V = SemanticTokensOptionsRange;

    open spec fn deep_view(&self) -> SemanticTokensOptionsRange {
        *self
    }
}

impl Content for SemanticTokensOptionsRange {
    fn same_content(&self, other: &Self) -> (same: bool) {
        *self == *other
    }

    fn copy_content(&self) -> (copy: Self) {
        *self
    }
}

impl DeepView for WorkspaceFoldersServerCapabilities {
    type V = WorkspaceFoldersServerCapabilities;

    open spec fn deep_view(&self) -> WorkspaceFoldersServerCapabilities {
        *self
    }
}

impl Content for WorkspaceFoldersServerCapabilities {
    fn same_content(&self, other: &Self) -> (same: bool) {
        *self == *other
    }

    fn copy_content(&self) -> (copy: Self) {
        *self
    }
}

impl DeepView for TextDocumentSync {
    type V = TextDocumentSync;

    open spec fn deep_view(&self) -> TextDocumentSync {
        *self
    }
}

impl Content for TextDocumentSync {
    fn same_content(&self, other: &Self) -> (same: bool) {
        *self == *other
    }

    fn copy_content(&self) -> (copy: Self) {
        *self
    }
}

/// Options of on-type formatting.
#[derive(Debug, PartialEq, Eq)]
pub struct DocumentOnTypeFormattingOptions {
    /// The character that triggers formatting.
    pub first_trigger_character: String,
    /// Further trigger characters.
    pub more_trigger_character: Option<Vec<String>>,
}

/// What [`DocumentOnTypeFormattingOptions`] holds.
pub struct DocumentOnTypeFormattingOptionsView {
    pub first_trigger_character: Seq<char>,
    pub more_trigger_character: Option<Seq<Seq<char>>>,
}

impl DeepView for DocumentOnTypeFormattingOptions {
    type V = DocumentOnTypeFormattingOptionsView;

    open spec fn deep_view(&self) -> DocumentOnTypeFormattingOptionsView {
        DocumentOnTypeFormattingOptionsView {
            first_trigger_character: self.first_trigger_character.deep_view(),
            more_trigger_character: self.more_trigger_character.deep_view(),
        }
    }
}

impl Content for DocumentOnTypeFormattingOptions {
    fn same_content(&self, other: &Self) -> (same: bool) {
        self.first_trigger_character.same_content(&other.first_trigger_character)
            && self.more_trigger_character.same_content(&other.more_trigger_character)
    }

    fn copy_content(&self) -> (copy: Self) {
        DocumentOnTypeFormattingOptions {
            first_trigger_character: self.first_trigger_character.copy_content(),
            more_trigger_character: self.more_trigger_character.copy_content(),
        }
    }
}

impl Clone for DocumentOnTypeFormattingOptions {
    fn clone(&self) -> (copy: Self)
        ensures
            copy.deep_view() == self.deep_view(),
    {
        self.copy_content()
    }
}

impl DocumentOnTypeFormattingOptionsView {
    /// Nothing said.
    pub open spec fn empty() -> Self {
        DocumentOnTypeFormattingOptionsView {
            first_trigger_character: Seq::empty(),
            more_trigger_character: None,
        }
    }
}

impl Default for DocumentOnTypeFormattingOptions {
    fn default() -> (options: Self)
        ensures
            options.deep_view() == DocumentOnTypeFormattingOptionsView::empty(),
    {
        let options = DocumentOnTypeFormattingOptions {
            first_trigger_character: String::new(),
            more_trigger_character: None,
        };
        options
    }
}

/// Options of signature help.
#[derive(Debug, PartialEq, Eq)]
pub struct SignatureHelpOptions {
    /// Characters that trigger signature help.
    pub trigger_characters: Option<Vec<String>>,
    /// Characters that trigger it again while it shows.
    pub retrigger_characters: Option<Vec<String>>,
    /// Whether work-done progress is reported.
    pub work_done_progress_options: WorkDoneProgressOptions,
}

/// What [`SignatureHelpOptions`] holds.
pub struct SignatureHelpOptionsView {
    pub trigger_characters: Option<Seq<Seq<char>>>,
    pub retrigger_characters: Option<Seq<Seq<char>>>,
    pub work_done_progress_options: WorkDoneProgressOptions,
}

impl DeepView for SignatureHelpOptions {
    type V = SignatureHelpOptionsView;

    open spec fn deep_view(&self) -> SignatureHelpOptionsView {
        SignatureHelpOptionsView {
            trigger_characters: self.trigger_characters.deep_view(),
            retrigger_characters: self.retrigger_characters.deep_view(),
            work_done_progress_options: self.work_done_progress_options.deep_view(),
        }
    }
}

impl Content for SignatureHelpOptions {
    fn same_content(&self, other: &Self) -> (same: bool) {
        self.trigger_characters.same_content(&other.trigger_characters)
            && self.retrigger_characters.same_content(&other.retrigger_characters)
            && self.work_done_progress_options.same_content(&other.work_done_progress_options)
    }

    fn copy_content(&self) -> (copy: Self) {
        SignatureHelpOptions {
            trigger_characters: self.trigger_characters.copy_content(),
            retrigger_characters: self.retrigger_characters.copy_content(),
            work_done_progress_options: self.work_done_progress_options.copy_content(),
        }
    }
}

impl Clone for SignatureHelpOptions {
    fn clone(&self) -> (copy: Self)
        ensures
            copy.deep_view() == self.deep_view(),
    {
        self.copy_content()
    }
}

impl SignatureHelpOptionsView {
    /// Nothing said.
    pub open spec fn empty() -> Self {
        SignatureHelpOptionsView {
            trigger_characters: None,
            retrigger_characters: None,
            work_done_progress_options: WorkDoneProgressOptions { work_done_progress: None },
        }
    }
}

impl Default for SignatureHelpOptions {
    fn default() -> (options: Self)
        ensures
            options.deep_view() == SignatureHelpOptionsView::empty(),
    {
        let options = SignatureHelpOptions {
            trigger_characters: None,
            retrigger_characters: None,
            work_done_progress_options: WorkDoneProgressOptions::default(),
        };
        options
    }
}

/// Which documents a registration is for.
#[derive(Debug, PartialEq, Eq)]
pub struct DocumentFilter {
    /// A language identifier.
    pub language: Option<String>,
    /// A URI scheme.
    pub scheme: Option<String>,
    /// A glob pattern.
    pub pattern: Option<String>,
    /// A notebook type.
    pub notebook: Option<String>,
}

/// What [`DocumentFilter`] holds.
pub struct DocumentFilterView {
    pub language: Option<Seq<char>>,
    pub scheme: Option<Seq<char>>,
    pub pattern: Option<Seq<char>>,
    pub notebook: Option<Seq<char>>,
}

impl DeepView for DocumentFilter {
    type V = DocumentFilterView;

    open spec fn deep_view(&self) -> DocumentFilterView {
        DocumentFilterView {
            language: self.language.deep_view(),
            scheme: self.scheme.deep_view(),
            pattern: self.pattern.deep_view(),
            notebook: self.notebook.deep_view(),
        }
    }
}

impl Content for DocumentFilter {
    fn same_content(&self, other: &Self) -> (same: bool) {
        self.language.same_content(&other.language)
            && self.scheme.same_content(&other.scheme)
            && self.pattern.same_content(&other.pattern)
            && self.notebook.same_content(&other.notebook)
    }

    fn copy_content(&self) -> (copy: Self) {
        DocumentFilter {
            language: self.language.copy_content(),
            scheme: self.scheme.copy_content(),
            pattern: self.pattern.copy_content(),
            notebook: self.notebook.copy_content(),
        }
    }
}

impl Clone for DocumentFilter {
    fn clone(&self) -> (copy: Self)
        ensures
            copy.deep_view() == self.deep_view(),
    {
        self.copy_content()
    }
}

/// The identity of a registration.
#[derive(Debug, PartialEq, Eq)]
pub struct StaticRegistrationOptions {
    /// The identifier that undoes the registration.
    pub id: Option<String>,
}

/// What [`StaticRegistrationOptions`] holds.
pub struct StaticRegistrationOptionsView {
    pub id: Option<Seq<char>>,
}

impl DeepView for StaticRegistrationOptions {
    type V = StaticRegistrationOptionsView;

    open spec fn deep_view(&self) -> StaticRegistrationOptionsView {
        StaticRegistrationOptionsView {
            id: self.id.deep_view(),
        }
    }
}

impl Content for StaticRegistrationOptions {
    fn same_content(&self, other: &Self) -> (same: bool) {
        self.id.same_content(&other.id)
    }

    fn copy_content(&self) -> (copy: Self) {
        StaticRegistrationOptions {
            id: self.id.copy_content(),
        }
    }
}

impl Clone for StaticRegistrationOptions {
    fn clone(&self) -> (copy: Self)
        ensures
            copy.deep_view() == self.deep_view(),
    {
        self.copy_content()
    }
}

impl StaticRegistrationOptionsView {
    /// Nothing said.
    pub open spec fn empty() -> Self {
        StaticRegistrationOptionsView {
            id: None,
        }
    }
}

impl Default for StaticRegistrationOptions {
    fn default() -> (options: Self)
        ensures
            options.deep_view() == StaticRegistrationOptionsView::empty(),
    {
        let options = StaticRegistrationOptions {
            id: None,
        };
        options
    }
}

/// The documents of a registration.
#[derive(Debug, PartialEq, Eq)]
pub struct TextDocumentRegistrationOptions {
    /// The documents the registration is for.
    pub document_selector: Option<Vec<DocumentFilter>>,
}

/// What [`TextDocumentRegistrationOptions`] holds.
pub struct TextDocumentRegistrationOptionsView {
    pub document_selector: Option<Seq<DocumentFilterView>>,
}

impl DeepView for TextDocumentRegistrationOptions {
    type V = TextDocumentRegistrationOptionsView;

    open spec fn deep_view(&self) -> TextDocumentRegistrationOptionsView {
        TextDocumentRegistrationOptionsView {
            document_selector: self.document_selector.deep_view(),
        }
    }
}

impl Content for TextDocumentRegistrationOptions {
    fn same_content(&self, other: &Self) -> (same: bool) {
        self.document_selector.same_content(&other.document_selector)
    }

    fn copy_content(&self) -> (copy: Self) {
        TextDocumentRegistrationOptions {
            document_selector: self.document_selector.copy_content(),
        }
    }
}

impl Clone for TextDocumentRegistrationOptions {
    fn clone(&self) -> (copy: Self)
        ensures
            copy.deep_view() == self.deep_view(),
    {
        self.copy_content()
    }
}

impl TextDocumentRegistrationOptionsView {
    /// Nothing said.
    pub open spec fn empty() -> Self {
        TextDocumentRegistrationOptionsView {
            document_selector: None,
        }
    }
}

impl Default for TextDocumentRegistrationOptions {
    fn default() -> (options: Self)
        ensures
            options.deep_view() == TextDocumentRegistrationOptionsView::empty(),
    {
        let options = TextDocumentRegistrationOptions {
            document_selector: None,
        };
        options
    }
}

/// Options of go to type definition, as a registration.
#[derive(Debug, PartialEq, Eq)]
pub struct TypeDefinitionRegistrationOptions {
    /// The registration's identifier.
    pub static_registration_options: StaticRegistrationOptions,
    /// The documents it is for.
    pub text_document_registration_options: TextDocumentRegistrationOptions,
    /// The feature's own options.
    pub type_definition_options: TypeDefinitionOptions,
}

/// What [`TypeDefinitionRegistrationOptions`] holds.
pub struct TypeDefinitionRegistrationOptionsView {
    pub static_registration_options: StaticRegistrationOptionsView,
    pub text_document_registration_options: TextDocumentRegistrationOptionsView,
    pub type_definition_options: TypeDefinitionOptions,
}

impl DeepView for TypeDefinitionRegistrationOptions {
    type V = TypeDefinitionRegistrationOptionsView;

    open spec fn deep_view(&self) -> TypeDefinitionRegistrationOptionsView {
        TypeDefinitionRegistrationOptionsView {
            static_registration_options: self.static_registration_options.deep_view(),
            text_document_registration_options: self.text_document_registration_options.deep_view(),
            type_definition_options: self.type_definition_options.deep_view(),
        }
    }
}

impl Content for TypeDefinitionRegistrationOptions {
    fn same_content(&self, other: &Self) -> (same: bool) {
        self.static_registration_options.same_content(&other.static_registration_options)
            && self.text_document_registration_options.same_content(&other.text_document_registration_options)
            && self.type_definition_options.same_content(&other.type_definition_options)
    }

    fn copy_content(&self) -> (copy: Self) {
        TypeDefinitionRegistrationOptions {
            static_registration_options: self.static_registration_options.copy_content(),
            text_document_registration_options: self.text_document_registration_options.copy_content(),
            type_definition_options: self.type_definition_options.copy_content(),
        }
    }
}

impl Clone for TypeDefinitionRegistrationOptions {
    fn clone(&self) -> (copy: Self)
        ensures
            copy.deep_view() == self.deep_view(),
    {
        self.copy_content()
    }
}

impl TypeDefinitionRegistrationOptionsView {
    /// Nothing said.
    pub open spec fn empty() -> Self {
        TypeDefinitionRegistrationOptionsView {
            static_registration_options: StaticRegistrationOptionsView::empty(),
            text_document_registration_options: TextDocumentRegistrationOptionsView::empty(),
            type_definition_options: TypeDefinitionOptions { work_done_progress_options: WorkDoneProgressOptions { work_done_progress: None } },
        }
    }
}

impl Default for TypeDefinitionRegistrationOptions {
    fn default() -> (options: Self)
        ensures
            options.deep_view() == TypeDefinitionRegistrationOptionsView::empty(),
    {
        let options = TypeDefinitionRegistrationOptions {
            static_registration_options: StaticRegistrationOptions::default(),
            text_document_registration_options: TextDocumentRegistrationOptions::default(),
            type_definition_options: TypeDefinitionOptions::default(),
        };
        options
    }
}

/// Options of go to implementation, as a registration.
#[derive(Debug, PartialEq, Eq)]
pub struct ImplementationRegistrationOptions {
    /// The registration's identifier.
    pub static_registration_options: StaticRegistrationOptions,
    /// The documents it is for.
    pub text_document_registration_options: TextDocumentRegistrationOptions,
    /// The feature's own options.
    pub implementation_options: ImplementationOptions,
}

/// What [`ImplementationRegistrationOptions`] holds.
pub struct ImplementationRegistrationOptionsView {
    pub static_registration_options: StaticRegistrationOptionsView,
    pub text_document_registration_options: TextDocumentRegistrationOptionsView,
    pub implementation_options: ImplementationOptions,
}

impl DeepView for ImplementationRegistrationOptions {
    type V = ImplementationRegistrationOptionsView;

    open spec fn deep_view(&self) -> ImplementationRegistrationOptionsView {
        ImplementationRegistrationOptionsView {
            static_registration_options: self.static_registration_options.deep_view(),
            text_document_registration_options: self.text_document_registration_options.deep_view(),
            implementation_options: self.implementation_options.deep_view(),
        }
    }
}

impl Content for ImplementationRegistrationOptions {
    fn same_content(&self, other: &Self) -> (same: bool) {
        self.static_registration_options.same_content(&other.static_registration_options)
            && self.text_document_registration_options.same_content(&other.text_document_registration_options)
            && self.implementation_options.same_content(&other.implementation_options)
    }

    fn copy_content(&self) -> (copy: Self) {
        ImplementationRegistrationOptions {
            static_registration_options: self.static_registration_options.copy_content(),
            text_document_registration_options: self.text_document_registration_options.copy_content(),
            implementation_options: self.implementation_options.copy_content(),
        }
    }
}

impl Clone for ImplementationRegistrationOptions {
    fn clone(&self) -> (copy: Self)
        ensures
            copy.deep_view() == self.deep_view(),
    {
        self.copy_content()
    }
}

impl ImplementationRegistrationOptionsView {
    /// Nothing said.
    pub open spec fn empty() -> Self {
        ImplementationRegistrationOptionsView {
            static_registration_options: StaticRegistrationOptionsView::empty(),
            text_document_registration_options: TextDocumentRegistrationOptionsView::empty(),
            implementation_options: ImplementationOptions { work_done_progress_options: WorkDoneProgressOptions { work_done_progress: None } },
        }
    }
}

impl Default for ImplementationRegistrationOptions {
    fn default() -> (options: Self)
        ensures
            options.deep_view() == ImplementationRegistrationOptionsView::empty(),
    {
        let options = ImplementationRegistrationOptions {
            static_registration_options: StaticRegistrationOptions::default(),
            text_document_registration_options: TextDocumentRegistrationOptions::default(),
            implementation_options: ImplementationOptions::default(),
        };
        options
    }
}

/// Options of document symbols.
#[derive(Debug, PartialEq, Eq)]
pub struct DocumentSymbolOptions {
    /// What the outline is called.
    pub label: Option<String>,
    /// Whether work-done progress is reported.
    pub work_done_progress_options: WorkDoneProgressOptions,
}

/// What [`DocumentSymbolOptions`] holds.
pub struct DocumentSymbolOptionsView {
    pub label: Option<Seq<char>>,
    pub work_done_progress_options: WorkDoneProgressOptions,
}

impl DeepView for DocumentSymbolOptions {
    type V = DocumentSymbolOptionsView;

    open spec fn deep_view(&self) -> DocumentSymbolOptionsView {
        DocumentSymbolOptionsView {
            label: self.label.deep_view(),
            work_done_progress_options: self.work_done_progress_options.deep_view(),
        }
    }
}

impl Content for DocumentSymbolOptions {
    fn same_content(&self, other: &Self) -> (same: bool) {
        self.label.same_content(&other.label)
            && self.work_done_progress_options.same_content(&other.work_done_progress_options)
    }

    fn copy_content(&self) -> (copy: Self) {
        DocumentSymbolOptions {
            label: self.label.copy_content(),
            work_done_progress_options: self.work_done_progress_options.copy_content(),
        }
    }
}

impl Clone for DocumentSymbolOptions {
    fn clone(&self) -> (copy: Self)
        ensures
            copy.deep_view() == self.deep_view(),
    {
        self.copy_content()
    }
}

impl DocumentSymbolOptionsView {
    /// Nothing said.
    pub open spec fn empty() -> Self {
        DocumentSymbolOptionsView {
            label: None,
            work_done_progress_options: WorkDoneProgressOptions { work_done_progress: None },
        }
    }
}

impl Default for DocumentSymbolOptions {
    fn default() -> (options: Self)
        ensures
            options.deep_view() == DocumentSymbolOptionsView::empty(),
    {
        let options = DocumentSymbolOptions {
            label: None,
            work_done_progress_options: WorkDoneProgressOptions::default(),
        };
        options
    }
}

/// Options of completion.
#[derive(Debug, PartialEq, Eq)]
pub struct CompletionOptions {
    /// Characters that trigger completion.
    pub trigger_characters: Option<Vec<String>>,
    /// Characters that accept any item.
    pub all_commit_characters: Option<Vec<String>>,
    /// Whether an item is resolved later.
    pub resolve_provider: Option<bool>,
    /// What items may hold.
    pub completion_item: Option<ServerCompletionItemOptions>,
    /// Whether work-done progress is reported.
    pub work_done_progress_options: WorkDoneProgressOptions,
}

/// What [`CompletionOptions`] holds.
pub struct CompletionOptionsView {
    pub trigger_characters: Option<Seq<Seq<char>>>,
    pub all_commit_characters: Option<Seq<Seq<char>>>,
    pub resolve_provider: Option<bool>,
    pub completion_item: Option<ServerCompletionItemOptions>,
    pub work_done_progress_options: WorkDoneProgressOptions,
}

impl DeepView for CompletionOptions {
    type V = CompletionOptionsView;

    open spec fn deep_view(&self) -> CompletionOptionsView {
        CompletionOptionsView {
            trigger_characters: self.trigger_characters.deep_view(),
            all_commit_characters: self.all_commit_characters.deep_view(),
            resolve_provider: self.resolve_provider.deep_view(),
            completion_item: self.completion_item.deep_view(),
            work_done_progress_options: self.work_done_progress_options.deep_view(),
        }
    }
}

impl Content for CompletionOptions {
    fn same_content(&self, other: &Self) -> (same: bool) {
        self.trigger_characters.same_content(&other.trigger_characters)
            && self.all_commit_characters.same_content(&other.all_commit_characters)
            && self.resolve_provider.same_content(&other.resolve_provider)
            && self.completion_item.same_content(&other.completion_item)
            && self.work_done_progress_options.same_content(&other.work_done_progress_options)
    }

    fn copy_content(&self) -> (copy: Self) {
        CompletionOptions {
            trigger_characters: self.trigger_characters.copy_content(),
            all_commit_characters: self.all_commit_characters.copy_content(),
            resolve_provider: self.resolve_provider.copy_content(),
            completion_item: self.completion_item.copy_content(),
            work_done_progress_options: self.work_done_progress_options.copy_content(),
        }
    }
}

impl Clone for CompletionOptions {
    fn clone(&self) -> (copy: Self)
        ensures
            copy.deep_view() == self.deep_view(),
    {
        self.copy_content()
    }
}

impl CompletionOptionsView {
    /// Nothing said.
    pub open spec fn empty() -> Self {
        CompletionOptionsView {
            trigger_characters: None,
            all_commit_characters: None,
            resolve_provider: None,
            completion_item: None,
            work_done_progress_options: WorkDoneProgressOptions { work_done_progress: None },
        }
    }
}

impl Default for CompletionOptions {
    fn default() -> (options: Self)
        ensures
            options.deep_view() == CompletionOptionsView::empty(),
    {
        let options = CompletionOptions {
            trigger_characters: None,
            all_commit_characters: None,
            resolve_provider: None,
            completion_item: None,
            work_done_progress_options: WorkDoneProgressOptions::default(),
        };
        options
    }
}

/// Options of pull diagnostics.
#[derive(Debug, PartialEq, Eq)]
pub struct DiagnosticOptions {
    /// Who makes the diagnostics.
    pub identifier: Option<String>,
    /// Whether one file's diagnostics depend on others.
    pub inter_file_dependencies: bool,
    /// Whether the whole workspace is diagnosed.
    pub workspace_diagnostics: bool,
    /// Whether work-done progress is reported.
    pub work_done_progress_options: WorkDoneProgressOptions,
}

/// What [`DiagnosticOptions`] holds.
pub struct DiagnosticOptionsView {
    pub identifier: Option<Seq<char>>,
    pub inter_file_dependencies: bool,
    pub workspace_diagnostics: bool,
    pub work_done_progress_options: WorkDoneProgressOptions,
}

impl DeepView for DiagnosticOptions {
    type V = DiagnosticOptionsView;

    open spec fn deep_view(&self) -> DiagnosticOptionsView {
        DiagnosticOptionsView {
            identifier: self.identifier.deep_view(),
            inter_file_dependencies: self.inter_file_dependencies.deep_view(),
            workspace_diagnostics: self.workspace_diagnostics.deep_view(),
            work_done_progress_options: self.work_done_progress_options.deep_view(),
        }
    }
}

impl Content for DiagnosticOptions {
    fn same_content(&self, other: &Self) -> (same: bool) {
        self.identifier.same_content(&other.identifier)
            && self.inter_file_dependencies.same_content(&other.inter_file_dependencies)
            && self.workspace_diagnostics.same_content(&other.workspace_diagnostics)
            && self.work_done_progress_options.same_content(&other.work_done_progress_options)
    }

    fn copy_content(&self) -> (copy: Self) {
        DiagnosticOptions {
            identifier: self.identifier.copy_content(),
            inter_file_dependencies: self.inter_file_dependencies.copy_content(),
            workspace_diagnostics: self.workspace_diagnostics.copy_content(),
            work_done_progress_options: self.work_done_progress_options.copy_content(),
        }
    }
}

impl Clone for DiagnosticOptions {
    fn clone(&self) -> (copy: Self)
        ensures
            copy.deep_view() == self.deep_view(),
    {
        self.copy_content()
    }
}

impl DiagnosticOptionsView {
    /// Nothing said.
    pub open spec fn empty() -> Self {
        DiagnosticOptionsView {
            identifier: None,
            inter_file_dependencies: false,
            workspace_diagnostics: false,
            work_done_progress_options: WorkDoneProgressOptions { work_done_progress: None },
        }
    }
}

impl Default for DiagnosticOptions {
    fn default() -> (options: Self)
        ensures
            options.deep_view() == DiagnosticOptionsView::empty(),
    {
        let options = DiagnosticOptions {
            identifier: None,
            inter_file_dependencies: false,
            workspace_diagnostics: false,
            work_done_progress_options: WorkDoneProgressOptions::default(),
        };
        options
    }
}

/// Documentation for a kind of code action.
#[derive(Debug, PartialEq, Eq)]
pub struct CodeActionKindDocumentation {
    /// The kind of code action.
    pub kind: String,
    /// The title of the command that documents it.
    pub title: String,
    /// The command's identifier.
    pub command: String,
    /// The command's arguments, as JSON.
    pub arguments: Option<String>,
}

/// What [`CodeActionKindDocumentation`] holds.
pub struct CodeActionKindDocumentationView {
    pub kind: Seq<char>,
    pub title: Seq<char>,
    pub command: Seq<char>,
    pub arguments: Option<Seq<char>>,
}

impl DeepView for CodeActionKindDocumentation {
    type V = CodeActionKindDocumentationView;

    open spec fn deep_view(&self) -> CodeActionKindDocumentationView {
        CodeActionKindDocumentationView {
            kind: self.kind.deep_view(),
            title: self.title.deep_view(),
            command: self.command.deep_view(),
            arguments: self.arguments.deep_view(),
        }
    }
}

impl Content for CodeActionKindDocumentation {
    fn same_content(&self, other: &Self) -> (same: bool) {
        self.kind.same_content(&other.kind)
            && self.title.same_content(&other.title)
            && self.command.same_content(&other.command)
            && self.arguments.same_content(&other.arguments)
    }

    fn copy_content(&self) -> (copy: Self) {
        CodeActionKindDocumentation {
            kind: self.kind.copy_content(),
            title: self.title.copy_content(),
            command: self.command.copy_content(),
            arguments: self.arguments.copy_content(),
        }
    }
}

impl Clone for CodeActionKindDocumentation {
    fn clone(&self) -> (copy: Self)
        ensures
            copy.deep_view() == self.deep_view(),
    {
        self.copy_content()
    }
}

/// Options of code actions.
#[derive(Debug, PartialEq, Eq)]
pub struct CodeActionOptions {
    /// The kinds of code action on offer.
    pub code_action_kinds: Option<Vec<String>>,
    /// Documentation for kinds of code action.
    pub documentation: Option<Vec<CodeActionKindDocumentation>>,
    /// Whether an action is resolved later.
    pub resolve_provider: Option<bool>,
    /// Whether work-done progress is reported.
    pub work_done_progress_options: WorkDoneProgressOptions,
}

/// What [`CodeActionOptions`] holds.
pub struct CodeActionOptionsView {
    pub code_action_kinds: Option<Seq<Seq<char>>>,
    pub documentation: Option<Seq<CodeActionKindDocumentationView>>,
    pub resolve_provider: Option<bool>,
    pub work_done_progress_options: WorkDoneProgressOptions,
}

impl DeepView for CodeActionOptions {
    type V = CodeActionOptionsView;

    open spec fn deep_view(&self) -> CodeActionOptionsView {
        CodeActionOptionsView {
            code_action_kinds: self.code_action_kinds.deep_view(),
            documentation: self.documentation.deep_view(),
            resolve_provider: self.resolve_provider.deep_view(),
            work_done_progress_options: self.work_done_progress_options.deep_view(),
        }
    }
}

impl Content for CodeActionOptions {
    fn same_content(&self, other: &Self) -> (same: bool) {
        self.code_action_kinds.same_content(&other.code_action_kinds)
            && self.documentation.same_content(&other.documentation)
            && self.resolve_provider.same_content(&other.resolve_provider)
            && self.work_done_progress_options.same_content(&other.work_done_progress_options)
    }

    fn copy_content(&self) -> (copy: Self) {
        CodeActionOptions {
            code_action_kinds: self.code_action_kinds.copy_content(),
            documentation: self.documentation.copy_content(),
            resolve_provider: self.resolve_provider.copy_content(),
            work_done_progress_options: self.work_done_progress_options.copy_content(),
        }
    }
}

impl Clone for CodeActionOptions {
    fn clone(&self) -> (copy: Self)
        ensures
            copy.deep_view() == self.deep_view(),
    {
        self.copy_content()
    }
}

impl CodeActionOptionsView {
    /// Nothing said.
    pub open spec fn empty() -> Self {
        CodeActionOptionsView {
            code_action_kinds: None,
            documentation: None,
            resolve_provider: None,
            work_done_progress_options: WorkDoneProgressOptions { work_done_progress: None },
        }
    }
}

impl Default for CodeActionOptions {
    fn default() -> (options: Self)
        ensures
            options.deep_view() == CodeActionOptionsView::empty(),
    {
        let options = CodeActionOptions {
            code_action_kinds: None,
            documentation: None,
            resolve_provider: None,
            work_done_progress_options: WorkDoneProgressOptions::default(),
        };
        options
    }
}

/// A pattern of paths.
#[derive(Debug, PartialEq, Eq)]
pub struct FileOperationPattern {
    /// The glob pattern.
    pub glob: String,
    /// Whether files, folders or both match.
    pub matches: Option<FileOperationPatternKind>,
    /// How the pattern is matched.
    pub options: Option<FileOperationPatternOptions>,
}

/// What [`FileOperationPattern`] holds.
pub struct FileOperationPatternView {
    pub glob: Seq<char>,
    pub matches: Option<FileOperationPatternKindView>,
    pub options: Option<FileOperationPatternOptions>,
}

impl DeepView for FileOperationPattern {
    type V = FileOperationPatternView;

    open spec fn deep_view(&self) -> FileOperationPatternView {
        FileOperationPatternView {
            glob: self.glob.deep_view(),
            matches: self.matches.deep_view(),
            options: self.options.deep_view(),
        }
    }
}

impl Content for FileOperationPattern {
    fn same_content(&self, other: &Self) -> (same: bool) {
        self.glob.same_content(&other.glob)
            && self.matches.same_content(&other.matches)
            && self.options.same_content(&other.options)
    }

    fn copy_content(&self) -> (copy: Self) {
        FileOperationPattern {
            glob: self.glob.copy_content(),
            matches: self.matches.copy_content(),
            options: self.options.copy_content(),
        }
    }
}

impl Clone for FileOperationPattern {
    fn clone(&self) -> (copy: Self)
        ensures
            copy.deep_view() == self.deep_view(),
    {
        self.copy_content()
    }
}

/// A filter of files.
#[derive(Debug, PartialEq, Eq)]
pub struct FileOperationFilter {
    /// A URI scheme.
    pub scheme: Option<String>,
    /// The pattern of the paths.
    pub pattern: FileOperationPattern,
}

/// What [`FileOperationFilter`] holds.
pub struct FileOperationFilterView {
    pub scheme: Option<Seq<char>>,
    pub pattern: FileOperationPatternView,
}

impl DeepView for FileOperationFilter {
    type V = FileOperationFilterView;

    open spec fn deep_view(&self) -> FileOperationFilterView {
        FileOperationFilterView {
            scheme: self.scheme.deep_view(),
            pattern: self.pattern.deep_view(),
        }
    }
}

impl Content for FileOperationFilter {
    fn same_content(&self, other: &Self) -> (same: bool) {
        self.scheme.same_content(&other.scheme)
            && self.pattern.same_content(&other.pattern)
    }

    fn copy_content(&self) -> (copy: Self) {
        FileOperationFilter {
            scheme: self.scheme.copy_content(),
            pattern: self.pattern.copy_content(),
        }
    }
}

impl Clone for FileOperationFilter {
    fn clone(&self) -> (copy: Self)
        ensures
            copy.deep_view() == self.deep_view(),
    {
        self.copy_content()
    }
}

/// The files an operation is reported for.
#[derive(Debug, PartialEq, Eq)]
pub struct FileOperationRegistrationOptions {
    /// The files the operation is reported for.
    pub filters: Vec<FileOperationFilter>,
}

/// What [`FileOperationRegistrationOptions`] holds.
pub struct FileOperationRegistrationOptionsView {
    pub filters: Seq<FileOperationFilterView>,
}

impl DeepView for FileOperationRegistrationOptions {
    type V = FileOperationRegistrationOptionsView;

    open spec fn deep_view(&self) -> FileOperationRegistrationOptionsView {
        FileOperationRegistrationOptionsView {
            filters: self.filters.deep_view(),
        }
    }
}

impl Content for FileOperationRegistrationOptions {
    fn same_content(&self, other: &Self) -> (same: bool) {
        self.filters.same_content(&other.filters)
    }

    fn copy_content(&self) -> (copy: Self) {
        FileOperationRegistrationOptions {
            filters: self.filters.copy_content(),
        }
    }
}

impl Clone for FileOperationRegistrationOptions {
    fn clone(&self) -> (copy: Self)
        ensures
            copy.deep_view() == self.deep_view(),
    {
        self.copy_content()
    }
}

impl FileOperationRegistrationOptionsView {
    /// Nothing said.
    pub open spec fn empty() -> Self {
        FileOperationRegistrationOptionsView {
            filters: Seq::empty(),
        }
    }
}

impl Default for FileOperationRegistrationOptions {
    fn default() -> (options: Self)
        ensures
            options.deep_view() == FileOperationRegistrationOptionsView::empty(),
    {
        let options = FileOperationRegistrationOptions {
            filters: Vec::new(),
        };
        assert(options.filters.deep_view() =~= Seq::empty());
        options
    }
}

/// The names of token types and modifiers.
#[derive(Debug, PartialEq, Eq)]
pub struct SemanticTokensLegend {
    /// The types of token.
    pub token_types: Vec<String>,
    /// The modifiers of token.
    pub token_modifiers: Vec<String>,
}

/// What [`SemanticTokensLegend`] holds.
pub struct SemanticTokensLegendView {
    pub token_types: Seq<Seq<char>>,
    pub token_modifiers: Seq<Seq<char>>,
}

impl DeepView for SemanticTokensLegend {
    type V = SemanticTokensLegendView;

    open spec fn deep_view(&self) -> SemanticTokensLegendView {
        SemanticTokensLegendView {
            token_types: self.token_types.deep_view(),
            token_modifiers: self.token_modifiers.deep_view(),
        }
    }
}

impl Content for SemanticTokensLegend {
    fn same_content(&self, other: &Self) -> (same: bool) {
        self.token_types.same_content(&other.token_types)
            && self.token_modifiers.same_content(&other.token_modifiers)
    }

    fn copy_content(&self) -> (copy: Self) {
        SemanticTokensLegend {
            token_types: self.token_types.copy_content(),
            token_modifiers: self.token_modifiers.copy_content(),
        }
    }
}

impl Clone for SemanticTokensLegend {
    fn clone(&self) -> (copy: Self)
        ensures
            copy.deep_view() == self.deep_view(),
    {
        self.copy_content()
    }
}

impl SemanticTokensLegendView {
    /// Nothing said.
    pub open spec fn empty() -> Self {
        SemanticTokensLegendView {
            token_types: Seq::empty(),
            token_modifiers: Seq::empty(),
        }
    }
}

impl Default for SemanticTokensLegend {
    fn default() -> (options: Self)
        ensures
            options.deep_view() == SemanticTokensLegendView::empty(),
    {
        let options = SemanticTokensLegend {
            token_types: Vec::new(),
            token_modifiers: Vec::new(),
        };
        assert(options.token_types.deep_view() =~= Seq::empty());
        assert(options.token_modifiers.deep_view() =~= Seq::empty());
        options
    }
}

/// Options of semantic tokens.
#[derive(Debug, PartialEq, Eq)]
pub struct SemanticTokensOptions {
    /// The legend of types and modifiers.
    pub legend: SemanticTokensLegend,
    /// Whether the tokens of a range are served.
    pub range: Option<SemanticTokensOptionsRange>,
    /// Whether the tokens of a document are served.
    pub full: Option<Full>,
    /// Whether work-done progress is reported.
    pub work_done_progress_options: WorkDoneProgressOptions,
}

/// What [`SemanticTokensOptions`] holds.
pub struct SemanticTokensOptionsView {
    pub legend: SemanticTokensLegendView,
    pub range: Option<SemanticTokensOptionsRange>,
    pub full: Option<Full>,
    pub work_done_progress_options: WorkDoneProgressOptions,
}

impl DeepView for SemanticTokensOptions {
    type V = SemanticTokensOptionsView;

    open spec fn deep_view(&self) -> SemanticTokensOptionsView {
        SemanticTokensOptionsView {
            legend: self.legend.deep_view(),
            range: self.range.deep_view(),
            full: self.full.deep_view(),
            work_done_progress_options: self.work_done_progress_options.deep_view(),
        }
    }
}

impl Content for SemanticTokensOptions {
    fn same_content(&self, other: &Self) -> (same: bool) {
        self.legend.same_content(&other.legend)
            && self.range.same_content(&other.range)
            && self.full.same_content(&other.full)
            && self.work_done_progress_options.same_content(&other.work_done_progress_options)
    }

    fn copy_content(&self) -> (copy: Self) {
        SemanticTokensOptions {
            legend: self.legend.copy_content(),
            range: self.range.copy_content(),
            full: self.full.copy_content(),
            work_done_progress_options: self.work_done_progress_options.copy_content(),
        }
    }
}

impl Clone for SemanticTokensOptions {
    fn clone(&self) -> (copy: Self)
        ensures
            copy.deep_view() == self.deep_view(),
    {
        self.copy_content()
    }
}

impl SemanticTokensOptionsView {
    /// Nothing said.
    pub open spec fn empty() -> Self {
        SemanticTokensOptionsView {
            legend: SemanticTokensLegendView::empty(),
            range: None,
            full: None,
            work_done_progress_options: WorkDoneProgressOptions { work_done_progress: None },
        }
    }
}

impl Default for SemanticTokensOptions {
    fn default() -> (options: Self)
        ensures
            options.deep_view() == SemanticTokensOptionsView::empty(),
    {
        let options = SemanticTokensOptions {
            legend: SemanticTokensLegend::default(),
            range: None,
            full: None,
            work_done_progress_options: WorkDoneProgressOptions::default(),
        };
        options
    }
}

/// The commands a server executes.
#[derive(Debug, PartialEq, Eq)]
pub struct ExecuteCommandOptions {
    /// The commands' names.
    pub commands: Vec<String>,
    /// Whether work-done progress is reported.
    pub work_done_progress_options: WorkDoneProgressOptions,
}

/// What [`ExecuteCommandOptions`] holds.
pub struct ExecuteCommandOptionsView {
    pub commands: Seq<Seq<char>>,
    pub work_done_progress_options: WorkDoneProgressOptions,
}

impl DeepView for ExecuteCommandOptions {
    type V = ExecuteCommandOptionsView;

    open spec fn deep_view(&self) -> ExecuteCommandOptionsView {
        ExecuteCommandOptionsView {
            commands: self.commands.deep_view(),
            work_done_progress_options: self.work_done_progress_options.deep_view(),
        }
    }
}

impl Content for ExecuteCommandOptions {
    fn same_content(&self, other: &Self) -> (same: bool) {
        self.commands.same_content(&other.commands)
            && self.work_done_progress_options.same_content(&other.work_done_progress_options)
    }

    fn copy_content(&self) -> (copy: Self) {
        ExecuteCommandOptions {
            commands: self.commands.copy_content(),
            work_done_progress_options: self.work_done_progress_options.copy_content(),
        }
    }
}

impl Clone for ExecuteCommandOptions {
    fn clone(&self) -> (copy: Self)
        ensures
            copy.deep_view() == self.deep_view(),
    {
        self.copy_content()
    }
}

impl ExecuteCommandOptionsView {
    /// Nothing said.
    pub open spec fn empty() -> Self {
        ExecuteCommandOptionsView {
            commands: Seq::empty(),
            work_done_progress_options: WorkDoneProgressOptions { work_done_progress: None },
        }
    }
}

impl Default for ExecuteCommandOptions {
    fn default() -> (options: Self)
        ensures
            options.deep_view() == ExecuteCommandOptionsView::empty(),
    {
        let options = ExecuteCommandOptions {
            commands: Vec::new(),
            work_done_progress_options: WorkDoneProgressOptions::default(),
        };
        assert(options.commands.deep_view() =~= Seq::empty());
        options
    }
}

/// The file operations a server hears of.
#[derive(Debug, PartialEq, Eq)]
pub struct FileOperationOptions {
    /// After files were created.
    pub did_create: Option<FileOperationRegistrationOptions>,
    /// Before files are created.
    pub will_create: Option<FileOperationRegistrationOptions>,
    /// After files were renamed.
    pub did_rename: Option<FileOperationRegistrationOptions>,
    /// Before files are renamed.
    pub will_rename: Option<FileOperationRegistrationOptions>,
    /// After files were deleted.
    pub did_delete: Option<FileOperationRegistrationOptions>,
    /// Before files are deleted.
    pub will_delete: Option<FileOperationRegistrationOptions>,
}

/// What [`FileOperationOptions`] holds.
pub struct FileOperationOptionsView {
    pub did_create: Option<FileOperationRegistrationOptionsView>,
    pub will_create: Option<FileOperationRegistrationOptionsView>,
    pub did_rename: Option<FileOperationRegistrationOptionsView>,
    pub will_rename: Option<FileOperationRegistrationOptionsView>,
    pub did_delete: Option<FileOperationRegistrationOptionsView>,
    pub will_delete: Option<FileOperationRegistrationOptionsView>,
}

impl DeepView for FileOperationOptions {
    type V = FileOperationOptionsView;

    open spec fn deep_view(&self) -> FileOperationOptionsView {
        FileOperationOptionsView {
            did_create: self.did_create.deep_view(),
            will_create: self.will_create.deep_view(),
            did_rename: self.did_rename.deep_view(),
            will_rename: self.will_rename.deep_view(),
            did_delete: self.did_delete.deep_view(),
            will_delete: self.will_delete.deep_view(),
        }
    }
}

impl Content for FileOperationOptions {
    fn same_content(&self, other: &Self) -> (same: bool) {
        self.did_create.same_content(&other.did_create)
            && self.will_create.same_content(&other.will_create)
            && self.did_rename.same_content(&other.did_rename)
            && self.will_rename.same_content(&other.will_rename)
            && self.did_delete.same_content(&other.did_delete)
            && self.will_delete.same_content(&other.will_delete)
    }

    fn copy_content(&self) -> (copy: Self) {
        FileOperationOptions {
            did_create: self.did_create.copy_content(),
            will_create: self.will_create.copy_content(),
            did_rename: self.did_rename.copy_content(),
            will_rename: self.will_rename.copy_content(),
            did_delete: self.did_delete.copy_content(),
            will_delete: self.will_delete.copy_content(),
        }
    }
}

impl Clone for FileOperationOptions {
    fn clone(&self) -> (copy: Self)
        ensures
            copy.deep_view() == self.deep_view(),
    {
        self.copy_content()
    }
}

impl FileOperationOptionsView {
    /// Nothing said.
    pub open spec fn empty() -> Self {
        FileOperationOptionsView {
            did_create: None,
            will_create: None,
            did_rename: None,
            will_rename: None,
            did_delete: None,
            will_delete: None,
        }
    }
}

impl Default for FileOperationOptions {
    fn default() -> (options: Self)
        ensures
            options.deep_view() == FileOperationOptionsView::empty(),
    {
        let options = FileOperationOptions {
            did_create: None,
            will_create: None,
            did_rename: None,
            will_rename: None,
            did_delete: None,
            will_delete: None,
        };
        options
    }
}

/// What a server does for the workspace.
#[derive(Debug, PartialEq, Eq)]
pub struct WorkspaceOptions {
    /// Support for workspace folders.
    pub workspace_folders: Option<WorkspaceFoldersServerCapabilities>,
    /// Support for file operations.
    pub file_operations: Option<FileOperationOptions>,
}

/// What [`WorkspaceOptions`] holds.
pub struct WorkspaceOptionsView {
    pub workspace_folders: Option<WorkspaceFoldersServerCapabilities>,
    pub file_operations: Option<FileOperationOptionsView>,
}

impl DeepView for WorkspaceOptions {
    type V = WorkspaceOptionsView;

    open spec fn deep_view(&self) -> WorkspaceOptionsView {
        WorkspaceOptionsView {
            workspace_folders: self.workspace_folders.deep_view(),
            file_operations: self.file_operations.deep_view(),
        }
    }
}

impl Content for WorkspaceOptions {
    fn same_content(&self, other: &Self) -> (same: bool) {
        self.workspace_folders.same_content(&other.workspace_folders)
            && self.file_operations.same_content(&other.file_operations)
    }

    fn copy_content(&self) -> (copy: Self) {
        WorkspaceOptions {
            workspace_folders: self.workspace_folders.copy_content(),
            file_operations: self.file_operations.copy_content(),
        }
    }
}

impl Clone for WorkspaceOptions {
    fn clone(&self) -> (copy: Self)
        ensures
            copy.deep_view() == self.deep_view(),
    {
        self.copy_content()
    }
}

impl WorkspaceOptionsView {
    /// Nothing said.
    pub open spec fn empty() -> Self {
        WorkspaceOptionsView {
            workspace_folders: None,
            file_operations: None,
        }
    }
}

impl Default for WorkspaceOptions {
    fn default() -> (options: Self)
        ensures
            options.deep_view() == WorkspaceOptionsView::empty(),
    {
        let options = WorkspaceOptions {
            workspace_folders: None,
            file_operations: None,
        };
        options
    }
}

/// What a server can do, as it tells the client.
#[derive(Debug, PartialEq, Eq)]
pub struct ServerCapabilities {
    /// The negotiated position encoding.
    pub position_encoding: Option<PositionEncodingKind>,
    /// How documents are synchronized.
    pub text_document_sync: Option<TextDocumentSync>,
    /// Completion.
    pub completion_provider: Option<CompletionOptions>,
    /// Hover.
    pub hover_provider: Option<bool>,
    /// Signature help.
    pub signature_help_provider: Option<SignatureHelpOptions>,
    /// Go to declaration.
    pub declaration_provider: Option<DeclarationOptions>,
    /// Go to definition.
    pub definition_provider: Option<DefinitionOptions>,
    /// Go to type definition.
    pub type_definition_provider: Option<TypeDefinitionRegistrationOptions>,
    /// Go to implementation.
    pub implementation_provider: Option<ImplementationRegistrationOptions>,
    /// Find references.
    pub references_provider: Option<ReferenceOptions>,
    /// Document highlights.
    pub document_highlight_provider: Option<DocumentHighlightOptions>,
    /// Document symbols.
    pub document_symbol_provider: Option<DocumentSymbolOptions>,
    /// Code actions.
    pub code_action_provider: Option<CodeActionOptions>,
    /// Code lenses.
    pub code_lens_provider: Option<CodeLensOptions>,
    /// Document links.
    pub document_link_provider: Option<DocumentLinkOptions>,
    /// Document colors.
    pub color_provider: Option<DocumentColorOptions>,
    /// Workspace symbols.
    pub workspace_symbol_provider: Option<WorkspaceSymbolOptions>,
    /// Whole-document formatting.
    pub document_formatting_provider: Option<DocumentFormattingOptions>,
    /// Range formatting.
    pub document_range_formatting_provider: Option<DocumentRangeFormattingOptions>,
    /// On-type formatting.
    pub document_on_type_formatting_provider: Option<DocumentOnTypeFormattingOptions>,
    /// Renaming.
    pub rename_provider: Option<RenameOptions>,
    /// Folding ranges.
    pub folding_range_provider: Option<FoldingRangeOptions>,
    /// Selection ranges.
    pub selection_range_provider: Option<SelectionRangeOptions>,
    /// Commands.
    pub execute_command_provider: Option<ExecuteCommandOptions>,
    /// Call hierarchies.
    pub call_hierarchy_provider: Option<CallHierarchyOptions>,
    /// Linked editing ranges.
    pub linked_editing_range_provider: Option<LinkedEditingRangeOptions>,
    /// Semantic tokens.
    pub semantic_tokens_provider: Option<SemanticTokensOptions>,
    /// Monikers.
    pub moniker_provider: Option<MonikerOptions>,
    /// Type hierarchies.
    pub type_hierarchy_provider: Option<TypeHierarchyOptions>,
    /// Inline values.
    pub inline_value_provider: Option<InlineValueOptions>,
    /// Inlay hints.
    pub inlay_hint_provider: Option<InlayHintOptions>,
    /// Pull diagnostics.
    pub diagnostic_provider: Option<DiagnosticOptions>,
    /// Workspace features.
    pub workspace: Option<WorkspaceOptions>,
}

/// What [`ServerCapabilities`] holds.
pub struct ServerCapabilitiesView {
    pub position_encoding: Option<PositionEncodingKindView>,
    pub text_document_sync: Option<TextDocumentSync>,
    pub completion_provider: Option<CompletionOptionsView>,
    pub hover_provider: Option<bool>,
    pub signature_help_provider: Option<SignatureHelpOptionsView>,
    pub declaration_provider: Option<DeclarationOptions>,
    pub definition_provider: Option<DefinitionOptions>,
    pub type_definition_provider: Option<TypeDefinitionRegistrationOptionsView>,
    pub implementation_provider: Option<ImplementationRegistrationOptionsView>,
    pub references_provider: Option<ReferenceOptions>,
    pub document_highlight_provider: Option<DocumentHighlightOptions>,
    pub document_symbol_provider: Option<DocumentSymbolOptionsView>,
    pub code_action_provider: Option<CodeActionOptionsView>,
    pub code_lens_provider: Option<CodeLensOptions>,
    pub document_link_provider: Option<DocumentLinkOptions>,
    pub color_provider: Option<DocumentColorOptions>,
    pub workspace_symbol_provider: Option<WorkspaceSymbolOptions>,
    pub document_formatting_provider: Option<DocumentFormattingOptions>,
    pub document_range_formatting_provider: Option<DocumentRangeFormattingOptions>,
    pub document_on_type_formatting_provider: Option<DocumentOnTypeFormattingOptionsView>,
    pub rename_provider: Option<RenameOptions>,
    pub folding_range_provider: Option<FoldingRangeOptions>,
    pub selection_range_provider: Option<SelectionRangeOptions>,
    pub execute_command_provider: Option<ExecuteCommandOptionsView>,
    pub call_hierarchy_provider: Option<CallHierarchyOptions>,
    pub linked_editing_range_provider: Option<LinkedEditingRangeOptions>,
    pub semantic_tokens_provider: Option<SemanticTokensOptionsView>,
    pub moniker_provider: Option<MonikerOptions>,
    pub type_hierarchy_provider: Option<TypeHierarchyOptions>,
    pub inline_value_provider: Option<InlineValueOptions>,
    pub inlay_hint_provider: Option<InlayHintOptions>,
    pub diagnostic_provider: Option<DiagnosticOptionsView>,
    pub workspace: Option<WorkspaceOptionsView>,
}

impl DeepView for ServerCapabilities {
    type V = ServerCapabilitiesView;

    open spec fn deep_view(&self) -> ServerCapabilitiesView {
        ServerCapabilitiesView {
            position_encoding: self.position_encoding.deep_view(),
            text_document_sync: self.text_document_sync.deep_view(),
            completion_provider: self.completion_provider.deep_view(),
            hover_provider: self.hover_provider.deep_view(),
            signature_help_provider: self.signature_help_provider.deep_view(),
            declaration_provider: self.declaration_provider.deep_view(),
            definition_provider: self.definition_provider.deep_view(),
            type_definition_provider: self.type_definition_provider.deep_view(),
            implementation_provider: self.implementation_provider.deep_view(),
            references_provider: self.references_provider.deep_view(),
            document_highlight_provider: self.document_highlight_provider.deep_view(),
            document_symbol_provider: self.document_symbol_provider.deep_view(),
            code_action_provider: self.code_action_provider.deep_view(),
            code_lens_provider: self.code_lens_provider.deep_view(),
            document_link_provider: self.document_link_provider.deep_view(),
            color_provider: self.color_provider.deep_view(),
            workspace_symbol_provider: self.workspace_symbol_provider.deep_view(),
            document_formatting_provider: self.document_formatting_provider.deep_view(),
            document_range_formatting_provider: self.document_range_formatting_provider.deep_view(),
            document_on_type_formatting_provider: self.document_on_type_formatting_provider.deep_view(),
            rename_provider: self.rename_provider.deep_view(),
            folding_range_provider: self.folding_range_provider.deep_view(),
            selection_range_provider: self.selection_range_provider.deep_view(),
            execute_command_provider: self.execute_command_provider.deep_view(),
            call_hierarchy_provider: self.call_hierarchy_provider.deep_view(),
            linked_editing_range_provider: self.linked_editing_range_provider.deep_view(),
            semantic_tokens_provider: self.semantic_tokens_provider.deep_view(),
            moniker_provider: self.moniker_provider.deep_view(),
            type_hierarchy_provider: self.type_hierarchy_provider.deep_view(),
            inline_value_provider: self.inline_value_provider.deep_view(),
            inlay_hint_provider: self.inlay_hint_provider.deep_view(),
            diagnostic_provider: self.diagnostic_provider.deep_view(),
            workspace: self.workspace.deep_view(),
        }
    }
}

impl Content for ServerCapabilities {
    fn same_content(&self, other: &Self) -> (same: bool) {
        self.position_encoding.same_content(&other.position_encoding)
            && self.text_document_sync.same_content(&other.text_document_sync)
            && self.completion_provider.same_content(&other.completion_provider)
            && self.hover_provider.same_content(&other.hover_provider)
            && self.signature_help_provider.same_content(&other.signature_help_provider)
            && self.declaration_provider.same_content(&other.declaration_provider)
            && self.definition_provider.same_content(&other.definition_provider)
            && self.type_definition_provider.same_content(&other.type_definition_provider)
            && self.implementation_provider.same_content(&other.implementation_provider)
            && self.references_provider.same_content(&other.references_provider)
            && self.document_highlight_provider.same_content(&other.document_highlight_provider)
            && self.document_symbol_provider.same_content(&other.document_symbol_provider)
            && self.code_action_provider.same_content(&other.code_action_provider)
            && self.code_lens_provider.same_content(&other.code_lens_provider)
            && self.document_link_provider.same_content(&other.document_link_provider)
            && self.color_provider.same_content(&other.color_provider)
            && self.workspace_symbol_provider.same_content(&other.workspace_symbol_provider)
            && self.document_formatting_provider.same_content(&other.document_formatting_provider)
            && self.document_range_formatting_provider.same_content(&other.document_range_formatting_provider)
            && self.document_on_type_formatting_provider.same_content(&other.document_on_type_formatting_provider)
            && self.rename_provider.same_content(&other.rename_provider)
            && self.folding_range_provider.same_content(&other.folding_range_provider)
            && self.selection_range_provider.same_content(&other.selection_range_provider)
            && self.execute_command_provider.same_content(&other.execute_command_provider)
            && self.call_hierarchy_provider.same_content(&other.call_hierarchy_provider)
            && self.linked_editing_range_provider.same_content(&other.linked_editing_range_provider)
            && self.semantic_tokens_provider.same_content(&other.semantic_tokens_provider)
            && self.moniker_provider.same_content(&other.moniker_provider)
            && self.type_hierarchy_provider.same_content(&other.type_hierarchy_provider)
            && self.inline_value_provider.same_content(&other.inline_value_provider)
            && self.inlay_hint_provider.same_content(&other.inlay_hint_provider)
            && self.diagnostic_provider.same_content(&other.diagnostic_provider)
            && self.workspace.same_content(&other.workspace)
    }

    fn copy_content(&self) -> (copy: Self) {
        ServerCapabilities {
            position_encoding: self.position_encoding.copy_content(),
            text_document_sync: self.text_document_sync.copy_content(),
            completion_provider: self.completion_provider.copy_content(),
            hover_provider: self.hover_provider.copy_content(),
            signature_help_provider: self.signature_help_provider.copy_content(),
            declaration_provider: self.declaration_provider.copy_content(),
            definition_provider: self.definition_provider.copy_content(),
            type_definition_provider: self.type_definition_provider.copy_content(),
            implementation_provider: self.implementation_provider.copy_content(),
            references_provider: self.references_provider.copy_content(),
            document_highlight_provider: self.document_highlight_provider.copy_content(),
            document_symbol_provider: self.document_symbol_provider.copy_content(),
            code_action_provider: self.code_action_provider.copy_content(),
            code_lens_provider: self.code_lens_provider.copy_content(),
            document_link_provider: self.document_link_provider.copy_content(),
            color_provider: self.color_provider.copy_content(),
            workspace_symbol_provider: self.workspace_symbol_provider.copy_content(),
            document_formatting_provider: self.document_formatting_provider.copy_content(),
            document_range_formatting_provider: self.document_range_formatting_provider.copy_content(),
            document_on_type_formatting_provider: self.document_on_type_formatting_provider.copy_content(),
            rename_provider: self.rename_provider.copy_content(),
            folding_range_provider: self.folding_range_provider.copy_content(),
            selection_range_provider: self.selection_range_provider.copy_content(),
            execute_command_provider: self.execute_command_provider.copy_content(),
            call_hierarchy_provider: self.call_hierarchy_provider.copy_content(),
            linked_editing_range_provider: self.linked_editing_range_provider.copy_content(),
            semantic_tokens_provider: self.semantic_tokens_provider.copy_content(),
            moniker_provider: self.moniker_provider.copy_content(),
            type_hierarchy_provider: self.type_hierarchy_provider.copy_content(),
            inline_value_provider: self.inline_value_provider.copy_content(),
            inlay_hint_provider: self.inlay_hint_provider.copy_content(),
            diagnostic_provider: self.diagnostic_provider.copy_content(),
            workspace: self.workspace.copy_content(),
        }
    }
}

impl Clone for ServerCapabilities {
    fn clone(&self) -> (copy: Self)
        ensures
            copy.deep_view() == self.deep_view(),
    {
        self.copy_content()
    }
}

impl ServerCapabilitiesView {
    /// Nothing said.
    pub open spec fn empty() -> Self {
        ServerCapabilitiesView {
            position_encoding: None,
            text_document_sync: None,
            completion_provider: None,
            hover_provider: None,
            signature_help_provider: None,
            declaration_provider: None,
            definition_provider: None,
            type_definition_provider: None,
            implementation_provider: None,
            references_provider: None,
            document_highlight_provider: None,
            document_symbol_provider: None,
            code_action_provider: None,
            code_lens_provider: None,
            document_link_provider: None,
            color_provider: None,
            workspace_symbol_provider: None,
            document_formatting_provider: None,
            document_range_formatting_provider: None,
            document_on_type_formatting_provider: None,
            rename_provider: None,
            folding_range_provider: None,
            selection_range_provider: None,
            execute_command_provider: None,
            call_hierarchy_provider: None,
            linked_editing_range_provider: None,
            semantic_tokens_provider: None,
            moniker_provider: None,
            type_hierarchy_provider: None,
            inline_value_provider: None,
            inlay_hint_provider: None,
            diagnostic_provider: None,
            workspace: None,
        }
    }
}

impl Default for ServerCapabilities {
    fn default() -> (options: Self)
        ensures
            options.deep_view() == ServerCapabilitiesView::empty(),
    {
        let options = ServerCapabilities {
            position_encoding: None,
            text_document_sync: None,
            completion_provider: None,
            hover_provider: None,
            signature_help_provider: None,
            declaration_provider: None,
            definition_provider: None,
            type_definition_provider: None,
            implementation_provider: None,
            references_provider: None,
            document_highlight_provider: None,
            document_symbol_provider: None,
            code_action_provider: None,
            code_lens_provider: None,
            document_link_provider: None,
            color_provider: None,
            workspace_symbol_provider: None,
            document_formatting_provider: None,
            document_range_formatting_provider: None,
            document_on_type_formatting_provider: None,
            rename_provider: None,
            folding_range_provider: None,
            selection_range_provider: None,
            execute_command_provider: None,
            call_hierarchy_provider: None,
            linked_editing_range_provider: None,
            semantic_tokens_provider: None,
            moniker_provider: None,
            type_hierarchy_provider: None,
            inline_value_provider: None,
            inlay_hint_provider: None,
            diagnostic_provider: None,
            workspace: None,
        };
        options
    }
}

} // verus!
