//! The connection-owned builder surface.
//!
//! [`Server::builder`] collects static registrations against one application
//! state value; [`ServerBuilder::build`] validates them and returns a
//! [`Server`] without performing any I/O or freezing the [`Router`]. The
//! protocol engine freezes the Router later, when it commits the initialize
//! transaction: after a valid `initialize`, it runs the sole
//! `configure_initialize` callback against a transactional
//! [`InitializeRegistrar`], then the `on_initialize` lifecycle hook.
//!
//! Handlers and hooks are values of a type `H` that the builder only stores and
//! hands out: whoever drives the connection invokes them.
use vstd::prelude::*;

use serde_json::Value;

use crate::capability::{CapabilityBuilder, CatalogView};
use crate::error::{BuildError, BuildErrorView};
use crate::features::{FeatureSpec, NotificationFeatureSpec};
use crate::json::{json_entry, json_get, json_model, json_text, JsonModel};
use crate::options::{
    Content, Save, ServerCapabilities, TextDocumentSync, TextDocumentSyncKind,
    TextDocumentSyncOptions,
};
use crate::resource_policy::ResourcePolicy;
use crate::table::Table;
use crate::text::same_text;

verus! {

/// The wire method commands dispatch beneath. A command registration and an
/// explicit request handler for this method cannot coexist.
pub const EXECUTE_COMMAND_METHOD: &'static str = "workspace/executeCommand";

/// Method names owned by the framework's lifecycle; a custom request or
/// notification may not shadow one of them.
pub open spec fn is_reserved_method(method: Seq<char>) -> bool {
    ||| method == "initialize"@
    ||| method == "shutdown"@
    ||| method == "exit"@
    ||| method == "initialized"@
    ||| method == "$/cancelRequest"@
}

/// Whether the framework's lifecycle owns a method.
pub fn reserved_method(method: &str) -> (reserved: bool)
    ensures
        reserved == is_reserved_method(method@),
{
    same_text(method, "initialize") || same_text(method, "shutdown") || same_text(method, "exit")
        || same_text(method, "initialized") || same_text(method, "$/cancelRequest")
}

/// One erasure boundary for handlers shared by runtime tasks.
pub trait SharedHandler<Args, Output> {
    /// Call the handler.
    fn invoke(&self, args: Args) -> (output: Output);
}

/// A notification whose validation or state mutation the protocol engine owns.
///
/// A `notification` registration for one of these methods records the
/// connection's single post-validation hook rather than a Router route. When
/// the notification mutates protocol state, the hook observes that mutation
/// instead of replacing it. This enum is the one place that says which methods
/// those are.
#[derive(Debug, Clone, Copy, PartialEq, Eq, Structural)]
pub enum ProtocolNotification {
    Open,
    Change,
    Close,
    WillSave,
    Save,
    WorkspaceFolders,
    Configuration,
    Trace,
    /// `window/workDoneProgress/cancel`: the engine fires the matching
    /// handle's cancellation token; a registration records the
    /// post-validation hook.
    ProgressCancel,
}

impl ProtocolNotification {
    /// The wire method of a built-in.
    pub open spec fn method(self) -> Seq<char> {
        match self {
            ProtocolNotification::Open => "textDocument/didOpen"@,
            ProtocolNotification::Change => "textDocument/didChange"@,
            ProtocolNotification::Close => "textDocument/didClose"@,
            ProtocolNotification::WillSave => "textDocument/willSave"@,
            ProtocolNotification::Save => "textDocument/didSave"@,
            ProtocolNotification::WorkspaceFolders => "workspace/didChangeWorkspaceFolders"@,
            ProtocolNotification::Configuration => "workspace/didChangeConfiguration"@,
            ProtocolNotification::Trace => "$/setTrace"@,
            ProtocolNotification::ProgressCancel => "window/workDoneProgress/cancel"@,
        }
    }

    /// The built-in a wire method names.
    pub open spec fn of_method(method: Seq<char>) -> Option<ProtocolNotification> {
        if exists|built_in: ProtocolNotification| #[trigger] built_in.method() == method {
            Some(choose|built_in: ProtocolNotification| #[trigger] built_in.method() == method)
        } else {
            None
        }
    }

    /// No two built-ins have one method.
    pub proof fn lemma_methods_differ(a: ProtocolNotification, b: ProtocolNotification)
        ensures
            (a.method() == b.method()) == (a == b),
    {
        reveal_strlit("textDocument/didOpen");
        reveal_strlit("textDocument/didChange");
        reveal_strlit("textDocument/didClose");
        reveal_strlit("textDocument/willSave");
        reveal_strlit("textDocument/didSave");
        reveal_strlit("workspace/didChangeWorkspaceFolders");
        reveal_strlit("workspace/didChangeConfiguration");
        reveal_strlit("$/setTrace");
        reveal_strlit("window/workDoneProgress/cancel");
        if a.method() == b.method() {
            assert(a.method().len() == b.method().len());
            assert(a.method()[16] == b.method()[16]);
            assert(a.method()[17] == b.method()[17]);
        }
    }

    proof fn lemma_of_method(self)
        ensures
            Self::of_method(self.method()) == Some(self),
    {
        let chosen = choose|built_in: ProtocolNotification| #[trigger]
            built_in.method() == self.method();
        Self::lemma_methods_differ(chosen, self);
    }

    /// The built-in this wire method names, or `None` when the method is an
    /// ordinary route.
    pub fn from_method(method: &str) -> (built_in: Option<Self>)
        ensures
            built_in == Self::of_method(method@),
    {
        let built_in = if same_text(method, "textDocument/didOpen") {
            ProtocolNotification::Open
        } else if same_text(method, "textDocument/didChange") {
            ProtocolNotification::Change
        } else if same_text(method, "textDocument/didClose") {
            ProtocolNotification::Close
        } else if same_text(method, "textDocument/willSave") {
            ProtocolNotification::WillSave
        } else if same_text(method, "textDocument/didSave") {
            ProtocolNotification::Save
        } else if same_text(method, "workspace/didChangeWorkspaceFolders") {
            ProtocolNotification::WorkspaceFolders
        } else if same_text(method, "workspace/didChangeConfiguration") {
            ProtocolNotification::Configuration
        } else if same_text(method, "$/setTrace") {
            ProtocolNotification::Trace
        } else if same_text(method, "window/workDoneProgress/cancel") {
            ProtocolNotification::ProgressCancel
        } else {
            assert forall|b: ProtocolNotification| #[trigger] b.method() != method@ by {}
            return None;
        };
        proof {
            built_in.lemma_of_method();
        }
        Some(built_in)
    }
}

/// The effective document synchronization: what is advertised, and every option
/// it rests on.
#[derive(Debug, Clone, Copy, PartialEq, Eq, Structural)]
pub struct DocumentSyncSettings {
    pub capability: TextDocumentSync,
    pub options: TextDocumentSyncOptions,
}

/// What registrations imply for document synchronization: hooks for save and
/// for will-save, and the pre-save edit request.
pub struct SyncUses {
    pub save_hook: bool,
    pub will_save_hook: bool,
    pub wait_until: bool,
}

/// The first synchronization field that explicit options deny although a
/// registration uses it.
pub open spec fn denied_sync_field(
    explicit: TextDocumentSyncOptions,
    uses: SyncUses,
) -> Option<Seq<char>> {
    let unsynced = explicit.change == Some(TextDocumentSyncKind::Unsynced);
    if uses.save_hook && explicit.save == Some(Save::Bool(false)) {
        Some("textDocumentSync.save"@)
    } else if uses.will_save_hook && explicit.will_save == Some(false) {
        Some("textDocumentSync.willSave"@)
    } else if uses.wait_until && explicit.will_save_wait_until == Some(false) {
        Some("textDocumentSync.willSaveWaitUntil"@)
    } else if unsynced && uses.save_hook {
        Some("textDocumentSync.save"@)
    } else if unsynced && uses.will_save_hook {
        Some("textDocumentSync.willSave"@)
    } else if unsynced && uses.wait_until {
        Some("textDocumentSync.willSaveWaitUntil"@)
    } else {
        None
    }
}

/// An option, or what it is where it was left open.
pub open spec fn or_given<T>(option: Option<T>, given: T) -> Option<T> {
    if option is Some {
        option
    } else {
        Some(given)
    }
}

/// The effective settings for explicit options, where there are any.
///
/// Unspecified open/close and change options are filled in, and save-related
/// options are inferred from registrations. Without synchronization everything
/// is off. Only where nothing was said and nothing is used is the plain kind
/// advertised.
pub open spec fn sync_settings(
    explicit: Option<TextDocumentSyncOptions>,
    uses: SyncUses,
) -> DocumentSyncSettings {
    let given = match explicit {
        Some(options) => options,
        None => TextDocumentSyncOptions {
            open_close: None,
            change: None,
            will_save: None,
            will_save_wait_until: None,
            save: None,
        },
    };
    if given.change == Some(TextDocumentSyncKind::Unsynced) {
        DocumentSyncSettings {
            capability: TextDocumentSync::Kind(TextDocumentSyncKind::Unsynced),
            options: TextDocumentSyncOptions {
                open_close: Some(false),
                change: Some(TextDocumentSyncKind::Unsynced),
                will_save: Some(false),
                will_save_wait_until: Some(false),
                save: Some(Save::Bool(false)),
            },
        }
    } else {
        let options = TextDocumentSyncOptions {
            open_close: or_given(given.open_close, true),
            change: or_given(given.change, TextDocumentSyncKind::Incremental),
            will_save: if uses.will_save_hook {
                or_given(given.will_save, true)
            } else {
                given.will_save
            },
            will_save_wait_until: if uses.wait_until {
                or_given(given.will_save_wait_until, true)
            } else {
                given.will_save_wait_until
            },
            save: if uses.save_hook {
                or_given(given.save, Save::Bool(true))
            } else {
                given.save
            },
        };
        DocumentSyncSettings {
            capability: if explicit is None && !uses.save_hook && !uses.will_save_hook
                && !uses.wait_until {
                TextDocumentSync::Kind(TextDocumentSyncKind::Incremental)
            } else {
                TextDocumentSync::Options(options)
            },
            options,
        }
    }
}

/// The still-mutable set of handler registrations and their capability
/// contributions. Both [`ServerBuilder`] and [`InitializeRegistrar`] accumulate
/// into one of these; the protocol engine [`freeze`](Self::freeze)s it into a
/// [`Router`] once the initialize transaction commits.
///
/// Each `add_*` method performs the same conflict detection the frozen table
/// relies on, returning the first [`BuildError`] to its caller, who decides
/// whether to record it (the builder) or abort the transaction (the registrar).
pub struct Registrations<H> {
    requests: Table<String, H>,
    notifications: Table<String, H>,
    /// Post-validation hooks for protocol-owned notifications, kept apart from
    /// `notifications` so no ordinary route can ever shadow a built-in.
    built_in_hooks: Table<String, H>,
    commands: Table<String, H>,
    capabilities: CapabilityBuilder,
    document_sync: Option<TextDocumentSyncOptions>,
}

/// What [`Registrations`] hold.
#[verifier::ext_equal]
pub struct RegistrationsView<H> {
    pub requests: Map<Seq<char>, H>,
    pub notifications: Map<Seq<char>, H>,
    pub built_in_hooks: Map<Seq<char>, H>,
    pub commands: Map<Seq<char>, H>,
    pub catalog: CatalogView,
    pub document_sync: Option<TextDocumentSyncOptions>,
}

/// Registrations after an attempt to add to them, and why it failed if it did.
pub struct Attempt<H> {
    pub after: RegistrationsView<H>,
    pub error: Option<BuildErrorView>,
}

impl<H> RegistrationsView<H> {
    /// Nothing registered.
    pub open spec fn empty() -> Self {
        RegistrationsView {
            requests: Map::empty(),
            notifications: Map::empty(),
            built_in_hooks: Map::empty(),
            commands: Map::empty(),
            catalog: CatalogView::empty(),
            document_sync: None,
        }
    }

    /// A request handler is added under its method.
    pub open spec fn add_request(self, method: Seq<char>, handler: H) -> Attempt<H> {
        if is_reserved_method(method) {
            Attempt { after: self, error: Some(BuildErrorView::ReservedMethod(method)) }
        } else {
            Attempt {
                after: RegistrationsView {
                    requests: self.requests.insert(method, handler),
                    ..self
                },
                error: if self.requests.dom().contains(method) {
                    Some(BuildErrorView::DuplicateMethod(method))
                } else {
                    None
                },
            }
        }
    }

    /// A notification handler is added under its method: as the hook of a
    /// built-in, or else as a route.
    pub open spec fn add_notification(self, method: Seq<char>, handler: H) -> Attempt<H> {
        if is_reserved_method(method) {
            Attempt { after: self, error: Some(BuildErrorView::ReservedMethod(method)) }
        } else if ProtocolNotification::of_method(method) is Some {
            Attempt {
                after: RegistrationsView {
                    built_in_hooks: self.built_in_hooks.insert(method, handler),
                    ..self
                },
                error: if self.built_in_hooks.dom().contains(method) {
                    Some(BuildErrorView::DuplicateMethod(method))
                } else {
                    None
                },
            }
        } else {
            Attempt {
                after: RegistrationsView {
                    notifications: self.notifications.insert(method, handler),
                    ..self
                },
                error: if self.notifications.dom().contains(method) {
                    Some(BuildErrorView::DuplicateMethod(method))
                } else {
                    None
                },
            }
        }
    }

    /// A command handler is added under its name.
    pub open spec fn add_command(self, name: Seq<char>, handler: H) -> Attempt<H> {
        if name.len() == 0 {
            Attempt { after: self, error: Some(BuildErrorView::EmptyCommandName) }
        } else if self.commands.dom().contains(name) {
            Attempt {
                after: RegistrationsView { commands: self.commands.insert(name, handler), ..self },
                error: Some(BuildErrorView::DuplicateCommand(name)),
            }
        } else {
            Attempt {
                after: RegistrationsView {
                    commands: self.commands.insert(name, handler),
                    catalog: self.catalog.add_command(name),
                    ..self
                },
                error: None,
            }
        }
    }

    /// What the registrations imply for document synchronization.
    pub open spec fn sync_uses(self) -> SyncUses {
        SyncUses {
            save_hook: self.built_in_hooks.dom().contains("textDocument/didSave"@),
            will_save_hook: self.built_in_hooks.dom().contains("textDocument/willSave"@),
            wait_until: self.catalog.will_save_wait_until,
        }
    }

    /// The synchronization field that the registrations conflict on.
    pub open spec fn sync_conflict(self) -> Option<Seq<char>> {
        match self.document_sync {
            Some(explicit) => denied_sync_field(explicit, self.sync_uses()),
            None => None,
        }
    }

    /// Commands stand beside a handler for the method that they dispatch under.
    pub open spec fn has_command_conflict(self) -> bool {
        self.commands != Map::<Seq<char>, H>::empty() && self.requests.dom().contains(
            EXECUTE_COMMAND_METHOD@,
        )
    }

    /// The Router the registrations freeze into.
    pub open spec fn frozen(self) -> RouterView<H> {
        RouterView {
            requests: self.requests,
            notifications: self.notifications,
            built_in_hooks: self.built_in_hooks,
            commands: self.commands,
            capabilities: self.catalog.finish(),
            document_sync: sync_settings(self.document_sync, self.sync_uses()),
        }
    }

    /// Why the registrations as a whole are invalid.
    pub open spec fn invalid(self) -> Option<BuildErrorView> {
        if self.catalog.invalid_field() is Some {
            Some(
                BuildErrorView::ConflictingCapability { field: self.catalog.invalid_field()->0 },
            )
        } else if self.sync_conflict() is Some {
            Some(BuildErrorView::ConflictingCapability { field: self.sync_conflict()->0 })
        } else if self.has_command_conflict() {
            Some(BuildErrorView::ExecuteCommandConflict)
        } else {
            None
        }
    }
}

/// A registration came out as expected.
pub open spec fn attempted<H>(
    expected: Attempt<H>,
    result: Result<(), BuildError>,
    after: RegistrationsView<H>,
) -> bool {
    &&& after == expected.after
    &&& match expected.error {
        Some(error) => result matches Err(e) && e@ == error,
        None => result is Ok,
    }
}

/// Registrations after a descriptor's contribution follows an addition.
pub open spec fn then_contributed<H>(
    added: Attempt<H>,
    contribution: spec_fn(CatalogView) -> Result<CatalogView, Seq<char>>,
) -> Attempt<H> {
    if added.error is Some {
        added
    } else {
        match contribution(added.after.catalog) {
            Ok(catalog) => Attempt {
                after: RegistrationsView { catalog, ..added.after },
                error: None,
            },
            Err(field) => Attempt {
                after: added.after,
                error: Some(BuildErrorView::ConflictingCapability { field }),
            },
        }
    }
}

impl<H> View for Registrations<H> {
    type V = RegistrationsView<H>;

    closed spec fn view(&self) -> RegistrationsView<H> {
        RegistrationsView {
            requests: self.requests@,
            notifications: self.notifications@,
            built_in_hooks: self.built_in_hooks@,
            commands: self.commands@,
            catalog: self.capabilities@,
            document_sync: self.document_sync,
        }
    }
}

impl<H> Registrations<H> {
    /// Nothing registered.
    pub fn new() -> (registrations: Self)
        ensures
            registrations@ == RegistrationsView::<H>::empty(),
    {
        Registrations {
            requests: Table::new(),
            notifications: Table::new(),
            built_in_hooks: Table::new(),
            commands: Table::new(),
            capabilities: CapabilityBuilder::default(),
            document_sync: None,
        }
    }

    /// Configure document synchronization explicitly.
    pub fn set_document_sync(&mut self, options: TextDocumentSyncOptions)
        ensures
            final(self)@ == (RegistrationsView { document_sync: Some(options), ..old(self)@ }),
    {
        self.document_sync = Some(options);
    }

    /// Register a standard feature handler and its capability contribution.
    pub fn add_feature<F: FeatureSpec>(&mut self, spec: &F, handler: H) -> (result: Result<
        (),
        BuildError,
    >)
        ensures
            attempted(
                then_contributed(
                    old(self)@.add_request(F::method_name(), handler),
                    |before: CatalogView| spec.contribution(before),
                ),
                result,
                final(self)@,
            ),
    {
        match self.add_request(spec.method().to_owned(), handler) {
            Ok(()) => {},
            Err(error) => return Err(error),
        }
        spec.contribute(&mut self.capabilities)
    }

    /// Register a request handler under its method, rejecting a reserved method
    /// or a duplicate. A custom request contributes no capability.
    pub fn add_request(&mut self, method: String, handler: H) -> (result: Result<(), BuildError>)
        ensures
            attempted(old(self)@.add_request(method@, handler), result, final(self)@),
    {
        if reserved_method(method.as_str()) {
            return Err(BuildError::ReservedMethod(method));
        }
        if self.requests.insert(method.clone(), handler).is_some() {
            return Err(BuildError::DuplicateMethod(method));
        }
        Ok(())
    }

    /// Register a notification handler under its method, rejecting a reserved
    /// method or a duplicate. A protocol-owned notification records the
    /// connection's one post-validation hook; every other method becomes a
    /// Router route.
    pub fn add_notification(&mut self, method: String, handler: H) -> (result: Result<
        (),
        BuildError,
    >)
        ensures
            attempted(old(self)@.add_notification(method@, handler), result, final(self)@),
    {
        if reserved_method(method.as_str()) {
            return Err(BuildError::ReservedMethod(method));
        }
        let replaced = if ProtocolNotification::from_method(method.as_str()).is_some() {
            self.built_in_hooks.insert(method.clone(), handler).is_some()
        } else {
            self.notifications.insert(method.clone(), handler).is_some()
        };
        if replaced {
            return Err(BuildError::DuplicateMethod(method));
        }
        Ok(())
    }

    /// Register a standard notification feature handler and its capability
    /// contribution. Shares [`add_notification`](Self::add_notification)'s
    /// routing — a protocol-owned method still records a post-validation hook
    /// rather than a route.
    pub fn add_feature_notification<F: NotificationFeatureSpec>(
        &mut self,
        spec: &F,
        handler: H,
    ) -> (result: Result<(), BuildError>)
        ensures
            attempted(
                then_contributed(
                    old(self)@.add_notification(F::method_name(), handler),
                    |before: CatalogView| spec.contribution(before),
                ),
                result,
                final(self)@,
            ),
    {
        match self.add_notification(spec.method().to_owned(), handler) {
            Ok(()) => {},
            Err(error) => return Err(error),
        }
        spec.contribute(&mut self.capabilities)
    }

    /// Register a command beneath `workspace/executeCommand`.
    pub fn add_command(&mut self, name: String, handler: H) -> (result: Result<(), BuildError>)
        ensures
            attempted(old(self)@.add_command(name@, handler), result, final(self)@),
    {
        if name.as_str().is_empty() {
            return Err(BuildError::EmptyCommandName);
        }
        if self.commands.insert(name.clone(), handler).is_some() {
            return Err(BuildError::DuplicateCommand(name));
        }
        self.capabilities.add_command(name);
        Ok(())
    }

    /// Cross-cutting validation that no single registration can detect on its
    /// own. Run both at static build time and when the initialize transaction
    /// commits, so a conditional registration cannot smuggle in a conflict.
    pub fn validate(&self) -> (result: Result<(), BuildError>)
        ensures
            match self@.invalid() {
                Some(error) => result matches Err(e) && e@ == error,
                None => result is Ok,
            },
    {
        match self.capabilities.validate() {
            Ok(()) => {},
            Err(error) => return Err(error),
        }
        match self.document_sync_settings() {
            Ok(_) => {},
            Err(error) => return Err(error),
        }
        if !self.commands.is_empty() && self.requests.contains_key(
            &EXECUTE_COMMAND_METHOD.to_owned(),
        ) {
            return Err(BuildError::ExecuteCommandConflict);
        }
        Ok(())
    }

    /// The effective document synchronization, or the option that a
    /// registration uses although it was explicitly denied.
    pub fn document_sync_settings(&self) -> (result: Result<DocumentSyncSettings, BuildError>)
        ensures
            match self@.sync_conflict() {
                Some(denied) => result matches Err(BuildError::ConflictingCapability { field })
                    && field@ == denied,
                None => result matches Ok(settings) && settings == sync_settings(
                    self@.document_sync,
                    self@.sync_uses(),
                ),
            },
    {
        let save_hook = self.built_in_hooks.contains_key(&"textDocument/didSave".to_owned());
        let will_save_hook = self.built_in_hooks.contains_key(&"textDocument/willSave".to_owned());
        let wait_until = self.capabilities.has_will_save_wait_until();
        let mut options = TextDocumentSyncOptions::default();

        if let Some(explicit) = self.document_sync {
            options = explicit;
            if save_hook && explicit.save == Some(Save::Bool(false)) {
                return Err(BuildError::ConflictingCapability { field: "textDocumentSync.save" });
            }
            if will_save_hook && explicit.will_save == Some(false) {
                return Err(
                    BuildError::ConflictingCapability { field: "textDocumentSync.willSave" },
                );
            }
            if wait_until && explicit.will_save_wait_until == Some(false) {
                return Err(
                    BuildError::ConflictingCapability {
                        field: "textDocumentSync.willSaveWaitUntil",
                    },
                );
            }
            if explicit.change == Some(TextDocumentSyncKind::Unsynced) {
                if save_hook {
                    return Err(
                        BuildError::ConflictingCapability { field: "textDocumentSync.save" },
                    );
                }
                if will_save_hook {
                    return Err(
                        BuildError::ConflictingCapability { field: "textDocumentSync.willSave" },
                    );
                }
                if wait_until {
                    return Err(
                        BuildError::ConflictingCapability {
                            field: "textDocumentSync.willSaveWaitUntil",
                        },
                    );
                }
            }
        }
        if options.open_close.is_none() {
            options.open_close = Some(true);
        }
        if options.change.is_none() {
            options.change = Some(TextDocumentSyncKind::Incremental);
        }
        if save_hook && options.save.is_none() {
            options.save = Some(Save::Bool(true));
        }
        if will_save_hook && options.will_save.is_none() {
            options.will_save = Some(true);
        }
        if wait_until && options.will_save_wait_until.is_none() {
            options.will_save_wait_until = Some(true);
        }
        if options.change == Some(TextDocumentSyncKind::Unsynced) {
            options.open_close = Some(false);
            options.will_save = Some(false);
            options.will_save_wait_until = Some(false);
            options.save = Some(Save::Bool(false));
            return Ok(
                DocumentSyncSettings {
                    capability: TextDocumentSync::Kind(TextDocumentSyncKind::Unsynced),
                    options,
                },
            );
        }
        let capability = if self.document_sync.is_none() && !save_hook && !will_save_hook
            && !wait_until {
            TextDocumentSync::Kind(TextDocumentSyncKind::Incremental)
        } else {
            TextDocumentSync::Options(options)
        };
        Ok(DocumentSyncSettings { capability, options })
    }

    /// Freeze the registrations into the connection's permanent [`Router`],
    /// computing its capability catalog once from the same registrations used
    /// for dispatch.
    pub fn freeze(self) -> (router: Router<H>)
        requires
            self@.sync_conflict() is None,
        ensures
            router@ == self@.frozen(),
    {
        let document_sync = match self.document_sync_settings() {
            Ok(settings) => settings,
            Err(_) => DocumentSyncSettings {
                capability: TextDocumentSync::Kind(TextDocumentSyncKind::Unsynced),
                options: TextDocumentSyncOptions::default(),
            },
        };
        Router {
            requests: self.requests,
            notifications: self.notifications,
            built_in_hooks: self.built_in_hooks,
            commands: self.commands,
            capabilities: self.capabilities.finish_generated(),
            document_sync,
        }
    }
}

/// The permanently frozen table of user handlers for one connection. The
/// protocol engine produces it by freezing [`Registrations`] once the
/// initialize transaction commits; no operation mutates it afterward.
pub struct Router<H> {
    requests: Table<String, H>,
    notifications: Table<String, H>,
    built_in_hooks: Table<String, H>,
    commands: Table<String, H>,
    /// Capabilities implied by the frozen registrations, computed once at
    /// freeze time from the same registrations used for dispatch.
    capabilities: ServerCapabilities,
    document_sync: DocumentSyncSettings,
}

/// What a [`Router`] holds.
pub struct RouterView<H> {
    pub requests: Map<Seq<char>, H>,
    pub notifications: Map<Seq<char>, H>,
    pub built_in_hooks: Map<Seq<char>, H>,
    pub commands: Map<Seq<char>, H>,
    pub capabilities: crate::options::ServerCapabilitiesView,
    pub document_sync: DocumentSyncSettings,
}

impl<H> View for Router<H> {
    type V = RouterView<H>;

    closed spec fn view(&self) -> RouterView<H> {
        RouterView {
            requests: self.requests@,
            notifications: self.notifications@,
            built_in_hooks: self.built_in_hooks@,
            commands: self.commands@,
            capabilities: self.capabilities.deep_view(),
            document_sync: self.document_sync,
        }
    }
}

/// Whether a lookup found what a table holds under a name.
pub open spec fn looked_up<H>(table: Map<Seq<char>, H>, name: Seq<char>, found: Option<&H>) -> bool {
    match found {
        Some(handler) => table.dom().contains(name) && *handler == table[name],
        None => !table.dom().contains(name),
    }
}

/// Where a request is routed to.
pub enum Route<'a, H> {
    /// The request handler of its method.
    Request(&'a H),
    /// The handler of the command that it names.
    Command(&'a H),
    /// Nothing is registered under the command that it names.
    UnknownCommand(String),
    /// Nothing is registered for its method.
    UnknownMethod,
}

/// What a [`Route`] says.
pub enum RouteView<H> {
    Request(H),
    Command(H),
    UnknownCommand(Seq<char>),
    UnknownMethod,
}

impl<'a, H> View for Route<'a, H> {
    type V = RouteView<H>;

    open spec fn view(&self) -> RouteView<H> {
        match *self {
            Route::Request(handler) => RouteView::Request(*handler),
            Route::Command(handler) => RouteView::Command(*handler),
            Route::UnknownCommand(name) => RouteView::UnknownCommand(name@),
            Route::UnknownMethod => RouteView::UnknownMethod,
        }
    }
}

/// The command that parameters name; an empty name where they name none.
pub open spec fn command_named(params: JsonModel) -> Seq<char> {
    match json_entry(params, "command"@) {
        Some(JsonModel::Text(name)) => name,
        _ => Seq::empty(),
    }
}

impl<H> RouterView<H> {
    /// Where a request is routed to: a method's commands stand in for its handler
    /// once any is registered.
    pub open spec fn route(self, method: Seq<char>, params: JsonModel) -> RouteView<H> {
        let name = command_named(params);
        if method == EXECUTE_COMMAND_METHOD@ && self.commands != Map::<Seq<char>, H>::empty() {
            if self.commands.dom().contains(name) {
                RouteView::Command(self.commands[name])
            } else {
                RouteView::UnknownCommand(name)
            }
        } else if self.requests.dom().contains(method) {
            RouteView::Request(self.requests[method])
        } else {
            RouteView::UnknownMethod
        }
    }
}

impl<H> Router<H> {
    /// Where a request is routed to: `workspace/executeCommand` goes to the
    /// command table rather than to a request handler when any command is
    /// registered.
    pub fn route(&self, method: &str, params: &Value) -> (route: Route<'_, H>)
        ensures
            route@ == self@.route(method@, json_model(*params)),
    {
        if same_text(method, EXECUTE_COMMAND_METHOD) && self.has_commands() {
            let name = match json_get(params, "command") {
                Some(value) => match json_text(value) {
                    Some(name) => name,
                    None => "",
                },
                None => "",
            };
            proof {
                reveal_strlit("");
                assert(name@ =~= command_named(json_model(*params)));
            }
            return match self.command(name) {
                Some(handler) => Route::Command(handler),
                None => Route::UnknownCommand(name.to_owned()),
            };
        }
        match self.request(method) {
            Some(handler) => Route::Request(handler),
            None => Route::UnknownMethod,
        }
    }

    /// The request handler registered for `method`, if any.
    pub fn request(&self, method: &str) -> (handler: Option<&H>)
        ensures
            looked_up(self@.requests, method@, handler),
    {
        self.requests.get(&method.to_owned())
    }

    /// The notification handler registered for `method`, if any.
    pub fn notification(&self, method: &str) -> (handler: Option<&H>)
        ensures
            looked_up(self@.notifications, method@, handler),
    {
        self.notifications.get(&method.to_owned())
    }

    /// The post-validation hook registered for a protocol-owned `method`, if
    /// any. The protocol engine has already decoded and validated by the time
    /// this hook is reached. When the built-in mutates state, the hook observes
    /// that mutation; it cannot replace the built-in.
    pub fn built_in_hook(&self, method: &str) -> (handler: Option<&H>)
        ensures
            looked_up(self@.built_in_hooks, method@, handler),
    {
        self.built_in_hooks.get(&method.to_owned())
    }

    /// The command handler registered under `name`, if any.
    pub fn command(&self, name: &str) -> (handler: Option<&H>)
        ensures
            looked_up(self@.commands, name@, handler),
    {
        self.commands.get(&name.to_owned())
    }

    /// Whether any command is registered. When true, `workspace/executeCommand`
    /// is routed to the command table rather than a request handler (the two
    /// are a build-time conflict and never coexist).
    pub fn has_commands(&self) -> (has: bool)
        ensures
            has == (self@.commands != Map::<Seq<char>, H>::empty()),
    {
        !self.commands.is_empty()
    }

    /// The capabilities implied by the frozen registrations. Custom requests
    /// and notifications contribute nothing; standard features and commands
    /// contribute their fields. The protocol engine layers on any
    /// protocol-owned negotiated fields separately.
    pub fn capabilities(&self) -> (capabilities: ServerCapabilities)
        ensures
            capabilities.deep_view() == self@.capabilities,
    {
        self.generated_capabilities()
    }

    /// The capabilities implied by the frozen registrations; see
    /// [`capabilities`](Self::capabilities).
    pub fn generated_capabilities(&self) -> (capabilities: ServerCapabilities)
        ensures
            capabilities.deep_view() == self@.capabilities,
    {
        self.capabilities.copy_content()
    }

    /// The effective document synchronization.
    pub fn document_sync(&self) -> (settings: DocumentSyncSettings)
        ensures
            settings == self@.document_sync,
    {
        self.document_sync
    }
}

/// Collects static registrations for one connection before handing them to a
/// [`Server`]. Registration mistakes are recorded and surfaced by
/// [`build`](Self::build); the builder methods stay chainable.
pub struct ServerBuilder<S, H> {
    state: S,
    file_provider: Option<H>,
    registrations: Registrations<H>,
    configure_initialize: Option<H>,
    on_initialize: Option<H>,
    on_initialized: Option<H>,
    on_shutdown: Option<H>,
    on_exit: Option<H>,
    error_hook: Option<H>,
    layers: Vec<H>,
    resource_policy: ResourcePolicy,
    /// First registration error seen, if any. Reported by `build`.
    error: Option<BuildError>,
}

/// What a [`ServerBuilder`] has collected.
#[verifier::ext_equal]
pub struct ServerBuilderView<S, H> {
    pub server: ServerView<S, H>,
    pub error: Option<BuildErrorView>,
}

/// What a [`Server`] holds.
#[verifier::ext_equal]
pub struct ServerView<S, H> {
    pub state: S,
    pub file_provider: Option<H>,
    pub registrations: RegistrationsView<H>,
    pub configure_initialize: Option<H>,
    pub on_initialize: Option<H>,
    pub on_initialized: Option<H>,
    pub on_shutdown: Option<H>,
    pub on_exit: Option<H>,
    pub error_hook: Option<H>,
    pub layers: Seq<H>,
    pub resource_policy: ResourcePolicy,
}

/// The earlier of two errors.
pub open spec fn first_error(
    earlier: Option<BuildErrorView>,
    later: Option<BuildErrorView>,
) -> Option<BuildErrorView> {
    if earlier is Some {
        earlier
    } else {
        later
    }
}

/// An error as its view.
pub open spec fn error_view(error: Option<BuildError>) -> Option<BuildErrorView> {
    match error {
        Some(error) => Some(error@),
        None => None,
    }
}

impl<S, H> ServerBuilderView<S, H> {
    /// A fresh builder around an application state.
    pub open spec fn fresh(state: S) -> Self {
        ServerBuilderView {
            server: ServerView {
                state,
                file_provider: None,
                registrations: RegistrationsView::empty(),
                configure_initialize: None,
                on_initialize: None,
                on_initialized: None,
                on_shutdown: None,
                on_exit: None,
                error_hook: None,
                layers: Seq::empty(),
                resource_policy: ResourcePolicy::standard(),
            },
            error: None,
        }
    }

    /// An error is recorded, if it is the first.
    pub open spec fn record(self, error: BuildErrorView) -> Self {
        ServerBuilderView { error: first_error(self.error, Some(error)), ..self }
    }

    /// A registration was attempted.
    pub open spec fn attempt(self, attempt: Attempt<H>) -> Self {
        ServerBuilderView {
            server: ServerView { registrations: attempt.after, ..self.server },
            error: first_error(self.error, attempt.error),
        }
    }

    /// Why the builder yields no server.
    pub open spec fn failure(self) -> Option<BuildErrorView> {
        if self.error is Some {
            self.error
        } else if self.server.resource_policy.invalid_field() is Some {
            Some(
                BuildErrorView::InvalidResourcePolicy {
                    field: self.server.resource_policy.invalid_field()->0,
                },
            )
        } else {
            self.server.registrations.invalid()
        }
    }
}

impl<S, H> View for ServerBuilder<S, H> {
    type V = ServerBuilderView<S, H>;

    closed spec fn view(&self) -> ServerBuilderView<S, H> {
        ServerBuilderView {
            server: ServerView {
                state: self.state,
                file_provider: self.file_provider,
                registrations: self.registrations@,
                configure_initialize: self.configure_initialize,
                on_initialize: self.on_initialize,
                on_initialized: self.on_initialized,
                on_shutdown: self.on_shutdown,
                on_exit: self.on_exit,
                error_hook: self.error_hook,
                layers: self.layers@,
                resource_policy: self.resource_policy,
            },
            error: error_view(self.error),
        }
    }
}

impl<S, H> ServerBuilder<S, H> {
    /// A builder with nothing registered and the default resource policy.
    pub fn new(state: S) -> (builder: Self)
        ensures
            builder@ == ServerBuilderView::<S, H>::fresh(state),
    {
        ServerBuilder {
            state,
            file_provider: None,
            registrations: Registrations::new(),
            configure_initialize: None,
            on_initialize: None,
            on_initialized: None,
            on_shutdown: None,
            on_exit: None,
            error_hook: None,
            layers: Vec::new(),
            resource_policy: ResourcePolicy::default(),
            error: None,
        }
    }

    /// Configure the connection's protocol-owned text-document synchronization.
    /// Unspecified open/close and change fields retain the framework defaults;
    /// save-related fields are inferred from typed registrations.
    pub fn text_document_sync(self, options: TextDocumentSyncOptions) -> (next: Self)
        ensures
            next@ == (ServerBuilderView {
                server: ServerView {
                    registrations: RegistrationsView {
                        document_sync: Some(options),
                        ..self@.server.registrations
                    },
                    ..self@.server
                },
                error: self@.error,
            }),
    {
        let mut next = self;
        next.registrations.set_document_sync(options);
        next
    }

    /// Replace the provider used to resolve resources that are not open in
    /// the editor.
    pub fn file_provider(self, provider: H) -> (next: Self)
        ensures
            next@ == (ServerBuilderView {
                server: ServerView { file_provider: Some(provider), ..self@.server },
                error: self@.error,
            }),
    {
        let mut next = self;
        next.file_provider = Some(provider);
        next
    }

    /// Register a standard LSP feature and its capability contribution.
    ///
    /// `spec` is a descriptor from [`features`](crate::features). It fixes the
    /// wire method and the single capability field the feature advertises.
    ///
    /// Registering two handlers for the same method is a
    /// [`BuildError::DuplicateMethod`]; two features that disagree on a singular
    /// capability field are a [`BuildError::ConflictingCapability`]. Both are
    /// reported by [`build`](Self::build).
    pub fn feature<F: FeatureSpec>(self, spec: F, handler: H) -> (next: Self)
        ensures
            next@ == self@.attempt(
                then_contributed(
                    self@.server.registrations.add_request(F::method_name(), handler),
                    |before: CatalogView| spec.contribution(before),
                ),
            ),
    {
        let mut next = self;
        if let Err(error) = next.registrations.add_feature(&spec, handler) {
            next.record(error);
        }
        next
    }

    /// Register a custom request handler under its wire method.
    ///
    /// Custom requests add nothing to the capabilities. Registering two handlers
    /// for the same method, or a method the framework reserves, is a
    /// [`BuildError`] reported by [`build`](Self::build).
    pub fn request(self, method: String, handler: H) -> (next: Self)
        ensures
            next@ == self@.attempt(self@.server.registrations.add_request(method@, handler)),
    {
        let mut next = self;
        if let Err(error) = next.registrations.add_request(method, handler) {
            next.record(error);
        }
        next
    }

    /// Register a custom notification handler under its wire method.
    ///
    /// Custom notifications add nothing to the capabilities. Registering two
    /// handlers for the same method, or a method the framework reserves, is a
    /// [`BuildError`] reported by [`build`](Self::build).
    pub fn notification(self, method: String, handler: H) -> (next: Self)
        ensures
            next@ == self@.attempt(self@.server.registrations.add_notification(method@, handler)),
    {
        let mut next = self;
        if let Err(error) = next.registrations.add_notification(method, handler) {
            next.record(error);
        }
        next
    }

    /// Register a standard LSP notification feature and its capability
    /// contribution. Its mistakes are those of [`feature`](Self::feature).
    pub fn feature_notification<F: NotificationFeatureSpec>(self, spec: F, handler: H) -> (next:
        Self)
        ensures
            next@ == self@.attempt(
                then_contributed(
                    self@.server.registrations.add_notification(F::method_name(), handler),
                    |before: CatalogView| spec.contribution(before),
                ),
            ),
    {
        let mut next = self;
        if let Err(error) = next.registrations.add_feature_notification(&spec, handler) {
            next.record(error);
        }
        next
    }

    /// Register a command dispatched on `workspace/executeCommand`.
    ///
    /// Each registered `name` merges into one de-duplicated execute-command
    /// capability that preserves registration order. An empty name, two handlers
    /// for the same name, or a command alongside an explicit
    /// `workspace/executeCommand` request handler is a [`BuildError`] reported by
    /// [`build`](Self::build).
    pub fn command(self, name: String, handler: H) -> (next: Self)
        ensures
            next@ == self@.attempt(self@.server.registrations.add_command(name@, handler)),
    {
        let mut next = self;
        if let Err(error) = next.registrations.add_command(name, handler) {
            next.record(error);
        }
        next
    }

    /// Register the sole synchronous initialization-dependent registration
    /// callback.
    ///
    /// After a valid `initialize` request the callback runs exactly once against
    /// a transactional [`InitializeRegistrar`]. It may conditionally register
    /// features, requests, notifications, and commands; its failure discards the
    /// whole transaction. Supplying it more than once is a
    /// [`BuildError::DuplicateConfigureInitialize`] reported by
    /// [`build`](Self::build).
    pub fn configure_initialize(self, callback: H) -> (next: Self)
        ensures
            next@ == if self@.server.configure_initialize is Some {
                self@.record(BuildErrorView::DuplicateConfigureInitialize)
            } else {
                ServerBuilderView {
                    server: ServerView { configure_initialize: Some(callback), ..self@.server },
                    error: self@.error,
                }
            },
    {
        let mut next = self;
        if next.configure_initialize.is_some() {
            next.record(BuildError::DuplicateConfigureInitialize);
        } else {
            next.configure_initialize = Some(callback);
        }
        next
    }

    /// Register the `on_initialize` lifecycle hook.
    ///
    /// The hook runs after the position encoding is negotiated and the Router is
    /// frozen, but before the `InitializeResult` is sent. It may contribute
    /// server information, but it cannot register routes or replace the generated
    /// capabilities. Its failure fails initialization. Supplying it more than
    /// once is a [`BuildError::DuplicateLifecycleHook`] reported by
    /// [`build`](Self::build).
    pub fn on_initialize(self, hook: H) -> (next: Self)
        ensures
            next@ == if self@.server.on_initialize is Some {
                self@.record(BuildErrorView::DuplicateLifecycleHook("on_initialize"@))
            } else {
                ServerBuilderView {
                    server: ServerView { on_initialize: Some(hook), ..self@.server },
                    error: self@.error,
                }
            },
    {
        let mut next = self;
        if next.on_initialize.is_some() {
            next.record(BuildError::DuplicateLifecycleHook("on_initialize"));
        } else {
            next.on_initialize = Some(hook);
        }
        next
    }

    /// Register the `on_initialized` lifecycle hook.
    ///
    /// The hook runs at most once, when the client's `initialized` notification
    /// arrives while the connection is running. Supplying it more than once is a
    /// [`BuildError::DuplicateLifecycleHook`] reported by [`build`](Self::build).
    pub fn on_initialized(self, hook: H) -> (next: Self)
        ensures
            next@ == if self@.server.on_initialized is Some {
                self@.record(BuildErrorView::DuplicateLifecycleHook("on_initialized"@))
            } else {
                ServerBuilderView {
                    server: ServerView { on_initialized: Some(hook), ..self@.server },
                    error: self@.error,
                }
            },
    {
        let mut next = self;
        if next.on_initialized.is_some() {
            next.record(BuildError::DuplicateLifecycleHook("on_initialized"));
        } else {
            next.on_initialized = Some(hook);
        }
        next
    }

    /// Register the `on_shutdown` lifecycle hook.
    ///
    /// The hook runs before the protocol engine enters its shutting-down state.
    /// Its success permits shutdown; its failure is sent as the response and
    /// leaves the connection running. Supplying it more than once is a
    /// [`BuildError::DuplicateLifecycleHook`] reported by [`build`](Self::build).
    pub fn on_shutdown(self, hook: H) -> (next: Self)
        ensures
            next@ == if self@.server.on_shutdown is Some {
                self@.record(BuildErrorView::DuplicateLifecycleHook("on_shutdown"@))
            } else {
                ServerBuilderView {
                    server: ServerView { on_shutdown: Some(hook), ..self@.server },
                    error: self@.error,
                }
            },
    {
        let mut next = self;
        if next.on_shutdown.is_some() {
            next.record(BuildError::DuplicateLifecycleHook("on_shutdown"));
        } else {
            next.on_shutdown = Some(hook);
        }
        next
    }

    /// Register the `on_exit` lifecycle hook.
    ///
    /// The hook runs when the peer's `exit` notification arrives after a
    /// successful initialize transaction. It cannot override the
    /// lifecycle-derived outcome. Supplying it more than once is a
    /// [`BuildError::DuplicateLifecycleHook`] reported by [`build`](Self::build).
    pub fn on_exit(self, hook: H) -> (next: Self)
        ensures
            next@ == if self@.server.on_exit is Some {
                self@.record(BuildErrorView::DuplicateLifecycleHook("on_exit"@))
            } else {
                ServerBuilderView {
                    server: ServerView { on_exit: Some(hook), ..self@.server },
                    error: self@.error,
                }
            },
    {
        let mut next = self;
        if next.on_exit.is_some() {
            next.record(BuildError::DuplicateLifecycleHook("on_exit"));
        } else {
            next.on_exit = Some(hook);
        }
        next
    }

    /// Register the connection-level error hook.
    ///
    /// The hook receives stable failure categories and non-sensitive identity
    /// only. Registering it more than once is a
    /// [`BuildError::DuplicateErrorHook`] reported by [`build`](Self::build).
    pub fn on_error(self, hook: H) -> (next: Self)
        ensures
            next@ == if self@.server.error_hook is Some {
                self@.record(BuildErrorView::DuplicateErrorHook)
            } else {
                ServerBuilderView {
                    server: ServerView { error_hook: Some(hook), ..self@.server },
                    error: self@.error,
                }
            },
    {
        let mut next = self;
        if next.error_hook.is_some() {
            next.record(BuildError::DuplicateErrorHook);
        } else {
            next.error_hook = Some(hook);
        }
        next
    }

    /// Register a user Layer around normalized user dispatch.
    ///
    /// The last registered Layer is outermost among user Layers. Framework
    /// panic isolation, tracing, and concurrency limiting remain outside it.
    pub fn layer(self, layer: H) -> (next: Self)
        ensures
            next@ == (ServerBuilderView {
                server: ServerView { layers: self@.server.layers.push(layer), ..self@.server },
                error: self@.error,
            }),
    {
        let mut next = self;
        next.layers.push(layer);
        next
    }

    /// Set the inbound-request budget in the connection's resource policy. Zero
    /// is rejected by [`build`](Self::build).
    pub fn concurrency_limit(self, limit: usize) -> (next: Self)
        ensures
            next@ == if limit == 0 {
                self@.record(BuildErrorView::InvalidConcurrencyLimit)
            } else {
                ServerBuilderView {
                    server: ServerView {
                        resource_policy: ResourcePolicy {
                            max_inbound_requests: limit,
                            ..self@.server.resource_policy
                        },
                        ..self@.server
                    },
                    error: self@.error,
                }
            },
    {
        let mut next = self;
        if limit == 0 {
            next.record(BuildError::InvalidConcurrencyLimit);
        } else {
            next.resource_policy.max_inbound_requests = limit;
        }
        next
    }

    /// Set the outbound-message budget in the connection's resource policy. The
    /// historical method name is retained for source compatibility; the value is
    /// a hard queue budget. Zero is rejected by [`build`](Self::build).
    pub fn outbound_warning_threshold(self, threshold: usize) -> (next: Self)
        ensures
            next@ == if threshold == 0 {
                self@.record(BuildErrorView::InvalidOutboundWarningThreshold)
            } else {
                ServerBuilderView {
                    server: ServerView {
                        resource_policy: ResourcePolicy {
                            max_outbound_messages: threshold,
                            ..self@.server.resource_policy
                        },
                        ..self@.server
                    },
                    error: self@.error,
                }
            },
    {
        let mut next = self;
        if threshold == 0 {
            next.record(BuildError::InvalidOutboundWarningThreshold);
        } else {
            next.resource_policy.max_outbound_messages = threshold;
        }
        next
    }

    /// Replace all finite budgets and deadlines owned by this connection.
    /// Invalid zero budgets or enabled zero deadlines are reported by
    /// [`build`](Self::build).
    pub fn resource_policy(self, policy: ResourcePolicy) -> (next: Self)
        ensures
            next@ == (ServerBuilderView {
                server: ServerView { resource_policy: policy, ..self@.server },
                error: self@.error,
            }),
    {
        let mut next = self;
        next.resource_policy = policy;
        next
    }

    /// Validate the complete static registration set and return the [`Server`].
    ///
    /// Performs no I/O and does not run `configure_initialize`; the Router is
    /// frozen later, when the initialize transaction commits. Returns the first
    /// [`BuildError`] recorded during registration, if any.
    pub fn build(self) -> (result: Result<Server<S, H>, BuildError>)
        ensures
            match self@.failure() {
                Some(error) => result matches Err(e) && e@ == error,
                None => result matches Ok(server) && server@ == self@.server,
            },
    {
        let mut done = self;
        if let Err(error) = done.resource_policy.validate() {
            done.record(error);
        }
        if let Err(error) = done.registrations.validate() {
            done.record(error);
        }
        if let Some(error) = done.error {
            return Err(error);
        }
        Ok(
            Server {
                state: done.state,
                file_provider: done.file_provider,
                registrations: done.registrations,
                configure_initialize: done.configure_initialize,
                on_initialize: done.on_initialize,
                on_initialized: done.on_initialized,
                on_shutdown: done.on_shutdown,
                on_exit: done.on_exit,
                error_hook: done.error_hook,
                layers: done.layers,
                resource_policy: done.resource_policy,
            },
        )
    }

    /// Record the first registration error; later ones are dropped because the
    /// first already fails `build`.
    fn record(&mut self, error: BuildError)
        ensures
            final(self)@ == old(self)@.record(error@),
    {
        if self.error.is_none() {
            self.error = Some(error);
        }
    }
}

/// The transactional registrar handed to `configure_initialize`.
///
/// It offers the same `feature`, `request`, `notification`, and `command`
/// registration semantics as the static [`ServerBuilder`], starting from a
/// view of all static registrations, but exposes no `layer`, nested
/// `configure_initialize`, `build`, or dynamic-client operation. Conditional
/// registration mistakes are recorded and abort the whole transaction when it
/// is committed, so no partial route or capability ever becomes visible.
pub struct InitializeRegistrar<H> {
    registrations: Registrations<H>,
    /// First conditional registration error seen, if any. Once set, later
    /// registrations are skipped and the transaction fails on commit.
    error: Option<BuildError>,
}

/// The state of a registration transaction.
pub struct TransactionView<H> {
    pub registrations: RegistrationsView<H>,
    pub error: Option<BuildErrorView>,
}

impl<H> TransactionView<H> {
    /// A registration was attempted, unless the transaction has failed already.
    pub open spec fn attempt(self, attempt: Attempt<H>) -> Self {
        if self.error is Some {
            self
        } else {
            TransactionView { registrations: attempt.after, error: attempt.error }
        }
    }

    /// Why the transaction cannot be committed.
    pub open spec fn failure(self) -> Option<BuildErrorView> {
        first_error(self.error, self.registrations.invalid())
    }
}

impl<H> View for InitializeRegistrar<H> {
    type V = TransactionView<H>;

    closed spec fn view(&self) -> TransactionView<H> {
        TransactionView { registrations: self.registrations@, error: error_view(self.error) }
    }
}

impl<H> InitializeRegistrar<H> {
    /// A transaction over the static registrations.
    pub fn new(registrations: Registrations<H>) -> (registrar: Self)
        ensures
            registrar@ == (TransactionView { registrations: registrations@, error: None }),
    {
        InitializeRegistrar { registrations, error: None }
    }

    /// Conditionally register a standard feature and its capability. See
    /// [`ServerBuilder::feature`].
    pub fn feature<F: FeatureSpec>(&mut self, spec: F, handler: H) -> (next: &mut Self)
        ensures
            next@ == old(self)@.attempt(
                then_contributed(
                    old(self)@.registrations.add_request(F::method_name(), handler),
                    |before: CatalogView| spec.contribution(before),
                ),
            ),
            *final(self) == *final(next),
    {
        if self.error.is_none() {
            if let Err(error) = self.registrations.add_feature(&spec, handler) {
                self.error = Some(error);
            }
        }
        self
    }

    /// Conditionally register a custom request. See [`ServerBuilder::request`].
    pub fn request(&mut self, method: String, handler: H) -> (next: &mut Self)
        ensures
            next@ == old(self)@.attempt(
                old(self)@.registrations.add_request(method@, handler),
            ),
            *final(self) == *final(next),
    {
        if self.error.is_none() {
            if let Err(error) = self.registrations.add_request(method, handler) {
                self.error = Some(error);
            }
        }
        self
    }

    /// Conditionally register a custom notification. See
    /// [`ServerBuilder::notification`].
    pub fn notification(&mut self, method: String, handler: H) -> (next: &mut Self)
        ensures
            next@ == old(self)@.attempt(
                old(self)@.registrations.add_notification(method@, handler),
            ),
            *final(self) == *final(next),
    {
        if self.error.is_none() {
            if let Err(error) = self.registrations.add_notification(method, handler) {
                self.error = Some(error);
            }
        }
        self
    }

    /// Conditionally register a standard notification feature and its
    /// capability. See [`ServerBuilder::feature_notification`].
    pub fn feature_notification<F: NotificationFeatureSpec>(
        &mut self,
        spec: F,
        handler: H,
    ) -> (next: &mut Self)
        ensures
            next@ == old(self)@.attempt(
                then_contributed(
                    old(self)@.registrations.add_notification(F::method_name(), handler),
                    |before: CatalogView| spec.contribution(before),
                ),
            ),
            *final(self) == *final(next),
    {
        if self.error.is_none() {
            if let Err(error) = self.registrations.add_feature_notification(&spec, handler) {
                self.error = Some(error);
            }
        }
        self
    }

    /// Conditionally register a command. See [`ServerBuilder::command`].
    pub fn command(&mut self, name: String, handler: H) -> (next: &mut Self)
        ensures
            next@ == old(self)@.attempt(old(self)@.registrations.add_command(name@, handler)),
            *final(self) == *final(next),
    {
        if self.error.is_none() {
            if let Err(error) = self.registrations.add_command(name, handler) {
                self.error = Some(error);
            }
        }
        self
    }

    /// Commit the transaction: on success return the extended, validated
    /// registrations to be frozen; otherwise the first recorded error. Called
    /// only after `configure_initialize` succeeds.
    pub fn commit(self) -> (result: Result<Registrations<H>, BuildError>)
        ensures
            match self@.failure() {
                Some(error) => result matches Err(e) && e@ == error,
                None => result matches Ok(registrations) && registrations@
                    == self@.registrations,
            },
    {
        if let Some(error) = self.error {
            return Err(error);
        }
        match self.registrations.validate() {
            Ok(()) => Ok(self.registrations),
            Err(error) => Err(error),
        }
    }
}

/// Owns exactly one LSP connection: its application state, the static
/// registrations awaiting the initialize transaction, the optional
/// initialization-dependent callback, and the lifecycle hooks. A second
/// connection requires a second `Server`; connection state is never shared
/// between servers.
pub struct Server<S, H> {
    pub state: S,
    pub file_provider: Option<H>,
    pub registrations: Registrations<H>,
    pub configure_initialize: Option<H>,
    pub on_initialize: Option<H>,
    pub on_initialized: Option<H>,
    pub on_shutdown: Option<H>,
    pub on_exit: Option<H>,
    pub error_hook: Option<H>,
    pub layers: Vec<H>,
    pub resource_policy: ResourcePolicy,
}

impl<S, H> View for Server<S, H> {
    type V = ServerView<S, H>;

    open spec fn view(&self) -> ServerView<S, H> {
        ServerView {
            state: self.state,
            file_provider: self.file_provider,
            registrations: self.registrations@,
            configure_initialize: self.configure_initialize,
            on_initialize: self.on_initialize,
            on_initialized: self.on_initialized,
            on_shutdown: self.on_shutdown,
            on_exit: self.on_exit,
            error_hook: self.error_hook,
            layers: self.layers@,
            resource_policy: self.resource_policy,
        }
    }
}

impl<S, H> Server<S, H> {
    /// Begin building a connection-owned server around one application state
    /// value.
    pub fn builder(state: S) -> (builder: ServerBuilder<S, H>)
        ensures
            builder@ == ServerBuilderView::<S, H>::fresh(state),
    {
        ServerBuilder::new(state)
    }

    /// Freeze the static registrations into a [`Router`] for inspection,
    /// bypassing the initialize transaction.
    pub fn into_router(self) -> (router: Router<H>)
        requires
            self@.registrations.sync_conflict() is None,
        ensures
            router@ == self@.registrations.frozen(),
    {
        self.registrations.freeze()
    }
}

/// Registrations whose routes stand where they belong: nothing under a reserved
/// method, hooks for built-ins only, and no route for a built-in.
pub open spec fn well_routed<H>(registrations: RegistrationsView<H>) -> bool {
    &&& forall|method: Seq<char>|
        #![trigger registrations.requests.dom().contains(method)]
        registrations.requests.dom().contains(method) ==> !is_reserved_method(method)
    &&& forall|method: Seq<char>|
        #![trigger registrations.notifications.dom().contains(method)]
        registrations.notifications.dom().contains(method) ==> !is_reserved_method(method)
            && ProtocolNotification::of_method(method) is None
    &&& forall|method: Seq<char>|
        #![trigger registrations.built_in_hooks.dom().contains(method)]
        registrations.built_in_hooks.dom().contains(method) ==> !is_reserved_method(method)
            && ProtocolNotification::of_method(method) is Some
    &&& !registrations.commands.dom().contains(Seq::<char>::empty())
}

/// No registration ever puts a handler under a reserved method, a route in the
/// place of a built-in notification, a hook anywhere else, or a command under an
/// empty name: it holds of no registrations, and every registration keeps it,
/// whatever comes of it.
pub proof fn law_no_route_shadows_the_framework<H>(
    registrations: RegistrationsView<H>,
    name: Seq<char>,
    handler: H,
    contribution: spec_fn(CatalogView) -> Result<CatalogView, Seq<char>>,
)
    ensures
        well_routed(RegistrationsView::<H>::empty()),
        well_routed(registrations) ==> {
            &&& well_routed(registrations.add_request(name, handler).after)
            &&& well_routed(registrations.add_notification(name, handler).after)
            &&& well_routed(registrations.add_command(name, handler).after)
            &&& well_routed(
                then_contributed(
                    registrations.add_request(name, handler),
                    contribution,
                ).after,
            )
            &&& well_routed(
                then_contributed(
                    registrations.add_notification(name, handler),
                    contribution,
                ).after,
            )
        },
{
}

/// The first mistake is the one reported: once a builder or a transaction holds
/// an error, no further registration changes it, and it is why the builder
/// yields no server and the transaction no registrations.
pub proof fn law_the_first_mistake_is_reported<S, H>(
    builder: ServerBuilderView<S, H>,
    transaction: TransactionView<H>,
    attempt: Attempt<H>,
    later: BuildErrorView,
)
    ensures
        builder.error is Some ==> builder.attempt(attempt).failure() == builder.error
            && builder.record(later).failure() == builder.error,
        transaction.error is Some ==> transaction.attempt(attempt) == transaction
            && transaction.failure() == transaction.error,
        builder.error is None && attempt.error is Some ==> builder.attempt(attempt).failure()
            == attempt.error,
        transaction.error is None && attempt.error is Some ==> transaction.attempt(
            attempt,
        ).failure() == attempt.error,
{
}

/// A method cannot be registered twice: of two registrations for it, the second
/// is a mistake.
pub proof fn law_no_method_is_registered_twice<H>(
    registrations: RegistrationsView<H>,
    name: Seq<char>,
    first: H,
    second: H,
)
    ensures
        registrations.add_request(name, first).after.add_request(name, second).error is Some,
        registrations.add_notification(name, first).after.add_notification(
            name,
            second,
        ).error is Some,
        registrations.add_command(name, first).after.add_command(name, second).error is Some,
{
}

/// What registrations use is what is advertised: without a conflict, a save
/// hook, a will-save hook and a pre-save edit request each find their option
/// switched on, and unless synchronization was switched off, documents are
/// opened, closed and changed as well.
pub proof fn law_used_synchronization_is_advertised<H>(registrations: RegistrationsView<H>)
    requires
        registrations.sync_conflict() is None,
    ensures
        ({
            let uses = registrations.sync_uses();
            let settings = sync_settings(registrations.document_sync, uses);
            &&& uses.save_hook ==> settings.options.save is Some && settings.options.save != Some(
                Save::Bool(false),
            )
            &&& uses.will_save_hook ==> settings.options.will_save == Some(true)
            &&& uses.wait_until ==> settings.options.will_save_wait_until == Some(true)
            &&& settings.options.change is Some
            &&& settings.options.open_close is Some
            &&& uses.save_hook || uses.will_save_hook || uses.wait_until ==> settings.capability
                == TextDocumentSync::Options(settings.options)
        }),
{
}

} // verus!
