//! What registrations come to: where calls are routed, and what of the document
//! synchronization is in effect.
use vstd::prelude::*;

use crate::builder::{
    attempted, command_named, denied_sync_field, looked_up, sync_settings, then_contributed,
    Attempt, RegistrationsView, RouteView, RouterView, ServerBuilderView,
    SyncUses, TransactionView,
};
use crate::capability::CatalogView;
use crate::error::{BuildError, BuildErrorView};
use crate::json::{json_entry, JsonModel};
use crate::options::{Save, TextDocumentSync, TextDocumentSyncKind, TextDocumentSyncOptions};
use crate::resource_policy::{ResourcePolicy, ResourcePolicyField};
use crate::server_laws::{
    is_lifecycle, is_owned, law_built_ins_are_known_by_their_names, law_the_lifecycle_is_reserved,
};

verus! {

/// Whether the lifecycle owns a method.
pub open spec fn is_reserved(method: Seq<char>) -> bool {
    is_lifecycle(method) || method == "initialize"@ || method == "shutdown"@
}

/// A request handler stands under its method, unless the lifecycle owns it; a second
/// one under the same is a mistake. No other handler, and nothing else, changes.
pub proof fn law_a_request_handler_stands_under_its_method<H>(
    registrations: RegistrationsView<H>,
    method: Seq<char>,
    handler: H,
    other: Seq<char>,
)
    ensures
        ({
            let attempt = registrations.add_request(method, handler);
            let after = attempt.after;
            &&& is_reserved(method) ==> attempt.error == Some(
                BuildErrorView::ReservedMethod(method),
            ) && after == registrations
            &&& !is_reserved(method) ==> {
                &&& after.requests.dom().contains(method)
                &&& after.requests[method] == handler
                &&& after == (RegistrationsView { requests: after.requests, ..registrations })
                &&& registrations.requests.dom().contains(method) ==> attempt.error == Some(
                    BuildErrorView::DuplicateMethod(method),
                )
                &&& !registrations.requests.dom().contains(method) ==> attempt.error is None
            }
            &&& other != method ==> after.requests.dom().contains(other)
                == registrations.requests.dom().contains(other)
            &&& other != method ==> after.requests[other] == registrations.requests[other]
        }),
{
    law_the_lifecycle_is_reserved(method);
}

/// A notification handler stands under its method, as the hook of a notification
/// that the engine owns and as a route of any other; a second one under the same is
/// a mistake. No other handler, and nothing else, changes.
pub proof fn law_a_notification_handler_stands_under_its_method<H>(
    registrations: RegistrationsView<H>,
    method: Seq<char>,
    handler: H,
    other: Seq<char>,
)
    ensures
        ({
            let attempt = registrations.add_notification(method, handler);
            let after = attempt.after;
            &&& is_reserved(method) ==> attempt.error == Some(
                BuildErrorView::ReservedMethod(method),
            ) && after == registrations
            &&& !is_reserved(method) && is_owned(method) ==> {
                &&& after.built_in_hooks == registrations.built_in_hooks.insert(method, handler)
                &&& after == (RegistrationsView {
                    built_in_hooks: after.built_in_hooks,
                    ..registrations
                })
                &&& registrations.built_in_hooks.dom().contains(method) ==> attempt.error == Some(
                    BuildErrorView::DuplicateMethod(method),
                )
                &&& !registrations.built_in_hooks.dom().contains(method) ==> attempt.error is None
            }
            &&& !is_reserved(method) && !is_owned(method) ==> {
                &&& after.notifications == registrations.notifications.insert(method, handler)
                &&& after == (RegistrationsView {
                    notifications: after.notifications,
                    ..registrations
                })
                &&& registrations.notifications.dom().contains(method) ==> attempt.error == Some(
                    BuildErrorView::DuplicateMethod(method),
                )
                &&& !registrations.notifications.dom().contains(method) ==> attempt.error is None
            }
        }),
{
    law_the_lifecycle_is_reserved(method);
    law_built_ins_are_known_by_their_names(method);
}

/// A command handler stands under its name and is listed once; an empty name and a
/// second handler for one name are mistakes.
pub proof fn law_a_command_handler_stands_under_its_name<H>(
    registrations: RegistrationsView<H>,
    name: Seq<char>,
    handler: H,
)
    ensures
        ({
            let attempt = registrations.add_command(name, handler);
            let after = attempt.after;
            let known = registrations.commands.dom().contains(name);
            &&& name.len() == 0 ==> attempt.error == Some(BuildErrorView::EmptyCommandName) && after
                == registrations
            &&& name.len() > 0 ==> {
                &&& after.commands == registrations.commands.insert(name, handler)
                &&& known ==> attempt.error == Some(BuildErrorView::DuplicateCommand(name))
                &&& !known ==> attempt.error is None && after.catalog.commands.contains(name)
                &&& known ==> after.catalog == registrations.catalog
                &&& after == (RegistrationsView {
                    commands: after.commands,
                    catalog: after.catalog,
                    ..registrations
                })
            }
        }),
{
    let commands = registrations.catalog.commands.push(name);
    assert(commands[commands.len() - 1] == name);
}

/// Freezing keeps every handler where it stands, and the capabilities are those of
/// the catalog.
pub proof fn law_freezing_keeps_every_handler<H>(registrations: RegistrationsView<H>)
    ensures
        ({
            let router = registrations.frozen();
            &&& router.requests == registrations.requests
            &&& router.notifications == registrations.notifications
            &&& router.built_in_hooks == registrations.built_in_hooks
            &&& router.commands == registrations.commands
            &&& router.capabilities == registrations.catalog.finish()
            &&& router.document_sync == sync_settings(
                registrations.document_sync,
                SyncUses {
                    save_hook: registrations.built_in_hooks.dom().contains(
                        "textDocument/didSave"@,
                    ),
                    will_save_hook: registrations.built_in_hooks.dom().contains(
                        "textDocument/willSave"@,
                    ),
                    wait_until: registrations.catalog.will_save_wait_until,
                },
            )
        }),
{
}

/// A request is routed to the handler of its method, and to none where there is
/// none. Once there are commands, `workspace/executeCommand` is routed to the
/// handler of the command that the parameters name.
pub proof fn law_requests_are_routed_by_method_and_command<H>(
    router: RouterView<H>,
    method: Seq<char>,
    params: JsonModel,
    name: Seq<char>,
)
    ensures
        ({
            let commands = exists|command: Seq<char>| router.commands.dom().contains(command);
            let dispatches = method == "workspace/executeCommand"@ && commands;
            &&& !dispatches && router.requests.dom().contains(method) ==> router.route(
                method,
                params,
            ) == RouteView::Request(router.requests[method])
            &&& !dispatches && !router.requests.dom().contains(method) ==> router.route(
                method,
                params,
            ) is UnknownMethod
            &&& dispatches && json_entry(params, "command"@) == Some(JsonModel::Text(name))
                ==> router.route(method, params) == if router.commands.dom().contains(name) {
                RouteView::Command(router.commands[name])
            } else {
                RouteView::UnknownCommand(name)
            }
            &&& dispatches && !(json_entry(params, "command"@) matches Some(JsonModel::Text(_)))
                ==> command_named(params).len() == 0
        }),
{
    if exists|command: Seq<char>| router.commands.dom().contains(command) {
        let command = choose|command: Seq<char>| router.commands.dom().contains(command);
        assert(router.commands != Map::<Seq<char>, H>::empty());
    } else {
        assert(router.commands =~= Map::<Seq<char>, H>::empty());
    }
}

/// A request that was registered is routed to its own handler, whatever was
/// registered after it under other names.
pub proof fn law_a_registered_request_is_routed_to_its_handler<H>(
    registrations: RegistrationsView<H>,
    method: Seq<char>,
    handler: H,
    later: Seq<char>,
    other: H,
    params: JsonModel,
)
    requires
        !is_reserved(method),
        method != "workspace/executeCommand"@,
        later != method,
    ensures
        ({
            let added = registrations.add_request(method, handler).after;
            let routed = RouteView::Request(handler);
            &&& added.frozen().route(method, params) == routed
            &&& added.add_request(later, other).after.frozen().route(method, params) == routed
            &&& added.add_notification(later, other).after.frozen().route(method, params) == routed
            &&& added.add_command(later, other).after.frozen().route(method, params) == routed
        }),
{
    law_the_lifecycle_is_reserved(method);
}

/// A lookup finds the handler under a name exactly if there is one, and an attempt
/// comes out as it was to.
pub proof fn law_lookups_find_what_is_there<H>(
    table: Map<Seq<char>, H>,
    name: Seq<char>,
    handler: H,
    expected: Attempt<H>,
    result: Result<(), BuildError>,
    after: RegistrationsView<H>,
)
    ensures
        looked_up(table, name, Some(&handler)) <==> table.dom().contains(name) && table[name]
            == handler,
        looked_up(table, name, None::<&H>) <==> !table.dom().contains(name),
        attempted(expected, result, after) ==> {
            &&& after == expected.after
            &&& result is Ok <==> expected.error is None
            &&& result matches Err(error) ==> expected.error == Some(error@)
        },
{
}

/// A feature is contributed only once its handler stands: a mistake of the handler
/// contributes nothing, and a conflict is reported with its field and keeps the
/// catalog.
pub proof fn law_a_contribution_follows_its_handler<H>(
    added: Attempt<H>,
    contribution: spec_fn(CatalogView) -> Result<CatalogView, Seq<char>>,
)
    ensures
        ({
            let after = then_contributed(added, contribution);
            &&& added.error is Some ==> after == added
            &&& added.error is None ==> match contribution(added.after.catalog) {
                Ok(catalog) => {
                    &&& after.error is None
                    &&& after.after == (RegistrationsView { catalog, ..added.after })
                },
                Err(field) => {
                    &&& after.error == Some(BuildErrorView::ConflictingCapability { field })
                    &&& after.after == added.after
                },
            }
        }),
{
}

/// Registrations as a whole are valid exactly if the catalog is, explicit
/// synchronization denies nothing that is used, and commands do not stand beside a
/// handler for their method; else the first of these is named.
pub proof fn law_registrations_are_valid_as_a_whole<H>(registrations: RegistrationsView<H>)
    ensures
        ({
            let commands = exists|name: Seq<char>| registrations.commands.dom().contains(name);
            let beside = commands && registrations.requests.dom().contains(
                "workspace/executeCommand"@,
            );
            match (registrations.catalog.invalid_field(), registrations.sync_conflict()) {
                (Some(field), _) => registrations.invalid() == Some(
                    BuildErrorView::ConflictingCapability { field },
                ),
                (None, Some(field)) => registrations.invalid() == Some(
                    BuildErrorView::ConflictingCapability { field },
                ),
                (None, None) => registrations.invalid() == if beside {
                    Some(BuildErrorView::ExecuteCommandConflict)
                } else {
                    None
                },
            }
        }),
        registrations.document_sync is None ==> registrations.sync_conflict() is None,
        registrations.document_sync matches Some(explicit) ==> registrations.sync_conflict()
            == denied_sync_field(explicit, registrations.sync_uses()),
{
    if exists|name: Seq<char>| registrations.commands.dom().contains(name) {
        let name = choose|name: Seq<char>| registrations.commands.dom().contains(name);
        assert(registrations.commands != Map::<Seq<char>, H>::empty());
    } else {
        assert(registrations.commands =~= Map::<Seq<char>, H>::empty());
    }
}

/// Explicit synchronization denies a use exactly if it switches the use off, by its
/// own option or as a whole; the field that is named is one that is used and denied.
pub proof fn law_synchronization_denies_what_it_switches_off(
    explicit: TextDocumentSyncOptions,
    uses: SyncUses,
)
    ensures
        ({
            let off = explicit.change == Some(TextDocumentSyncKind::Unsynced);
            let save = uses.save_hook && (off || explicit.save == Some(Save::Bool(false)));
            let will_save = uses.will_save_hook && (off || explicit.will_save == Some(false));
            let wait = uses.wait_until && (off || explicit.will_save_wait_until == Some(false));
            &&& denied_sync_field(explicit, uses) is None <==> !save && !will_save && !wait
            &&& denied_sync_field(explicit, uses) matches Some(field) ==> {
                ||| save && field == "textDocumentSync.save"@
                ||| will_save && field == "textDocumentSync.willSave"@
                ||| wait && field == "textDocumentSync.willSaveWaitUntil"@
            }
        }),
{
}

/// The effective synchronization keeps every option that was given and fills the
/// others in: documents are opened and closed and changed incrementally, and saves
/// are told where something is registered for them. Switched off, everything is
/// off. The plain kind is advertised only where nothing was said and nothing used.
pub proof fn law_synchronization_fills_in_what_was_left_open(
    explicit: Option<TextDocumentSyncOptions>,
    uses: SyncUses,
)
    ensures
        ({
            let settings = sync_settings(explicit, uses);
            let options = settings.options;
            let off = explicit is Some && explicit->0.change == Some(
                TextDocumentSyncKind::Unsynced,
            );
            &&& off ==> {
                &&& options.change == Some(TextDocumentSyncKind::Unsynced)
                &&& options.open_close == Some(false)
                &&& options.will_save == Some(false)
                &&& options.will_save_wait_until == Some(false)
                &&& options.save == Some(Save::Bool(false))
                &&& settings.capability == TextDocumentSync::Kind(TextDocumentSyncKind::Unsynced)
            }
            &&& !off && explicit is Some ==> {
                let given = explicit->0;
                &&& given.open_close is Some ==> options.open_close == given.open_close
                &&& given.open_close is None ==> options.open_close == Some(true)
                &&& given.change is Some ==> options.change == given.change
                &&& given.change is None ==> options.change == Some(
                    TextDocumentSyncKind::Incremental,
                )
                &&& given.will_save is Some || !uses.will_save_hook ==> options.will_save
                    == given.will_save
                &&& given.will_save_wait_until is Some || !uses.wait_until
                    ==> options.will_save_wait_until == given.will_save_wait_until
                &&& given.save is Some || !uses.save_hook ==> options.save == given.save
                &&& settings.capability == TextDocumentSync::Options(options)
            }
            &&& explicit is None ==> {
                &&& options.open_close == Some(true)
                &&& options.change == Some(TextDocumentSyncKind::Incremental)
                &&& !uses.will_save_hook ==> options.will_save is None
                &&& !uses.wait_until ==> options.will_save_wait_until is None
                &&& !uses.save_hook ==> options.save is None
                &&& settings.capability == if uses.save_hook || uses.will_save_hook
                    || uses.wait_until {
                    TextDocumentSync::Options(options)
                } else {
                    TextDocumentSync::Kind(TextDocumentSyncKind::Incremental)
                }
            }
            &&& !off && uses.will_save_hook && (explicit is None || explicit->0.will_save is None)
                ==> options.will_save == Some(true)
            &&& !off && uses.wait_until && (explicit is None
                || explicit->0.will_save_wait_until is None) ==> options.will_save_wait_until
                == Some(true)
            &&& !off && uses.save_hook && (explicit is None || explicit->0.save is None)
                ==> options.save == Some(Save::Bool(true))
        }),
{
}

/// A new builder holds its state and nothing else, and its resources are the
/// standard ones; what is registered stays registered, and the first mistake of all
/// is the one that is kept.
pub proof fn law_a_builder_collects<S, H>(
    builder: ServerBuilderView<S, H>,
    transaction: TransactionView<H>,
    state: S,
    attempt: Attempt<H>,
    mistake: BuildErrorView,
)
    ensures
        ({
            let fresh = ServerBuilderView::<S, H>::fresh(state);
            &&& fresh.server.state == state
            &&& fresh.server.registrations == RegistrationsView::<H>::empty()
            &&& fresh.server.file_provider is None && fresh.server.configure_initialize is None
            &&& fresh.server.on_initialize is None && fresh.server.on_initialized is None
            &&& fresh.server.on_shutdown is None && fresh.server.on_exit is None
            &&& fresh.server.error_hook is None && fresh.server.layers.len() == 0
            &&& fresh.server.resource_policy == ResourcePolicy::standard()
            &&& fresh.error is None
        }),
        builder.attempt(attempt).server.registrations == attempt.after,
        builder.attempt(attempt).server.state == builder.server.state,
        builder.attempt(attempt).server.layers == builder.server.layers,
        builder.attempt(attempt).server.resource_policy == builder.server.resource_policy,
        builder.attempt(attempt).error == if builder.error is Some {
            builder.error
        } else {
            attempt.error
        },
        builder.record(mistake).server == builder.server,
        builder.record(mistake).error == if builder.error is Some {
            builder.error
        } else {
            Some(mistake)
        },
        builder.failure() == match (builder.error, builder.server.resource_policy.invalid_field()) {
            (Some(error), _) => Some(error),
            (None, Some(field)) => Some(BuildErrorView::InvalidResourcePolicy { field }),
            (None, None) => builder.server.registrations.invalid(),
        },
        transaction.error is Some ==> transaction.attempt(attempt) == transaction,
        transaction.error is None ==> transaction.attempt(attempt).registrations == attempt.after
            && transaction.attempt(attempt).error == attempt.error,
        transaction.failure() == if transaction.error is Some {
            transaction.error
        } else {
            transaction.registrations.invalid()
        },
{
}

/// Nothing is registered at first.
pub proof fn law_nothing_is_registered_at_first<H>(name: Seq<char>)
    ensures
        ({
            let empty = RegistrationsView::<H>::empty();
            &&& !empty.requests.dom().contains(name) && !empty.notifications.dom().contains(name)
            &&& !empty.built_in_hooks.dom().contains(name) && !empty.commands.dom().contains(name)
            &&& empty.document_sync is None
            &&& empty.catalog == CatalogView::empty()
            &&& empty.invalid() is None
        }),
{
}

/// A policy is valid exactly if every budget is positive and so is every deadline
/// that is enabled; else a field is named that is zero. The standard one is valid.
pub proof fn law_a_policy_is_valid_if_nothing_is_zero(policy: ResourcePolicy)
    ensures
        policy.invalid_field() is None <==> policy.max_inbound_requests > 0
            && policy.max_outbound_messages > 0 && policy.max_outbound_bytes > 0
            && policy.max_documents > 0 && policy.max_document_bytes > 0 && policy.handler_timeout
            > 0 && policy.outbound_request_timeout != Some(0u128),
        policy.invalid_field() matches Some(field) ==> match field {
            ResourcePolicyField::MaxInboundRequests => policy.max_inbound_requests == 0,
            ResourcePolicyField::MaxOutboundMessages => policy.max_outbound_messages == 0,
            ResourcePolicyField::MaxOutboundBytes => policy.max_outbound_bytes == 0,
            ResourcePolicyField::MaxDocuments => policy.max_documents == 0,
            ResourcePolicyField::MaxDocumentBytes => policy.max_document_bytes == 0,
            ResourcePolicyField::HandlerTimeout => policy.handler_timeout == 0,
            ResourcePolicyField::OutboundRequestTimeout => policy.outbound_request_timeout == Some(
                0u128,
            ),
        },
        ({
            let standard = ResourcePolicy::standard();
            &&& standard.max_inbound_requests == 64
            &&& standard.max_outbound_messages == 1024
            &&& standard.max_outbound_bytes == 64 * 1024 * 1024
            &&& standard.max_documents == 4096
            &&& standard.max_document_bytes == 256 * 1024 * 1024
            &&& standard.handler_timeout == 60 * 1_000_000_000
            &&& standard.outbound_request_timeout matches Some(timeout)
            &&& timeout == 30 * 1_000_000_000
        }),
{
}

} // verus!
