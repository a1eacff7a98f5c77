//! What the fixed dispatcher does with each message.
use vstd::prelude::*;

use crate::dispatcher::{
    changed_one_by_one, fixed_did_change, fixed_did_close, fixed_did_open, fixed_did_save,
    fixed_initialize, fixed_initialized, DispatchEffectView, DispatchFlowView,
    DispatchNext, DispatchStepView, DispatcherView, FixedNotification, State,
};
use crate::documents::{ContentChangeView, StoreView};
use crate::error::LspErrorView;
use crate::message::{JsonRpcErrorView, MessageView, RequestIdView};
use crate::params::parsed_cancel;
use crate::server_laws::{failed, given};

verus! {

/// Nothing happens but effects.
pub open spec fn just<C>(
    dispatcher: DispatcherView<C>,
    effects: Seq<DispatchEffectView<C>>,
) -> DispatchNext<C> {
    DispatchNext {
        dispatcher,
        result: Ok(DispatchStepView { effects, flow: DispatchFlowView::Continue }),
    }
}

/// Something is run.
pub open spec fn run<C>(dispatcher: DispatcherView<C>, flow: DispatchFlowView) -> DispatchNext<C> {
    DispatchNext { dispatcher, result: Ok(DispatchStepView { effects: Seq::empty(), flow }) }
}

/// The connection ends on parameters that do not decode.
pub open spec fn ended<C>(dispatcher: DispatcherView<C>, error: Seq<char>) -> DispatchNext<C> {
    DispatchNext { dispatcher, result: Err(LspErrorView::InvalidParams(error)) }
}

/// Each request is answered or run by the phase it comes in: `initialize` first and
/// once, `shutdown` in the running state, any other is unknown; before the one and
/// after the other every request is refused.
#[verifier::spinoff_prover]
pub proof fn law_fixed_requests_are_answered_or_run<C>(
    dispatcher: DispatcherView<C>,
    id: RequestIdView,
    method: Seq<char>,
    params: Seq<u8>,
    token: C,
)
    ensures
        ({
            let next = dispatcher.dispatched(MessageView::Request { id, method, params }, token);
            let refused = |code: int, message: Seq<char>| just(
                dispatcher,
                seq![DispatchEffectView::Send(failed(id, code, message))],
            );
            match dispatcher.state {
                State::Uninitialized => if method == "initialize"@ {
                    match fixed_initialize(given(params)) {
                        Ok(_) => next == run(
                            dispatcher,
                            DispatchFlowView::Initialize { id, params },
                        ),
                        Err(error) => next == ended(dispatcher, error),
                    }
                } else {
                    next == refused(-32002, "server not initialized"@)
                },
                State::Running => if method == "initialize"@ {
                    next == refused(-32600, "server already initialized"@)
                } else if method == "shutdown"@ {
                    next == run(
                        DispatcherView {
                            registry: dispatcher.registry.insert(id, token),
                            ..dispatcher
                        },
                        DispatchFlowView::Shutdown { id },
                    )
                } else {
                    next == refused(-32601, method)
                },
                State::ShuttingDown => next == refused(-32600, "invalid request"@),
            }
        }),
{
}

/// `exit` is run in every phase, and `initialized` wherever it decodes; `exit` is
/// clean exactly after `shutdown`.
#[verifier::spinoff_prover]
pub proof fn law_fixed_lifecycle_notifications<C>(
    dispatcher: DispatcherView<C>,
    params: Seq<u8>,
    token: C,
)
    ensures
        dispatcher.dispatched(MessageView::Notification { method: "exit"@, params }, token) == run(
            dispatcher,
            DispatchFlowView::Exit,
        ),
        ({
            let next = dispatcher.dispatched(
                MessageView::Notification { method: "initialized"@, params },
                token,
            );
            match fixed_initialized(given(params)) {
                Ok(_) => next == run(
                    dispatcher,
                    DispatchFlowView::Notify {
                        notification: FixedNotification::Initialized,
                        params,
                    },
                ),
                Err(error) => next == ended(dispatcher, error),
            }
        }),
        dispatcher.exit_code() == if dispatcher.state is ShuttingDown {
            0i32
        } else {
            1i32
        },
{
    reveal_strlit("exit");
    reveal_strlit("initialized");
    assert("exit"@.len() != "initialized"@.len());
}

/// The wire names of the fixed document notifications, and of the cancellation,
/// differ from those of the lifecycle and from each other.
proof fn lemma_fixed_names_differ()
    ensures
        ({
            let names = seq![
                "exit"@,
                "initialized"@,
                "$/cancelRequest"@,
                "textDocument/didOpen"@,
                "textDocument/didChange"@,
                "textDocument/didClose"@,
                "textDocument/didSave"@,
            ];
            forall|i: int, j: int| 0 <= i < j < 7 ==> #[trigger] names[i] != #[trigger] names[j]
        }),
{
    reveal_strlit("exit");
    reveal_strlit("initialized");
    reveal_strlit("$/cancelRequest");
    reveal_strlit("textDocument/didOpen");
    reveal_strlit("textDocument/didChange");
    reveal_strlit("textDocument/didClose");
    reveal_strlit("textDocument/didSave");
    assert("exit"@.len() == 4);
    assert("initialized"@.len() == 11);
    assert("$/cancelRequest"@.len() == 15);
    assert("textDocument/didOpen"@.len() == 20 && "textDocument/didOpen"@[16] == 'O');
    assert("textDocument/didChange"@.len() == 22);
    assert("textDocument/didClose"@.len() == 21);
    assert("textDocument/didSave"@.len() == 20 && "textDocument/didSave"@[16] == 'S');
}

/// Once initialized, document notifications that decode change the documents and
/// are handed to their handlers: what is opened is kept, what is changed is changed
/// one change after the other, what is closed is forgotten. Before, they are
/// dropped, and so is every other notification at any time.
#[verifier::spinoff_prover]
pub proof fn law_fixed_document_notifications<C>(
    dispatcher: DispatcherView<C>,
    method: Seq<char>,
    params: Seq<u8>,
    token: C,
)
    requires
        method != "exit"@,
        method != "initialized"@,
        method != "$/cancelRequest"@,
    ensures
        ({
            let next = dispatcher.dispatched(MessageView::Notification { method, params }, token);
            let bytes = given(params);
            let told = |store: StoreView, notification: FixedNotification| run(
                DispatcherView { store, ..dispatcher },
                DispatchFlowView::Notify { notification, params },
            );
            if dispatcher.state is Uninitialized {
                next == just(dispatcher, Seq::<DispatchEffectView<C>>::empty())
            } else {
                &&& method == "textDocument/didOpen"@ ==> match fixed_did_open(bytes) {
                    Ok(item) => next == told(
                        dispatcher.store.opened(item),
                        FixedNotification::DidOpen,
                    ),
                    Err(error) => next == ended(dispatcher, error),
                }
                &&& method == "textDocument/didChange"@ ==> match fixed_did_change(bytes) {
                    Ok(change) => next == told(
                        changed_one_by_one(
                            dispatcher.store,
                            change.uri,
                            change.version,
                            change.changes,
                        ),
                        FixedNotification::DidChange,
                    ),
                    Err(error) => next == ended(dispatcher, error),
                }
                &&& method == "textDocument/didClose"@ ==> match fixed_did_close(bytes) {
                    Ok(uri) => next == told(
                        dispatcher.store.closed(uri),
                        FixedNotification::DidClose,
                    ),
                    Err(error) => next == ended(dispatcher, error),
                }
                &&& method == "textDocument/didSave"@ ==> match fixed_did_save(bytes) {
                    Ok(_) => next == told(dispatcher.store, FixedNotification::DidSave),
                    Err(error) => next == ended(dispatcher, error),
                }
                &&& method != "textDocument/didOpen"@ && method != "textDocument/didChange"@
                    && method != "textDocument/didClose"@ && method != "textDocument/didSave"@
                    ==> next == just(dispatcher, Seq::<DispatchEffectView<C>>::empty())
            }
        }),
{
    lemma_fixed_names_differ();
    let names = seq![
        "exit"@,
        "initialized"@,
        "$/cancelRequest"@,
        "textDocument/didOpen"@,
        "textDocument/didChange"@,
        "textDocument/didClose"@,
        "textDocument/didSave"@,
    ];
    assert(names[3] != names[4] && names[3] != names[5] && names[3] != names[6]);
    assert(names[4] != names[5] && names[4] != names[6] && names[5] != names[6]);
}

/// Changes are applied one after the other, each to what the one before left: a
/// change that fails changes nothing and the next still counts.
pub proof fn law_fixed_changes_follow_each_other(
    store: StoreView,
    uri: Seq<char>,
    version: i32,
    changes: Seq<ContentChangeView>,
    change: ContentChangeView,
)
    ensures
        changed_one_by_one(store, uri, version, Seq::empty()) == store,
        changed_one_by_one(store, uri, version, changes.push(change)) == changed_one_by_one(
            store,
            uri,
            version,
            changes,
        ).changed(uri, version, seq![change]),
{
    assert(changes.push(change).drop_last() =~= changes);
}

/// A request in flight that is cancelled has its token fired and is answered as
/// cancelled, once; anything else that is cancelled is ignored.
#[verifier::spinoff_prover]
pub proof fn law_fixed_cancellations_are_answered_once<C>(
    dispatcher: DispatcherView<C>,
    params: Seq<u8>,
    token: C,
)
    ensures
        ({
            let next = dispatcher.dispatched(
                MessageView::Notification { method: "$/cancelRequest"@, params },
                token,
            );
            let nothing = just(dispatcher, Seq::<DispatchEffectView<C>>::empty());
            if dispatcher.state is Uninitialized {
                next == nothing
            } else {
                match parsed_cancel(given(params)) {
                    Err(_) => next == nothing,
                    Ok(id) => if dispatcher.registry.dom().contains(id) {
                        next == just(
                            DispatcherView {
                                registry: dispatcher.registry.remove(id),
                                ..dispatcher
                            },
                            seq![
                                DispatchEffectView::Cancel(dispatcher.registry[id]),
                                DispatchEffectView::Send(failed(id, -32800, "request cancelled"@)),
                            ],
                        )
                    } else {
                        next == nothing
                    },
                }
            }
        }),
{
    lemma_fixed_names_differ();
    let names = seq![
        "exit"@,
        "initialized"@,
        "$/cancelRequest"@,
        "textDocument/didOpen"@,
        "textDocument/didChange"@,
        "textDocument/didClose"@,
        "textDocument/didSave"@,
    ];
    assert(names[0] != names[2] && names[1] != names[2]);
}

/// A response is dropped, and a protocol error sent back.
pub proof fn law_fixed_responses_are_dropped<C>(
    dispatcher: DispatcherView<C>,
    id: RequestIdView,
    result: Result<Seq<u8>, JsonRpcErrorView>,
    error: JsonRpcErrorView,
    token: C,
)
    ensures
        dispatcher.dispatched(MessageView::Response { id, result }, token) == just(
            dispatcher,
            Seq::<DispatchEffectView<C>>::empty(),
        ),
        dispatcher.dispatched(MessageView::ProtocolError { error }, token) == just(
            dispatcher,
            seq![DispatchEffectView::Send(MessageView::ProtocolError { error })],
        ),
{
}

} // verus!
