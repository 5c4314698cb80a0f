//! What holds of every run of the handling of a notification.
//!
//! A run is told as a [`Trace`]: the outside world answers the request for
//! a token, and then one call after the other, and the trace lists what it
//! was asked for and how handling ended.

use crate::drive::ApiCallView;
use crate::error::ErrorKindView;
use crate::hook::handle;
use crate::step::{CallOutcomeView, StepView};
use crate::structures::{HookAction, HookBodyView};
use vstd::prelude::*;

verus! {

/// What a run asked of the outside world, and how it ended.
pub struct Trace {
    /// How many access tokens were asked for.
    pub token_requests: nat,
    /// The calls that were issued, in order.
    pub calls: Seq<ApiCallView>,
    /// The token that each of the calls was authenticated with.
    pub bearer_tokens: Seq<Seq<char>>,
    /// The result, where the run came to its end.
    pub result: Option<Result<(), ErrorKindView>>,
}

/// The run from `step` on, where the k-th call from here ends in
/// `outcomes[k]`. Where the outcomes run out, the last call listed is
/// still unanswered, and there is no result.
pub open spec fn run_calls(step: StepView, outcomes: Seq<CallOutcomeView>) -> Trace
    decreases outcomes.len(),
{
    match step {
        StepView::NeedCall(wait) => {
            if outcomes.len() == 0 {
                Trace {
                    token_requests: 0,
                    calls: seq![wait.call()],
                    bearer_tokens: seq![wait.token()],
                    result: None,
                }
            } else {
                let rest = run_calls(wait.resume(outcomes[0]), outcomes.skip(1));
                Trace {
                    token_requests: rest.token_requests,
                    calls: seq![wait.call()] + rest.calls,
                    bearer_tokens: seq![wait.token()] + rest.bearer_tokens,
                    result: rest.result,
                }
            }
        },
        StepView::NeedToken(_) => Trace {
            token_requests: 1,
            calls: seq![],
            bearer_tokens: seq![],
            result: None,
        },
        StepView::Done(result) => Trace {
            token_requests: 0,
            calls: seq![],
            bearer_tokens: seq![],
            result: Some(result),
        },
    }
}

/// The run of the handling of `body` for `targets`, where the token issuer
/// answers with `token` and the k-th call ends in `outcomes[k]`.
pub open spec fn run(
    targets: Seq<Seq<char>>,
    body: HookBodyView,
    token: Result<Seq<char>, Seq<char>>,
    outcomes: Seq<CallOutcomeView>,
) -> Trace {
    match handle(targets, body) {
        StepView::NeedToken(wait) => {
            let rest = run_calls(wait.resume(token), outcomes);
            Trace {
                token_requests: 1 + rest.token_requests,
                calls: rest.calls,
                bearer_tokens: rest.bearer_tokens,
                result: rest.result,
            }
        },
        step => run_calls(step, outcomes),
    }
}

/// Whether each of the first `n` outcomes is an HTTP success.
pub open spec fn all_succeeded(outcomes: Seq<CallOutcomeView>, n: int) -> bool {
    n <= outcomes.len() && forall|k: int| 0 <= k < n ==> (#[trigger] outcomes[k]).succeeded()
}

/// The step with which a fan-out over `ids` goes on: creating permissions
/// where there is no permission id, deleting that permission where there
/// is one.
spec fn fan_next(
    permission_id: Option<Seq<char>>,
    email: Seq<char>,
    token: Seq<char>,
    ids: Seq<Seq<char>>,
) -> StepView {
    match permission_id {
        None => StepView::grant_next(email, token, ids),
        Some(id) => StepView::revoke_next(email, token, id, ids),
    }
}

/// The call of such a fan-out for one resource.
spec fn fan_call(permission_id: Option<Seq<char>>, email: Seq<char>, resource_id: Seq<char>)
    -> ApiCallView {
    match permission_id {
        None => ApiCallView::CreatePermission { resource_id, email },
        Some(id) => ApiCallView::DeletePermission { resource_id, permission_id: id },
    }
}

/// A fan-out calls the resources in order, each once, until a call does not
/// succeed or none is left.
proof fn lemma_fan_out(
    permission_id: Option<Seq<char>>,
    email: Seq<char>,
    token: Seq<char>,
    ids: Seq<Seq<char>>,
    outcomes: Seq<CallOutcomeView>,
)
    ensures
        ({
            let trace = run_calls(fan_next(permission_id, email, token, ids), outcomes);
            &&& trace.token_requests == 0
            &&& trace.calls.len() <= ids.len()
            &&& forall|i: int|
                0 <= i < trace.calls.len() ==> #[trigger] trace.calls[i] == fan_call(
                    permission_id,
                    email,
                    ids[i],
                )
            &&& all_succeeded(outcomes, ids.len() as int) ==> trace.calls.len() == ids.len()
                && trace.result == Some(Ok::<(), ErrorKindView>(()))
            &&& forall|k: int|
                0 <= k < ids.len() && k < outcomes.len() && all_succeeded(outcomes, k)
                    && !(#[trigger] outcomes[k]).succeeded() ==> trace.calls.len() == k + 1
                    && trace.result == Some(
                    Err::<(), ErrorKindView>(
                        ErrorKindView::RemoteApiError { resource_id: ids[k], email },
                    ),
                )
        }),
    decreases outcomes.len(),
{
    reveal_with_fuel(run_calls, 2);
    let trace = run_calls(fan_next(permission_id, email, token, ids), outcomes);
    if ids.len() > 0 && outcomes.len() > 0 {
        if outcomes[0].succeeded() {
            let later = outcomes.skip(1);
            let rest = run_calls(fan_next(permission_id, email, token, ids.skip(1)), later);
            lemma_fan_out(permission_id, email, token, ids.skip(1), later);
            assert(trace.calls == seq![fan_call(permission_id, email, ids[0])] + rest.calls);
            assert forall|i: int| 0 <= i < trace.calls.len() implies #[trigger] trace.calls[i]
                == fan_call(permission_id, email, ids[i]) by {
                if i > 0 {
                    assert(trace.calls[i] == rest.calls[i - 1]);
                }
            }
            if all_succeeded(outcomes, ids.len() as int) {
                assert forall|k: int| 0 <= k < ids.len() - 1 implies (
                #[trigger] later[k]).succeeded() by {
                    assert(later[k] == outcomes[k + 1]);
                }
            }
            assert forall|k: int|
                0 <= k < ids.len() && k < outcomes.len() && all_succeeded(outcomes, k)
                    && !(#[trigger] outcomes[k]).succeeded() implies trace.calls.len() == k + 1
                    && trace.result == Some(
                    Err::<(), ErrorKindView>(
                        ErrorKindView::RemoteApiError { resource_id: ids[k], email },
                    ),
                ) by {
                assert forall|j: int| 0 <= j < k - 1 implies (#[trigger] later[j]).succeeded() by {
                    assert(later[j] == outcomes[j + 1]);
                }
                assert(later[k - 1] == outcomes[k]);
            }
        } else {
            assert forall|k: int|
                0 <= k < ids.len() && k < outcomes.len() && all_succeeded(outcomes, k)
                    && !(#[trigger] outcomes[k]).succeeded() implies k == 0 by {
                if k > 0 {
                    assert(outcomes[0].succeeded());
                }
            }
        }
    }
}

/// A subscription, once a token is there, issues create calls and nothing
/// else: the i-th call makes the subscriber a reader of the i-th resource,
/// and no resource is called twice. Where every call succeeds, each
/// resource gets its one call, and handling succeeds.
pub proof fn lemma_subscribe_creates_one_permission_per_target(
    targets: Seq<Seq<char>>,
    email: Seq<char>,
    token: Seq<char>,
    outcomes: Seq<CallOutcomeView>,
)
    ensures
        ({
            let body = HookBodyView { action: HookAction::Subscribe, email };
            let trace = run(targets, body, Ok(token), outcomes);
            &&& trace.token_requests == 1
            &&& trace.calls.len() <= targets.len()
            &&& forall|i: int|
                0 <= i < trace.calls.len() ==> #[trigger] trace.calls[i]
                    == (ApiCallView::CreatePermission { resource_id: targets[i], email })
            &&& forall|i: int|
                0 <= i < trace.calls.len() ==> (#[trigger] trace.calls[i]).json() == Some(
                    seq![("role"@, "reader"@), ("type"@, "user"@), ("emailAddress"@, email)],
                )
            &&& targets.no_duplicates() ==> trace.calls.no_duplicates()
            &&& all_succeeded(outcomes, targets.len() as int) ==> trace.calls.len()
                == targets.len() && trace.result == Some(Ok::<(), ErrorKindView>(()))
        }),
{
    lemma_fan_out(None, email, token, targets, outcomes);
}

/// A create call that does not end in an HTTP success ends the handling
/// of a subscription there: the error names the resource and the
/// subscriber, and the resources after it are not called.
pub proof fn lemma_failed_create_ends_the_subscription(
    targets: Seq<Seq<char>>,
    email: Seq<char>,
    token: Seq<char>,
    outcomes: Seq<CallOutcomeView>,
    k: int,
)
    requires
        0 <= k < targets.len(),
        k < outcomes.len(),
        all_succeeded(outcomes, k),
        !outcomes[k].succeeded(),
    ensures
        ({
            let body = HookBodyView { action: HookAction::Subscribe, email };
            let trace = run(targets, body, Ok(token), outcomes);
            &&& trace.calls.len() == k + 1
            &&& trace.result == Some(
                Err::<(), ErrorKindView>(
                    ErrorKindView::RemoteApiError { resource_id: targets[k], email },
                ),
            )
        }),
{
    lemma_fan_out(None, email, token, targets, outcomes);
}

/// A cancellation, once a token is there, first looks the permission id
/// up, once. Only delete calls follow, and only where the lookup gave an
/// id: the i-th of them deletes that id on the i-th resource. Where the
/// lookup gave none, or is not answered yet, no delete call is issued.
pub proof fn lemma_unsubscribe_resolves_before_deleting(
    targets: Seq<Seq<char>>,
    email: Seq<char>,
    token: Seq<char>,
    outcomes: Seq<CallOutcomeView>,
)
    ensures
        ({
            let body = HookBodyView { action: HookAction::Unsubscribe, email };
            let trace = run(targets, body, Ok(token), outcomes);
            &&& trace.token_requests == 1
            &&& 1 <= trace.calls.len() <= targets.len() + 1
            &&& trace.calls[0] == (ApiCallView::ResolveId { email })
            &&& forall|i: int|
                1 <= i < trace.calls.len() ==> #[trigger] trace.calls[i] is DeletePermission
            &&& outcomes.len() == 0 ==> trace.calls.len() == 1 && trace.result is None
            &&& outcomes.len() > 0 ==> match outcomes[0].resolution() {
                Ok(permission_id) => {
                    &&& forall|i: int|
                        1 <= i < trace.calls.len() ==> #[trigger] trace.calls[i]
                            == (ApiCallView::DeletePermission {
                            resource_id: targets[i - 1],
                            permission_id,
                        })
                    &&& all_succeeded(outcomes.skip(1), targets.len() as int)
                        ==> trace.calls.len() == targets.len() + 1 && trace.result == Some(
                        Ok::<(), ErrorKindView>(()),
                    )
                },
                Err(failure) => {
                    &&& trace.calls.len() == 1
                    &&& trace.result == Some(
                        Err::<(), ErrorKindView>(ErrorKindView::IdResolutionError(failure)),
                    )
                },
            }
        }),
{
    reveal_with_fuel(run_calls, 2);
    let body = HookBodyView { action: HookAction::Unsubscribe, email };
    let trace = run(targets, body, Ok(token), outcomes);
    if outcomes.len() > 0 {
        match outcomes[0].resolution() {
            Ok(permission_id) => {
                let rest = run_calls(
                    StepView::revoke_next(email, token, permission_id, targets),
                    outcomes.skip(1),
                );
                lemma_fan_out(Some(permission_id), email, token, targets, outcomes.skip(1));
                assert(trace.calls == seq![ApiCallView::ResolveId { email }] + rest.calls);
                assert forall|i: int| 1 <= i < trace.calls.len() implies #[trigger] trace.calls[i]
                    == (ApiCallView::DeletePermission {
                    resource_id: targets[i - 1],
                    permission_id,
                }) by {
                    assert(trace.calls[i] == rest.calls[i - 1]);
                }
            },
            Err(failure) => {
                assert(trace.calls == seq![ApiCallView::ResolveId { email }] + Seq::<
                    ApiCallView,
                >::empty());
            },
        }
    }
}

/// A delete call that does not end in an HTTP success ends the handling
/// of a cancellation there: the error names the resource and the
/// subscriber, and the resources after it are not called.
pub proof fn lemma_failed_delete_ends_the_cancellation(
    targets: Seq<Seq<char>>,
    email: Seq<char>,
    token: Seq<char>,
    outcomes: Seq<CallOutcomeView>,
    k: int,
)
    requires
        0 <= k < targets.len(),
        k + 1 < outcomes.len(),
        outcomes[0].resolution() is Ok,
        all_succeeded(outcomes.skip(1), k),
        !outcomes[k + 1].succeeded(),
    ensures
        ({
            let body = HookBodyView { action: HookAction::Unsubscribe, email };
            let trace = run(targets, body, Ok(token), outcomes);
            &&& trace.calls.len() == k + 2
            &&& trace.result == Some(
                Err::<(), ErrorKindView>(
                    ErrorKindView::RemoteApiError { resource_id: targets[k], email },
                ),
            )
        }),
{
    let permission_id = outcomes[0].resolution()->Ok_0;
    let later = outcomes.skip(1);
    let rest = run_calls(StepView::revoke_next(email, token, permission_id, targets), later);
    lemma_fan_out(Some(permission_id), email, token, targets, later);
    assert(later[k] == outcomes[k + 1]);
    let body = HookBodyView { action: HookAction::Unsubscribe, email };
    let trace = run(targets, body, Ok(token), outcomes);
    assert(trace.calls == seq![ApiCallView::ResolveId { email }] + rest.calls);
}

/// Whether a call that `step` waits for is authenticated with `token`.
spec fn waits_with(step: StepView, token: Seq<char>) -> bool {
    step matches StepView::NeedCall(wait) ==> wait.token() == token
}

proof fn lemma_token_is_kept(step: StepView, token: Seq<char>, outcomes: Seq<CallOutcomeView>)
    requires
        waits_with(step, token),
    ensures
        ({
            let trace = run_calls(step, outcomes);
            &&& trace.bearer_tokens.len() == trace.calls.len()
            &&& forall|i: int|
                0 <= i < trace.bearer_tokens.len() ==> #[trigger] trace.bearer_tokens[i] == token
        }),
    decreases outcomes.len(),
{
    if let StepView::NeedCall(wait) = step {
        if outcomes.len() > 0 {
            lemma_token_is_kept(wait.resume(outcomes[0]), token, outcomes.skip(1));
        }
    }
}

/// Every call of a run is authenticated with the token that was issued at
/// its start.
pub proof fn lemma_every_call_carries_the_token(
    targets: Seq<Seq<char>>,
    body: HookBodyView,
    token: Seq<char>,
    outcomes: Seq<CallOutcomeView>,
)
    ensures
        ({
            let trace = run(targets, body, Ok(token), outcomes);
            &&& trace.bearer_tokens.len() == trace.calls.len()
            &&& forall|i: int|
                0 <= i < trace.bearer_tokens.len() ==> #[trigger] trace.bearer_tokens[i] == token
        }),
{
    match handle(targets, body) {
        StepView::NeedToken(wait) => lemma_token_is_kept(wait.resume(Ok(token)), token, outcomes),
        step => lemma_token_is_kept(step, token, outcomes),
    }
}

/// A notification whose action is named anything but `subscribe` or
/// `unsubscribe` fails as unsupported, and nothing is asked of the outside
/// world for it: no token, no call.
pub proof fn lemma_other_actions_touch_nothing(
    targets: Seq<Seq<char>>,
    action_name: Seq<char>,
    email: Seq<char>,
    token: Result<Seq<char>, Seq<char>>,
    outcomes: Seq<CallOutcomeView>,
)
    requires
        action_name != "subscribe"@,
        action_name != "unsubscribe"@,
    ensures
        ({
            let body = HookBodyView { action: HookAction::of_name(action_name), email };
            let trace = run(targets, body, token, outcomes);
            &&& trace.token_requests == 0
            &&& trace.calls.len() == 0
            &&& trace.result == Some(
                Err::<(), ErrorKindView>(ErrorKindView::UnsupportedActionError),
            )
        }),
{
}

/// Without a token no call is issued: handling fails with what the token
/// issuer reported.
pub proof fn lemma_no_call_without_a_token(
    targets: Seq<Seq<char>>,
    body: HookBodyView,
    report: Seq<char>,
    outcomes: Seq<CallOutcomeView>,
)
    requires
        body.action != HookAction::Other,
    ensures
        ({
            let trace = run(targets, body, Err(report), outcomes);
            &&& trace.token_requests == 1
            &&& trace.calls.len() == 0
            &&& trace.result == Some(Err::<(), ErrorKindView>(ErrorKindView::oauth(report)))
        }),
{
}

} // verus!
