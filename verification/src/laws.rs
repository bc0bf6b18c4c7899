//! What holds of the operations taken together, proved from their contracts.

use crate::client::ClientView;
use crate::error::{ClientErrorView, TransportErrorKind};
use crate::json::{
    json_document, spec_flag_member, spec_member, spec_present_member, spec_text_member,
    spec_unsigned_member,
};
use crate::model::info::{
    info_received, info_request, Info, InfoView, NamespaceIdRules, NamespaceIdRulesView,
    SettingsView,
};
use crate::model::namespace::{
    create_request, get_request, handler_after, issue_result, namespace_path, namespace_received,
    reset_token_request, token_received, NamespaceHandlerView,
};
use crate::transport::{authorization_header, success, user_agent_header, Method, ResponseView};
use vstd::prelude::*;

verus! {

/// Whether the JSON value holds the rules field for field.
pub open spec fn rules_payload(value: serde_json::Value, rules: NamespaceIdRulesView) -> bool {
    &&& spec_unsigned_member(value, "min_length"@) == Some(rules.min_length)
    &&& spec_unsigned_member(value, "max_length"@) == Some(rules.max_length)
    &&& spec_text_member(value, "allowed_characters"@) == Some(rules.allowed_characters)
}

/// Whether the JSON value holds the settings field for field.
pub open spec fn settings_payload(value: serde_json::Value, settings: SettingsView) -> bool {
    &&& spec_flag_member(value, "invites"@) == Some(settings.invites)
    &&& spec_member(value, "namespace_id_rules"@) is Some
    &&& rules_payload(spec_member(value, "namespace_id_rules"@)->Some_0, settings.namespace_id_rules)
}

/// Whether the JSON value holds the info field for field: each field of the
/// info is the member of its name, and the settings are absent from both or
/// present in both.
pub open spec fn info_payload(value: serde_json::Value, info: InfoView) -> bool {
    &&& spec_text_member(value, "version"@) == Some(info.version)
    &&& spec_flag_member(value, "production"@) == Some(info.production)
    &&& match info.settings {
        Some(settings) => {
            &&& spec_present_member(value, "settings"@) is Some
            &&& settings_payload(spec_present_member(value, "settings"@)->Some_0, settings)
        },
        None => spec_present_member(value, "settings"@) is None,
    }
}

/// Reading an info from a JSON value yields the info that the value holds
/// field for field, and yields an info for no other value.
pub proof fn lemma_info_is_read_field_for_field(value: serde_json::Value, info: InfoView)
    ensures
        Info::spec_from_json(value) == Some(info) <==> info_payload(value, info),
{
    if let Some(found) = spec_present_member(value, "settings"@) {
        if let Some(rules) = spec_member(found, "namespace_id_rules"@) {
            assert(NamespaceIdRules::spec_from_json(rules) is Some ==> rules_payload(
                rules,
                NamespaceIdRules::spec_from_json(rules)->Some_0,
            ));
        }
    }
}

/// A response with status 200 whose body is a JSON document that holds an
/// info field for field is received as that info.
pub proof fn lemma_info_round_trip(body: Seq<u8>, document: serde_json::Value, info: InfoView)
    ensures
        json_document(body) == Ok::<serde_json::Value, Seq<char>>(document) && info_payload(
            document,
            info,
        ) ==> info_received(Ok(ResponseView { status: 200, body })) == Ok::<
            InfoView,
            ClientErrorView,
        >(info),
{
    lemma_info_is_read_field_for_field(document, info);
}

/// Every request that the library builds, whatever the endpoint and the
/// method, carries the header that identifies the library, as its first
/// header.
pub proof fn lemma_every_request_carries_user_agent(
    client: ClientView,
    handler: NamespaceHandlerView,
    invite: Option<Seq<char>>,
)
    ensures
        info_request(client) matches Ok(request) ==> request.headers[0] == user_agent_header(),
        get_request(handler) matches Ok(request) ==> request.headers[0] == user_agent_header(),
        create_request(handler, invite) matches Ok(request) ==> request.headers[0]
            == user_agent_header(),
        reset_token_request(handler) matches Ok(request) ==> request.headers[0]
            == user_agent_header(),
{
}

/// The request that fetches a namespace is a `GET` on the path of the
/// namespace and carries, besides the header that identifies the library, the
/// header `Authorization` with the value `Bearer `, then the token held, and
/// nothing else.
pub proof fn lemma_get_sends_bearer(handler: NamespaceHandlerView)
    ensures
        get_request(handler) matches Ok(request) ==> {
            &&& request.method == Method::Get
            &&& request.uri == handler.client.endpoint(namespace_path(handler.id))
            &&& request.headers == seq![user_agent_header(), authorization_header(handler.token)]
            &&& authorization_header(handler.token).name == "Authorization"@
            &&& authorization_header(handler.token).value == "Bearer "@ + handler.token
            &&& request.body == Seq::<u8>::empty()
        },
{
}

/// An answer whose status is no success is reported as an unexpected status
/// that carries the code, by every operation, and leaves the token of a
/// handler as it was.
pub proof fn lemma_other_status_is_unexpected(
    handler: NamespaceHandlerView,
    response: ResponseView,
    creation: bool,
)
    requires
        !success(response.status, creation),
    ensures
        !creation ==> info_received(Ok(response)) == Err::<InfoView, ClientErrorView>(
            ClientErrorView::UnexpectedStatus(response.status),
        ),
        !creation ==> namespace_received(Ok(response)) is Err,
        !creation ==> namespace_received(Ok(response))->Err_0 == ClientErrorView::UnexpectedStatus(
            response.status,
        ),
        issue_result(Ok(response), creation) == Err::<(), ClientErrorView>(
            ClientErrorView::UnexpectedStatus(response.status),
        ),
        handler_after(handler, Ok(response), creation) == handler,
{
}

/// A failure of the transport is passed on by every operation and leaves the
/// token of a handler as it was.
pub proof fn lemma_transport_failure_is_passed_on(
    handler: NamespaceHandlerView,
    kind: TransportErrorKind,
    creation: bool,
)
    ensures
        info_received(Err(kind)) == Err::<InfoView, ClientErrorView>(
            ClientErrorView::IsahcError(kind),
        ),
        namespace_received(Err(kind)) is Err,
        namespace_received(Err(kind))->Err_0 == ClientErrorView::IsahcError(kind),
        issue_result(Err(kind), creation) == Err::<(), ClientErrorView>(
            ClientErrorView::IsahcError(kind),
        ),
        handler_after(handler, Err(kind), creation) == handler,
{
}

/// Two bearer credentials are the same header value only where the tokens are
/// the same.
pub proof fn lemma_bearer_tells_tokens_apart(first: Seq<char>, second: Seq<char>)
    ensures
        authorization_header(first).value == authorization_header(second).value <==> first
            == second,
{
    let prefix = "Bearer "@;
    if authorization_header(first).value == authorization_header(second).value {
        assert((prefix + first).subrange(prefix.len() as int, (prefix + first).len() as int)
            =~= first);
        assert((prefix + second).subrange(prefix.len() as int, (prefix + second).len() as int)
            =~= second);
    }
}

/// After an answer in which the server issued a token, on creating the
/// namespace or on resetting its token, the handler holds that token, and the
/// requests that it builds from then on are those of a handler that was given
/// that token: they carry the new token as their bearer credential, and the
/// token held before only where the two are the same.
pub proof fn lemma_issued_token_is_used(
    handler: NamespaceHandlerView,
    outcome: Result<ResponseView, TransportErrorKind>,
    creation: bool,
    token: Seq<char>,
)
    requires
        token_received(outcome, creation) == Ok::<Seq<char>, ClientErrorView>(token),
    ensures
        issue_result(outcome, creation) == Ok::<(), ClientErrorView>(()),
        handler_after(handler, outcome, creation) == (NamespaceHandlerView { token, ..handler }),
        get_request(handler_after(handler, outcome, creation)) matches Ok(request)
            ==> request.headers == seq![user_agent_header(), authorization_header(token)],
        reset_token_request(handler_after(handler, outcome, creation)) matches Ok(request)
            ==> request.headers == seq![user_agent_header(), authorization_header(token)],
        token != handler.token ==> authorization_header(token).value != authorization_header(
            handler.token,
        ).value,
{
    lemma_bearer_tells_tokens_apart(token, handler.token);
}

/// An answer that issues no token, whatever the reason, leaves the handler as
/// it was: an operation has its full effect or none.
pub proof fn lemma_failure_changes_nothing(
    handler: NamespaceHandlerView,
    outcome: Result<ResponseView, TransportErrorKind>,
    creation: bool,
)
    requires
        issue_result(outcome, creation) is Err,
    ensures
        handler_after(handler, outcome, creation) == handler,
{
}

} // verus!
