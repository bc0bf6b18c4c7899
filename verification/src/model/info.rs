//! The service's info and its handler.

use crate::client::{Client, ClientView};
use crate::error::{ClientErrorView, ClientResult, TransportErrorKind};
use crate::json::{
    flag_member, member, mismatch, mismatch_text, present_member, spec_flag_member, spec_member,
    spec_present_member, spec_text_member, spec_unsigned_member, text_member, unsigned_member,
};
use crate::transport::{
    accept, accepted, outcome_view, prepare, prepared, request_result_view, Method, Request,
    RequestView, Response, ResponseView,
};
use vstd::prelude::*;

verus! {

/// The rules that the service holds the identifier of a namespace to.
#[derive(Debug, PartialEq, Eq)]
pub struct NamespaceIdRules {
    pub min_length: u64,
    pub max_length: u64,
    pub allowed_characters: String,
}

/// The mathematical value of [`NamespaceIdRules`].
pub struct NamespaceIdRulesView {
    pub min_length: u64,
    pub max_length: u64,
    pub allowed_characters: Seq<char>,
}

impl View for NamespaceIdRules {
    type V = NamespaceIdRulesView;

    open spec fn view(&self) -> NamespaceIdRulesView {
        NamespaceIdRulesView {
            min_length: self.min_length,
            max_length: self.max_length,
            allowed_characters: self.allowed_characters@,
        }
    }
}

/// The settings of the service.
#[derive(Debug, PartialEq, Eq)]
pub struct Settings {
    pub invites: bool,
    pub namespace_id_rules: NamespaceIdRules,
}

/// The mathematical value of [`Settings`].
pub struct SettingsView {
    pub invites: bool,
    pub namespace_id_rules: NamespaceIdRulesView,
}

impl View for Settings {
    type V = SettingsView;

    open spec fn view(&self) -> SettingsView {
        SettingsView { invites: self.invites, namespace_id_rules: self.namespace_id_rules@ }
    }
}

/// A snapshot of what the service says of itself. The settings are there where
/// the service is of a generation that reports them.
#[derive(Debug, PartialEq, Eq)]
pub struct Info {
    pub version: String,
    pub production: bool,
    pub settings: Option<Settings>,
}

/// The mathematical value of [`Info`].
pub struct InfoView {
    pub version: Seq<char>,
    pub production: bool,
    pub settings: Option<SettingsView>,
}

impl View for Info {
    type V = InfoView;

    open spec fn view(&self) -> InfoView {
        InfoView {
            version: self.version@,
            production: self.production,
            settings: match self.settings {
                Some(settings) => Some(settings@),
                None => None,
            },
        }
    }
}

impl NamespaceIdRules {
    /// The rules that the JSON value describes: an object with the members
    /// `min_length` and `max_length`, both unsigned numbers, and
    /// `allowed_characters`, a string.
    pub open spec fn spec_from_json(value: serde_json::Value) -> Option<NamespaceIdRulesView> {
        match (
            spec_unsigned_member(value, "min_length"@),
            spec_unsigned_member(value, "max_length"@),
            spec_text_member(value, "allowed_characters"@),
        ) {
            (Some(min_length), Some(max_length), Some(allowed_characters)) => Some(
                NamespaceIdRulesView { min_length, max_length, allowed_characters },
            ),
            _ => None,
        }
    }

    /// Reads the rules from a JSON value. Members that the rules do not have
    /// are passed over.
    pub fn from_json(value: &serde_json::Value) -> (r: Option<NamespaceIdRules>)
        ensures
            match r {
                Some(rules) => Self::spec_from_json(*value) == Some(rules@),
                None => Self::spec_from_json(*value) is None,
            },
    {
        let min_length = unsigned_member(value, "min_length");
        let max_length = unsigned_member(value, "max_length");
        let allowed_characters = text_member(value, "allowed_characters");
        match (min_length, max_length, allowed_characters) {
            (Some(min_length), Some(max_length), Some(allowed_characters)) => Some(
                NamespaceIdRules { min_length, max_length, allowed_characters },
            ),
            _ => None,
        }
    }
}

impl Settings {
    /// The settings that the JSON value describes: an object with the members
    /// `invites`, a boolean, and `namespace_id_rules`, the rules.
    pub open spec fn spec_from_json(value: serde_json::Value) -> Option<SettingsView> {
        match (spec_flag_member(value, "invites"@), spec_member(value, "namespace_id_rules"@)) {
            (Some(invites), Some(rules)) => match NamespaceIdRules::spec_from_json(rules) {
                Some(namespace_id_rules) => Some(SettingsView { invites, namespace_id_rules }),
                None => None,
            },
            _ => None,
        }
    }

    /// Reads the settings from a JSON value. Members that the settings do not
    /// have are passed over.
    pub fn from_json(value: &serde_json::Value) -> (r: Option<Settings>)
        ensures
            match r {
                Some(settings) => Self::spec_from_json(*value) == Some(settings@),
                None => Self::spec_from_json(*value) is None,
            },
    {
        let invites = flag_member(value, "invites");
        let rules = member(value, "namespace_id_rules");
        match (invites, rules) {
            (Some(invites), Some(rules)) => match NamespaceIdRules::from_json(rules) {
                Some(namespace_id_rules) => Some(Settings { invites, namespace_id_rules }),
                None => None,
            },
            _ => None,
        }
    }
}

impl Info {
    /// The info that the JSON value describes: an object with the members
    /// `version`, a string, and `production`, a boolean, and with the settings
    /// in the member `settings` where that member is there and not `null`.
    pub open spec fn spec_from_json(value: serde_json::Value) -> Option<InfoView> {
        match (spec_text_member(value, "version"@), spec_flag_member(value, "production"@)) {
            (Some(version), Some(production)) => match spec_present_member(value, "settings"@) {
                Some(found) => match Settings::spec_from_json(found) {
                    Some(settings) => Some(InfoView { version, production, settings: Some(settings) }),
                    None => None,
                },
                None => Some(InfoView { version, production, settings: None }),
            },
            _ => None,
        }
    }

    /// Reads the info from a JSON value. Members that the info does not have
    /// are passed over.
    pub fn from_json(value: &serde_json::Value) -> (r: Option<Info>)
        ensures
            match r {
                Some(info) => Self::spec_from_json(*value) == Some(info@),
                None => Self::spec_from_json(*value) is None,
            },
    {
        let version = text_member(value, "version");
        let production = flag_member(value, "production");
        match (version, production) {
            (Some(version), Some(production)) => match present_member(value, "settings") {
                Some(found) => match Settings::from_json(found) {
                    Some(settings) => Some(Info { version, production, settings: Some(settings) }),
                    None => None,
                },
                None => Some(Info { version, production, settings: None }),
            },
            _ => None,
        }
    }
}

/// The view of the result of fetching the info.
pub open spec fn info_result_view(result: ClientResult<Info>) -> Result<InfoView, ClientErrorView> {
    match result {
        Ok(info) => Ok(info@),
        Err(error) => Err(error@),
    }
}

/// The request that fetches the info: a `GET` on `/info`, with no credential
/// and no body.
pub open spec fn info_request(client: ClientView) -> Result<RequestView, ClientErrorView> {
    prepared(Method::Get, client.endpoint("/info"@), None, Seq::empty())
}

/// The info that an answer to [`info_request`] holds, or the failure that it
/// amounts to.
pub open spec fn info_received(outcome: Result<ResponseView, TransportErrorKind>) -> Result<InfoView, ClientErrorView> {
    match accepted(outcome, false) {
        Ok(document) => match Info::spec_from_json(document) {
            Some(info) => Ok(info),
            None => Err(ClientErrorView::SerdeJsonError(mismatch_text())),
        },
        Err(error) => Err(error),
    }
}

/// The handler of the service's info.
pub struct InfoHandler<'a> {
    client: &'a Client,
}

impl<'a> View for InfoHandler<'a> {
    type V = ClientView;

    closed spec fn view(&self) -> ClientView {
        self.client@
    }
}

impl<'a> InfoHandler<'a> {
    pub(crate) fn new(client: &'a Client) -> (r: Self)
        ensures
            r@ == client@,
    {
        InfoHandler { client }
    }

    /// Builds the request that fetches the info.
    pub fn get_request(&self) -> (r: ClientResult<Request>)
        ensures
            request_result_view(r) == info_request(self@),
    {
        prepare(Method::Get, self.client.endpoint("/info"), None, Vec::new())
    }

    /// Takes what came back for the request of [`InfoHandler::get_request`]
    /// and hands out the info that the server sent.
    pub fn get(&self, outcome: Result<Response, TransportErrorKind>) -> (r: ClientResult<Info>)
        ensures
            info_result_view(r) == info_received(outcome_view(outcome)),
    {
        match accept(outcome, false) {
            Ok(document) => match Info::from_json(&document) {
                Some(info) => Ok(info),
                None => Err(mismatch()),
            },
            Err(error) => Err(error),
        }
    }
}

} // verus!
