//! What can go wrong with a configuration.

use crate::text;
use vstd::prelude::*;

verus! {

/// How many pages a directory may have.
pub const MAX_PAGES: usize = 100;

#[derive(Debug, Clone, PartialEq, Eq)]
pub enum ProviderStoreError {
    InvalidModelOverride(String),
    NotConfigured,
    UnknownProfile(String),
    NotBuiltin(String),
    ProfileChanged(String),
    UnknownModel { profile_name: String, model: String },
    UntrackedModel { provider_id: String, model: String },
    NoDirectory(String),
    StaticCredential(String),
    CredentialHeader(String),
    DuplicateProfile(String),
    UnsupportedVersion(u32),
    InvalidPagination,
    Worker(String),
    /// The file is no JSON, or not of the right shape.
    Json(String),
    /// No authenticator is registered for how the connection authenticates.
    MissingAuthenticator { profile_name: String, strategy: String },
}

pub enum StoreErrorView {
    InvalidModelOverride(Seq<char>),
    NotConfigured,
    UnknownProfile(Seq<char>),
    NotBuiltin(Seq<char>),
    ProfileChanged(Seq<char>),
    UnknownModel { profile_name: Seq<char>, model: Seq<char> },
    UntrackedModel { provider_id: Seq<char>, model: Seq<char> },
    NoDirectory(Seq<char>),
    StaticCredential(Seq<char>),
    CredentialHeader(Seq<char>),
    DuplicateProfile(Seq<char>),
    UnsupportedVersion(u32),
    InvalidPagination,
    Worker(Seq<char>),
    Json(Seq<char>),
    MissingAuthenticator { profile_name: Seq<char>, strategy: Seq<char> },
}

impl DeepView for ProviderStoreError {
    type V = StoreErrorView;

    open spec fn deep_view(&self) -> StoreErrorView {
        match self {
            ProviderStoreError::InvalidModelOverride(why) => StoreErrorView::InvalidModelOverride(
                why@,
            ),
            ProviderStoreError::NotConfigured => StoreErrorView::NotConfigured,
            ProviderStoreError::UnknownProfile(name) => StoreErrorView::UnknownProfile(name@),
            ProviderStoreError::NotBuiltin(name) => StoreErrorView::NotBuiltin(name@),
            ProviderStoreError::ProfileChanged(name) => StoreErrorView::ProfileChanged(name@),
            ProviderStoreError::UnknownModel { profile_name, model } => {
                StoreErrorView::UnknownModel { profile_name: profile_name@, model: model@ }
            },
            ProviderStoreError::UntrackedModel { provider_id, model } => {
                StoreErrorView::UntrackedModel { provider_id: provider_id@, model: model@ }
            },
            ProviderStoreError::NoDirectory(name) => StoreErrorView::NoDirectory(name@),
            ProviderStoreError::StaticCredential(name) => StoreErrorView::StaticCredential(name@),
            ProviderStoreError::CredentialHeader(name) => StoreErrorView::CredentialHeader(name@),
            ProviderStoreError::DuplicateProfile(name) => StoreErrorView::DuplicateProfile(name@),
            ProviderStoreError::UnsupportedVersion(version) => StoreErrorView::UnsupportedVersion(
                *version,
            ),
            ProviderStoreError::InvalidPagination => StoreErrorView::InvalidPagination,
            ProviderStoreError::Worker(why) => StoreErrorView::Worker(why@),
            ProviderStoreError::Json(why) => StoreErrorView::Json(why@),
            ProviderStoreError::MissingAuthenticator { profile_name, strategy } => {
                StoreErrorView::MissingAuthenticator {
                    profile_name: profile_name@,
                    strategy: strategy@,
                }
            },
        }
    }
}

/// A sentence with a name in it.
pub open spec fn about(before: Seq<char>, name: Seq<char>, after: Seq<char>) -> Seq<char> {
    before + text::debug_text(name) + after
}

fn sentence(before: &str, name: &str, after: &str) -> (result: String)
    ensures
        result@ == about(before@, name@, after@),
{
    text::cat3(before, &text::debug(name), after)
}

/// The message of an error.
pub open spec fn message_of(error: StoreErrorView) -> Seq<char> {
    match error {
        StoreErrorView::InvalidModelOverride(why) => "invalid model override: "@ + why,
        StoreErrorView::NotConfigured => "provider configuration directory has not been set"@,
        StoreErrorView::UnknownProfile(name) => about(
            "provider profile "@,
            name,
            " was not found"@,
        ),
        StoreErrorView::NotBuiltin(name) => about(
            "provider profile "@,
            name,
            " is not a built-in preset"@,
        ),
        StoreErrorView::ProfileChanged(name) => about(
            "provider profile "@,
            name,
            " changed while its model directory was being synced"@,
        ),
        StoreErrorView::UnknownModel { profile_name, model } => about(
            about("model "@, model, " was not found on provider profile "@),
            profile_name,
            ""@,
        ),
        StoreErrorView::UntrackedModel { provider_id, model } => about(
            about("model "@, model, " is not tracked for provider "@),
            provider_id,
            ""@,
        ),
        StoreErrorView::NoDirectory(name) => about(
            "provider profile "@,
            name,
            " does not publish a supported model directory"@,
        ),
        StoreErrorView::StaticCredential(name) => about(
            "provider profile "@,
            name,
            " contains a static credential that cannot be saved"@,
        ),
        StoreErrorView::CredentialHeader(name) => about(
            "provider profile "@,
            name,
            " has a credential-bearing header in extra.headers"@,
        ),
        StoreErrorView::DuplicateProfile(name) => about(
            "provider profile "@,
            name,
            " is duplicated in the saved configuration"@,
        ),
        StoreErrorView::UnsupportedVersion(version) => {
            "unsupported provider configuration version "@ + text::decimal_text(version as nat)
        },
        StoreErrorView::InvalidPagination => {
            "model directory pagination exceeded "@ + text::decimal_text(MAX_PAGES as nat)
                + " pages or repeated a cursor"@
        },
        StoreErrorView::Worker(why) => "provider configuration worker failed: "@ + why,
        StoreErrorView::Json(why) => "provider configuration JSON is invalid: "@ + why,
        StoreErrorView::MissingAuthenticator { profile_name, strategy } => about(
            about("no authenticator is registered for "@, strategy, " on profile "@),
            profile_name,
            ""@,
        ),
    }
}

impl ProviderStoreError {
    pub fn message(&self) -> (message: String)
        ensures
            message@ == message_of(self.deep_view()),
    {
        match self {
            ProviderStoreError::InvalidModelOverride(why) => text::cat2(
                "invalid model override: ",
                why,
            ),
            ProviderStoreError::NotConfigured => {
                "provider configuration directory has not been set".to_owned()
            },
            ProviderStoreError::UnknownProfile(name) => sentence(
                "provider profile ",
                name,
                " was not found",
            ),
            ProviderStoreError::NotBuiltin(name) => sentence(
                "provider profile ",
                name,
                " is not a built-in preset",
            ),
            ProviderStoreError::ProfileChanged(name) => sentence(
                "provider profile ",
                name,
                " changed while its model directory was being synced",
            ),
            ProviderStoreError::UnknownModel { profile_name, model } => sentence(
                &sentence("model ", model, " was not found on provider profile "),
                profile_name,
                "",
            ),
            ProviderStoreError::UntrackedModel { provider_id, model } => sentence(
                &sentence("model ", model, " is not tracked for provider "),
                provider_id,
                "",
            ),
            ProviderStoreError::NoDirectory(name) => sentence(
                "provider profile ",
                name,
                " does not publish a supported model directory",
            ),
            ProviderStoreError::StaticCredential(name) => sentence(
                "provider profile ",
                name,
                " contains a static credential that cannot be saved",
            ),
            ProviderStoreError::CredentialHeader(name) => sentence(
                "provider profile ",
                name,
                " has a credential-bearing header in extra.headers",
            ),
            ProviderStoreError::DuplicateProfile(name) => sentence(
                "provider profile ",
                name,
                " is duplicated in the saved configuration",
            ),
            ProviderStoreError::UnsupportedVersion(version) => text::cat2(
                "unsupported provider configuration version ",
                &text::decimal(*version as u64),
            ),
            ProviderStoreError::InvalidPagination => text::cat3(
                "model directory pagination exceeded ",
                &text::decimal(MAX_PAGES as u64),
                " pages or repeated a cursor",
            ),
            ProviderStoreError::Worker(why) => text::cat2(
                "provider configuration worker failed: ",
                why,
            ),
            ProviderStoreError::Json(why) => text::cat2(
                "provider configuration JSON is invalid: ",
                why,
            ),
            ProviderStoreError::MissingAuthenticator { profile_name, strategy } => sentence(
                &sentence("no authenticator is registered for ", strategy, " on profile "),
                profile_name,
                "",
            ),
        }
    }
}

} // verus!
