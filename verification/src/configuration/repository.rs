//! What a saved configuration must satisfy.

use crate::codecs::extras;
use crate::configuration::error::{ProviderStoreError, StoreErrorView};
use crate::configuration::model::{self, ConfigView, ModelRow, RowView, SavedConfig, SavedView};
use crate::json::{self, Entries, Json, JsonView};
use crate::protocol::{ProviderProfile, ProviderView};
use crate::text;
use vstd::prelude::*;

verus! {

broadcast use {crate::views::group_views, crate::json::group_json};

/// The version that a file names; none is the first.
pub open spec fn version_in(file: JsonView) -> u64 {
    match json::u64_at(file, "version"@) {
        Some(version) => version,
        None => 0,
    }
}

/// Refuses a file of another version.
pub fn check_version(file: &Json) -> (result: Result<(), ProviderStoreError>)
    ensures
        match result {
            Ok(_) => version_in(file@) == model::CONFIG_VERSION,
            Err(error) => version_in(file@) != model::CONFIG_VERSION && error.deep_view()
                == StoreErrorView::UnsupportedVersion(version_in(file@) as u32),
        },
{
    let version: u64 = match file.u64_at("version") {
        Some(version) => version,
        None => 0,
    };
    if version == model::CONFIG_VERSION as u64 {
        Ok(())
    } else {
        Err(ProviderStoreError::UnsupportedVersion(#[verifier::truncate] (version as u32)))
    }
}

/// Refuses a file that is no JSON, or that is of another version.
pub fn check_file(bytes: &[u8]) -> (result: Result<(), ProviderStoreError>)
    ensures
        match json::parsed(bytes@) {
            Err(why) => result matches Err(error) && error.deep_view() == StoreErrorView::Json(why),
            Ok(file) => match result {
                Ok(_) => version_in(file) == model::CONFIG_VERSION,
                Err(error) => version_in(file) != model::CONFIG_VERSION && error.deep_view()
                    == StoreErrorView::UnsupportedVersion(version_in(file) as u32),
            },
        },
{
    match json::parse(bytes) {
        Ok(file) => check_version(&file),
        Err(why) => Err(ProviderStoreError::Json(why)),
    }
}

/// Whether a header from the `i`th on carries a credential.
pub open spec fn names_a_credential(headers: Entries, i: int) -> bool
    decreases headers.len() - i,
{
    if i < 0 || i >= headers.len() {
        false
    } else {
        extras::reserved_header(text::lower(headers[i].0)) || names_a_credential(headers, i + 1)
    }
}

/// The headers that a profile adds.
pub open spec fn headers_of(profile: ProviderView) -> Entries {
    match json::member(profile.extra, "headers"@) {
        Some(JsonView::Object(headers)) => headers,
        _ => Seq::empty(),
    }
}

/// The secret that a profile would put on disk, if any.
pub open spec fn secret_in(profile: ProviderView) -> Option<StoreErrorView> {
    if profile.static_credential {
        Some(StoreErrorView::StaticCredential(profile.profile_name))
    } else if names_a_credential(headers_of(profile), 0) {
        Some(StoreErrorView::CredentialHeader(profile.profile_name))
    } else {
        None
    }
}

fn has_credential(headers: &Vec<(String, Json)>) -> (result: bool)
    ensures
        result == names_a_credential(headers.deep_view(), 0),
{
    let mut i: usize = 0;
    while i < headers.len()
        invariant
            i <= headers.len(),
            names_a_credential(headers.deep_view(), 0) == names_a_credential(
                headers.deep_view(),
                i as int,
            ),
        decreases headers.len() - i,
    {
        assert(headers.deep_view()[i as int] == headers@[i as int].deep_view());
        if extras::is_reserved_header(&text::to_lower(&headers[i].0)) {
            return true;
        }
        i = i + 1;
    }
    false
}

/// Refuses a profile that would put a credential on disk.
pub fn reject_secrets(profile: &ProviderProfile) -> (result: Result<(), ProviderStoreError>)
    ensures
        match secret_in(profile.deep_view()) {
            None => result is Ok,
            Some(error) => result matches Err(found) && found.deep_view() == error,
        },
{
    if profile.static_credential {
        return Err(ProviderStoreError::StaticCredential(profile.profile_name.clone()));
    }
    let found = match profile.extra.get("headers") {
        Some(Json::Object(headers)) => has_credential(headers),
        _ => false,
    };
    if found {
        Err(ProviderStoreError::CredentialHeader(profile.profile_name.clone()))
    } else {
        Ok(())
    }
}

/// Whether an account before the `i`th has its name.
pub open spec fn named_before(providers: Seq<SavedView>, i: int) -> bool {
    exists|k: int|
        0 <= k < i && (#[trigger] providers[k]).connection.profile_name
            == providers[i].connection.profile_name
}

/// Whether a row before the `i`th has its id.
pub open spec fn id_before(rows: Seq<RowView>, i: int) -> bool {
    exists|k: int| 0 <= k < i && (#[trigger] rows[k]).id == rows[i].id
}

/// Whether an id occurs twice.
pub open spec fn ids_repeat(rows: Seq<RowView>) -> bool {
    exists|i: int| 0 <= i < rows.len() && #[trigger] id_before(rows, i)
}

pub open spec fn repeated_id() -> StoreErrorView {
    StoreErrorView::InvalidModelOverride("duplicate model row id"@)
}

/// What is wrong with an account, if anything.
pub open spec fn fault_of(providers: Seq<SavedView>, i: int) -> Option<StoreErrorView> {
    let saved = providers[i];
    if named_before(providers, i) {
        Some(StoreErrorView::DuplicateProfile(saved.connection.profile_name))
    } else if secret_in(saved.connection) is Some {
        secret_in(saved.connection)
    } else if secret_in(saved.fallback) is Some {
        secret_in(saved.fallback)
    } else if ids_repeat(saved.models) {
        Some(repeated_id())
    } else {
        None
    }
}

/// The first fault from the `i`th account on.
pub open spec fn first_fault(providers: Seq<SavedView>, i: int) -> Option<StoreErrorView>
    decreases providers.len() - i,
{
    if i < 0 || i >= providers.len() {
        None
    } else {
        match fault_of(providers, i) {
            Some(error) => Some(error),
            None => first_fault(providers, i + 1),
        }
    }
}

fn is_named_before(config: &SavedConfig, i: usize) -> (result: bool)
    requires
        i < config.providers.len(),
    ensures
        result == named_before(config.deep_view().providers, i as int),
{
    let mut k: usize = 0;
    assert(config.deep_view().providers[i as int] == config.providers@[i as int].deep_view());
    while k < i
        invariant
            k <= i < config.providers.len(),
            config.deep_view().providers[i as int] == config.providers@[i as int].deep_view(),
            forall|n: int|
                0 <= n < k ==> (#[trigger] config.deep_view().providers[n]).connection.profile_name
                    != config.deep_view().providers[i as int].connection.profile_name,
        decreases i - k,
    {
        assert(config.deep_view().providers[k as int] == config.providers@[k as int].deep_view());
        if text::same(
            &config.providers[k].connection.profile_name,
            &config.providers[i].connection.profile_name,
        ) {
            return true;
        }
        k = k + 1;
    }
    false
}

fn is_id_before(rows: &Vec<ModelRow>, i: usize) -> (result: bool)
    requires
        i < rows.len(),
    ensures
        result == id_before(rows.deep_view(), i as int),
{
    let mut k: usize = 0;
    assert(rows.deep_view()[i as int] == rows@[i as int].deep_view());
    while k < i
        invariant
            k <= i < rows.len(),
            rows.deep_view()[i as int] == rows@[i as int].deep_view(),
            forall|n: int|
                0 <= n < k ==> (#[trigger] rows.deep_view()[n]).id != rows.deep_view()[i as int].id,
        decreases i - k,
    {
        assert(rows.deep_view()[k as int] == rows@[k as int].deep_view());
        if text::same(&rows[k].id, &rows[i].id) {
            return true;
        }
        k = k + 1;
    }
    false
}

fn has_repeated_ids(rows: &Vec<ModelRow>) -> (result: bool)
    ensures
        result == ids_repeat(rows.deep_view()),
{
    let mut i: usize = 0;
    while i < rows.len()
        invariant
            i <= rows.len(),
            forall|n: int| 0 <= n < i ==> !#[trigger] id_before(rows.deep_view(), n),
        decreases rows.len() - i,
    {
        if is_id_before(rows, i) {
            assert(rows.deep_view().len() == rows@.len());
            return true;
        }
        i = i + 1;
    }
    assert(rows.deep_view().len() == rows@.len());
    false
}

/// Refuses a configuration that cannot be saved: one with two accounts of a name,
/// a secret, or two rows of an id.
pub fn validate(config: &SavedConfig) -> (result: Result<(), ProviderStoreError>)
    ensures
        match first_fault(config.deep_view().providers, 0) {
            None => result is Ok,
            Some(error) => result matches Err(found) && found.deep_view() == error,
        },
{
    let mut i: usize = 0;
    while i < config.providers.len()
        invariant
            i <= config.providers.len(),
            first_fault(config.deep_view().providers, 0) == first_fault(
                config.deep_view().providers,
                i as int,
            ),
        decreases config.providers.len() - i,
    {
        let saved = &config.providers[i];
        assert(config.deep_view().providers[i as int] == saved.deep_view());
        if is_named_before(config, i) {
            return Err(
                ProviderStoreError::DuplicateProfile(saved.connection.profile_name.clone()),
            );
        }
        reject_secrets(&saved.connection)?;
        reject_secrets(&saved.fallback)?;
        if has_repeated_ids(&saved.models) {
            return Err(
                ProviderStoreError::InvalidModelOverride("duplicate model row id".to_owned()),
            );
        }
        i = i + 1;
    }
    Ok(())
}

} // verus!
