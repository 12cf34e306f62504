use std::convert::TryFrom;

use tinyhumans_sdk::{ApiKeyScope, CreatableApiKeyScope, Error};

const CREATABLE: [CreatableApiKeyScope; 8] = [
    CreatableApiKeyScope::Inference,
    CreatableApiKeyScope::Voice,
    CreatableApiKeyScope::Search,
    CreatableApiKeyScope::Media,
    CreatableApiKeyScope::Storage,
    CreatableApiKeyScope::Meetings,
    CreatableApiKeyScope::Account,
    CreatableApiKeyScope::Companies,
];

#[test]
fn every_creatable_scope_widens_to_its_namesake() {
    assert_eq!(ApiKeyScope::from(CreatableApiKeyScope::Inference), ApiKeyScope::Inference);
    assert_eq!(ApiKeyScope::from(CreatableApiKeyScope::Voice), ApiKeyScope::Voice);
    assert_eq!(ApiKeyScope::from(CreatableApiKeyScope::Search), ApiKeyScope::Search);
    assert_eq!(ApiKeyScope::from(CreatableApiKeyScope::Media), ApiKeyScope::Media);
    assert_eq!(ApiKeyScope::from(CreatableApiKeyScope::Storage), ApiKeyScope::Storage);
    assert_eq!(ApiKeyScope::from(CreatableApiKeyScope::Meetings), ApiKeyScope::Meetings);
    assert_eq!(ApiKeyScope::from(CreatableApiKeyScope::Account), ApiKeyScope::Account);
    assert_eq!(ApiKeyScope::from(CreatableApiKeyScope::Companies), ApiKeyScope::Companies);
}

#[test]
fn narrowing_a_widened_scope_gives_it_back() {
    for scope in CREATABLE {
        let wide = ApiKeyScope::from(scope);
        assert_eq!(CreatableApiKeyScope::try_from(wide).unwrap(), scope);
    }
}

#[test]
fn connections_is_not_creatable() {
    let err = CreatableApiKeyScope::try_from(ApiKeyScope::Connections).unwrap_err();
    assert!(matches!(err, Error::ScopeNotCreatable(ApiKeyScope::Connections)));
}

#[test]
fn narrowing_keeps_every_other_scope() {
    assert_eq!(
        CreatableApiKeyScope::try_from(ApiKeyScope::Storage).unwrap(),
        CreatableApiKeyScope::Storage
    );
    assert_eq!(
        CreatableApiKeyScope::try_from(ApiKeyScope::Companies).unwrap(),
        CreatableApiKeyScope::Companies
    );
}
