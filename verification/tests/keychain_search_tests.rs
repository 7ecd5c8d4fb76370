use supuraisu::catalog::{index_local_audio_files, SamplePackRecord, SampleRecord};
use supuraisu::keychain::{delete_refresh_token, refresh_token_entry, store_refresh_token};
use supuraisu::keychain::{
    delete_outcome, keychain_error_text, nonempty_token, store_outcome, token_from_read, KeychainError,
    AUTH_KEYCHAIN_ACCOUNT, AUTH_KEYCHAIN_SERVICE,
};
use supuraisu::search::{
    collection_samples_request, liked_packs_request, search_samples_request, summarize_search_response,
    PurchasedTypes, SampleSearchResponse,
};

#[test]
fn keychain_names() {
    assert_eq!(AUTH_KEYCHAIN_SERVICE, "Supuraisu Auth");
    assert_eq!(AUTH_KEYCHAIN_ACCOUNT, "splice-refresh-token-v1");
}

#[test]
fn stored_tokens_must_be_non_empty() {
    assert_eq!(nonempty_token(Some("r".to_string())), Some("r".to_string()));
    assert_eq!(nonempty_token(Some(String::new())), None);
    assert_eq!(nonempty_token(None), None);
    assert_eq!(token_from_read(Ok("tok".to_string())), Some("tok".to_string()));
    assert_eq!(token_from_read(Ok(String::new())), None);
    assert_eq!(token_from_read(Err(KeychainError::NoEntry("none".to_string()))), None);
    assert_eq!(token_from_read(Err(KeychainError::Failed("locked".to_string()))), None);
}

#[test]
fn store_and_delete_outcomes() {
    assert_eq!(store_outcome(Ok(())), Ok(()));
    assert_eq!(
        store_outcome(Err(KeychainError::Failed("denied".to_string()))),
        Err("Could not store refresh token: denied".to_string())
    );
    assert_eq!(
        store_outcome(Err(KeychainError::NoEntry("none".to_string()))),
        Err("Could not store refresh token: none".to_string())
    );
    assert_eq!(delete_outcome(Ok(())), Ok(()));
    assert_eq!(delete_outcome(Err(KeychainError::NoEntry("none".to_string()))), Ok(()));
    assert_eq!(
        delete_outcome(Err(KeychainError::Failed("denied".to_string()))),
        Err("Could not delete refresh token: denied".to_string())
    );
    assert_eq!(keychain_error_text(&KeychainError::Failed("x".to_string())), "x");
}

#[test]
fn search_request_defaults() {
    let r = search_samples_request(
        " kick.WAV ", None, None, None, None, None, None, None, None, None, None, None, None, None,
    );
    assert_eq!(r.search_term, "kick");
    assert_eq!(r.purchased, PurchasedTypes::All);
    assert!(!r.liked && r.matching_tags_and_packs);
    assert_eq!((r.page, r.per_page), (1, 12));
    assert_eq!((r.bpm_min, r.bpm_max), (0, 0));
    assert!(r.tags.is_empty());
    assert_eq!(r.collection_uuid, "");
    assert_eq!(r.pack_uuid, "");
}

#[test]
fn search_request_bounds_and_values() {
    let r = search_samples_request(
        "snare",
        Some(true),
        Some(-3),
        Some(500),
        Some("pack-1".to_string()),
        Some(true),
        Some("house".to_string()),
        Some("drums".to_string()),
        Some("C".to_string()),
        Some("loop".to_string()),
        Some(90),
        Some(130),
        Some("popularity".to_string()),
        Some(vec!["dark".to_string()]),
    );
    assert_eq!(r.purchased, PurchasedTypes::OnlyPurchased);
    assert_eq!((r.page, r.per_page), (1, 50));
    assert!(r.liked);
    assert_eq!(r.pack_uuid, "pack-1");
    assert_eq!((r.genre.as_str(), r.instrument.as_str(), r.key.as_str(), r.sample_type.as_str()), ("house", "drums", "C", "loop"));
    assert_eq!((r.bpm_min, r.bpm_max), (90, 130));
    assert_eq!(r.sort_fn, "popularity");
    assert_eq!(r.tags, vec!["dark".to_string()]);
    let r = search_samples_request("", Some(false), Some(4), Some(0), None, None, None, None, None, None, None, None, None, None);
    assert_eq!(r.purchased, PurchasedTypes::All);
    assert_eq!((r.page, r.per_page), (4, 1));
}

#[test]
fn collection_request_defaults_and_bounds() {
    let r = collection_samples_request("col-1".to_string(), None, None, None, None, None, None, None);
    assert_eq!(r.collection_uuid, "col-1");
    assert_eq!((r.page, r.per_page), (1, 50));
    assert_eq!(r.search_term, "");
    assert_eq!(r.purchased, PurchasedTypes::All);
    assert!(!r.liked);
    let r = collection_samples_request("c".to_string(), Some(2), Some(1000), Some("oneshot".to_string()), Some(1), Some(2), None, None);
    assert_eq!((r.page, r.per_page), (2, 100));
    assert_eq!(r.sample_type, "oneshot");
}

#[test]
fn liked_request() {
    let r = liked_packs_request(3, 100);
    assert!(r.liked);
    assert_eq!(r.purchased, PurchasedTypes::OnlyPurchased);
    assert_eq!(r.sort_fn, "recency");
    assert_eq!((r.page, r.per_page), (3, 100));
}

fn sample(filename: &str, pack_uuid: &str) -> SampleRecord {
    SampleRecord {
        file_hash: format!("h-{filename}"),
        filename: filename.to_string(),
        local_path: String::new(),
        bpm: 0,
        audio_key: String::new(),
        sample_type: String::new(),
        genre: String::new(),
        provider_name: String::new(),
        price: 0,
        purchased_at: 0,
        tags: Vec::new(),
        preview_url: String::new(),
        waveform_url: String::new(),
        duration: 0,
        pack_uuid: pack_uuid.to_string(),
    }
}

fn pack(uuid: &str, name: &str) -> SamplePackRecord {
    SamplePackRecord {
        uuid: uuid.to_string(),
        name: name.to_string(),
        cover_url: String::new(),
        genre: String::new(),
        provider_name: String::new(),
        permalink: String::new(),
    }
}

#[test]
fn search_response_summaries() {
    let response = SampleSearchResponse {
        total_hits: 2,
        samples: vec![sample("a.wav", "p1"), sample("b.wav", "p2")],
        matching_tags: vec![("drums".to_string(), 4)],
        matching_packs: vec![pack("p1", "One"), pack("p1", "One again")],
    };
    let files = index_local_audio_files(&vec![("b.wav".to_string(), "/s/b.wav".to_string())]);
    let r = summarize_search_response(response, Some(&files));
    assert_eq!(r.total_hits, 2);
    assert_eq!(r.matching_tags, vec![("drums".to_string(), 4)]);
    assert_eq!(r.samples.len(), 2);
    assert_eq!(r.samples[0].pack_name, "One again");
    assert_eq!(r.samples[1].pack_name, "");
    assert_eq!(r.samples[1].local_path, "/s/b.wav");
}

#[test]
fn refresh_token_entry_names_the_service_and_account() {
    let entry = refresh_token_entry().ok().expect("entry");
    assert_eq!(entry.service(), "Supuraisu Auth");
    assert_eq!(entry.account(), "splice-refresh-token-v1");
    let written = store_refresh_token("rt-1").ok().expect("stored");
    assert_eq!((written.service(), written.account()), ("Supuraisu Auth", "splice-refresh-token-v1"));
    assert!(delete_refresh_token().is_ok());
}
