use supuraisu::catalog::{
    index_local_audio_files, normalize_search_query, summarize_helper_pack, summarize_sample,
    summarize_sample_with_context, LocalFileIndex, PackIndex, SamplePackRecord, SampleRecord,
};

fn sample(filename: &str, local_path: &str, pack_uuid: &str) -> SampleRecord {
    SampleRecord {
        file_hash: "hash-1".to_string(),
        filename: filename.to_string(),
        local_path: local_path.to_string(),
        bpm: 120,
        audio_key: "C#".to_string(),
        sample_type: "oneshot".to_string(),
        genre: "house".to_string(),
        provider_name: "Provider".to_string(),
        price: 1,
        purchased_at: 0,
        tags: vec!["drums".to_string(), "kick".to_string()],
        preview_url: "https://spliceblob.splice.com/p.mp3".to_string(),
        waveform_url: "https://spliceblob.splice.com/w.json".to_string(),
        duration: 1500,
        pack_uuid: pack_uuid.to_string(),
    }
}

fn pack(uuid: &str, name: &str) -> SamplePackRecord {
    SamplePackRecord {
        uuid: uuid.to_string(),
        name: name.to_string(),
        cover_url: format!("https://img/{uuid}.jpg"),
        genre: "techno".to_string(),
        provider_name: "Label".to_string(),
        permalink: format!("packs/{uuid}"),
    }
}

#[test]
fn normalize_strips_whitespace_and_audio_extensions() {
    assert_eq!(normalize_search_query("  kick.wav  "), "kick");
    assert_eq!(normalize_search_query("Snare.AIFF"), "Snare");
    assert_eq!(normalize_search_query("hat.aif"), "hat");
    assert_eq!(normalize_search_query("loop.Mp3"), "loop");
    assert_eq!(normalize_search_query("bass"), "bass");
    assert_eq!(normalize_search_query("   "), "");
}

#[test]
fn normalize_strips_only_one_extension() {
    assert_eq!(normalize_search_query("a.wav.mp3"), "a.wav");
    assert_eq!(normalize_search_query(".wav"), "");
    assert_eq!(normalize_search_query("wav"), "wav");
}

#[test]
fn local_index_groups_paths_by_name_in_order() {
    let found = vec![
        ("kick.wav".to_string(), "/s/PackA/kick.wav".to_string()),
        ("snare.wav".to_string(), "/s/PackA/snare.wav".to_string()),
        ("kick.wav".to_string(), "/s/PackB/kick.wav".to_string()),
    ];
    let index = index_local_audio_files(&found);
    assert_eq!(
        index.get("kick.wav").cloned(),
        Some(vec!["/s/PackA/kick.wav".to_string(), "/s/PackB/kick.wav".to_string()])
    );
    assert_eq!(index.get("snare.wav").cloned(), Some(vec!["/s/PackA/snare.wav".to_string()]));
    assert!(index.get("clap.wav").is_none());
}

#[test]
fn local_index_read_gives_back_what_was_added() {
    let mut index = LocalFileIndex::new();
    assert!(index.get("x.wav").is_none());
    index.add("x.wav".to_string(), "/a/x.wav".to_string());
    index.add("y.wav".to_string(), "/a/y.wav".to_string());
    index.add("x.wav".to_string(), "/b/x.wav".to_string());
    assert_eq!(index.get("x.wav").cloned(), Some(vec!["/a/x.wav".to_string(), "/b/x.wav".to_string()]));
    assert_eq!(index.get("y.wav").cloned(), Some(vec!["/a/y.wav".to_string()]));
}

#[test]
fn pack_index_later_pack_replaces_earlier() {
    let index = PackIndex::from_packs(vec![pack("u1", "First"), pack("u2", "Other"), pack("u1", "Second")]);
    assert_eq!(index.get("u1").map(|p| p.name.clone()), Some("Second".to_string()));
    assert_eq!(index.get("u2").map(|p| p.name.clone()), Some("Other".to_string()));
    assert!(index.get("u3").is_none());
}

#[test]
fn summary_copies_fields_without_context() {
    let out = summarize_sample(sample("kick.wav", "/local/kick.wav", "u1"));
    assert_eq!(out.file_hash, "hash-1");
    assert_eq!(out.filename, "kick.wav");
    assert_eq!(out.local_path, "/local/kick.wav");
    assert_eq!(out.bpm, 120);
    assert_eq!(out.key, "C#");
    assert_eq!(out.sample_type, "oneshot");
    assert_eq!(out.price, 1);
    assert!(!out.purchased);
    assert_eq!(out.tags, vec!["drums".to_string(), "kick".to_string()]);
    assert_eq!(out.duration, 1500);
    assert_eq!(out.pack_uuid, "u1");
    assert_eq!(out.pack_name, "");
    assert_eq!(out.pack_cover_url, "");
}

#[test]
fn summary_marks_purchased_samples() {
    let mut s = sample("kick.wav", "", "u1");
    s.purchased_at = 1700000000;
    assert!(summarize_sample(s).purchased);
}

#[test]
fn summary_uses_single_local_file_by_name() {
    let index = index_local_audio_files(&vec![("kick.wav".to_string(), "/s/PackA/kick.wav".to_string())]);
    let out = summarize_sample_with_context(sample("kick.wav", "", "u1"), Some(&index), None);
    assert_eq!(out.local_path, "/s/PackA/kick.wav");
}

#[test]
fn summary_picks_the_file_in_the_pack_folder() {
    let index = index_local_audio_files(&vec![
        ("kick.wav".to_string(), "/s/Deep House Kit/kick.wav".to_string()),
        ("kick.wav".to_string(), "/s/Trap Drums/kick.wav".to_string()),
    ]);
    let packs = PackIndex::from_packs(vec![pack("u1", "TRAP drums")]);
    let out = summarize_sample_with_context(sample("kick.wav", "", "u1"), Some(&index), Some(&packs));
    assert_eq!(out.local_path, "/s/Trap Drums/kick.wav");
    assert_eq!(out.pack_name, "TRAP drums");
    assert_eq!(out.pack_cover_url, "https://img/u1.jpg");
}

#[test]
fn summary_leaves_ambiguous_files_unmatched() {
    let index = index_local_audio_files(&vec![
        ("kick.wav".to_string(), "/s/Drums A/kick.wav".to_string()),
        ("kick.wav".to_string(), "/s/Drums B/kick.wav".to_string()),
    ]);
    let packs = PackIndex::from_packs(vec![pack("u1", "Drums")]);
    let out = summarize_sample_with_context(sample("kick.wav", "", "u1"), Some(&index), Some(&packs));
    assert_eq!(out.local_path, "");
    let out = summarize_sample_with_context(sample("kick.wav", "", "u9"), Some(&index), Some(&packs));
    assert_eq!(out.local_path, "");
    assert_eq!(out.pack_name, "");
}

#[test]
fn summary_keeps_helper_local_path() {
    let index = index_local_audio_files(&vec![("kick.wav".to_string(), "/other/kick.wav".to_string())]);
    let out = summarize_sample_with_context(sample("kick.wav", "/helper/kick.wav", "u1"), Some(&index), None);
    assert_eq!(out.local_path, "/helper/kick.wav");
}

#[test]
fn helper_pack_summary_has_no_banner_demo_or_count() {
    let out = summarize_helper_pack(pack("u7", "Seven"));
    assert_eq!(out.uuid, "u7");
    assert_eq!(out.name, "Seven");
    assert_eq!(out.cover_url, "https://img/u7.jpg");
    assert_eq!(out.banner_url, "");
    assert_eq!(out.demo_url, "");
    assert_eq!(out.genre, "techno");
    assert_eq!(out.provider_name, "Label");
    assert_eq!(out.permalink, "packs/u7");
    assert_eq!(out.sample_count, None);
}
