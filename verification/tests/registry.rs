use sumrzr::model_download::{
    default_model_entry, find_model, get_default_model_path, legacy_filename, list_models_with_status, local_path,
    model_registry, model_status, FileProbe, ProbedModel,
};

#[test]
fn registry_lists_three_models_in_order() {
    let r = model_registry();
    let ids: Vec<&str> = r.iter().map(|e| e.id.as_str()).collect();
    assert_eq!(ids, vec!["ministral-3b-q4", "gemma-3n-e2b", "ministral-3b"]);
    assert_eq!(r[0].name, "Ministral 3B Q4");
    assert_eq!(r[0].filename, "mistralai_Ministral-3-3B-Instruct-2512-Q4_K_M.gguf");
    assert_eq!(r[0].size_bytes, 2_100_000_000);
    assert_eq!(r[1].size_bytes, 1_850_000_000);
    assert_eq!(r[2].size_bytes, 3_651_679_744);
    assert_eq!(r[2].description, "Ministral 3B – Q8_0 (~3.4 GB) – kräver 5+ GB ledigt RAM");
    assert_eq!(
        r[1].chat_template,
        "<start_of_turn>user\n{message}\n<end_of_turn>\n<start_of_turn>model\n"
    );
    assert_eq!(r[0].chat_template, "<s>[INST] {message} [/INST]");
}

#[test]
fn registry_ids_are_distinct() {
    let r = model_registry();
    for i in 0..r.len() {
        for j in (i + 1)..r.len() {
            assert_ne!(r[i].id, r[j].id);
        }
    }
}

#[test]
fn registry_has_exactly_one_default_gemma() {
    let r = model_registry();
    let defaults: Vec<usize> = (0..r.len()).filter(|&i| r[i].is_default).collect();
    assert_eq!(defaults, vec![1]);
    let d: Vec<_> = model_registry().into_iter().filter(|e| e.is_default).collect();
    assert_eq!(d.len(), 1);
    assert_eq!(d[0].id, "gemma-3n-e2b");
    assert_eq!(d[0].name, "Gemma 3n E2B");
    assert!(d[0].filename.ends_with("Q4_K_M.gguf"));
}

#[test]
fn registry_files_urls_and_templates_agree() {
    for e in model_registry() {
        assert!(e.filename.ends_with(".gguf") && e.filename.len() > 5);
        assert!(e.url.ends_with(&format!("/{}", e.filename)));
        assert!(e.chat_template.contains("{message}"));
    }
}

#[test]
fn find_model_returns_the_entry_with_the_id() {
    let e = find_model("gemma-3n-e2b").unwrap();
    assert_eq!(e.id, "gemma-3n-e2b");
    assert_eq!(e.filename, "google_gemma-3n-E2B-it-Q4_K_M.gguf");
    let e = find_model("ministral-3b").unwrap();
    assert_eq!(e.name, "Ministral 3B Q8");
}

#[test]
fn find_model_rejects_unknown_ids() {
    assert_eq!(find_model("llama-70b").unwrap_err(), "Okänd modell: llama-70b");
    assert_eq!(find_model("").unwrap_err(), "Okänd modell: ");
    assert_eq!(find_model("ministral-3b-q").unwrap_err(), "Okänd modell: ministral-3b-q");
}

#[test]
fn default_model_is_gemma() {
    let e = default_model_entry().unwrap();
    assert_eq!(e.id, "gemma-3n-e2b");
    assert!(e.is_default);
}

#[test]
fn legacy_filename_writes_e2b_with_underscore() {
    assert_eq!(
        legacy_filename("google_gemma-3n-E2B-it-Q4_K_M.gguf"),
        "google_gemma-3n_E2B-it-Q4_K_M.gguf"
    );
    assert_eq!(
        legacy_filename("Ministral-3-3B-Instruct-2512-Q8_0.gguf"),
        "Ministral-3-3B-Instruct-2512-Q8_0.gguf"
    );
    assert_eq!(legacy_filename("a-E2B-E2B"), "a_E2B_E2B");
    assert_eq!(legacy_filename("--E2B"), "-_E2B");
    assert_eq!(legacy_filename("-E2"), "-E2");
    assert_eq!(legacy_filename(""), "");
}

fn probe(path: &str, exists: bool) -> FileProbe {
    FileProbe { path: path.to_string(), exists }
}

#[test]
fn local_path_prefers_the_current_name() {
    assert_eq!(local_path(&probe("/m/a", true), &probe("/m/b", true)), Some("/m/a".to_string()));
    assert_eq!(local_path(&probe("/m/a", false), &probe("/m/b", true)), Some("/m/b".to_string()));
    assert_eq!(local_path(&probe("/m/a", false), &probe("/m/b", false)), None);
}

#[test]
fn status_is_downloaded_exactly_when_a_file_exists() {
    let e = find_model("gemma-3n-e2b").unwrap();
    for (p, l) in [(true, true), (true, false), (false, true), (false, false)] {
        let s = model_status(&e, &probe("/m/new", p), &probe("/m/old", l));
        assert_eq!(s.downloaded, p || l);
        assert_eq!(s.downloaded, s.local_path.is_some());
        assert_eq!(s.entry.id, "gemma-3n-e2b");
    }
    let s = model_status(&e, &probe("/m/new", false), &probe("/m/old", true));
    assert_eq!(s.local_path.as_deref(), Some("/m/old"));
}

#[test]
fn statuses_follow_the_probed_entries() {
    let models: Vec<ProbedModel> = model_registry()
        .into_iter()
        .enumerate()
        .map(|(i, entry)| ProbedModel {
            primary: probe(&format!("/m/{}", entry.filename), i == 0),
            legacy: probe(&format!("/m/{}", legacy_filename(&entry.filename)), i == 1),
            entry,
        })
        .collect();
    let s = list_models_with_status(&models);
    assert_eq!(s.len(), 3);
    assert_eq!(
        s[0].local_path.as_deref(),
        Some("/m/mistralai_Ministral-3-3B-Instruct-2512-Q4_K_M.gguf")
    );
    assert_eq!(s[1].local_path.as_deref(), Some("/m/google_gemma-3n_E2B-it-Q4_K_M.gguf"));
    assert!(s[1].downloaded);
    assert!(!s[2].downloaded);
    assert_eq!(s[2].local_path, None);
    assert_eq!(list_models_with_status(&Vec::new()).len(), 0);
}

fn probed(exists: [(bool, bool); 3]) -> Vec<ProbedModel> {
    model_registry()
        .into_iter()
        .zip(exists)
        .map(|(entry, (p, l))| ProbedModel {
            primary: probe(&format!("/m/{}", entry.filename), p),
            legacy: probe(&format!("/m/{}", legacy_filename(&entry.filename)), l),
            entry,
        })
        .collect()
}

#[test]
fn default_model_path_is_the_default_status_path() {
    for exists in [
        [(true, true), (true, true), (true, true)],
        [(true, false), (false, true), (false, false)],
        [(false, false), (false, false), (true, false)],
        [(false, false), (true, true), (false, false)],
    ] {
        let models = probed(exists);
        let expected = list_models_with_status(&models)
            .into_iter()
            .find(|s| s.entry.is_default)
            .and_then(|s| s.local_path);
        assert_eq!(get_default_model_path(&models), expected);
    }
    assert_eq!(
        get_default_model_path(&probed([(false, false), (false, true), (false, false)])),
        Some("/m/google_gemma-3n_E2B-it-Q4_K_M.gguf".to_string())
    );
    assert_eq!(get_default_model_path(&probed([(true, true), (false, false), (true, true)])), None);
    assert_eq!(get_default_model_path(&Vec::new()), None);
}
