use sumrzr::file_names::{is_model_file, partial_download_name};
use sumrzr::local_models::{list_models, model_display_name, DirEntryFacts};

#[test]
fn model_files_have_the_gguf_extension() {
    assert!(is_model_file("x.gguf"));
    assert!(is_model_file("google_gemma-3n-E2B-it-Q4_K_M.gguf"));
    assert!(is_model_file("..gguf"));
    assert!(!is_model_file(".gguf"));
    assert!(!is_model_file("gguf"));
    assert!(!is_model_file("x.GGUF"));
    assert!(!is_model_file("x.gguf.part"));
    assert!(!is_model_file(""));
}

#[test]
fn display_name_strips_suffix_and_spaces_separators() {
    assert_eq!(
        model_display_name("mistralai_Ministral-3-3B-Instruct-2512-Q4_K_M.gguf"),
        "mistralai Ministral 3 3B Instruct 2512 Q4 K M"
    );
    assert_eq!(model_display_name("a.gguf.gguf"), "a");
    assert_eq!(model_display_name("modèll-ä_b.gguf"), "modèll ä b");
    assert_eq!(model_display_name("plain"), "plain");
    assert_eq!(model_display_name(".gguf"), "");
    assert_eq!(model_display_name("x.gguf.part"), "x.gguf.part");
}

#[test]
fn display_names_never_hold_separators_or_the_suffix() {
    for n in ["a-b_c.gguf", "--__.gguf.gguf", "x_.gguf", "q-.gguf"] {
        let d = model_display_name(n);
        assert!(!d.contains('-') && !d.contains('_'));
        assert!(!d.ends_with(".gguf"));
        assert!(d.chars().count() <= n.chars().count());
    }
}

fn facts(name: &str, size: Option<u64>) -> DirEntryFacts {
    DirEntryFacts { file_name: name.to_string(), path: format!("/m/{}", name), size_bytes: size }
}

#[test]
fn list_models_keeps_readable_gguf_files_in_order() {
    let entries = vec![
        facts("b-model.gguf", Some(10)),
        facts("notes.txt", Some(3)),
        facts("a_model.gguf", Some(20)),
        facts("broken.gguf", None),
        facts("c.gguf.part", Some(5)),
    ];
    let models = list_models(&entries);
    assert_eq!(models.len(), 2);
    assert_eq!(models[0].name, "b model");
    assert_eq!(models[0].filename, "b-model.gguf");
    assert_eq!(models[0].path, "/m/b-model.gguf");
    assert_eq!(models[0].size_bytes, 10);
    assert_eq!(models[1].name, "a model");
    assert_eq!(models[1].size_bytes, 20);
    assert!(list_models(&Vec::new()).is_empty());
}

#[test]
fn partial_name_replaces_the_extension() {
    assert_eq!(partial_download_name("x.gguf"), "x.gguf.part");
    assert_eq!(
        partial_download_name("google_gemma-3n-E2B-it-Q4_K_M.gguf"),
        "google_gemma-3n-E2B-it-Q4_K_M.gguf.part"
    );
    assert_eq!(partial_download_name("noext"), "noext.gguf.part");
    assert_eq!(partial_download_name(".bashrc"), ".bashrc.gguf.part");
    assert_eq!(partial_download_name("a.b.c"), "a.b.gguf.part");
    assert_eq!(partial_download_name(".."), "...gguf.part");
    assert_eq!(partial_download_name("..x"), "..gguf.part");
}

#[test]
fn partial_name_of_a_model_file_appends_part() {
    for n in ["a.gguf", "..gguf", "m-1.2.gguf"] {
        assert_eq!(partial_download_name(n), format!("{}.part", n));
    }
}

#[test]
fn partial_files_are_never_listed_as_models() {
    for n in ["a.gguf", "x", ".gguf", "a.gguf.gguf", "q.part"] {
        let p = partial_download_name(n);
        assert!(!is_model_file(&p));
        let listed = list_models(&vec![facts(&p, Some(1))]);
        assert!(listed.is_empty());
    }
}
