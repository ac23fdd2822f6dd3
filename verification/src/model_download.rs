//! The catalogue of models that can be downloaded, and what is on disk of
//! each of them.
use vstd::prelude::*;
use vstd::string::*;
use crate::file_names::{is_model_file_name, model_suffix};
use crate::text::{
    contains_text, decimal, ends_with, lemma_replace_absent, lemma_replace_marks_occurrences, lemma_replace_keeps_length, occurs_at,
    replace_all, replace_text,
};

verus! {

/// A model that can be downloaded from Hugging Face.
#[derive(Debug, Clone)]
pub struct ModelEntry {
    pub id: String,
    pub name: String,
    pub filename: String,
    pub url: String,
    pub size_bytes: u64,
    pub description: String,
    pub is_default: bool,
    /// Prompt template for this model. Use `{message}` as the placeholder.
    pub chat_template: String,
}

/// A catalogue entry with its texts as character sequences.
pub struct ModelEntryView {
    pub id: Seq<char>,
    pub name: Seq<char>,
    pub filename: Seq<char>,
    pub url: Seq<char>,
    pub size_bytes: u64,
    pub description: Seq<char>,
    pub is_default: bool,
    pub chat_template: Seq<char>,
}

impl View for ModelEntry {
    type V = ModelEntryView;

    open spec fn view(&self) -> ModelEntryView {
        ModelEntryView {
            id: self.id@,
            name: self.name@,
            filename: self.filename@,
            url: self.url@,
            size_bytes: self.size_bytes,
            description: self.description@,
            is_default: self.is_default,
            chat_template: self.chat_template@,
        }
    }
}

impl ModelEntry {
    /// A copy of the entry.
    pub fn duplicate(&self) -> (r: ModelEntry)
        ensures
            r@ == self@,
    {
        ModelEntry {
            id: self.id.clone(),
            name: self.name.clone(),
            filename: self.filename.clone(),
            url: self.url.clone(),
            size_bytes: self.size_bytes,
            description: self.description.clone(),
            is_default: self.is_default,
            chat_template: self.chat_template.clone(),
        }
    }
}

/// The catalogue, in the order in which it is offered.
pub open spec fn registry_spec() -> Seq<ModelEntryView> {
    seq![
        ModelEntryView {
            id: "ministral-3b-q4"@,
            name: "Ministral 3B Q4"@,
            filename: "mistralai_Ministral-3-3B-Instruct-2512-Q4_K_M.gguf"@,
            url: "https://huggingface.co/bartowski/mistralai_Ministral-3-3B-Instruct-2512-GGUF/resolve/main/mistralai_Ministral-3-3B-Instruct-2512-Q4_K_M.gguf"@,
            size_bytes: 2_100_000_000u64,
            description: "Ministral 3B – Q4_K_M (~2.0 GB) – rekommenderas"@,
            is_default: false,
            chat_template: "<s>[INST] {message} [/INST]"@,
        },
        ModelEntryView {
            id: "gemma-3n-e2b"@,
            name: "Gemma 3n E2B"@,
            filename: "google_gemma-3n-E2B-it-Q4_K_M.gguf"@,
            url: "https://huggingface.co/bartowski/google_gemma-3n-E2B-it-GGUF/resolve/main/google_gemma-3n-E2B-it-Q4_K_M.gguf"@,
            size_bytes: 1_850_000_000u64,
            description: "Google Gemma 3n – 2B params, Q4 (~1.7 GB)"@,
            is_default: true,
            chat_template: "<start_of_turn>user\n{message}\n<end_of_turn>\n<start_of_turn>model\n"@,
        },
        ModelEntryView {
            id: "ministral-3b"@,
            name: "Ministral 3B Q8"@,
            filename: "Ministral-3-3B-Instruct-2512-Q8_0.gguf"@,
            url: "https://huggingface.co/ggml-org/Ministral-3-3B-Instruct-2512-GGUF/resolve/main/Ministral-3-3B-Instruct-2512-Q8_0.gguf"@,
            size_bytes: 3_651_679_744u64,
            description: "Ministral 3B – Q8_0 (~3.4 GB) – kräver 5+ GB ledigt RAM"@,
            is_default: false,
            chat_template: "<s>[INST] {message} [/INST]"@,
        },
    ]
}

/// The views of a vector of entries.
pub open spec fn entry_views(v: Seq<ModelEntry>) -> Seq<ModelEntryView> {
    v.map_values(|e: ModelEntry| e@)
}

fn make_entry(
    id: &str,
    name: &str,
    filename: &str,
    url: &str,
    size_bytes: u64,
    description: &str,
    is_default: bool,
    chat_template: &str,
) -> (r: ModelEntry)
    ensures
        r@ == (ModelEntryView {
            id: id@,
            name: name@,
            filename: filename@,
            url: url@,
            size_bytes,
            description: description@,
            is_default,
            chat_template: chat_template@,
        }),
{
    ModelEntry {
        id: id.to_owned(),
        name: name.to_owned(),
        filename: filename.to_owned(),
        url: url.to_owned(),
        size_bytes,
        description: description.to_owned(),
        is_default,
        chat_template: chat_template.to_owned(),
    }
}

/// The predefined models available for download.
pub fn model_registry() -> (r: Vec<ModelEntry>)
    ensures
        entry_views(r@) == registry_spec(),
{
    let mut r: Vec<ModelEntry> = Vec::new();
    // Ministral 3B Q4_K_M works on machines with 4 GB+ RAM; the Q8_0 build
    // (last) needs about 5 GB of free RAM. Gemma 3n E2B is the model fetched
    // at first start.
    r.push(
        make_entry(
            "ministral-3b-q4",
            "Ministral 3B Q4",
            "mistralai_Ministral-3-3B-Instruct-2512-Q4_K_M.gguf",
            "https://huggingface.co/bartowski/mistralai_Ministral-3-3B-Instruct-2512-GGUF/resolve/main/mistralai_Ministral-3-3B-Instruct-2512-Q4_K_M.gguf",
            2_100_000_000,
            "Ministral 3B – Q4_K_M (~2.0 GB) – rekommenderas",
            false,
            "<s>[INST] {message} [/INST]",
        ),
    );
    r.push(
        make_entry(
            "gemma-3n-e2b",
            "Gemma 3n E2B",
            "google_gemma-3n-E2B-it-Q4_K_M.gguf",
            "https://huggingface.co/bartowski/google_gemma-3n-E2B-it-GGUF/resolve/main/google_gemma-3n-E2B-it-Q4_K_M.gguf",
            1_850_000_000,
            "Google Gemma 3n – 2B params, Q4 (~1.7 GB)",
            true,
            "<start_of_turn>user\n{message}\n<end_of_turn>\n<start_of_turn>model\n",
        ),
    );
    r.push(
        make_entry(
            "ministral-3b",
            "Ministral 3B Q8",
            "Ministral-3-3B-Instruct-2512-Q8_0.gguf",
            "https://huggingface.co/ggml-org/Ministral-3-3B-Instruct-2512-GGUF/resolve/main/Ministral-3-3B-Instruct-2512-Q8_0.gguf",
            3_651_679_744,
            "Ministral 3B – Q8_0 (~3.4 GB) – kräver 5+ GB ledigt RAM",
            false,
            "<s>[INST] {message} [/INST]",
        ),
    );
    assert(entry_views(r@) =~= registry_spec());
    r
}


/// No two catalogue entries share an id, so an id names one model.
pub proof fn lemma_registry_ids_distinct()
    ensures
        forall|i: int, j: int|
            0 <= i < j < registry_spec().len() ==> registry_spec()[i].id != registry_spec()[j].id,
{
    reveal_strlit("ministral-3b-q4");
    reveal_strlit("gemma-3n-e2b");
    reveal_strlit("ministral-3b");
    let r = registry_spec();
    assert(r[0].id.len() != r[1].id.len());
    assert(r[0].id.len() != r[2].id.len());
    assert(r[1].id[0] != r[2].id[0]);
}

/// Exactly one catalogue entry is the default: Gemma 3n E2B (Q4_K_M), the
/// model fetched at first start.
pub proof fn lemma_registry_single_default()
    ensures
        registry_spec()[1].is_default,
        registry_spec()[1].id == "gemma-3n-e2b"@,
        forall|i: int|
            0 <= i < registry_spec().len() && i != 1 ==> !(#[trigger] registry_spec()[i]).is_default,
{
}

/// Every catalogue file is a model file, so a finished download is found
/// again when the models directory is listed.
pub proof fn lemma_registry_files_are_models()
    ensures
        forall|i: int| 0 <= i < registry_spec().len() ==> is_model_file_name(
            #[trigger] registry_spec()[i].filename,
        ),
{
    reveal_strlit("mistralai_Ministral-3-3B-Instruct-2512-Q4_K_M.gguf");
    reveal_strlit("google_gemma-3n-E2B-it-Q4_K_M.gguf");
    reveal_strlit("Ministral-3-3B-Instruct-2512-Q8_0.gguf");
    let r = registry_spec();
    assert forall|i: int| 0 <= i < r.len() implies is_model_file_name(#[trigger] r[i].filename) by {
        let f = r[i].filename;
        assert(f.subrange(f.len() - 5, f.len() as int) =~= model_suffix());
    }
}

/// Every chat template holds the `{message}` placeholder.
pub proof fn lemma_registry_templates_have_placeholder()
    ensures
        forall|i: int| 0 <= i < registry_spec().len() ==> contains_text(
            #[trigger] registry_spec()[i].chat_template,
            seq!['{', 'm', 'e', 's', 's', 'a', 'g', 'e', '}'],
        ),
{
    reveal_strlit("<s>[INST] {message} [/INST]");
    reveal_strlit("<start_of_turn>user\n{message}\n<end_of_turn>\n<start_of_turn>model\n");
    let r = registry_spec();
    let p = seq!['{', 'm', 'e', 's', 's', 'a', 'g', 'e', '}'];
    assert(r[0].chat_template.subrange(10, 19) =~= p);
    assert(occurs_at(r[0].chat_template, p, 10));
    assert(r[1].chat_template.subrange(20, 29) =~= p);
    assert(occurs_at(r[1].chat_template, p, 20));
    assert(occurs_at(r[2].chat_template, p, 10));
}

/// Every download URL ends with `/` and the entry's file name.
pub proof fn lemma_registry_urls_name_files()
    ensures
        forall|i: int| 0 <= i < registry_spec().len() ==> ends_with(
            #[trigger] registry_spec()[i].url,
            seq!['/'] + registry_spec()[i].filename,
        ),
{
    reveal_strlit("mistralai_Ministral-3-3B-Instruct-2512-Q4_K_M.gguf");
    reveal_strlit("google_gemma-3n-E2B-it-Q4_K_M.gguf");
    reveal_strlit("Ministral-3-3B-Instruct-2512-Q8_0.gguf");
    reveal_strlit("https://huggingface.co/bartowski/mistralai_Ministral-3-3B-Instruct-2512-GGUF/resolve/main/mistralai_Ministral-3-3B-Instruct-2512-Q4_K_M.gguf");
    reveal_strlit("https://huggingface.co/bartowski/google_gemma-3n-E2B-it-GGUF/resolve/main/google_gemma-3n-E2B-it-Q4_K_M.gguf");
    reveal_strlit("https://huggingface.co/ggml-org/Ministral-3-3B-Instruct-2512-GGUF/resolve/main/Ministral-3-3B-Instruct-2512-Q8_0.gguf");
    let r = registry_spec();
    assert forall|i: int| 0 <= i < r.len() implies ends_with(
        #[trigger] r[i].url,
        seq!['/'] + r[i].filename,
    ) by {
        let u = r[i].url;
        let f = seq!['/'] + r[i].filename;
        assert(u.subrange(u.len() - f.len(), u.len() as int) =~= f);
    }
}


/// The first entry of `s` that is marked as the default.
pub open spec fn first_default(s: Seq<ModelEntryView>) -> Option<ModelEntryView>
    decreases s.len(),
{
    if s.len() == 0 {
        None
    } else if s[0].is_default {
        Some(s[0])
    } else {
        first_default(s.drop_first())
    }
}

/// Whether some catalogue entry has the id `id`.
pub open spec fn registry_has_id(id: Seq<char>) -> bool {
    exists|i: int| 0 <= i < registry_spec().len() && #[trigger] registry_spec()[i].id == id
}

/// The error for an id that names no catalogue entry: `Okänd modell: <id>`.
pub open spec fn unknown_model_message(id: Seq<char>) -> Seq<char> {
    "Okänd modell: "@ + id
}

/// The catalogue entry with the id `model_id`, or the error that names the
/// unknown id.
pub fn find_model(model_id: &str) -> (r: Result<ModelEntry, String>)
    ensures
        match r {
            Ok(e) => registry_spec().contains(e@) && e@.id == model_id@,
            Err(m) => !registry_has_id(model_id@) && m@ == unknown_model_message(model_id@),
        },
{
    let mut registry = model_registry();
    let wanted = model_id.to_owned();
    let n = registry.len();
    let mut i: usize = 0;
    while i < n
        invariant
            n == registry@.len(),
            entry_views(registry@) == registry_spec(),
            wanted@ == model_id@,
            i <= n,
            forall|j: int| 0 <= j < i ==> registry_spec()[j].id != model_id@,
        decreases n - i,
    {
        assert(entry_views(registry@)[i as int] == registry@[i as int]@);
        if registry[i].id == wanted {
            let e = registry.remove(i);
            return Ok(e);
        }
        i = i + 1;
    }
    let mut m = "Okänd modell: ".to_owned();
    m.append(model_id);
    Err(m)
}

/// The default model of the catalogue, if one is marked as such.
pub fn default_model_entry() -> (r: Option<ModelEntry>)
    ensures
        match r {
            Some(e) => first_default(registry_spec()) == Some(e@),
            None => first_default(registry_spec()) is None,
        },
{
    let mut registry = model_registry();
    let n = registry.len();
    let mut i: usize = 0;
    assert(registry_spec().subrange(0, n as int) =~= registry_spec());
    while i < n
        invariant
            n == registry@.len(),
            entry_views(registry@) == registry_spec(),
            i <= n,
            first_default(registry_spec()) == first_default(
                registry_spec().subrange(i as int, n as int),
            ),
        decreases n - i,
    {
        assert(entry_views(registry@)[i as int] == registry@[i as int]@);
        assert(registry_spec().subrange(i as int, n as int).drop_first() =~= registry_spec().subrange(
            i + 1,
            n as int,
        ));
        if registry[i].is_default {
            return Some(registry.remove(i));
        }
        i = i + 1;
    }
    None
}

/// The name under which an older build of the app stored the model file:
/// `-E2B` written as `_E2B`.
pub open spec fn legacy_filename_spec(filename: Seq<char>) -> Seq<char> {
    replace_all(filename, "-E2B"@, "_E2B"@)
}

/// The legacy file name of a catalogue file name.
pub fn legacy_filename(filename: &str) -> (r: String)
    ensures
        r@ == legacy_filename_spec(filename@),
{
    proof {
        reveal_strlit("-E2B");
    }
    replace_text(filename, "-E2B", "_E2B")
}

/// Whether a file was found on disk, and under which path.
#[derive(Debug)]
pub struct FileProbe {
    pub path: String,
    pub exists: bool,
}

/// A probe with its path as a character sequence.
pub struct FileProbeView {
    pub path: Seq<char>,
    pub exists: bool,
}

impl View for FileProbe {
    type V = FileProbeView;

    open spec fn view(&self) -> FileProbeView {
        FileProbeView { path: self.path@, exists: self.exists }
    }
}

/// A catalogue entry and what was found on disk under its file name and
/// under its legacy file name.
#[derive(Debug)]
pub struct ProbedModel {
    pub entry: ModelEntry,
    pub primary: FileProbe,
    pub legacy: FileProbe,
}

/// A catalogue entry with its download status.
#[derive(Debug, Clone)]
pub struct ModelStatus {
    pub entry: ModelEntry,
    pub downloaded: bool,
    pub local_path: Option<String>,
}

/// A status with its texts as character sequences.
pub struct ModelStatusView {
    pub entry: ModelEntryView,
    pub downloaded: bool,
    pub local_path: Option<Seq<char>>,
}

impl View for ModelStatus {
    type V = ModelStatusView;

    open spec fn view(&self) -> ModelStatusView {
        ModelStatusView {
            entry: self.entry@,
            downloaded: self.downloaded,
            local_path: match &self.local_path {
                Some(p) => Some(p@),
                None => None,
            },
        }
    }
}

/// The local copy of a model: the file under its own name if it exists,
/// else the file under its legacy name if that exists.
pub open spec fn local_path_spec(primary: FileProbeView, legacy: FileProbeView) -> Option<Seq<char>> {
    if primary.exists {
        Some(primary.path)
    } else if legacy.exists {
        Some(legacy.path)
    } else {
        None
    }
}

/// The status of an entry given what was found on disk.
pub open spec fn status_spec(
    entry: ModelEntryView,
    primary: FileProbeView,
    legacy: FileProbeView,
) -> ModelStatusView {
    ModelStatusView {
        entry,
        downloaded: primary.exists || legacy.exists,
        local_path: local_path_spec(primary, legacy),
    }
}

/// The path of the local copy of a model, if there is one.
pub fn local_path(primary: &FileProbe, legacy: &FileProbe) -> (r: Option<String>)
    ensures
        match r {
            Some(p) => local_path_spec(primary@, legacy@) == Some(p@),
            None => local_path_spec(primary@, legacy@) is None,
        },
{
    if primary.exists {
        Some(primary.path.clone())
    } else if legacy.exists {
        Some(legacy.path.clone())
    } else {
        None
    }
}

/// The download status of one catalogue entry.
pub fn model_status(entry: &ModelEntry, primary: &FileProbe, legacy: &FileProbe) -> (r: ModelStatus)
    ensures
        r@ == status_spec(entry@, primary@, legacy@),
{
    ModelStatus {
        entry: entry.duplicate(),
        downloaded: primary.exists || legacy.exists,
        local_path: local_path(primary, legacy),
    }
}

/// The download status of each probed entry, in the same order.
pub fn list_models_with_status(models: &Vec<ProbedModel>) -> (r: Vec<ModelStatus>)
    ensures
        r@.len() == models@.len(),
        forall|i: int|
            0 <= i < r@.len() ==> #[trigger] r@[i]@ == status_spec(
                models@[i].entry@,
                models@[i].primary@,
                models@[i].legacy@,
            ),
{
    let mut r: Vec<ModelStatus> = Vec::new();
    let n = models.len();
    let mut i: usize = 0;
    while i < n
        invariant
            n == models@.len(),
            i <= n,
            r@.len() == i,
            forall|j: int|
                0 <= j < i ==> #[trigger] r@[j]@ == status_spec(
                    models@[j].entry@,
                    models@[j].primary@,
                    models@[j].legacy@,
                ),
        decreases n - i,
    {
        let m = &models[i];
        r.push(model_status(&m.entry, &m.primary, &m.legacy));
        i = i + 1;
    }
    r
}

/// A model counts as downloaded exactly when it has a local path.
pub proof fn lemma_downloaded_iff_local_path(
    entry: ModelEntryView,
    primary: FileProbeView,
    legacy: FileProbeView,
)
    ensures
        status_spec(entry, primary, legacy).downloaded <==> status_spec(
            entry,
            primary,
            legacy,
        ).local_path is Some,
{
}


/// The default model is Gemma 3n E2B, the only entry marked as default.
pub proof fn lemma_default_is_gemma()
    ensures
        first_default(registry_spec()) == Some(registry_spec()[1]),
        registry_spec()[1].id == "gemma-3n-e2b"@,
{
    let r = registry_spec();
    assert(r.drop_first()[0] == r[1]);
    assert(first_default(r) == first_default(r.drop_first()));
}

/// A file name without `-E2B` is its own legacy name, and a legacy name is
/// always as long as the name it comes from.
pub proof fn lemma_legacy_filename(filename: Seq<char>)
    ensures
        !contains_text(filename, "-E2B"@) ==> legacy_filename_spec(filename) == filename,
        legacy_filename_spec(filename).len() == filename.len(),
{
    reveal_strlit("-E2B");
    reveal_strlit("_E2B");
    if !contains_text(filename, "-E2B"@) {
        lemma_replace_absent(filename, "-E2B"@, "_E2B"@);
    }
    lemma_replace_keeps_length(filename, "-E2B"@, "_E2B"@);
}



/// The local copy of the first probed model that is the default, if any.
pub open spec fn default_path_spec(models: Seq<ProbedModel>) -> Option<Seq<char>>
    decreases models.len(),
{
    if models.len() == 0 {
        None
    } else if models[0].entry.is_default {
        local_path_spec(models[0].primary@, models[0].legacy@)
    } else {
        default_path_spec(models.drop_first())
    }
}

/// The first status whose entry is the default.
pub open spec fn first_default_status(statuses: Seq<ModelStatusView>) -> Option<ModelStatusView>
    decreases statuses.len(),
{
    if statuses.len() == 0 {
        None
    } else if statuses[0].entry.is_default {
        Some(statuses[0])
    } else {
        first_default_status(statuses.drop_first())
    }
}

/// The local copy of the default model among the probed models.
pub fn get_default_model_path(models: &Vec<ProbedModel>) -> (r: Option<String>)
    ensures
        match r {
            Some(p) => default_path_spec(models@) == Some(p@),
            None => default_path_spec(models@) is None,
        },
{
    let n = models.len();
    let mut i: usize = 0;
    assert(models@.subrange(0, n as int) =~= models@);
    while i < n
        invariant
            n == models@.len(),
            i <= n,
            default_path_spec(models@) == default_path_spec(models@.subrange(i as int, n as int)),
        decreases n - i,
    {
        assert(models@.subrange(i as int, n as int).drop_first() =~= models@.subrange(
            i + 1,
            n as int,
        ));
        let m = &models[i];
        if m.entry.is_default {
            return local_path(&m.primary, &m.legacy);
        }
        i = i + 1;
    }
    None
}

/// The default model's path is the local path in the default model's
/// status: `get_default_model_path` agrees with the first default entry of
/// `list_models_with_status` on the same probes.
pub proof fn lemma_default_path_matches_status(
    models: Seq<ProbedModel>,
    statuses: Seq<ModelStatusView>,
)
    requires
        statuses.len() == models.len(),
        forall|i: int|
            0 <= i < statuses.len() ==> #[trigger] statuses[i] == status_spec(
                models[i].entry@,
                models[i].primary@,
                models[i].legacy@,
            ),
    ensures
        default_path_spec(models) == match first_default_status(statuses) {
            Some(s) => s.local_path,
            None => None,
        },
    decreases models.len(),
{
    if models.len() > 0 {
        assert(statuses[0] == status_spec(models[0].entry@, models[0].primary@, models[0].legacy@));
        if !models[0].entry.is_default {
            let ms = models.drop_first();
            let ss = statuses.drop_first();
            assert forall|i: int| 0 <= i < ss.len() implies #[trigger] ss[i] == status_spec(
                ms[i].entry@,
                ms[i].primary@,
                ms[i].legacy@,
            ) by {
                assert(ss[i] == statuses[i + 1]);
                assert(ms[i] == models[i + 1]);
            }
            lemma_default_path_matches_status(ms, ss);
        }
    }
}


/// Each catalogue model, looked up by its id, has exactly these details;
/// and every entry carries one of these ids.
pub proof fn lemma_catalogue_details_by_id()
    ensures
        forall|i: int|
            0 <= i < registry_spec().len() ==> {
                let e = #[trigger] registry_spec()[i];
                &&& e.id == "ministral-3b-q4"@ || e.id == "gemma-3n-e2b"@ || e.id == "ministral-3b"@
                &&& e.id == "ministral-3b-q4"@ ==> {
                    &&& e.name == "Ministral 3B Q4"@
                    &&& e.filename == "mistralai_Ministral-3-3B-Instruct-2512-Q4_K_M.gguf"@
                    &&& e.url == "https://huggingface.co/bartowski/mistralai_Ministral-3-3B-Instruct-2512-GGUF/resolve/main/mistralai_Ministral-3-3B-Instruct-2512-Q4_K_M.gguf"@
                    &&& e.size_bytes == 2_100_000_000
                    &&& e.description == "Ministral 3B – Q4_K_M (~2.0 GB) – rekommenderas"@
                    &&& !e.is_default
                    &&& e.chat_template == "<s>[INST] {message} [/INST]"@
                }
                &&& e.id == "gemma-3n-e2b"@ ==> {
                    &&& e.name == "Gemma 3n E2B"@
                    &&& e.filename == "google_gemma-3n-E2B-it-Q4_K_M.gguf"@
                    &&& e.url == "https://huggingface.co/bartowski/google_gemma-3n-E2B-it-GGUF/resolve/main/google_gemma-3n-E2B-it-Q4_K_M.gguf"@
                    &&& e.size_bytes == 1_850_000_000
                    &&& e.description == "Google Gemma 3n – 2B params, Q4 (~1.7 GB)"@
                    &&& e.is_default
                    &&& e.chat_template == "<start_of_turn>user\n{message}\n<end_of_turn>\n<start_of_turn>model\n"@
                }
                &&& e.id == "ministral-3b"@ ==> {
                    &&& e.name == "Ministral 3B Q8"@
                    &&& e.filename == "Ministral-3-3B-Instruct-2512-Q8_0.gguf"@
                    &&& e.url == "https://huggingface.co/ggml-org/Ministral-3-3B-Instruct-2512-GGUF/resolve/main/Ministral-3-3B-Instruct-2512-Q8_0.gguf"@
                    &&& e.size_bytes == 3_651_679_744
                    &&& e.description == "Ministral 3B – Q8_0 (~3.4 GB) – kräver 5+ GB ledigt RAM"@
                    &&& !e.is_default
                    &&& e.chat_template == "<s>[INST] {message} [/INST]"@
                }
            },
{
    lemma_registry_ids_distinct();
}

/// The size hint `~X.Y GB` of a download size in bytes: the size in GiB,
/// rounded to tenths.
pub open spec fn size_hint(size_bytes: u64) -> Seq<char> {
    let tenths = (size_bytes * 10 + 536_870_912) / 1_073_741_824;
    seq!['~'] + decimal((tenths / 10) as nat) + seq!['.'] + decimal((tenths % 10) as nat) + seq![
        ' ',
        'G',
        'B',
    ]
}

/// Every catalogue description gives the entry's own download size as a
/// `~X.Y GB` hint.
pub proof fn lemma_descriptions_give_own_size()
    ensures
        forall|i: int|
            0 <= i < registry_spec().len() ==> contains_text(
                (#[trigger] registry_spec()[i]).description,
                size_hint(registry_spec()[i].size_bytes),
            ),
{
    reveal_strlit("Ministral 3B – Q4_K_M (~2.0 GB) – rekommenderas");
    reveal_strlit("Google Gemma 3n – 2B params, Q4 (~1.7 GB)");
    reveal_strlit("Ministral 3B – Q8_0 (~3.4 GB) – kräver 5+ GB ledigt RAM");
    let r = registry_spec();
    assert((2_100_000_000u64 * 10 + 536_870_912) / 1_073_741_824 == 20) by (nonlinear_arith);
    assert((1_850_000_000u64 * 10 + 536_870_912) / 1_073_741_824 == 17) by (nonlinear_arith);
    assert((3_651_679_744u64 * 10 + 536_870_912) / 1_073_741_824 == 34) by (nonlinear_arith);
    let h0 = size_hint(r[0].size_bytes);
    assert(h0 =~= seq!['~', '2', '.', '0', ' ', 'G', 'B']);
    assert(r[0].description.subrange(23, 30) =~= h0);
    assert(occurs_at(r[0].description, h0, 23));
    let h1 = size_hint(r[1].size_bytes);
    assert(h1 =~= seq!['~', '1', '.', '7', ' ', 'G', 'B']);
    assert(r[1].description.subrange(33, 40) =~= h1);
    assert(occurs_at(r[1].description, h1, 33));
    let h2 = size_hint(r[2].size_bytes);
    assert(h2 =~= seq!['~', '3', '.', '4', ' ', 'G', 'B']);
    assert(r[2].description.subrange(21, 28) =~= h2);
    assert(occurs_at(r[2].description, h2, 21));
}


/// The legacy name of a file name is the same name with the dash that opens
/// each `-E2B` written as an underscore, every other character kept.
pub proof fn lemma_legacy_filename_marks(filename: Seq<char>)
    ensures
        legacy_filename_spec(filename).len() == filename.len(),
        forall|i: int|
            0 <= i < filename.len() ==> #[trigger] legacy_filename_spec(filename)[i] == if occurs_at(
                filename,
                seq!['-', 'E', '2', 'B'],
                i,
            ) {
                '_'
            } else {
                filename[i]
            },
{
    reveal_strlit("-E2B");
    reveal_strlit("_E2B");
    assert("-E2B"@ =~= seq!['-', 'E', '2', 'B']);
    assert("_E2B"@ =~= seq!['_', 'E', '2', 'B']);
    lemma_replace_marks_occurrences(filename, "-E2B"@, "_E2B"@);
}

/// An unknown id is reported as `Okänd modell: <id>`, and `find_model`
/// fails exactly on ids that name no catalogue entry.
pub proof fn lemma_unknown_model_message(id: Seq<char>)
    ensures
        unknown_model_message(id) == "Okänd modell: "@ + id,
        registry_has_id(id) <==> (id == "ministral-3b-q4"@ || id == "gemma-3n-e2b"@ || id
            == "ministral-3b"@),
{
    let r = registry_spec();
    if id == "ministral-3b-q4"@ {
        assert(r[0].id == id);
    }
    if id == "gemma-3n-e2b"@ {
        assert(r[1].id == id);
    }
    if id == "ministral-3b"@ {
        assert(r[2].id == id);
    }
}


/// A model's local copy is the file under its own name when that exists,
/// else the file under its legacy name when that exists, else none; its
/// status keeps the entry and counts it as downloaded exactly when one of
/// the two files exists.
pub proof fn lemma_local_copy_choice(
    entry: ModelEntryView,
    primary: FileProbeView,
    legacy: FileProbeView,
)
    ensures
        primary.exists ==> local_path_spec(primary, legacy) == Some(primary.path),
        !primary.exists && legacy.exists ==> local_path_spec(primary, legacy) == Some(legacy.path),
        !primary.exists && !legacy.exists ==> local_path_spec(primary, legacy) is None,
        status_spec(entry, primary, legacy).entry == entry,
        status_spec(entry, primary, legacy).local_path == local_path_spec(primary, legacy),
        status_spec(entry, primary, legacy).downloaded == (primary.exists || legacy.exists),
{
}


/// The catalogue offers three models, in this order: Ministral 3B Q4,
/// Gemma 3n E2B, Ministral 3B Q8.
pub proof fn lemma_catalogue_order()
    ensures
        registry_spec().len() == 3,
        registry_spec()[0].id == "ministral-3b-q4"@,
        registry_spec()[1].id == "gemma-3n-e2b"@,
        registry_spec()[2].id == "ministral-3b"@,
{
}

} // verus!
