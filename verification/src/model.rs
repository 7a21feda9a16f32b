//! The catalog of speech models the app knows, lookups in it, and the
//! per-model listing shown in the model picker.

use vstd::prelude::*;

use crate::error::{join_str, TranscribeError};
use crate::text::str_eq;

verus! {

/// The model selected when nothing else has been chosen.
pub const DEFAULT_MODEL_ID: &'static str = "small.en";

/// One downloadable model. The `id` is what the frontend sends.
#[derive(Debug, Clone, Copy, PartialEq, Eq)]
pub struct ModelInfo {
    pub id: &'static str,
    pub label: &'static str,
    pub file: &'static str,
    pub url: &'static str,
    pub size_mb: u64,
}

/// Every model the app knows, in display order.
pub open spec fn catalog() -> Seq<ModelInfo> {
    seq![
        ModelInfo {
            id: "base.en",
            label: "Base (74M)",
            file: "ggml-base.en.bin",
            url: "https://huggingface.co/ggerganov/whisper.cpp/resolve/main/ggml-base.en.bin",
            size_mb: 142,
        },
        ModelInfo {
            id: "small.en",
            label: "Small (244M)",
            file: "ggml-small.en.bin",
            url: "https://huggingface.co/ggerganov/whisper.cpp/resolve/main/ggml-small.en.bin",
            size_mb: 466,
        },
    ]
}

/// Index of the first catalog entry whose id is `id`, searching from `start`.
pub open spec fn index_from(id: Seq<char>, start: int) -> Option<int>
    decreases catalog().len() - start,
{
    if start < 0 || start >= catalog().len() {
        None
    } else if catalog()[start].id@ == id {
        Some(start)
    } else {
        index_from(id, start + 1)
    }
}

/// Index of the first catalog entry whose id is `id`.
pub open spec fn model_index(id: Seq<char>) -> Option<int> {
    index_from(id, 0)
}

/// The text of the error for an id the catalog lacks.
pub open spec fn unknown_model_message(id: Seq<char>) -> Seq<char> {
    "unknown model id: "@ + id
}

/// Every model the app knows, in display order.
pub fn models() -> (r: Vec<ModelInfo>)
    ensures
        r@ == catalog(),
{
    let v = vec![
        ModelInfo {
            id: "base.en",
            label: "Base (74M)",
            file: "ggml-base.en.bin",
            url: "https://huggingface.co/ggerganov/whisper.cpp/resolve/main/ggml-base.en.bin",
            size_mb: 142,
        },
        ModelInfo {
            id: "small.en",
            label: "Small (244M)",
            file: "ggml-small.en.bin",
            url: "https://huggingface.co/ggerganov/whisper.cpp/resolve/main/ggml-small.en.bin",
            size_mb: 466,
        },
    ];
    assert(v@ =~= catalog());
    v
}

/// Looks a model up by id.
pub fn find_model(id: &str) -> (r: Result<ModelInfo, TranscribeError>)
    ensures
        match model_index(id@) {
            Some(i) => r == Ok::<ModelInfo, TranscribeError>(catalog()[i]),
            None => r matches Err(TranscribeError::Other(m)) && m@ == unknown_model_message(id@),
        },
{
    let all = models();
    let mut i: usize = 0;
    while i < all.len()
        invariant
            all@ == catalog(),
            i <= all.len(),
            model_index(id@) == index_from(id@, i as int),
        decreases all.len() - i,
    {
        if str_eq(all[i].id, id) {
            return Ok(all[i]);
        }
        i = i + 1;
    }
    Err(TranscribeError::Other(join_str("unknown model id: ", id)))
}

} // verus!

verus! {

/// One row of the model picker.
#[derive(Debug, Clone, Copy, PartialEq, Eq)]
pub struct ModelEntry {
    pub id: &'static str,
    pub label: &'static str,
    pub size_mb: u64,
    pub present: bool,
    pub active: bool,
}

/// The picker row for catalog entry `m`, given whether its file is on disk
/// and which model id is active.
pub open spec fn entry_for(m: ModelInfo, present: bool, active: Seq<char>) -> ModelEntry {
    ModelEntry { id: m.id, label: m.label, size_mb: m.size_mb, present, active: m.id@ == active }
}

/// The picker rows, one per catalog entry in catalog order; `present[i]`
/// says whether the file of the `i`-th model is on disk.
pub fn model_entries(active: &str, present: &Vec<bool>) -> (r: Vec<ModelEntry>)
    requires
        present.len() == catalog().len(),
    ensures
        r.len() == catalog().len(),
        forall|i: int|
            0 <= i < catalog().len() ==> #[trigger] r@[i] == entry_for(catalog()[i], present@[i], active@),
{
    let all = models();
    let mut out: Vec<ModelEntry> = Vec::new();
    let mut i: usize = 0;
    while i < all.len()
        invariant
            all@ == catalog(),
            present.len() == catalog().len(),
            i <= all.len(),
            out.len() == i,
            forall|j: int|
                0 <= j < i ==> #[trigger] out@[j] == entry_for(catalog()[j], present@[j], active@),
        decreases all.len() - i,
    {
        let m = all[i];
        let is_active = str_eq(m.id, active);
        out.push(ModelEntry {
            id: m.id,
            label: m.label,
            size_mb: m.size_mb,
            present: present[i],
            active: is_active,
        });
        i = i + 1;
    }
    out
}

} // verus!

verus! {

/// Every catalog entry is found by its own id, so ids are distinct and each
/// model can be selected; the default model is in the catalog.
pub proof fn law_catalog_ids_resolve()
    ensures
        forall|i: int| 0 <= i < catalog().len() ==> model_index(#[trigger] catalog()[i].id@) == Some(i),
        model_index(DEFAULT_MODEL_ID@) == Some(1int),
{
    reveal_strlit("base.en");
    reveal_strlit("small.en");
    assert("base.en"@.len() == 7);
    assert("small.en"@.len() == 8);
    assert(catalog()[0].id@ != catalog()[1].id@);
    assert(model_index(catalog()[0].id@) == Some(0int));
    assert(index_from(catalog()[1].id@, 1) == Some(1int));
    assert(model_index(catalog()[1].id@) == Some(1int));
}

/// At most one picker row is marked active, whatever the active id.
pub proof fn law_at_most_one_active_entry(active: Seq<char>, present: Seq<bool>)
    requires
        present.len() == catalog().len(),
    ensures
        forall|i: int, j: int|
            0 <= i < catalog().len() && 0 <= j < catalog().len()
                && (#[trigger] entry_for(catalog()[i], present[i], active)).active
                && (#[trigger] entry_for(catalog()[j], present[j], active)).active ==> i == j,
{
    reveal_strlit("base.en");
    reveal_strlit("small.en");
    assert("base.en"@.len() == 7);
    assert("small.en"@.len() == 8);
    assert(catalog()[0].id@ != catalog()[1].id@);
}

} // verus!

verus! {

/// Each catalog entry downloads its own file, `ggml-<id>.bin`, from the
/// whisper.cpp model repository.
pub proof fn law_catalog_urls_fetch_own_file()
    ensures
        forall|i: int|
            0 <= i < catalog().len() ==> (#[trigger] catalog()[i]).url@
                == "https://huggingface.co/ggerganov/whisper.cpp/resolve/main/"@ + catalog()[i].file@,
        forall|i: int|
            0 <= i < catalog().len() ==> (#[trigger] catalog()[i]).file@ == "ggml-"@
                + catalog()[i].id@ + ".bin"@,
{
    reveal_strlit("https://huggingface.co/ggerganov/whisper.cpp/resolve/main/");
    reveal_strlit("https://huggingface.co/ggerganov/whisper.cpp/resolve/main/ggml-base.en.bin");
    reveal_strlit("https://huggingface.co/ggerganov/whisper.cpp/resolve/main/ggml-small.en.bin");
    reveal_strlit("ggml-base.en.bin");
    reveal_strlit("ggml-small.en.bin");
    reveal_strlit("ggml-");
    reveal_strlit(".bin");
    reveal_strlit("base.en");
    reveal_strlit("small.en");
    assert(catalog()[0].url@ =~= "https://huggingface.co/ggerganov/whisper.cpp/resolve/main/"@
        + catalog()[0].file@);
    assert(catalog()[1].url@ =~= "https://huggingface.co/ggerganov/whisper.cpp/resolve/main/"@
        + catalog()[1].file@);
    assert(catalog()[0].file@ =~= "ggml-"@ + catalog()[0].id@ + ".bin"@);
    assert(catalog()[1].file@ =~= "ggml-"@ + catalog()[1].id@ + ".bin"@);
}

/// A picker row shows its model as is, is present exactly when its file is
/// on disk, whatever the active id, and is active exactly when its id is the
/// active one.
pub proof fn law_entry_reports_inputs(m: ModelInfo, present: bool, active: Seq<char>)
    ensures
        entry_for(m, present, active).present == present,
        entry_for(m, present, active).active == (m.id@ == active),
        entry_for(m, present, active).id == m.id,
        entry_for(m, present, active).label == m.label,
        entry_for(m, present, active).size_mb == m.size_mb,
{
}

} // verus!
