//! YuNet model variants, their performance characteristics, and discovery of
//! model files in configured search directories.
//!
//! Selection order: an explicitly requested variant (from configuration or
//! the `YUNET_MODEL_VARIANT` setting), otherwise the fastest variant whose
//! file is present (INT8-BQ, then INT8, then FP32, then the 2022 model).

use vstd::prelude::*;
use crate::disk::{file_len, path_exists};
use crate::text::{decimal, join_path, join_path_text, push_decimal, str_eq};

verus! {

/// YuNet model variant.
#[derive(Debug, Clone, Copy, PartialEq, Eq, Structural)]
pub enum ModelVariant {
    /// Block-quantized INT8: fastest, recommended for production.
    Int8BlockQuantized,
    /// Standard INT8 quantization.
    Int8,
    /// Full precision FP32: slowest, baseline accuracy.
    Fp32,
    /// 2022 model for OpenCV < 4.8 compatibility.
    Legacy2022,
}

impl Default for ModelVariant {
    fn default() -> (r: Self)
        ensures
            r == ModelVariant::Int8BlockQuantized,
    {
        ModelVariant::Int8BlockQuantized
    }
}

/// Lowercased text of a string, as `str::to_lowercase` computes it.
pub uninterp spec fn lowercase_text(s: Seq<char>) -> Seq<char>;

/// Every character of `s` is ASCII.
pub open spec fn all_ascii(s: Seq<char>) -> bool {
    forall|i: int| 0 <= i < s.len() ==> (s[i] as u32) < 128
}

/// ASCII lowercasing: `A`..`Z` become `a`..`z`, everything else is kept.
pub open spec fn ascii_lowercase(s: Seq<char>) -> Seq<char> {
    Seq::new(s.len(), |i: int| if 'A' <= s[i] && s[i] <= 'Z' { ((s[i] as u32) + 32) as char } else { s[i] })
}

/// Calls `str::to_lowercase`. The result is named by `lowercase_text`; for
/// ASCII input it is the ASCII lowercasing, as the Unicode lowercase mapping
/// of ASCII letters is their ASCII lowercase form.
#[verifier::external_body]
fn to_lowercase(s: &str) -> (r: String)
    ensures
        r@ == lowercase_text(s@),
        all_ascii(s@) ==> r@ == ascii_lowercase(s@),
{
    s.to_lowercase()
}

/// The variant named by an already-lowercased setting value, if any.
pub open spec fn variant_named(l: Seq<char>) -> Option<ModelVariant> {
    if l == "int8bq"@ || l == "int8-bq"@ || l == "block-quantized"@ {
        Some(ModelVariant::Int8BlockQuantized)
    } else if l == "int8"@ || l == "quantized"@ {
        Some(ModelVariant::Int8)
    } else if l == "fp32"@ || l == "float32"@ || l == "full"@ {
        Some(ModelVariant::Fp32)
    } else if l == "legacy"@ || l == "2022"@ || l == "2022mar"@ {
        Some(ModelVariant::Legacy2022)
    } else {
        None
    }
}

/// Position of a variant in the speed order (fastest first).
pub open spec fn speed_rank(v: ModelVariant) -> int {
    match v {
        ModelVariant::Int8BlockQuantized => 0,
        ModelVariant::Int8 => 1,
        ModelVariant::Fp32 => 2,
        ModelVariant::Legacy2022 => 3,
    }
}

impl ModelVariant {
    /// All variants in preference order (fastest first).
    pub const ALL_BY_SPEED: [ModelVariant; 4] = [
        ModelVariant::Int8BlockQuantized,
        ModelVariant::Int8,
        ModelVariant::Fp32,
        ModelVariant::Legacy2022,
    ];

    pub open spec fn spec_expected_ms(self) -> u32 {
        match self {
            ModelVariant::Int8BlockQuantized => 6,
            ModelVariant::Int8 => 8,
            ModelVariant::Fp32 => 25,
            ModelVariant::Legacy2022 => 30,
        }
    }

    pub open spec fn display_name_text(self) -> Seq<char> {
        match self {
            ModelVariant::Int8BlockQuantized => "2023mar INT8-BQ"@,
            ModelVariant::Int8 => "2023mar INT8"@,
            ModelVariant::Fp32 => "2023mar FP32"@,
            ModelVariant::Legacy2022 => "2022mar Legacy"@,
        }
    }

    pub open spec fn filename_text(self) -> Seq<char> {
        match self {
            ModelVariant::Int8BlockQuantized => "face_detection_yunet_2023mar_int8bq.onnx"@,
            ModelVariant::Int8 => "face_detection_yunet_2023mar_int8.onnx"@,
            ModelVariant::Fp32 => "face_detection_yunet_2023mar.onnx"@,
            ModelVariant::Legacy2022 => "face_detection_yunet_2022mar.onnx"@,
        }
    }

    /// Accuracy (AP on the WIDER FACE easy set) printed to three decimals.
    pub open spec fn accuracy_text(self) -> Seq<char> {
        match self {
            ModelVariant::Int8BlockQuantized => "0.885"@,
            ModelVariant::Int8 => "0.881"@,
            ModelVariant::Fp32 => "0.884"@,
            ModelVariant::Legacy2022 => "0.834"@,
        }
    }

    /// The text shown for a variant: `<name> (~<ms>ms, <accuracy> AP)`.
    pub open spec fn display_text_spec(self) -> Seq<char> {
        self.display_name_text() + " (~"@ + decimal(self.spec_expected_ms() as nat) + "ms, "@
            + self.accuracy_text() + " AP)"@
    }

    /// Expected inference time per frame in milliseconds.
    pub fn expected_ms_per_frame(&self) -> (r: u32)
        ensures
            r == self.spec_expected_ms(),
    {
        match self {
            ModelVariant::Int8BlockQuantized => 6,
            ModelVariant::Int8 => 8,
            ModelVariant::Fp32 => 25,
            ModelVariant::Legacy2022 => 30,
        }
    }

    /// Human-readable name for logging.
    pub fn display_name(&self) -> (r: &'static str)
        ensures
            r@ == self.display_name_text(),
    {
        match self {
            ModelVariant::Int8BlockQuantized => "2023mar INT8-BQ",
            ModelVariant::Int8 => "2023mar INT8",
            ModelVariant::Fp32 => "2023mar FP32",
            ModelVariant::Legacy2022 => "2022mar Legacy",
        }
    }

    /// Model file name of the variant.
    pub fn filename_pattern(&self) -> (r: &'static str)
        ensures
            r@ == self.filename_text(),
    {
        match self {
            ModelVariant::Int8BlockQuantized => "face_detection_yunet_2023mar_int8bq.onnx",
            ModelVariant::Int8 => "face_detection_yunet_2023mar_int8.onnx",
            ModelVariant::Fp32 => "face_detection_yunet_2023mar.onnx",
            ModelVariant::Legacy2022 => "face_detection_yunet_2022mar.onnx",
        }
    }

    fn accuracy_str(&self) -> (r: &'static str)
        ensures
            r@ == self.accuracy_text(),
    {
        match self {
            ModelVariant::Int8BlockQuantized => "0.885",
            ModelVariant::Int8 => "0.881",
            ModelVariant::Fp32 => "0.884",
            ModelVariant::Legacy2022 => "0.834",
        }
    }

    /// Text for logs: name, expected latency and accuracy, such as
    /// `2023mar INT8-BQ (~6ms, 0.885 AP)`.
    pub fn display_text(&self) -> (r: String)
        ensures
            r@ == self.display_text_spec(),
    {
        let mut s = String::from_str(self.display_name());
        s.append(" (~");
        push_decimal(&mut s, self.expected_ms_per_frame() as u64);
        s.append("ms, ");
        s.append(self.accuracy_str());
        s.append(" AP)");
        s
    }

    /// The variant named by an already-lowercased value.
    pub fn from_lowercase(l: &str) -> (r: Option<Self>)
        ensures
            r == variant_named(l@),
    {
        if str_eq(l, "int8bq") || str_eq(l, "int8-bq") || str_eq(l, "block-quantized") {
            Some(ModelVariant::Int8BlockQuantized)
        } else if str_eq(l, "int8") || str_eq(l, "quantized") {
            Some(ModelVariant::Int8)
        } else if str_eq(l, "fp32") || str_eq(l, "float32") || str_eq(l, "full") {
            Some(ModelVariant::Fp32)
        } else if str_eq(l, "legacy") || str_eq(l, "2022") || str_eq(l, "2022mar") {
            Some(ModelVariant::Legacy2022)
        } else {
            None
        }
    }

    /// Parses a variant name case-insensitively.
    pub fn from_str(s: &str) -> (r: Option<Self>)
        ensures
            r == variant_named(lowercase_text(s@)),
            all_ascii(s@) ==> r == variant_named(ascii_lowercase(s@)),
    {
        let lower = to_lowercase(s);
        Self::from_lowercase(lower.as_str())
    }
}

/// Path of the file of `variant` in directory `dir`.
pub open spec fn candidate_path(dir: Seq<char>, variant: ModelVariant) -> Seq<char> {
    join_path_text(dir, variant.filename_text())
}

/// The default search directories: production container paths, a legacy
/// flat path, a development path and the system OpenCV model directory.
pub open spec fn default_directory_texts() -> Seq<Seq<char>> {
    seq![
        "/app/backend/models/face_detection/yunet"@,
        "/app/models/face_detection/yunet"@,
        "/app/models"@,
        "./backend/models/face_detection/yunet"@,
        "/usr/share/opencv/models"@,
    ]
}

/// `p` is the path of `variant` in one of the default search directories.
pub open spec fn is_default_candidate(variant: ModelVariant, p: Seq<char>) -> bool {
    exists|i: int| 0 <= i < 5 && p == candidate_path(#[trigger] default_directory_texts()[i], variant)
}

/// Model search directories in priority order.
#[derive(Debug, Clone)]
pub struct ModelSearchPaths {
    /// Base directories to search for models.
    pub directories: Vec<String>,
}

/// First index whose flag is set.
pub open spec fn is_first_present(present: Seq<bool>, k: int) -> bool {
    &&& 0 <= k < present.len()
    &&& present[k]
    &&& forall|j: int| 0 <= j < k ==> !present[j]
}

/// Index of the first `true` flag, or `None` when no flag is set.
pub fn first_present(present: &Vec<bool>) -> (r: Option<usize>)
    ensures
        r matches Some(k) ==> is_first_present(present@, k as int),
        r is None ==> forall|j: int| 0 <= j < present@.len() ==> !present@[j],
{
    let mut i: usize = 0;
    while i < present.len()
        invariant
            i <= present@.len(),
            forall|j: int| 0 <= j < i ==> !present@[j],
        decreases present@.len() - i,
    {
        if present[i] {
            return Some(i);
        }
        i = i + 1;
    }
    None
}

/// The path handed back for a search whose probes reported `present`: the
/// candidate of the first index whose probe found the file, and no other.
/// Whatever the probes report, a returned path was reported present and no
/// earlier candidate was; nothing is returned only when no probe found the
/// file.
pub fn pick_first_present(candidates: &Vec<String>, present: &Vec<bool>) -> (r: Option<String>)
    requires
        present@.len() == candidates@.len(),
    ensures
        r matches Some(p) ==> exists|k: int| #[trigger] is_first_present(present@, k) && p@ == candidates@[k]@,
        r is None <==> forall|j: int| 0 <= j < present@.len() ==> !present@[j],
{
    match first_present(present) {
        Some(k) => {
            let p = candidates[k].clone();
            assert(is_first_present(present@, k as int) && p@ == candidates@[k as int]@);
            Some(p)
        },
        None => None,
    }
}

impl ModelSearchPaths {
    pub open spec fn dirs(self) -> Seq<Seq<char>> {
        self.directories@.map_values(|d: String| d@)
    }

    /// `r` is what a search for `variant` hands back when the existence
    /// probes of the candidate paths reported `present`: the path in the
    /// first directory whose probe found the file, or nothing when none did.
    pub open spec fn is_search_result(self, variant: ModelVariant, present: Seq<bool>, r: Option<String>) -> bool {
        &&& present.len() == self.directories@.len()
        &&& (r matches Some(p) ==> exists|k: int| #[trigger] is_first_present(present, k)
                && p@ == candidate_path(self.directories@[k]@, variant))
        &&& (r is None <==> forall|j: int| 0 <= j < present.len() ==> !present[j])
    }

    /// `p` is the path of `variant` in one of the search directories.
    pub open spec fn is_candidate(self, variant: ModelVariant, p: Seq<char>) -> bool {
        exists|i: int| 0 <= i < self.directories@.len() && p == candidate_path(#[trigger] self.directories@[i]@, variant)
    }

}

impl Default for ModelSearchPaths {
    /// The production, development and system search directories.
    fn default() -> (r: Self)
        ensures
            r.directories@.len() == 5,
            r.dirs() =~= default_directory_texts(),
            r.directories@[0]@ == "/app/backend/models/face_detection/yunet"@,
            r.directories@[1]@ == "/app/models/face_detection/yunet"@,
            r.directories@[2]@ == "/app/models"@,
            r.directories@[3]@ == "./backend/models/face_detection/yunet"@,
            r.directories@[4]@ == "/usr/share/opencv/models"@,
    {
        let mut d: Vec<String> = Vec::new();
        d.push(String::from_str("/app/backend/models/face_detection/yunet"));
        d.push(String::from_str("/app/models/face_detection/yunet"));
        d.push(String::from_str("/app/models"));
        d.push(String::from_str("./backend/models/face_detection/yunet"));
        d.push(String::from_str("/usr/share/opencv/models"));
        ModelSearchPaths { directories: d }
    }
}

impl ModelSearchPaths {
    /// Paths of the file of `variant` in each directory, in priority order.
    pub fn candidate_paths(&self, variant: ModelVariant) -> (r: Vec<String>)
        ensures
            r@.len() == self.directories@.len(),
            forall|i: int| 0 <= i < r@.len() ==> #[trigger] r@[i]@ == candidate_path(self.directories@[i]@, variant),
    {
        let filename = variant.filename_pattern();
        let mut out: Vec<String> = Vec::new();
        let mut i: usize = 0;
        while i < self.directories.len()
            invariant
                i <= self.directories@.len(),
                out@.len() == i,
                filename@ == variant.filename_text(),
                forall|j: int| 0 <= j < i ==> #[trigger] out@[j]@ == candidate_path(self.directories@[j]@, variant),
            decreases self.directories@.len() - i,
        {
            let p = join_path(self.directories[i].as_str(), filename);
            out.push(p);
            i = i + 1;
        }
        out
    }

    /// Finds the file of `variant` in the first directory where it exists.
    /// Which directories hold it depends on the disk; whatever the disk says,
    /// a returned path is the variant's path in one of the directories, and
    /// the choice among them is [`first_present`] over what was found.
    pub fn find_variant(&self, variant: ModelVariant) -> (r: Option<String>)
        ensures
            r matches Some(p) ==> self.is_candidate(variant, p@),
            self.directories@.len() == 0 ==> r is None,
            // Whatever the existence probes reported, the result is the path
            // in the first directory whose probe found the file.
            exists|present: Seq<bool>| #[trigger] self.is_search_result(variant, present, r),
    {
        let candidates = self.candidate_paths(variant);
        let mut present: Vec<bool> = Vec::new();
        let mut i: usize = 0;
        while i < candidates.len()
            invariant
                i <= candidates@.len(),
                present@.len() == i,
            decreases candidates@.len() - i,
        {
            present.push(path_exists(candidates[i].as_str()));
            i = i + 1;
        }
        let r = pick_first_present(&candidates, &present);
        proof {
            if r is Some {
                let k = choose|k: int| #[trigger] is_first_present(present@, k) && r->0@ == candidates@[k]@;
                assert(r->0@ == candidate_path(self.directories@[k]@, variant));
            }
            assert(self.is_search_result(variant, present@, r));
        }
        r
    }

    /// What the probes report fixes the search result: the first directory
/// whose probe found the file is unique, so two searches that saw the same
/// reports hand back the same path (or both nothing), and a returned path
/// is never that of a directory before it, whose probe found no file.
pub proof fn search_result_is_determined_by_probes(
    paths: ModelSearchPaths,
    variant: ModelVariant,
    present: Seq<bool>,
    r1: Option<String>,
    r2: Option<String>,
)
    requires
        paths.is_search_result(variant, present, r1),
        paths.is_search_result(variant, present, r2),
    ensures
        r1 is Some <==> r2 is Some,
        (r1 is Some && r2 is Some) ==> r1->0@ == r2->0@,
        r1 matches Some(p) ==> exists|k: int| 0 <= k < present.len() && present[k]
            && p@ == candidate_path(paths.directories@[k]@, variant)
            && forall|j: int| 0 <= j < k ==> !present[j],
{
    if r1 is Some && r2 is Some {
        let k1 = choose|k: int| #[trigger] is_first_present(present, k) && r1->0@ == candidate_path(paths.directories@[k]@, variant);
        let k2 = choose|k: int| #[trigger] is_first_present(present, k) && r2->0@ == candidate_path(paths.directories@[k]@, variant);
        if k1 < k2 {
            assert(!present[k1]);
        } else if k2 < k1 {
            assert(!present[k2]);
        }
    }
    if r1 is Some && r2 is None {
        let k1 = choose|k: int| #[trigger] is_first_present(present, k) && r1->0@ == candidate_path(paths.directories@[k]@, variant);
        assert(present[k1]);
    }
    if r2 is Some && r1 is None {
        let k2 = choose|k: int| #[trigger] is_first_present(present, k) && r2->0@ == candidate_path(paths.directories@[k]@, variant);
        assert(present[k2]);
    }
}

/// The result of [`ModelSearchPaths::find_variant`] for every variant,
    /// fastest first.
    fn find_each_variant(&self) -> (r: Vec<Option<String>>)
        ensures
            r@.len() == 4,
            forall|k: int| 0 <= k < 4 ==> ((#[trigger] r@[k]) matches Some(p) ==> self.is_candidate(variant_of_rank(k), p@)),
            self.directories@.len() == 0 ==> forall|k: int| 0 <= k < 4 ==> (#[trigger] r@[k]) is None,
    {
        let mut found: Vec<Option<String>> = Vec::new();
        let mut i: usize = 0;
        while i < 4
            invariant
                i <= 4,
                found@.len() == i,
                forall|k: int| 0 <= k < i ==> ((#[trigger] found@[k]) matches Some(p) ==> self.is_candidate(variant_of_rank(k), p@)),
                self.directories@.len() == 0 ==> forall|k: int| 0 <= k < i ==> (#[trigger] found@[k]) is None,
            decreases 4 - i,
        {
            let v = ModelVariant::ALL_BY_SPEED[i];
            assert(v == variant_of_rank(i as int));
            found.push(self.find_variant(v));
            i = i + 1;
        }
        found
    }

    /// The fastest variant whose file exists, with its path.
    pub fn find_best_available(&self) -> (r: Option<(ModelVariant, String)>)
        ensures
            r matches Some((v, p)) ==> self.is_candidate(v, p@),
            self.directories@.len() == 0 ==> r is None,
    {
        let found = self.find_each_variant();
        let r = fastest_found(&found);
        proof {
            if r is Some {
                let k = speed_rank((r->0).0);
                assert(found@[k] matches Some(q) && q@ == (r->0).1@);
            }
        }
        r
    }

    /// All variants whose file exists, fastest first, with their paths.
    pub fn list_available(&self) -> (r: Vec<(ModelVariant, String)>)
        ensures
            r@.len() <= 4,
            forall|k: int| 0 <= k < r@.len() ==> self.is_candidate((#[trigger] r@[k]).0, r@[k].1@),
            forall|a: int, b: int| 0 <= a < b < r@.len() ==> speed_rank(r@[a].0) < speed_rank(r@[b].0),
            self.directories@.len() == 0 ==> r@.len() == 0,
    {
        let found = self.find_each_variant();
        let r = available_from(&found);
        proof {
            found_variants_facts(found@);
            assert forall|k: int| 0 <= k < r@.len() implies self.is_candidate((#[trigger] r@[k]).0, r@[k].1@) by {
                assert(found_entry_view(r@[k]) == found_variants(found@)[k]);
                let j = speed_rank(r@[k].0);
                assert(found@[j] matches Some(p) && p@ == r@[k].1@);
            }
            assert forall|a: int, b: int| 0 <= a < b < r@.len() implies speed_rank(r@[a].0) < speed_rank(r@[b].0) by {
                assert(found_entry_view(r@[a]) == found_variants(found@)[a]);
                assert(found_entry_view(r@[b]) == found_variants(found@)[b]);
            }
            if self.directories@.len() == 0 {
                found_variants_empty(found@);
            }
        }
        r
    }
}

/// The preference order of the variants is their speed order: each variant
/// is expected to take no longer per frame than the ones listed after it,
/// and the variant at position `k` is the one of speed rank `k`.
pub proof fn variants_are_listed_fastest_first()
    ensures
        forall|i: int, j: int| 0 <= i <= j < 4 ==>
            (#[trigger] ModelVariant::ALL_BY_SPEED@[i]).spec_expected_ms() <= (#[trigger] ModelVariant::ALL_BY_SPEED@[j]).spec_expected_ms(),
        forall|k: int| 0 <= k < 4 ==> speed_rank(#[trigger] ModelVariant::ALL_BY_SPEED@[k]) == k
            && ModelVariant::ALL_BY_SPEED@[k] == variant_of_rank(k),
{
}

/// The variant at position `k` of the speed order (fastest first).
pub open spec fn variant_of_rank(k: int) -> ModelVariant {
    if k == 0 {
        ModelVariant::Int8BlockQuantized
    } else if k == 1 {
        ModelVariant::Int8
    } else if k == 2 {
        ModelVariant::Fp32
    } else {
        ModelVariant::Legacy2022
    }
}

/// A found variant as its value and the text of its path.
pub open spec fn found_entry_view(e: (ModelVariant, String)) -> (ModelVariant, Seq<char>) {
    (e.0, e.1@)
}

/// The variants found, fastest first, with the text of their paths: entry
/// `k` of `found` is the search result for the variant of rank `k`.
pub open spec fn found_variants(found: Seq<Option<String>>) -> Seq<(ModelVariant, Seq<char>)>
    decreases found.len(),
{
    if found.len() == 0 {
        Seq::empty()
    } else {
        let rest = found_variants(found.drop_last());
        match found.last() {
            Some(p) => rest.push((variant_of_rank(found.len() - 1), p@)),
            None => rest,
        }
    }
}

/// Every listed variant was found, at its own rank, and the list runs from
/// fastest to slowest.
proof fn found_variants_facts(found: Seq<Option<String>>)
    requires
        found.len() <= 4,
    ensures
        found_variants(found).len() <= found.len(),
        forall|k: int| 0 <= k < found_variants(found).len() ==> {
            let e = #[trigger] found_variants(found)[k];
            0 <= speed_rank(e.0) < found.len() && e.0 == variant_of_rank(speed_rank(e.0))
                && (found[speed_rank(e.0)] matches Some(p) && p@ == e.1)
        },
        forall|a: int, b: int| 0 <= a < b < found_variants(found).len() ==>
            speed_rank(found_variants(found)[a].0) < speed_rank(found_variants(found)[b].0),
    decreases found.len(),
{
    if found.len() > 0 {
        let prev = found.drop_last();
        found_variants_facts(prev);
        assert forall|k: int| 0 <= k < found_variants(prev).len() implies {
            let e = #[trigger] found_variants(prev)[k];
            found[speed_rank(e.0)] == prev[speed_rank(e.0)]
        } by {}
    }
}

/// Nothing found, nothing listed.
proof fn found_variants_empty(found: Seq<Option<String>>)
    requires
        forall|k: int| 0 <= k < found.len() ==> (#[trigger] found[k]) is None,
    ensures
        found_variants(found).len() == 0,
    decreases found.len(),
{
    if found.len() > 0 {
        found_variants_empty(found.drop_last());
    }
}

/// The fastest variant among the search results `found` (one per variant,
/// fastest first): the first present result, with its variant.
pub fn fastest_found(found: &Vec<Option<String>>) -> (r: Option<(ModelVariant, String)>)
    requires
        found@.len() == 4,
    ensures
        r is None <==> forall|k: int| 0 <= k < 4 ==> (#[trigger] found@[k]) is None,
        r matches Some((v, p)) ==> {
            let k = speed_rank(v);
            &&& found@[k] matches Some(q) && q@ == p@
            &&& forall|j: int| 0 <= j < k ==> (#[trigger] found@[j]) is None
        },
{
    let mut i: usize = 0;
    while i < 4
        invariant
            i <= 4,
            found@.len() == 4,
            forall|j: int| 0 <= j < i ==> (#[trigger] found@[j]) is None,
        decreases 4 - i,
    {
        if let Some(p) = &found[i] {
            let v = ModelVariant::ALL_BY_SPEED[i];
            assert(speed_rank(v) == i);
            return Some((v, p.clone()));
        }
        i = i + 1;
    }
    None
}

/// The found variants with their paths, fastest first (see
/// [`found_variants`]).
pub fn available_from(found: &Vec<Option<String>>) -> (r: Vec<(ModelVariant, String)>)
    requires
        found@.len() == 4,
    ensures
        r@.map_values(|e: (ModelVariant, String)| found_entry_view(e)) == found_variants(found@),
{
    let mut out: Vec<(ModelVariant, String)> = Vec::new();
    let mut i: usize = 0;
    while i < 4
        invariant
            i <= 4,
            found@.len() == 4,
            out@.map_values(|e: (ModelVariant, String)| found_entry_view(e)) == found_variants(found@.take(i as int)),
        decreases 4 - i,
    {
        proof {
            assert(found@.take(i as int + 1).drop_last() =~= found@.take(i as int));
        }
        if let Some(p) = &found[i] {
            let v = ModelVariant::ALL_BY_SPEED[i];
            assert(v == variant_of_rank(i as int));
            out.push((v, p.clone()));
            assert(out@.map_values(|e: (ModelVariant, String)| found_entry_view(e))
                =~= found_variants(found@.take(i as int)).push((v, p@)));
        }
        i = i + 1;
    }
    assert(found@.take(4) =~= found@);
    out
}

/// Errors during model resolution.
#[derive(Debug)]
pub enum ModelResolutionError {
    /// A specific variant was requested but not found.
    VariantNotFound(ModelVariant),
    /// No models found in any search path.
    NoModelsFound,
    /// Model file exists but is too small (likely corrupted).
    FileTooSmall { path: String, size: u64, min_size: u64 },
    /// I/O error reading the model file.
    IoError(String, String),
}

impl ModelResolutionError {
    pub open spec fn message_text(&self) -> Seq<char> {
        match self {
            ModelResolutionError::VariantNotFound(v) => "YuNet model variant "@ + v.display_name_text()
                + " not found. Download from: https://github.com/opencv/opencv_zoo/tree/main/models/face_detection_yunet"@,
            ModelResolutionError::NoModelsFound => "No YuNet models found. Run: curl -L -o models/face_detection_yunet_2023mar_int8bq.onnx https://github.com/opencv/opencv_zoo/raw/main/models/face_detection_yunet/face_detection_yunet_2023mar_int8bq.onnx"@,
            ModelResolutionError::FileTooSmall { path, size, min_size } => "YuNet model at "@ + path@
                + " appears corrupted ("@ + decimal(*size as nat) + " bytes, expected >= "@
                + decimal(*min_size as nat) + " bytes)"@,
            ModelResolutionError::IoError(path, err) => "Failed to read YuNet model at "@ + path@ + ": "@ + err@,
        }
    }

    /// Human-readable description of the error.
    pub fn message(&self) -> (r: String)
        ensures
            r@ == self.message_text(),
    {
        match self {
            ModelResolutionError::VariantNotFound(v) => {
                let mut s = String::from_str("YuNet model variant ");
                s.append(v.display_name());
                s.append(" not found. Download from: https://github.com/opencv/opencv_zoo/tree/main/models/face_detection_yunet");
                s
            },
            ModelResolutionError::NoModelsFound => String::from_str(
                "No YuNet models found. Run: curl -L -o models/face_detection_yunet_2023mar_int8bq.onnx https://github.com/opencv/opencv_zoo/raw/main/models/face_detection_yunet/face_detection_yunet_2023mar_int8bq.onnx",
            ),
            ModelResolutionError::FileTooSmall { path, size, min_size } => {
                let mut s = String::from_str("YuNet model at ");
                s.append(path.as_str());
                s.append(" appears corrupted (");
                push_decimal(&mut s, *size);
                s.append(" bytes, expected >= ");
                push_decimal(&mut s, *min_size);
                s.append(" bytes)");
                s
            },
            ModelResolutionError::IoError(path, err) => {
                let mut s = String::from_str("Failed to read YuNet model at ");
                s.append(path.as_str());
                s.append(": ");
                s.append(err.as_str());
                s
            },
        }
    }
}

/// Configuration for YuNet model loading.
#[derive(Debug, Clone)]
pub struct ModelConfig {
    /// Preferred model variant (`None` selects the fastest available).
    pub preferred_variant: Option<ModelVariant>,
    /// Search paths for model files.
    pub search_paths: ModelSearchPaths,
    /// Minimum model file size in bytes to consider the file valid.
    pub min_file_size: u64,
}

/// Minimum plausible model file size in bytes.
pub const MIN_MODEL_FILE_SIZE: u64 = 50_000;

/// Decides whether a model file is usable from the result of reading its
/// metadata: an I/O error is reported as `IoError`, a file shorter than
/// `min_size` as `FileTooSmall`.
pub fn check_model_size(path: &str, size: Result<u64, String>, min_size: u64) -> (r: Result<(), ModelResolutionError>)
    ensures
        match size {
            Err(msg) => r matches Err(ModelResolutionError::IoError(p, m)) && p@ == path@ && m@ == msg@,
            Ok(len) => if len < min_size {
                r matches Err(ModelResolutionError::FileTooSmall { path: p, size: s, min_size: ms })
                    && p@ == path@ && s == len && ms == min_size
            } else {
                r is Ok
            },
        },
{
    match size {
        Err(msg) => Err(ModelResolutionError::IoError(String::from_str(path), msg)),
        Ok(len) => {
            if len < min_size {
                Err(ModelResolutionError::FileTooSmall { path: String::from_str(path), size: len, min_size })
            } else {
                Ok(())
            }
        },
    }
}

impl Default for ModelConfig {
    /// Auto-selection over the default search paths with a 50 KB minimum.
    fn default() -> (r: Self)
        ensures
            r.preferred_variant is None,
            r.search_paths.directories@.len() == 5,
            r.search_paths.dirs() =~= default_directory_texts(),
            r.min_file_size == MIN_MODEL_FILE_SIZE,
    {
        ModelConfig {
            preferred_variant: None,
            search_paths: ModelSearchPaths::default(),
            min_file_size: MIN_MODEL_FILE_SIZE,
        }
    }
}

impl ModelConfig {
    /// Configuration with an explicit variant and otherwise default settings.
    pub fn with_variant(variant: ModelVariant) -> (r: Self)
        ensures
            r.preferred_variant == Some(variant),
            r.search_paths.directories@.len() == 5,
            r.search_paths.dirs() =~= default_directory_texts(),
            r.min_file_size == MIN_MODEL_FILE_SIZE,
    {
        ModelConfig {
            preferred_variant: Some(variant),
            search_paths: ModelSearchPaths::default(),
            min_file_size: MIN_MODEL_FILE_SIZE,
        }
    }

    /// Configuration from the value of the `YUNET_MODEL_VARIANT` setting:
    /// a recognised variant name selects it, anything else (or no value)
    /// leaves auto-selection on.
    pub fn from_env_value(value: Option<&str>) -> (r: Self)
        ensures
            r.preferred_variant == (match value {
                Some(s) => variant_named(lowercase_text(s@)),
                None => None,
            }),
            r.search_paths.directories@.len() == 5,
            r.search_paths.dirs() =~= default_directory_texts(),
            r.min_file_size == MIN_MODEL_FILE_SIZE,
    {
        let mut config = Self::default();
        if let Some(s) = value {
            config.preferred_variant = ModelVariant::from_str(s);
        }
        config
    }

    /// Checks that the model file exists with at least `min_file_size` bytes.
    pub fn validate_model(&self, path: &str) -> (r: Result<(), ModelResolutionError>)
        ensures
            r matches Err(ModelResolutionError::IoError(p, _)) ==> p@ == path@,
            r matches Err(ModelResolutionError::FileTooSmall { path: p, size: s, min_size: ms }) ==>
                p@ == path@ && ms == self.min_file_size && s < ms,
            r is Ok || r matches Err(ModelResolutionError::IoError(_, _))
                || r matches Err(ModelResolutionError::FileTooSmall { .. }),
    {
        let size = file_len(path);
        check_model_size(path, size, self.min_file_size)
    }

    /// Resolves the model to use: the requested variant if one is
    /// configured, otherwise the fastest variant present; the file must
    /// pass the size check.
    pub fn resolve(&self) -> (r: Result<(ModelVariant, String), ModelResolutionError>)
        ensures
            r matches Ok((v, p)) ==> self.search_paths.is_candidate(v, p@),
            self.preferred_variant matches Some(pv) ==> (r matches Ok((v, _)) ==> v == pv),
            self.preferred_variant matches Some(pv) ==> (r matches Err(ModelResolutionError::VariantNotFound(v)) ==> v == pv),
            self.preferred_variant is Some ==> !(r matches Err(ModelResolutionError::NoModelsFound)),
            self.preferred_variant is None ==> !(r matches Err(ModelResolutionError::VariantNotFound(_))),
            r matches Err(ModelResolutionError::FileTooSmall { size: s, min_size: ms, .. }) ==>
                ms == self.min_file_size && s < ms,
            self.search_paths.directories@.len() == 0 ==> r is Err,
            (self.search_paths.directories@.len() == 0 && self.preferred_variant is None) ==> r matches Err(ModelResolutionError::NoModelsFound),
            self.search_paths.directories@.len() == 0 ==> (self.preferred_variant matches Some(v) ==>
                r == Err::<(ModelVariant, String), ModelResolutionError>(ModelResolutionError::VariantNotFound(v))),
    {
        let found = match self.preferred_variant {
            Some(variant) => match self.search_paths.find_variant(variant) {
                Some(path) => Some((variant, path)),
                None => None,
            },
            None => self.search_paths.find_best_available(),
        };
        let checked = match found {
            Some((variant, path)) => {
                let check = self.validate_model(path.as_str());
                Some((variant, path, check))
            },
            None => None,
        };
        resolution_outcome(self.preferred_variant, checked)
    }
}

/// The outcome of a resolution from what the search found: the variant and
/// path found with the result of the size check on that file, or nothing.
/// A file that passed the check is the answer and a failed check is the
/// error; when nothing was found, the error names the requested variant,
/// or says that no model exists when none was requested.
pub fn resolution_outcome(
    preferred: Option<ModelVariant>,
    found: Option<(ModelVariant, String, Result<(), ModelResolutionError>)>,
) -> (r: Result<(ModelVariant, String), ModelResolutionError>)
    ensures
        match found {
            Some((v, p, Ok(()))) => r matches Ok((rv, rp)) && rv == v && rp@ == p@,
            Some((_, _, Err(e))) => r == Err::<(ModelVariant, String), ModelResolutionError>(e),
            None => match preferred {
                Some(v) => r == Err::<(ModelVariant, String), ModelResolutionError>(ModelResolutionError::VariantNotFound(v)),
                None => r == Err::<(ModelVariant, String), ModelResolutionError>(ModelResolutionError::NoModelsFound),
            },
        },
{
    match found {
        Some((variant, path, check)) => match check {
            Ok(()) => Ok((variant, path)),
            Err(e) => Err(e),
        },
        None => match preferred {
            Some(v) => Err(ModelResolutionError::VariantNotFound(v)),
            None => Err(ModelResolutionError::NoModelsFound),
        },
    }
}

/// The model the pipeline uses: configuration from the value of the
/// `YUNET_MODEL_VARIANT` setting (read by the caller, which also caches the
/// answer for the process), then [`ModelConfig::resolve`], with errors
/// rendered as their message.
pub fn get_resolved_model(setting: Option<&str>) -> (r: Result<(ModelVariant, String), String>)
    ensures
        r matches Ok((v, p)) ==> is_default_candidate(v, p@),
        setting matches Some(s) ==> (variant_named(lowercase_text(s@)) matches Some(pv) ==> (r matches Ok((v, _)) ==> v == pv)),
        r matches Err(m) ==> exists|e: ModelResolutionError| m@ == #[trigger] e.message_text(),
{
    let config = ModelConfig::from_env_value(setting);
    match config.resolve() {
        Ok((v, p)) => {
            proof {
                let i = choose|i: int| 0 <= i < config.search_paths.directories@.len()
                    && p@ == candidate_path(#[trigger] config.search_paths.directories@[i]@, v);
                assert(config.search_paths.dirs()[i] == config.search_paths.directories@[i]@);
                assert(p@ == candidate_path(default_directory_texts()[i], v));
            }
            Ok((v, p))
        },
        Err(e) => Err(e.message()),
    }
}

/// Whether a model resolves for the given setting (for feature detection).
pub fn is_model_available(setting: Option<&str>) -> (r: bool)
    ensures
        r ==> exists|v: ModelVariant, p: Seq<char>| #[trigger] is_default_candidate(v, p),
{
    match get_resolved_model(setting) {
        Ok((v, p)) => {
            assert(is_default_candidate(v, p@));
            true
        },
        Err(_) => false,
    }
}

} // verus!
