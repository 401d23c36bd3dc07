//! AMD GPU identity: which NVIDIA product a card is presented as, which
//! cards are used, and the environment that presents them.
use vstd::prelude::*;
use crate::text::{
    append_str, ascii_lower, chars_of, contains_str, is_ascii_char, decimal, has_substr, joined, lowercased, owned, push_decimal,
    string_of, to_lowercase,
};

verus! {

/// An AMD graphics adapter as the system reports it.
#[derive(Debug)]
pub struct GpuInfo {
    /// Adapter name, such as `AMD Radeon RX 7900 XTX`.
    pub name: String,
    /// Dedicated video memory in bytes.
    pub vram_bytes: u64,
    /// Position of the adapter in the operating system's enumeration.
    pub os_index: u64,
}

/// The card families that the spoofing table distinguishes.
#[derive(Clone, Copy, Debug, PartialEq, Eq, Structural)]
pub enum GpuSeries {
    Rx9000,
    Rx8000,
    Rx7000,
    Rx6000,
    Rx5000,
    Mi50,
    Vega64,
    Vega56,
    Other,
}

/// The family of a card, from its lower-case name. The first rule that
/// matches decides.
pub open spec fn series_of(n: Seq<char>) -> GpuSeries {
    if has_substr(n, "rx 9"@) || has_substr(n, "pro w9"@) {
        GpuSeries::Rx9000
    } else if has_substr(n, "rx 8"@) || has_substr(n, "pro w8"@) || has_substr(n, "radeon 8"@) {
        GpuSeries::Rx8000
    } else if has_substr(n, "rx 7"@) || has_substr(n, "pro w7"@) || has_substr(n, "radeon 7"@) {
        GpuSeries::Rx7000
    } else if has_substr(n, "rx 6"@) || has_substr(n, "pro w6"@) || has_substr(n, "radeon 6"@) {
        GpuSeries::Rx6000
    } else if has_substr(n, "rx 5"@) || has_substr(n, "pro w5"@) {
        GpuSeries::Rx5000
    } else if has_substr(n, "mi50"@) || has_substr(n, "radeon vii"@) {
        GpuSeries::Mi50
    } else if has_substr(n, "vega 64"@) || has_substr(n, "vega frontier"@) {
        GpuSeries::Vega64
    } else if has_substr(n, "vega 56"@) {
        GpuSeries::Vega56
    } else {
        GpuSeries::Other
    }
}

/// For a family: the GFX version that ROCm is told, the NVIDIA product
/// name the card is presented as, and the `HSA_ENABLE_SDMA` setting.
pub open spec fn mapping_of(s: GpuSeries) -> (Seq<char>, Seq<char>, Seq<char>) {
    match s {
        GpuSeries::Rx9000 => ("11.0.0"@, "NVIDIA GeForce RTX 5090"@, "0"@),
        GpuSeries::Rx8000 => ("11.0.0"@, "NVIDIA GeForce RTX 4090"@, "1"@),
        GpuSeries::Rx7000 => ("11.0.0"@, "NVIDIA GeForce RTX 4090"@, "1"@),
        GpuSeries::Rx6000 => ("10.3.0"@, "NVIDIA GeForce RTX 3090 Ti"@, "1"@),
        GpuSeries::Rx5000 => ("10.1.0"@, "NVIDIA GeForce RTX 2080 Ti"@, "1"@),
        GpuSeries::Vega64 => ("9.0.0"@, "NVIDIA Tesla P100"@, "1"@),
        GpuSeries::Vega56 => ("9.0.0"@, "NVIDIA Tesla P100"@, "1"@),
        GpuSeries::Mi50 => ("9.0.6"@, "NVIDIA Tesla V100"@, "1"@),
        GpuSeries::Other => ("11.0.0"@, "NVIDIA GeForce RTX 4090"@, "1"@),
    }
}

/// The views of a mapping triple.
pub open spec fn triple_view(t: (&str, &str, &str)) -> (Seq<char>, Seq<char>, Seq<char>) {
    (t.0@, t.1@, t.2@)
}

fn contains_any2(v: &Vec<char>, a: &str, b: &str) -> (r: bool)
    ensures
        r == (has_substr(v@, a@) || has_substr(v@, b@)),
{
    contains_str(v, a) || contains_str(v, b)
}

fn contains_any3(v: &Vec<char>, a: &str, b: &str, c: &str) -> (r: bool)
    ensures
        r == (has_substr(v@, a@) || has_substr(v@, b@) || has_substr(v@, c@)),
{
    contains_str(v, a) || contains_str(v, b) || contains_str(v, c)
}

/// The family of a card whose name is already in lower case.
pub fn series_for_lowered(name_lower: &str) -> (r: GpuSeries)
    ensures
        r == series_of(name_lower@),
{
    let n = chars_of(name_lower);
    if contains_any2(&n, "rx 9", "pro w9") {
        GpuSeries::Rx9000
    } else if contains_any3(&n, "rx 8", "pro w8", "radeon 8") {
        GpuSeries::Rx8000
    } else if contains_any3(&n, "rx 7", "pro w7", "radeon 7") {
        GpuSeries::Rx7000
    } else if contains_any3(&n, "rx 6", "pro w6", "radeon 6") {
        GpuSeries::Rx6000
    } else if contains_any2(&n, "rx 5", "pro w5") {
        GpuSeries::Rx5000
    } else if contains_any2(&n, "mi50", "radeon vii") {
        GpuSeries::Mi50
    } else if contains_any2(&n, "vega 64", "vega frontier") {
        GpuSeries::Vega64
    } else if contains_str(&n, "vega 56") {
        GpuSeries::Vega56
    } else {
        GpuSeries::Other
    }
}

/// The mapping entry of a family.
pub fn mapping_for_series(s: GpuSeries) -> (r: (&'static str, &'static str, &'static str))
    ensures
        triple_view(r) == mapping_of(s),
{
    match s {
        GpuSeries::Rx9000 => ("11.0.0", "NVIDIA GeForce RTX 5090", "0"),
        GpuSeries::Rx8000 => ("11.0.0", "NVIDIA GeForce RTX 4090", "1"),
        GpuSeries::Rx7000 => ("11.0.0", "NVIDIA GeForce RTX 4090", "1"),
        GpuSeries::Rx6000 => ("10.3.0", "NVIDIA GeForce RTX 3090 Ti", "1"),
        GpuSeries::Rx5000 => ("10.1.0", "NVIDIA GeForce RTX 2080 Ti", "1"),
        GpuSeries::Vega64 => ("9.0.0", "NVIDIA Tesla P100", "1"),
        GpuSeries::Vega56 => ("9.0.0", "NVIDIA Tesla P100", "1"),
        GpuSeries::Mi50 => ("9.0.6", "NVIDIA Tesla V100", "1"),
        GpuSeries::Other => ("11.0.0", "NVIDIA GeForce RTX 4090", "1"),
    }
}

/// The mapping entry of a card whose name is already in lower case.
pub fn mapping_for_lowered(name_lower: &str) -> (r: (&'static str, &'static str, &'static str))
    ensures
        triple_view(r) == mapping_of(series_of(name_lower@)),
{
    mapping_for_series(series_for_lowered(name_lower))
}

/// The GFX version, NVIDIA product name and SDMA setting for a card,
/// decided on its name in lower case.
pub fn get_mapping(gpu_name: &str) -> (r: (&'static str, &'static str, &'static str))
    ensures
        triple_view(r) == mapping_of(series_of(lowercased(gpu_name@))),
        (forall|i: int| 0 <= i < gpu_name@.len() ==> is_ascii_char(#[trigger] gpu_name@[i]))
            ==> triple_view(r) == mapping_of(
            series_of(gpu_name@.map_values(|c: char| ascii_lower(c))),
        ),
{
    let lower = to_lowercase(gpu_name);
    mapping_for_lowered(lower.as_str())
}

/// The spoofing table, family by family. A lower-case card name is
/// matched against the families in order, newest first; the first family
/// with one of its markers in the name decides the GFX version, the NVIDIA
/// product name and the SDMA setting, and a name with no marker at all is
/// presented as a current card.
pub proof fn lemma_family_table(n: Seq<char>)
    ensures
        has_substr(n, "rx 9"@) || has_substr(n, "pro w9"@) ==> series_of(n) == GpuSeries::Rx9000
            && mapping_of(series_of(n)) == ("11.0.0"@, "NVIDIA GeForce RTX 5090"@, "0"@),
        !has_substr(n, "rx 9"@) && !has_substr(n, "pro w9"@) && (has_substr(n, "rx 8"@) || has_substr(
            n,
            "pro w8"@,
        ) || has_substr(n, "radeon 8"@)) ==> series_of(n) == GpuSeries::Rx8000 && mapping_of(
            series_of(n),
        ) == ("11.0.0"@, "NVIDIA GeForce RTX 4090"@, "1"@),
        !has_substr(n, "rx 9"@) && !has_substr(n, "pro w9"@) && !has_substr(n, "rx 8"@)
            && !has_substr(n, "pro w8"@) && !has_substr(n, "radeon 8"@) && (has_substr(n, "rx 7"@)
            || has_substr(n, "pro w7"@) || has_substr(n, "radeon 7"@)) ==> series_of(n)
            == GpuSeries::Rx7000 && mapping_of(series_of(n)) == (
            "11.0.0"@,
            "NVIDIA GeForce RTX 4090"@,
            "1"@,
        ),
        !has_substr(n, "rx 9"@) && !has_substr(n, "pro w9"@) && !has_substr(n, "rx 8"@)
            && !has_substr(n, "pro w8"@) && !has_substr(n, "radeon 8"@) && !has_substr(n, "rx 7"@)
            && !has_substr(n, "pro w7"@) && !has_substr(n, "radeon 7"@) && (has_substr(n, "rx 6"@)
            || has_substr(n, "pro w6"@) || has_substr(n, "radeon 6"@)) ==> series_of(n)
            == GpuSeries::Rx6000 && mapping_of(series_of(n)) == (
            "10.3.0"@,
            "NVIDIA GeForce RTX 3090 Ti"@,
            "1"@,
        ),
        !has_substr(n, "rx 9"@) && !has_substr(n, "pro w9"@) && !has_substr(n, "rx 8"@)
            && !has_substr(n, "pro w8"@) && !has_substr(n, "radeon 8"@) && !has_substr(n, "rx 7"@)
            && !has_substr(n, "pro w7"@) && !has_substr(n, "radeon 7"@) && !has_substr(n, "rx 6"@)
            && !has_substr(n, "pro w6"@) && !has_substr(n, "radeon 6"@) && (has_substr(n, "rx 5"@)
            || has_substr(n, "pro w5"@)) ==> series_of(n) == GpuSeries::Rx5000 && mapping_of(
            series_of(n),
        ) == ("10.1.0"@, "NVIDIA GeForce RTX 2080 Ti"@, "1"@),
        !has_substr(n, "rx 9"@) && !has_substr(n, "pro w9"@) && !has_substr(n, "rx 8"@)
            && !has_substr(n, "pro w8"@) && !has_substr(n, "radeon 8"@) && !has_substr(n, "rx 7"@)
            && !has_substr(n, "pro w7"@) && !has_substr(n, "radeon 7"@) && !has_substr(n, "rx 6"@)
            && !has_substr(n, "pro w6"@) && !has_substr(n, "radeon 6"@) && !has_substr(n, "rx 5"@)
            && !has_substr(n, "pro w5"@) && (has_substr(n, "mi50"@) || has_substr(n, "radeon vii"@))
            ==> series_of(n) == GpuSeries::Mi50 && mapping_of(series_of(n)) == (
            "9.0.6"@,
            "NVIDIA Tesla V100"@,
            "1"@,
        ),
        !has_substr(n, "rx 9"@) && !has_substr(n, "pro w9"@) && !has_substr(n, "rx 8"@)
            && !has_substr(n, "pro w8"@) && !has_substr(n, "radeon 8"@) && !has_substr(n, "rx 7"@)
            && !has_substr(n, "pro w7"@) && !has_substr(n, "radeon 7"@) && !has_substr(n, "rx 6"@)
            && !has_substr(n, "pro w6"@) && !has_substr(n, "radeon 6"@) && !has_substr(n, "rx 5"@)
            && !has_substr(n, "pro w5"@) && !has_substr(n, "mi50"@) && !has_substr(n, "radeon vii"@)
            && (has_substr(n, "vega 64"@) || has_substr(n, "vega frontier"@) || has_substr(
            n,
            "vega 56"@,
        )) ==> mapping_of(series_of(n)) == ("9.0.0"@, "NVIDIA Tesla P100"@, "1"@),
        !has_substr(n, "rx 9"@) && !has_substr(n, "pro w9"@) && !has_substr(n, "rx 8"@)
            && !has_substr(n, "pro w8"@) && !has_substr(n, "radeon 8"@) && !has_substr(n, "rx 7"@)
            && !has_substr(n, "pro w7"@) && !has_substr(n, "radeon 7"@) && !has_substr(n, "rx 6"@)
            && !has_substr(n, "pro w6"@) && !has_substr(n, "radeon 6"@) && !has_substr(n, "rx 5"@)
            && !has_substr(n, "pro w5"@) && !has_substr(n, "mi50"@) && !has_substr(n, "radeon vii"@)
            && !has_substr(n, "vega 64"@) && !has_substr(n, "vega frontier"@) && !has_substr(
            n,
            "vega 56"@,
        ) ==> series_of(n) == GpuSeries::Other && mapping_of(series_of(n)) == (
            "11.0.0"@,
            "NVIDIA GeForce RTX 4090"@,
            "1"@,
        ),
{
}


// ---------------------------------------------------------------------
// Choosing the cards: the two with the most memory
// ---------------------------------------------------------------------

/// Candidate `j` comes before candidate `i` when the candidates are sorted
/// by memory, largest first, keeping the reported order among equals.
pub open spec fn goes_before(v: Seq<GpuInfo>, j: int, i: int) -> bool {
    v[j].vram_bytes > v[i].vram_bytes || (v[j].vram_bytes == v[i].vram_bytes && j < i)
}

/// Number of candidates among the first `m` that come before candidate `i`.
pub open spec fn count_before(v: Seq<GpuInfo>, i: int, m: int) -> nat
    decreases m,
{
    if m <= 0 {
        0
    } else {
        count_before(v, i, m - 1) + if goes_before(v, m - 1, i) {
            1nat
        } else {
            0nat
        }
    }
}

/// Where candidate `i` stands after a stable sort by memory, largest first.
pub open spec fn sorted_position(v: Seq<GpuInfo>, i: int) -> nat {
    count_before(v, i, v.len() as int)
}

/// `r` is the first `min(2, v.len())` entries of `v` sorted stably by
/// memory, largest first.
pub open spec fn is_top_two(v: Seq<GpuInfo>, r: Seq<GpuInfo>) -> bool {
    &&& r.len() == if v.len() < 2 { v.len() } else { 2 }
    &&& forall|k: int|
        0 <= k < r.len() ==> exists|i: int|
            0 <= i < v.len() && sorted_position(v, i) == k && #[trigger] r[k] == v[i]
}

proof fn lemma_count_none(v: Seq<GpuInfo>, i: int, m: int)
    requires
        forall|j: int| 0 <= j < m ==> !goes_before(v, j, i),
    ensures
        count_before(v, i, m) == 0,
    decreases m,
{
    if m > 0 {
        lemma_count_none(v, i, m - 1);
    }
}

proof fn lemma_count_one(v: Seq<GpuInfo>, i: int, b: int, m: int)
    requires
        forall|j: int| 0 <= j < m && j != b ==> !goes_before(v, j, i),
        goes_before(v, b, i),
    ensures
        count_before(v, i, m) == if 0 <= b < m { 1nat } else { 0nat },
    decreases m,
{
    if m > 0 {
        lemma_count_one(v, i, b, m - 1);
    }
}

proof fn lemma_count_monotone(v: Seq<GpuInfo>, i: int, j: int, m: int)
    requires
        0 <= i < v.len(),
        0 <= j < v.len(),
        goes_before(v, i, j),
    ensures
        count_before(v, i, m) + (if 0 <= i < m { 1nat } else { 0nat }) <= count_before(v, j, m),
    decreases m,
{
    if m > 0 {
        lemma_count_monotone(v, i, j, m - 1);
        if m - 1 < v.len() && goes_before(v, m - 1, i) {
            assert(goes_before(v, m - 1, j));
        }
    }
}

/// Two different candidates never share a position in the sorted order,
/// so the first two positions name at most one candidate each.
pub proof fn lemma_sorted_positions_distinct(v: Seq<GpuInfo>, i: int, j: int)
    requires
        0 <= i < v.len(),
        0 <= j < v.len(),
        i != j,
    ensures
        sorted_position(v, i) != sorted_position(v, j),
{
    if goes_before(v, i, j) {
        lemma_count_monotone(v, i, j, v.len() as int);
    } else {
        assert(goes_before(v, j, i));
        lemma_count_monotone(v, j, i, v.len() as int);
    }
}

proof fn lemma_count_positive(v: Seq<GpuInfo>, i: int, j: int, m: int)
    requires
        0 <= j < m,
        goes_before(v, j, i),
    ensures
        count_before(v, i, m) >= 1,
    decreases m,
{
    if j < m - 1 {
        lemma_count_positive(v, i, j, m - 1);
    }
}

/// The chosen cards come largest first, and the first one has at least as
/// much memory as any candidate.
pub proof fn lemma_top_two_ordered(v: Seq<GpuInfo>, r: Seq<GpuInfo>)
    requires
        is_top_two(v, r),
    ensures
        r.len() == 2 ==> r[0].vram_bytes >= r[1].vram_bytes,
        r.len() >= 1 ==> forall|j: int| 0 <= j < v.len() ==> v[j].vram_bytes <= #[trigger] r[0].vram_bytes,
{
    if r.len() >= 1 {
        let i = choose|i: int| 0 <= i < v.len() && sorted_position(v, i) == 0 && #[trigger] r[0] == v[i];
        assert forall|j: int| 0 <= j < v.len() implies v[j].vram_bytes <= #[trigger] r[0].vram_bytes by {
            if v[j].vram_bytes > v[i].vram_bytes {
                lemma_count_positive(v, i, j, v.len() as int);
            }
        }
    }
}

/// The index of the candidate with the most memory, the first one among
/// equals, leaving out the candidate at `skip` if one is given.
fn best_index(v: &Vec<GpuInfo>, skip: Option<usize>) -> (r: usize)
    requires
        v.len() >= 1,
        skip matches Some(s) ==> s < v.len() && v.len() >= 2,
    ensures
        r < v.len(),
        skip matches Some(s) ==> r != s,
        forall|j: int|
            0 <= j < v.len() && (skip matches Some(s) ==> j != s) ==> !goes_before(v@, j, r as int),
{
    let start: usize = match skip {
        Some(s) => if s == 0 { 1 } else { 0 },
        None => 0,
    };
    let mut best: usize = start;
    let mut i: usize = start + 1;
    while i < v.len()
        invariant
            start < i <= v.len() || (start + 1 == i),
            start <= best < i,
            best < v.len(),
            skip matches Some(s) ==> best != s,
            skip matches Some(s) ==> (s == 0 ==> start == 1) && (s != 0 ==> start == 0),
            skip is None ==> start == 0,
            forall|j: int|
                0 <= j < i && (skip matches Some(s) ==> j != s) ==> !goes_before(
                    v@,
                    j,
                    best as int,
                ),
        decreases v.len() - i,
    {
        let skipped = match skip {
            Some(s) => s == i,
            None => false,
        };
        let ghost old_best = best;
        if !skipped && v[i].vram_bytes > v[best].vram_bytes {
            best = i;
        }
        proof {
            assert forall|j: int|
                0 <= j < i + 1 && (skip matches Some(s) ==> j != s) implies !goes_before(
                v@,
                j,
                best as int,
            ) by {
                if j < i {
                    assert(!goes_before(v@, j, old_best as int));
                }
            }
        }
        i = i + 1;
    }
    best
}

/// The two cards with the most memory (fewer if fewer are given), the
/// larger first; among cards with equal memory the one reported first
/// is preferred.
pub fn select_gpus(candidates: Vec<GpuInfo>) -> (r: Vec<GpuInfo>)
    ensures
        is_top_two(candidates@, r@),
{
    let mut v = candidates;
    let ghost orig = v@;
    let n = v.len();
    if n == 0 {
        return v;
    }
    let b0 = best_index(&v, None);
    proof {
        lemma_count_none(orig, b0 as int, n as int);
    }
    if n == 1 {
        assert(orig[0] == v@[0]);
        return v;
    }
    let b1 = best_index(&v, Some(b0));
    proof {
        assert(!goes_before(orig, b1 as int, b0 as int));
        assert(goes_before(orig, b0 as int, b1 as int));
        lemma_count_one(orig, b1 as int, b0 as int, n as int);
    }
    let e1 = v.remove(b1);
    let b0_now = if b0 > b1 { b0 - 1 } else { b0 };
    assert(v@[b0_now as int] == orig[b0 as int]);
    let e0 = v.remove(b0_now);
    let mut r: Vec<GpuInfo> = Vec::new();
    r.push(e0);
    r.push(e1);
    proof {
        assert(r@[0] == orig[b0 as int]);
        assert(r@[1] == orig[b1 as int]);
    }
    r
}


// ---------------------------------------------------------------------
// The environment that presents the chosen cards
// ---------------------------------------------------------------------

/// Memory reported by the stub when no card reports any: 24 GiB.
pub const DEFAULT_VRAM_BYTES: u64 = 25769803776;

/// Total memory of the cards.
pub open spec fn vram_sum(g: Seq<GpuInfo>) -> int
    decreases g.len(),
{
    if g.len() == 0 {
        0
    } else {
        vram_sum(g.drop_last()) + g.last().vram_bytes
    }
}

/// The memory the environment reports: the total, or 24 GiB if that is zero.
pub open spec fn planned_vram(g: Seq<GpuInfo>) -> int {
    if vram_sum(g) == 0 {
        DEFAULT_VRAM_BYTES as int
    } else {
        vram_sum(g)
    }
}

/// The name that decides the mapping: the first card's, or `UNKNOWN`.
pub open spec fn primary_name(g: Seq<GpuInfo>) -> Seq<char> {
    if g.len() > 0 {
        g[0].name@
    } else {
        "UNKNOWN"@
    }
}

/// The mapping entry of the primary card.
pub open spec fn primary_mapping(g: Seq<GpuInfo>) -> (Seq<char>, Seq<char>, Seq<char>) {
    mapping_of(series_of(lowercased(primary_name(g))))
}

/// The name the cards are presented under.
pub open spec fn spoof_label(g: Seq<GpuInfo>) -> Seq<char> {
    if g.len() > 1 {
        primary_mapping(g).1 + " (Dual-GPU)"@
    } else {
        primary_mapping(g).1 + " (AMD Spoofed)"@
    }
}

/// The operating-system indices of the cards, separated by commas, or
/// `0` when there is no card.
pub open spec fn device_list(g: Seq<GpuInfo>) -> Seq<char> {
    if g.len() == 0 {
        "0"@
    } else {
        joined(g.map_values(|x: GpuInfo| decimal(x.os_index as nat)), ","@)
    }
}

/// What the environment says of the chosen cards: the memory reported is
/// the sum of the cards' memory (for two cards, the two added), or 24 GiB
/// when that sum is zero; the device list names each card's index in
/// order, separated by commas, and `0` when there is none; the presented
/// name is marked as dual exactly when there are two or more cards; and
/// without a card the mapping is decided on the name `UNKNOWN`.
pub proof fn lemma_environment_facts(g: Seq<GpuInfo>)
    ensures
        vram_sum(g) == 0 ==> planned_vram(g) == 25769803776,
        vram_sum(g) != 0 ==> planned_vram(g) == vram_sum(g),
        g.len() == 1 ==> vram_sum(g) == g[0].vram_bytes,
        g.len() == 2 ==> vram_sum(g) == g[0].vram_bytes + g[1].vram_bytes,
        g.len() == 0 ==> device_list(g) == "0"@ && primary_name(g) == "UNKNOWN"@,
        g.len() == 1 ==> device_list(g) == decimal(g[0].os_index as nat),
        g.len() == 2 ==> device_list(g) == decimal(g[0].os_index as nat) + ","@ + decimal(
            g[1].os_index as nat,
        ),
        g.len() > 0 ==> primary_name(g) == g[0].name@,
        g.len() >= 2 ==> spoof_label(g) == primary_mapping(g).1 + " (Dual-GPU)"@,
        g.len() < 2 ==> spoof_label(g) == primary_mapping(g).1 + " (AMD Spoofed)"@,
{
    if g.len() == 1 {
        assert(vram_sum(g.drop_last()) == 0);
        assert(g.last() == g[0]);
        let m = g.map_values(|x: GpuInfo| decimal(x.os_index as nat));
        assert(m.len() == 1);
    }
    if g.len() == 2 {
        let d = g.drop_last();
        assert(d.len() == 1 && d[0] == g[0] && d.last() == g[0]);
        assert(vram_sum(d.drop_last()) == 0);
        assert(vram_sum(d) == g[0].vram_bytes);
        assert(g.last() == g[1]);
        let m = g.map_values(|x: GpuInfo| decimal(x.os_index as nat));
        assert(m.drop_last().len() == 1);
        assert(m.drop_last()[0] == decimal(g[0].os_index as nat));
        assert(joined(m.drop_last(), ","@) == decimal(g[0].os_index as nat));
        assert(m.last() == decimal(g[1].os_index as nat));
    }
}

/// How the environment presents the chosen cards.
#[derive(Debug)]
pub struct EnvironmentPlan {
    /// Value of `HSA_OVERRIDE_GFX_VERSION`.
    pub gfx_version: String,
    /// The NVIDIA product name the cards are presented as.
    pub spoof_name: String,
    /// Value of `HSA_ENABLE_SDMA`.
    pub sdma: String,
    /// Value of `HIP_VISIBLE_DEVICES` and `ROCR_VISIBLE_DEVICES`.
    pub hip_devices: String,
    /// Memory the stub reports, in bytes.
    pub total_vram: u64,
    /// Number of devices the stub reports.
    pub gpu_count: usize,
}

fn device_list_of(gpus: &Vec<GpuInfo>) -> (r: String)
    ensures
        r@ == device_list(gpus@),
{
    if gpus.len() == 0 {
        return owned("0");
    }
    let ghost views = gpus@.map_values(|x: GpuInfo| decimal(x.os_index as nat));
    let mut out: Vec<char> = Vec::new();
    let mut i: usize = 0;
    assert(views.take(0) =~= Seq::<Seq<char>>::empty());
    while i < gpus.len()
        invariant
            i <= gpus.len(),
            views == gpus@.map_values(|x: GpuInfo| decimal(x.os_index as nat)),
            out@ == joined(views.take(i as int), ","@),
        decreases gpus.len() - i,
    {
        if i > 0 {
            append_str(&mut out, ",");
        }
        push_decimal(&mut out, gpus[i].os_index);
        proof {
            let next = views.take(i + 1);
            assert(next.drop_last() == views.take(i as int));
            assert(next.last() == decimal(gpus@[i as int].os_index as nat));
            if i == 0 {
                assert(next.len() == 1);
            }
        }
        i = i + 1;
    }
    assert(views.take(gpus.len() as int) == views);
    string_of(&out)
}

fn vram_total_of(gpus: &Vec<GpuInfo>) -> (r: u64)
    requires
        vram_sum(gpus@) <= u64::MAX,
    ensures
        r == vram_sum(gpus@),
{
    let mut total: u64 = 0;
    let mut i: usize = 0;
    while i < gpus.len()
        invariant
            i <= gpus.len(),
            vram_sum(gpus@) <= u64::MAX,
            total == vram_sum(gpus@.take(i as int)),
        decreases gpus.len() - i,
    {
        proof {
            lemma_vram_sum_prefix_bounded(gpus@, i as int + 1);
            assert(gpus@.take(i + 1).drop_last() == gpus@.take(i as int));
        }
        total = total + gpus[i].vram_bytes;
        i = i + 1;
    }
    assert(gpus@.take(gpus.len() as int) == gpus@);
    total
}

proof fn lemma_vram_sum_prefix_bounded(g: Seq<GpuInfo>, k: int)
    requires
        0 <= k <= g.len(),
    ensures
        vram_sum(g.take(k)) <= vram_sum(g),
    decreases g.len() - k,
{
    if k < g.len() {
        lemma_vram_sum_prefix_bounded(g, k + 1);
        assert(g.take(k + 1).drop_last() == g.take(k));
    } else {
        assert(g.take(k) == g);
    }
}

/// The environment for the chosen cards: the primary card's mapping, the
/// presented name (marked as dual when there are two or more cards), the
/// visible device list, the total memory and the device count (at least one).
pub fn plan_environment(gpus: &Vec<GpuInfo>) -> (r: EnvironmentPlan)
    requires
        vram_sum(gpus@) <= u64::MAX,
    ensures
        r.gfx_version@ == primary_mapping(gpus@).0,
        r.spoof_name@ == spoof_label(gpus@),
        r.sdma@ == primary_mapping(gpus@).2,
        r.hip_devices@ == device_list(gpus@),
        r.total_vram == planned_vram(gpus@),
        r.gpu_count == if gpus@.len() == 0 { 1 } else { gpus@.len() },
{
    let primary = if gpus.len() > 0 {
        to_lowercase(gpus[0].name.as_str())
    } else {
        to_lowercase("UNKNOWN")
    };
    let (gfx, base, sdma) = mapping_for_lowered(primary.as_str());
    let mut label = chars_of(base);
    if gpus.len() > 1 {
        append_str(&mut label, " (Dual-GPU)");
    } else {
        append_str(&mut label, " (AMD Spoofed)");
    }
    let mut total = vram_total_of(gpus);
    if total == 0 {
        total = DEFAULT_VRAM_BYTES;
    }
    let count = if gpus.len() == 0 { 1 } else { gpus.len() };
    EnvironmentPlan {
        gfx_version: owned(gfx),
        spoof_name: string_of(&label),
        sdma: owned(sdma),
        hip_devices: device_list_of(gpus),
        total_vram: total,
        gpu_count: count,
    }
}

/// The environment variables that present the cards, in the order they are set.
pub fn environment_variables(plan: &EnvironmentPlan) -> (r: Vec<(String, String)>)
    ensures
        r@.len() == 7,
        r@[0].0@ == "HSA_OVERRIDE_GFX_VERSION"@ && r@[0].1@ == plan.gfx_version@,
        r@[1].0@ == "HIP_VISIBLE_DEVICES"@ && r@[1].1@ == plan.hip_devices@,
        r@[2].0@ == "ROCR_VISIBLE_DEVICES"@ && r@[2].1@ == plan.hip_devices@,
        r@[3].0@ == "CUDA_VERSION"@ && r@[3].1@ == "12.4"@,
        r@[4].0@ == "NVIDIA_VISIBLE_DEVICES"@ && r@[4].1@ == "all"@,
        r@[5].0@ == "GHOST_SPOOF_NAME"@ && r@[5].1@ == plan.spoof_name@,
        r@[6].0@ == "HSA_ENABLE_SDMA"@ && r@[6].1@ == plan.sdma@,
{
    let mut r: Vec<(String, String)> = Vec::new();
    r.push((owned("HSA_OVERRIDE_GFX_VERSION"), string_of(&chars_of(plan.gfx_version.as_str()))));
    r.push((owned("HIP_VISIBLE_DEVICES"), string_of(&chars_of(plan.hip_devices.as_str()))));
    r.push((owned("ROCR_VISIBLE_DEVICES"), string_of(&chars_of(plan.hip_devices.as_str()))));
    r.push((owned("CUDA_VERSION"), owned("12.4")));
    r.push((owned("NVIDIA_VISIBLE_DEVICES"), owned("all")));
    r.push((owned("GHOST_SPOOF_NAME"), string_of(&chars_of(plan.spoof_name.as_str()))));
    r.push((owned("HSA_ENABLE_SDMA"), string_of(&chars_of(plan.sdma.as_str()))));
    r
}


/// The message that reports the active environment.
pub open spec fn banner_of(plan: EnvironmentPlan) -> Seq<char> {
    "[GHOST] Environment Active. "@ + decimal(plan.gpu_count as nat) + " GPU(s) Spoofed as "@
        + plan.spoof_name@ + ". GFX Masked to "@ + plan.gfx_version@ + "."@
}

/// Writes the message that reports the active environment.
pub fn environment_banner(plan: &EnvironmentPlan) -> (r: String)
    ensures
        r@ == banner_of(*plan),
{
    let mut v = chars_of("[GHOST] Environment Active. ");
    push_decimal(&mut v, plan.gpu_count as u64);
    append_str(&mut v, " GPU(s) Spoofed as ");
    append_str(&mut v, plan.spoof_name.as_str());
    append_str(&mut v, ". GFX Masked to ");
    append_str(&mut v, plan.gfx_version.as_str());
    append_str(&mut v, ".");
    string_of(&v)
}

} // verus!
