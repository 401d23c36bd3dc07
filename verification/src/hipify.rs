//! Translating CUDA sources to HIP: which files are translated, how they are
//! prepared and post-processed, and what the translation report says.
use vstd::prelude::*;
use crate::text::{
    append_str, chars_are, chars_of, contains_str, has_substr, lemma_substr_in_middle, replace_str, replaced,
    string_of,
};

verus! {

/// Directory levels below the source folder that are scanned (the folder
/// itself is level 0).
pub const MAX_SCAN_DEPTH: u32 = 4;

/// Whether a directory level is scanned: there is something left to visit
/// and the level is shallower than the limit.
pub fn scan_level(pending_dirs: usize, depth: u32) -> (r: bool)
    ensures
        r == (pending_dirs > 0 && depth < MAX_SCAN_DEPTH),
{
    pending_dirs > 0 && depth < MAX_SCAN_DEPTH
}

/// The name of the folder that receives the translations of folder `name`.
pub open spec fn output_folder_name_of(name: Seq<char>) -> Seq<char> {
    name + "_hip_out"@
}

/// Names the output folder.
pub fn output_folder_name(name: &str) -> (r: String)
    ensures
        r@ == output_folder_name_of(name@),
{
    let mut v = chars_of(name);
    append_str(&mut v, "_hip_out");
    string_of(&v)
}

/// Extensions of the files that are translated: CUDA C++ sources and
/// headers, and Python sources.
pub open spec fn is_cuda_source_ext(ext: Seq<char>) -> bool {
    ext == "cu"@ || ext == "cpp"@ || ext == "cuh"@ || ext == "h"@ || ext == "py"@
}

/// Whether a file with extension `ext` is translated.
pub fn is_cuda_source(ext: &str) -> (r: bool)
    ensures
        r == is_cuda_source_ext(ext@),
{
    let v = chars_of(ext);
    chars_are(&v, "cu") || chars_are(&v, "cpp") || chars_are(&v, "cuh") || chars_are(&v, "h")
        || chars_are(&v, "py")
}

/// A source with the cooperative-groups header and namespace commented out.
pub open spec fn without_cooperative_groups(src: Seq<char>) -> Seq<char> {
    replaced(
        replaced(src, "#include <cooperative_groups.h>"@, "// stripped cooperative_groups"@),
        "cooperative_groups::"@,
        "/*cg*/"@,
    )
}

/// Prepares a source for translation in aggressive mode.
pub fn strip_cooperative_groups(src: &str) -> (r: String)
    ensures
        r@ == without_cooperative_groups(src@),
{
    proof {
        reveal_strlit("#include <cooperative_groups.h>");
        reveal_strlit("cooperative_groups::");
    }
    let v = chars_of(src);
    let a = replace_str(&v, "#include <cooperative_groups.h>", "// stripped cooperative_groups");
    let b = replace_str(&a, "cooperative_groups::", "/*cg*/");
    string_of(&b)
}

/// A translation with the warp size replaced by the AMD wavefront size.
pub open spec fn with_wavefront_size(code: Seq<char>) -> Seq<char> {
    replaced(code, "warpSize"@, "__AMDGCN_WAVEFRONT_SIZE"@)
}

/// Post-processes the translator's output.
pub fn adapt_wavefront_size(code: &str) -> (r: String)
    ensures
        r@ == with_wavefront_size(code@),
{
    proof {
        reveal_strlit("warpSize");
    }
    let v = chars_of(code);
    let out = replace_str(&v, "warpSize", "__AMDGCN_WAVEFRONT_SIZE");
    string_of(&out)
}

/// What the translation of one file revealed.
#[derive(Clone, Copy, Debug, PartialEq, Eq, Structural)]
pub struct FileFindings {
    /// The translator reported a warning or an error.
    pub warning: bool,
    /// The translator stumbled on cooperative groups.
    pub needs_aggressive: bool,
    /// The translation holds inline assembly.
    pub inline_ptx: bool,
    /// The translation uses warp shuffles.
    pub warp_intrinsics: bool,
    /// The translation uses legacy texture references.
    pub texture_memory: bool,
}

/// The findings for a post-processed translation and the translator's messages.
pub open spec fn findings_of(code: Seq<char>, messages: Seq<char>) -> FileFindings {
    FileFindings {
        warning: has_substr(messages, "warning"@) || has_substr(messages, "error"@),
        needs_aggressive: has_substr(messages, "cooperative_groups"@),
        inline_ptx: has_substr(code, "asm("@) || has_substr(code, "asm volatile"@),
        warp_intrinsics: has_substr(code, "__shfl"@),
        texture_memory: has_substr(code, "texture<"@),
    }
}

/// What each sign in a translation reveals, wherever it stands: a warning
/// or an error in the translator's messages counts as a warning, mention of
/// cooperative groups there calls for the aggressive mode, and `asm(` or
/// `asm volatile`, `__shfl` and `texture<` in the translation mark inline
/// assembly, warp shuffles and texture references. Without its signs, a
/// finding is absent.
pub proof fn lemma_translation_signs(code: Seq<char>, messages: Seq<char>, before: Seq<char>, after: Seq<char>)
    ensures
        findings_of(code, before + "warning"@ + after).warning,
        findings_of(code, before + "error"@ + after).warning,
        findings_of(code, before + "cooperative_groups"@ + after).needs_aggressive,
        findings_of(before + "asm("@ + after, messages).inline_ptx,
        findings_of(before + "asm volatile"@ + after, messages).inline_ptx,
        findings_of(before + "__shfl"@ + after, messages).warp_intrinsics,
        findings_of(before + "texture<"@ + after, messages).texture_memory,
        !has_substr(messages, "warning"@) && !has_substr(messages, "error"@) ==> !findings_of(
            code,
            messages,
        ).warning,
        !has_substr(messages, "cooperative_groups"@) ==> !findings_of(code, messages).needs_aggressive,
        !has_substr(code, "asm("@) && !has_substr(code, "asm volatile"@) ==> !findings_of(
            code,
            messages,
        ).inline_ptx,
        !has_substr(code, "__shfl"@) ==> !findings_of(code, messages).warp_intrinsics,
        !has_substr(code, "texture<"@) ==> !findings_of(code, messages).texture_memory,
{
    lemma_substr_in_middle(before, "warning"@, after);
    lemma_substr_in_middle(before, "error"@, after);
    lemma_substr_in_middle(before, "cooperative_groups"@, after);
    lemma_substr_in_middle(before, "asm("@, after);
    lemma_substr_in_middle(before, "asm volatile"@, after);
    lemma_substr_in_middle(before, "__shfl"@, after);
    lemma_substr_in_middle(before, "texture<"@, after);
}

/// The translated extensions: `cu`, `cpp`, `cuh`, `h` and `py`, and no other.
pub proof fn lemma_translated_extensions(ext: Seq<char>)
    ensures
        is_cuda_source_ext("cu"@) && is_cuda_source_ext("cpp"@) && is_cuda_source_ext("cuh"@)
            && is_cuda_source_ext("h"@) && is_cuda_source_ext("py"@),
        ext != "cu"@ && ext != "cpp"@ && ext != "cuh"@ && ext != "h"@ && ext != "py"@
            ==> !is_cuda_source_ext(ext),
{
}

/// Examines a post-processed translation and the translator's messages.
pub fn examine_translation(code: &str, messages: &str) -> (r: FileFindings)
    ensures
        r == findings_of(code@, messages@),
{
    let c = chars_of(code);
    let m = chars_of(messages);
    FileFindings {
        warning: contains_str(&m, "warning") || contains_str(&m, "error"),
        needs_aggressive: contains_str(&m, "cooperative_groups"),
        inline_ptx: contains_str(&c, "asm(") || contains_str(&c, "asm volatile"),
        warp_intrinsics: contains_str(&c, "__shfl"),
        texture_memory: contains_str(&c, "texture<"),
    }
}

/// The running totals of a translation run.
#[derive(Clone, Copy, Debug, PartialEq, Eq, Structural)]
pub struct TranslationReport {
    /// Files translated.
    pub files_processed: u64,
    /// Files whose translation produced warnings or errors.
    pub warnings: u64,
    /// Some file stumbled on cooperative groups.
    pub needs_aggressive: bool,
    /// Some translation holds inline assembly.
    pub has_inline_ptx: bool,
    /// Some translation uses warp shuffles.
    pub has_warp_intrinsics: bool,
    /// Some translation uses legacy texture references.
    pub has_texture_mem: bool,
}

impl TranslationReport {
    /// A report counts no more warnings than files.
    pub open spec fn wf(&self) -> bool {
        self.warnings <= self.files_processed
    }

    /// A report before any file.
    pub fn new() -> (r: TranslationReport)
        ensures
            r.wf(),
            r.files_processed == 0,
            r.warnings == 0,
            !r.needs_aggressive && !r.has_inline_ptx && !r.has_warp_intrinsics
                && !r.has_texture_mem,
    {
        TranslationReport {
            files_processed: 0,
            warnings: 0,
            needs_aggressive: false,
            has_inline_ptx: false,
            has_warp_intrinsics: false,
            has_texture_mem: false,
        }
    }

    /// Adds one translated file to the report.
    pub fn record(&mut self, f: &FileFindings)
        requires
            old(self).wf(),
            old(self).files_processed < u64::MAX,
        ensures
            final(self).wf(),
            final(self).files_processed == old(self).files_processed + 1,
            final(self).warnings == old(self).warnings + if f.warning { 1u64 } else { 0u64 },
            final(self).needs_aggressive == (old(self).needs_aggressive || f.needs_aggressive),
            final(self).has_inline_ptx == (old(self).has_inline_ptx || f.inline_ptx),
            final(self).has_warp_intrinsics == (old(self).has_warp_intrinsics
                || f.warp_intrinsics),
            final(self).has_texture_mem == (old(self).has_texture_mem || f.texture_memory),
    {
        self.files_processed = self.files_processed + 1;
        if f.warning {
            self.warnings = self.warnings + 1;
        }
        if f.needs_aggressive {
            self.needs_aggressive = true;
        }
        if f.inline_ptx {
            self.has_inline_ptx = true;
        }
        if f.warp_intrinsics {
            self.has_warp_intrinsics = true;
        }
        if f.texture_memory {
            self.has_texture_mem = true;
        }
    }

    /// Whether to advise the aggressive mode: cooperative groups got in the
    /// way and the run was not aggressive already.
    pub fn suggests_aggressive(&self, aggressive: bool) -> (r: bool)
        ensures
            r == (self.needs_aggressive && !aggressive),
    {
        self.needs_aggressive && !aggressive
    }

    /// Whether some unsupported feature was found.
    pub fn has_unsupported(&self) -> (r: bool)
        ensures
            r == (self.has_inline_ptx || self.has_warp_intrinsics || self.has_texture_mem),
    {
        self.has_inline_ptx || self.has_warp_intrinsics || self.has_texture_mem
    }

    /// The advice lines for the unsupported features found: inline assembly,
    /// then warp shuffles, then texture references.
    pub open spec fn advice_of(&self) -> Seq<Seq<char>> {
        (if self.has_inline_ptx { seq![INLINE_PTX_ADVICE@] } else { seq![] }) + (
        if self.has_warp_intrinsics {
            seq![WARP_ADVICE@]
        } else {
            seq![]
        }) + (if self.has_texture_mem { seq![TEXTURE_ADVICE@] } else { seq![] })
    }

    /// The advice lines for the unsupported features found.
    pub fn unsupported_advice(&self) -> (r: Vec<String>)
        ensures
            r@.map_values(|x: String| x@) == self.advice_of(),
    {
        let mut r: Vec<String> = Vec::new();
        if self.has_inline_ptx {
            r.push(string_of(&chars_of(INLINE_PTX_ADVICE)));
        }
        if self.has_warp_intrinsics {
            r.push(string_of(&chars_of(WARP_ADVICE)));
        }
        if self.has_texture_mem {
            r.push(string_of(&chars_of(TEXTURE_ADVICE)));
        }
        assert(r@.map_values(|x: String| x@) =~= self.advice_of());
        r
    }
}

/// The advice names each unsupported feature that was found, once, and
/// nothing else: the assembly advice first, then the warp advice, then the
/// texture advice.
pub proof fn lemma_advice_lines(r: TranslationReport)
    ensures
        r.advice_of().contains(INLINE_PTX_ADVICE@) <==> r.has_inline_ptx,
        r.advice_of().contains(WARP_ADVICE@) <==> r.has_warp_intrinsics,
        r.advice_of().contains(TEXTURE_ADVICE@) <==> r.has_texture_mem,
        r.advice_of().len() == (if r.has_inline_ptx { 1int } else { 0int }) + (
        if r.has_warp_intrinsics {
            1int
        } else {
            0int
        }) + (if r.has_texture_mem { 1int } else { 0int }),
        r.has_inline_ptx ==> r.advice_of()[0] == INLINE_PTX_ADVICE@,
        r.has_texture_mem ==> r.advice_of().last() == TEXTURE_ADVICE@,
{
    broadcast use vstd::seq_lib::lemma_seq_concat_contains_all_elements;

    reveal_strlit("  - Inline PTX (Fix: Rewrite assembly using native HIP/C++ functions)");
    reveal_strlit(
        "  - Warp Intrinsics (Fix: AMD uses Wave64. Update warp size assumptions from 32 to __AMDGCN_WAVEFRONT_SIZE)",
    );
    reveal_strlit("  - Texture Memory (Fix: Replace legacy CUDA texture references with HIP texture objects)");
    assert(INLINE_PTX_ADVICE@[4] != WARP_ADVICE@[4]);
    assert(INLINE_PTX_ADVICE@[4] != TEXTURE_ADVICE@[4]);
    assert(WARP_ADVICE@[4] != TEXTURE_ADVICE@[4]);
    assert forall|x: Seq<char>, y: Seq<char>| #[trigger] seq![x].contains(y) <==> x == y by {
        if x == y {
            assert(seq![x][0] == y);
        }
    }
    assert forall|y: Seq<char>| !(#[trigger] Seq::<Seq<char>>::empty().contains(y)) by {}
}

/// Advice for inline assembly.
pub const INLINE_PTX_ADVICE: &'static str =
    "  - Inline PTX (Fix: Rewrite assembly using native HIP/C++ functions)";

/// Advice for warp shuffles.
pub const WARP_ADVICE: &'static str =
    "  - Warp Intrinsics (Fix: AMD uses Wave64. Update warp size assumptions from 32 to __AMDGCN_WAVEFRONT_SIZE)";

/// Advice for texture references.
pub const TEXTURE_ADVICE: &'static str =
    "  - Texture Memory (Fix: Replace legacy CUDA texture references with HIP texture objects)";

} // verus!
