//! The file-selector side of the shell: the two fixed filter groups offered
//! by the picker, and a verified check that a path ends in one of the
//! supported extensions.

use vstd::prelude::*;
use vstd::string::StrSliceExecFns;

verus! {

/// The extensions of the document filter group.
pub open spec fn document_extensions_model() -> Seq<Seq<char>> {
    seq!["pdf"@]
}

/// The extensions of the image filter group.
pub open spec fn image_extensions_model() -> Seq<Seq<char>> {
    seq!["png"@, "jpg"@, "jpeg"@, "heic"@, "tiff"@, "webp"@]
}

/// Every extension the picker offers: the document group followed by the
/// image group.
pub open spec fn allowed_extensions() -> Seq<Seq<char>> {
    document_extensions_model() + image_extensions_model()
}

/// `path` ends in a dot followed by `ext`.
pub open spec fn has_extension(path: Seq<char>, ext: Seq<char>) -> bool {
    &&& path.len() > ext.len()
    &&& path[path.len() - ext.len() - 1] == '.'
    &&& path.subrange(path.len() - ext.len(), path.len() as int) == ext
}

/// `path` ends in a dot followed by one of the supported extensions.
pub open spec fn path_matches_allowed(path: Seq<char>) -> bool {
    exists|i: int|
        0 <= i < allowed_extensions().len() && has_extension(
            path,
            #[trigger] allowed_extensions()[i],
        )
}

/// The name under which the document filter group is shown.
pub fn document_filter_name() -> (name: &'static str)
    ensures
        name@ == "PDF Documents"@,
{
    "PDF Documents"
}

/// The extensions of the document filter group, as the picker takes them.
pub fn document_filter_extensions() -> (exts: Vec<&'static str>)
    ensures
        exts.deep_view() == document_extensions_model(),
{
    let mut exts: Vec<&'static str> = Vec::new();
    exts.push("pdf");
    proof {
        assert(exts.deep_view() =~= document_extensions_model());
    }
    exts
}

/// The name under which the image filter group is shown.
pub fn image_filter_name() -> (name: &'static str)
    ensures
        name@ == "Images"@,
{
    "Images"
}

/// The extensions of the image filter group, as the picker takes them.
pub fn image_filter_extensions() -> (exts: Vec<&'static str>)
    ensures
        exts.deep_view() == image_extensions_model(),
{
    let mut exts: Vec<&'static str> = Vec::new();
    exts.push("png");
    exts.push("jpg");
    exts.push("jpeg");
    exts.push("heic");
    exts.push("tiff");
    exts.push("webp");
    proof {
        assert(exts.deep_view() =~= image_extensions_model());
    }
    exts
}

/// Does `path` end in a dot followed by `ext`?
pub fn path_has_extension(path: &str, ext: &str) -> (r: bool)
    ensures
        r == has_extension(path@, ext@),
{
    let n = path.unicode_len();
    let m = ext.unicode_len();
    if n <= m {
        return false;
    }
    if path.get_char(n - m - 1) != '.' {
        return false;
    }
    let mut i: usize = 0;
    while i < m
        invariant
            i <= m,
            m < n,
            n == path@.len(),
            m == ext@.len(),
            forall|j: int| 0 <= j < i ==> path@[n - m + j] == ext@[j],
        decreases m - i,
    {
        if path.get_char(n - m + i) != ext.get_char(i) {
            proof {
                assert(path@.subrange(n - m, n as int)[i as int] != ext@[i as int]);
            }
            return false;
        }
        i += 1;
    }
    proof {
        assert(path@.subrange(n - m, n as int) =~= ext@);
    }
    true
}

/// Does `path` end in a dot followed by one of the given extensions?
fn matches_any(path: &str, exts: &Vec<&str>) -> (r: bool)
    ensures
        r == exists|i: int|
            0 <= i < exts.deep_view().len() && has_extension(
                path@,
                #[trigger] exts.deep_view()[i],
            ),
{
    let mut k: usize = 0;
    while k < exts.len()
        invariant
            k <= exts@.len(),
            forall|j: int| 0 <= j < k ==> !has_extension(path@, #[trigger] exts.deep_view()[j]),
        decreases exts@.len() - k,
    {
        if path_has_extension(path, exts[k]) {
            proof {
                assert(has_extension(path@, exts.deep_view()[k as int]));
            }
            return true;
        }
        k += 1;
    }
    false
}

/// Does `path` end in a dot followed by one of the supported extensions?
/// This re-checks what the picker's filter UI is trusted to enforce.
pub fn path_matches_filters(path: &str) -> (r: bool)
    ensures
        r == path_matches_allowed(path@),
{
    let mut exts = document_filter_extensions();
    let mut images = image_filter_extensions();
    exts.append(&mut images);
    proof {
        assert(exts.deep_view() =~= allowed_extensions());
    }
    matches_any(path, &exts)
}

/// Any path ending in a dot and a supported extension passes the filter
/// check.
pub proof fn lemma_supported_extension_matches(path: Seq<char>, ext: Seq<char>)
    requires
        allowed_extensions().contains(ext),
        has_extension(path, ext),
    ensures
        path_matches_allowed(path),
{
    let i = choose|i: int| 0 <= i < allowed_extensions().len() && allowed_extensions()[i] == ext;
    assert(has_extension(path, allowed_extensions()[i]));
}

} // verus!
