//! Bundle naming and the bundle's metadata descriptor.
//!
//! A package is discovered as a directory named `<Name>.jl`; its
//! canonical name is the directory name with that suffix stripped, and
//! its bundle directory is named `<Name>.jl.docset`. The descriptor is a
//! fixed-schema property list parameterized only by the canonical name.

use vstd::prelude::*;
use vstd::string::StrSliceExecFns;
use vstd::string::StringExecFns;

verus! {

/// What str::to_lowercase returns on a string with these characters.
pub uninterp spec fn lower_of(s: Seq<char>) -> Seq<char>;

/// Relies on str::to_lowercase: the lower-cased form of the string; the
/// result depends on the characters alone.
#[verifier::external_body]
fn lowercase(s: &str) -> (r: String)
    ensures
        r@ == lower_of(s@),
{
    s.to_lowercase()
}

/// Whether a directory name carries the fixed `.jl` package suffix.
pub open spec fn spec_has_package_suffix(s: Seq<char>) -> bool {
    s.len() >= 3 && s[s.len() - 3] == '.' && s[s.len() - 2] == 'j' && s[s.len() - 1] == 'l'
}

/// The canonical package name: the directory name with its `.jl`
/// suffix stripped; nothing for a directory that is no package.
pub fn canonical_name(dir_name: &str) -> (r: Option<String>)
    ensures
        r is Some <==> spec_has_package_suffix(dir_name@),
        r is Some ==> (r->0)@ == dir_name@.subrange(0, dir_name@.len() - 3),
{
    let n: usize = dir_name.unicode_len();
    if n >= 3 && dir_name.get_char(n - 3) == '.' && dir_name.get_char(n - 2) == 'j'
        && dir_name.get_char(n - 1) == 'l' {
        Some(String::from_str(dir_name.substring_char(0, n - 3)))
    } else {
        None
    }
}

/// The name of the bundle directory built for a package.
pub fn docset_dir_name(name: &str) -> (r: String)
    ensures
        r@ == name@ + ".jl.docset"@,
{
    String::from_str(name).concat(".jl.docset")
}

/// The descriptor's text as a function of the canonical name and its
/// lower-cased form: the name fills the bundle-name field, the
/// lower-cased form the two identifier fields.
pub open spec fn spec_info_plist(name: Seq<char>, lower: Seq<char>) -> Seq<char> {
    "<?xml version=\"1.0\" encoding=\"UTF-8\"?>\n    <!DOCTYPE plist PUBLIC \"-//Apple//DTD PLIST 1.0//EN\" \"http://www.apple.com/DTDs/PropertyList-1.0.dtd\">\n    <plist version=\"1.0\">\n    <dict>\n        <key>CFBundleName</key>\n        <string>"@
        + name
        + ".jl</string>\n        <key>CFBundleIdentifier</key>\n        <string>"@
        + lower
        + ".jl</string>\n        <key>DocSetPlatformFamily</key>\n        <string>"@
        + lower
        + "jl</string>\n        <key>isDashDocset</key>\n        <true/>\n        <key>dashIndexFilePath</key>\n        <string>index.html</string>\n        <key>isJavaScriptEnabled</key>\n        <false/>\n    </dict>\n    </plist>"@
}

/// Builds the bundle's metadata descriptor for a package: a fixed
/// property list naming the bundle after the package, identifying it by
/// the lower-cased name, marking it as a viewer-native docset with start
/// page `index.html` and script execution disabled.
pub fn info_plist(name: &str) -> (r: String)
    ensures
        r@ == spec_info_plist(name@, lower_of(name@)),
{
    let lower = lowercase(name);
    String::from_str(
        "<?xml version=\"1.0\" encoding=\"UTF-8\"?>\n    <!DOCTYPE plist PUBLIC \"-//Apple//DTD PLIST 1.0//EN\" \"http://www.apple.com/DTDs/PropertyList-1.0.dtd\">\n    <plist version=\"1.0\">\n    <dict>\n        <key>CFBundleName</key>\n        <string>",
    ).concat(name).concat(
        ".jl</string>\n        <key>CFBundleIdentifier</key>\n        <string>",
    ).concat(lower.as_str()).concat(
        ".jl</string>\n        <key>DocSetPlatformFamily</key>\n        <string>",
    ).concat(lower.as_str()).concat(
        "jl</string>\n        <key>isDashDocset</key>\n        <true/>\n        <key>dashIndexFilePath</key>\n        <string>index.html</string>\n        <key>isJavaScriptEnabled</key>\n        <false/>\n    </dict>\n    </plist>",
    )
}

} // verus!
