use jldocset::bundle::{canonical_name, docset_dir_name, info_plist};

#[test]
fn canonical_name_strips_suffix() {
    assert_eq!(canonical_name("Foo.jl"), Some("Foo".to_string()));
    assert_eq!(canonical_name("DataFrames.jl"), Some("DataFrames".to_string()));
}

#[test]
fn canonical_name_rejects_other_directories() {
    assert_eq!(canonical_name("README"), None);
    assert_eq!(canonical_name("jl"), None);
    assert_eq!(canonical_name("Foo.JL"), None);
}

#[test]
fn docset_dir_name_appends_suffix() {
    assert_eq!(docset_dir_name("Foo"), "Foo.jl.docset");
}

#[test]
fn info_plist_exact_contents() {
    let expected = format!(
        "<?xml version=\"1.0\" encoding=\"UTF-8\"?>\n    \
         <!DOCTYPE plist PUBLIC \"-//Apple//DTD PLIST 1.0//EN\" \"http://www.apple.com/DTDs/PropertyList-1.0.dtd\">\n    \
         <plist version=\"1.0\">\n    \
         <dict>\n        \
         <key>CFBundleName</key>\n        \
         <string>{}.jl</string>\n        \
         <key>CFBundleIdentifier</key>\n        \
         <string>{}.jl</string>\n        \
         <key>DocSetPlatformFamily</key>\n        \
         <string>{}jl</string>\n        \
         <key>isDashDocset</key>\n        \
         <true/>\n        \
         <key>dashIndexFilePath</key>\n        \
         <string>index.html</string>\n        \
         <key>isJavaScriptEnabled</key>\n        \
         <false/>\n    \
         </dict>\n    \
         </plist>",
        "FooBar", "foobar", "foobar"
    );
    assert_eq!(info_plist("FooBar"), expected);
}

#[test]
fn info_plist_lowercases_identifiers() {
    let text = info_plist("Foo");
    assert!(text.contains("<string>Foo.jl</string>"));
    assert!(text.contains("<key>CFBundleIdentifier</key>\n        <string>foo.jl</string>"));
    assert!(text.contains("<key>DocSetPlatformFamily</key>\n        <string>foojl</string>"));
    assert!(text.contains("<string>index.html</string>"));
    assert!(text.contains("<false/>"));
}
