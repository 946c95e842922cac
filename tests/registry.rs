use eval_bot::language::LanguageRegistry;

#[test]
fn standard_codes_in_order() {
    let r = LanguageRegistry::standard();
    assert_eq!(r.list_codes(), vec!["rs", "cpp", "hs", "c", "py", "js", "sh", "go", "java"]);
}

#[test]
fn find_is_exact_match() {
    let r = LanguageRegistry::standard();
    let py = r.find("py").expect("py is supported");
    assert_eq!(py.code, "py");
    assert_eq!(py.run, "python3 main.py");
    assert!(r.find("PY").is_none());
    assert!(r.find("p").is_none());
    assert!(r.find("pyt").is_none());
    assert!(r.find("").is_none());
    assert!(r.find("kotlin").is_none());
}

#[test]
fn find_c_is_not_cpp() {
    let r = LanguageRegistry::standard();
    assert_eq!(r.find("c").unwrap().ext, "c");
    assert_eq!(r.find("cpp").unwrap().ext, "cc");
}

#[test]
fn available_languages_lists_codes() {
    let r = LanguageRegistry::standard();
    assert_eq!(
        r.available_languages(),
        "사용 가능한 언어:\nrs, cpp, hs, c, py, js, sh, go, java"
    );
}

#[test]
fn java_renames_before_compiling() {
    let r = LanguageRegistry::standard();
    let java = r.find("java").unwrap();
    assert_eq!(java.compile, vec!["mv main.java Main.java", "javac Main.java"]);
    assert!(java.run.ends_with(" Main"));
}

#[test]
fn js_has_no_build_step() {
    let r = LanguageRegistry::standard();
    let js = r.find("js").unwrap();
    assert!(js.compile.is_empty());
    assert_eq!(js.run, "node --max-old-space-size=2000 main.js");
}

#[test]
fn source_file_name_uses_extension() {
    let r = LanguageRegistry::standard();
    assert_eq!(r.find("cpp").unwrap().source_file_name(), "main.cc");
    assert_eq!(r.find("rs").unwrap().source_file_name(), "main.rs");
    assert_eq!(r.find("java").unwrap().source_file_name(), "main.java");
}
