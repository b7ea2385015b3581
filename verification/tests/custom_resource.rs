use kube_informer::custom_resource::{
    assemble, conclude, default_apiext, derive_paths, find_rejected, path_verdicts, printers,
    CustomResource, DeriveError, KubeAttrs, Scope,
};

fn run(ident: &str, attrs: KubeAttrs, schema: bool) -> Result<CustomResource, DeriveError> {
    kube_informer::custom_resource::derive(ident, attrs, schema)
}

fn strings(items: &[&str]) -> Vec<String> {
    items.iter().map(|s| String::from(*s)).collect()
}

fn foo() -> KubeAttrs {
    KubeAttrs {
        group: String::from("clux.dev"),
        version: String::from("v1"),
        kind: String::from("Foo"),
        kind_struct: None,
        plural: None,
        namespaced: true,
        apiextensions: default_apiext(),
        derives: vec![],
        status: None,
        shortnames: vec![],
        printcolums: vec![],
        scale: None,
    }
}

#[test]
fn default_apiext_is_v1() {
    assert_eq!(default_apiext(), "v1");
}

#[test]
fn scope_names() {
    assert_eq!(Scope::Namespaced.name(), "Namespaced");
    assert_eq!(Scope::Cluster.name(), "Cluster");
}

#[test]
fn struct_name_is_the_kind_unless_given() {
    assert_eq!(foo().struct_name(), "Foo");
    let attrs = KubeAttrs { kind_struct: Some(String::from("FooCrd")), ..foo() };
    assert_eq!(attrs.struct_name(), "FooCrd");
}

#[test]
fn derive_of_a_plain_declaration() {
    let cr = run("FooSpec", foo(), true).unwrap();
    assert_eq!(
        cr,
        CustomResource {
            struct_name: String::from("Foo"),
            spec_name: String::from("FooSpec"),
            status: None,
            has_default: false,
            derive_paths: strings(&[
                "::serde::Serialize",
                "::serde::Deserialize",
                "Clone",
                "Debug",
                "::schemars::JsonSchema",
            ]),
            schema_gen_enabled: true,
            docstr: String::from(" Auto-generated derived type for FooSpec via `CustomResource`"),
            group: String::from("clux.dev"),
            version: String::from("v1"),
            kind: String::from("Foo"),
            api_version: String::from("clux.dev/v1"),
            name: String::from("foo"),
            plural: String::from("foos"),
            scope: Scope::Namespaced,
            printers: String::from("[  ]"),
            scale_code: String::new(),
            apiextensions: String::from("v1"),
            short_json: String::from("[]"),
            crd_meta_name: String::from("foos.clux.dev"),
        }
    );
}

#[test]
fn derive_of_a_full_declaration() {
    let attrs = KubeAttrs {
        group: String::from("example.com"),
        version: String::from("v1alpha1"),
        kind: String::from("Geometry"),
        kind_struct: Some(String::from("GeometryResource")),
        plural: None,
        namespaced: false,
        apiextensions: String::from("v1beta1"),
        derives: strings(&["PartialEq", "Default", "std::hash::Hash"]),
        status: Some(String::from("GeometryStatus")),
        shortnames: strings(&["geo", "g\"q"]),
        printcolums: strings(&[
            r#"{"name":"Sides", "type":"integer", "jsonPath":".spec.sides"}"#,
            r#"{"name":"Age", "type":"date", "jsonPath":".metadata.creationTimestamp"}"#,
        ]),
        scale: Some(String::from(r#"{"specReplicasPath":".spec.replicas"}"#)),
    };
    let cr = run("Geometry", attrs, true).unwrap();
    assert_eq!(cr.struct_name, "GeometryResource");
    assert_eq!(cr.spec_name, "Geometry");
    assert_eq!(cr.status, Some(String::from("GeometryStatus")));
    assert!(cr.has_default);
    assert_eq!(
        cr.derive_paths,
        strings(&["::serde::Serialize", "::serde::Deserialize", "Clone", "Debug", "PartialEq", "std::hash::Hash"])
    );
    assert!(!cr.schema_gen_enabled);
    assert_eq!(cr.docstr, " Auto-generated derived type for Geometry via `CustomResource`");
    assert_eq!(cr.api_version, "example.com/v1alpha1");
    assert_eq!(cr.name, "geometry");
    assert_eq!(cr.plural, "geometries");
    assert_eq!(cr.scope, Scope::Cluster);
    assert_eq!(
        cr.printers,
        r#"[ {"name":"Sides", "type":"integer", "JSONPath":".spec.sides"},{"name":"Age", "type":"date", "JSONPath":".metadata.creationTimestamp"} ]"#
    );
    assert_eq!(cr.scale_code, r#"{"specReplicasPath":".spec.replicas"}"#);
    assert_eq!(cr.apiextensions, "v1beta1");
    assert_eq!(cr.short_json, r#"["geo","g\"q"]"#);
    assert_eq!(cr.crd_meta_name, "geometries.example.com");
}

#[test]
fn derive_refuses_a_kind_that_is_the_struct_name() {
    assert_eq!(run("Foo", foo(), true), Err(DeriveError::KindIsStructName));
    let attrs = KubeAttrs { kind_struct: Some(String::from("Bar")), ..foo() };
    assert_eq!(run("Bar", attrs, false), Err(DeriveError::KindIsStructName));
    let attrs = KubeAttrs { kind_struct: Some(String::from("Bar")), ..foo() };
    assert!(run("Foo", attrs, false).is_ok());
}

#[test]
fn derive_checks_the_name_before_the_derives() {
    let attrs = KubeAttrs { derives: strings(&["not a path"]), ..foo() };
    assert_eq!(run("Foo", attrs, true), Err(DeriveError::KindIsStructName));
}

#[test]
fn derive_refuses_a_derive_that_is_no_path() {
    let attrs = KubeAttrs { derives: strings(&["PartialEq", "not a path", "also bad!"]), ..foo() };
    assert_eq!(run("FooSpec", attrs, true), Err(DeriveError::InvalidDerive(1)));
    let attrs = KubeAttrs { derives: strings(&["Default", "1x"]), ..foo() };
    assert_eq!(run("FooSpec", attrs, true), Err(DeriveError::InvalidDerive(1)));
    let attrs = KubeAttrs { derives: strings(&[""]), ..foo() };
    assert_eq!(run("FooSpec", attrs, true), Err(DeriveError::InvalidDerive(0)));
}

#[test]
fn path_verdicts_tell_paths_from_other_text() {
    assert_eq!(path_verdicts(&strings(&[])), Vec::<bool>::new());
    assert_eq!(
        path_verdicts(&strings(&["PartialEq", "::std::hash::Hash", "a b", "", "1x", "serde::Serialize", "Vec<u8>", "a::"])),
        vec![true, true, false, false, false, true, true, false]
    );
}

#[test]
fn find_rejected_gives_the_first_derive_that_was_not_accepted() {
    assert_eq!(find_rejected(&strings(&[]), &vec![]), None);
    assert_eq!(find_rejected(&strings(&["A", "B", "C"]), &vec![true, true, true]), None);
    assert_eq!(find_rejected(&strings(&["A", "B", "C"]), &vec![true, false, false]), Some(1));
    assert_eq!(find_rejected(&strings(&["A", "B", "C"]), &vec![false, false, false]), Some(0));
    assert_eq!(find_rejected(&strings(&["A", "B", "C"]), &vec![true, true, false]), Some(2));
}

#[test]
fn find_rejected_never_turns_default_down() {
    assert_eq!(find_rejected(&strings(&["Default", "Default"]), &vec![false, false]), None);
    assert_eq!(find_rejected(&strings(&["Default", "B"]), &vec![false, false]), Some(1));
    assert_eq!(find_rejected(&strings(&["A", "Default"]), &vec![true, false]), None);
}

#[test]
fn find_rejected_counts_a_missing_verdict_as_not_accepted() {
    assert_eq!(find_rejected(&strings(&["A", "B"]), &vec![true]), Some(1));
    assert_eq!(find_rejected(&strings(&["A", "B"]), &vec![]), Some(0));
    assert_eq!(find_rejected(&strings(&["A", "Default"]), &vec![true]), None);
    assert_eq!(find_rejected(&strings(&["A"]), &vec![true, false, false]), None);
}

#[test]
fn conclude_looks_at_the_name_then_the_derives_then_the_short_names() {
    let attrs = || KubeAttrs { derives: strings(&["A", "B"]), ..foo() };
    let plural = || String::from("foos");
    assert_eq!(
        conclude("Foo", attrs(), true, &vec![false, false], plural(), None),
        Err(DeriveError::KindIsStructName)
    );
    assert_eq!(
        conclude("FooSpec", attrs(), true, &vec![true, false], plural(), None),
        Err(DeriveError::InvalidDerive(1))
    );
    assert_eq!(
        conclude("FooSpec", attrs(), true, &vec![true, true], plural(), None),
        Err(DeriveError::ShortNames)
    );
    let cr = conclude("FooSpec", attrs(), true, &vec![true, true], plural(), Some(String::from("[]"))).unwrap();
    assert_eq!(cr.plural, "foos");
    assert_eq!(cr.short_json, "[]");
    assert_eq!(cr.derive_paths.len(), 7);
}

#[test]
fn conclude_prefers_the_given_plural_to_the_inferred_one() {
    let attrs = KubeAttrs { plural: Some(String::from("fooz")), ..foo() };
    let cr = conclude("FooSpec", attrs, false, &vec![], String::from("foos"), Some(String::from("[]"))).unwrap();
    assert_eq!(cr.plural, "fooz");
    assert_eq!(cr.crd_meta_name, "fooz.clux.dev");
    let cr = conclude("FooSpec", foo(), false, &vec![], String::from("foos"), Some(String::from("[]"))).unwrap();
    assert_eq!(cr.plural, "foos");
    assert_eq!(cr.crd_meta_name, "foos.clux.dev");
}

#[test]
fn has_status_follows_the_status_type() {
    assert!(!run("FooSpec", foo(), true).unwrap().has_status());
    let attrs = KubeAttrs { status: Some(String::from("FooStatus")), ..foo() };
    let cr = run("FooSpec", attrs, true).unwrap();
    assert!(cr.has_status());
    assert_eq!(cr.status, Some(String::from("FooStatus")));
}

#[test]
fn error_messages() {
    assert_eq!(
        DeriveError::KindIsStructName.message(),
        "#[derive(CustomResource)] `kind = \"...\"` must not equal the struct name (this is generated)"
    );
    assert_eq!(DeriveError::InvalidDerive(3).message(), "a derive must be a path");
    assert_eq!(DeriveError::ShortNames.message(), "the short names cannot be written as JSON");
}

#[test]
fn derive_keeps_a_given_plural() {
    let attrs = KubeAttrs { plural: Some(String::from("fooz")), ..foo() };
    let cr = run("FooSpec", attrs, true).unwrap();
    assert_eq!(cr.plural, "fooz");
    assert_eq!(cr.crd_meta_name, "fooz.clux.dev");
    assert_eq!(cr.name, "foo");
}

#[test]
fn derive_infers_the_plural_of_the_lower_case_kind() {
    for (kind, plural) in [("Foo", "foos"), ("ConfigMap", "configmaps"), ("Ox", "oxen"), ("Box", "boxes"), ("Policy", "policies")] {
        let attrs = KubeAttrs { kind: String::from(kind), ..foo() };
        let cr = run("TheSpec", attrs, false).unwrap();
        assert_eq!(cr.plural, plural);
        assert_eq!(cr.crd_meta_name, format!("{}.clux.dev", plural));
    }
}

#[test]
fn derive_generates_a_schema_for_v1_only_with_schema_support() {
    assert!(run("FooSpec", foo(), true).unwrap().schema_gen_enabled);
    let cr = run("FooSpec", foo(), false).unwrap();
    assert!(!cr.schema_gen_enabled);
    assert_eq!(cr.derive_paths, strings(&["::serde::Serialize", "::serde::Deserialize", "Clone", "Debug"]));
    let attrs = KubeAttrs { apiextensions: String::from("v1beta1"), ..foo() };
    assert!(!run("FooSpec", attrs, true).unwrap().schema_gen_enabled);
}

#[test]
fn derive_writes_short_names_as_json() {
    let attrs = KubeAttrs { shortnames: strings(&["f", "fo"]), ..foo() };
    assert_eq!(run("FooSpec", attrs, true).unwrap().short_json, r#"["f","fo"]"#);
}

#[test]
fn derive_scope_follows_namespaced() {
    assert_eq!(run("FooSpec", foo(), true).unwrap().scope, Scope::Namespaced);
    let attrs = KubeAttrs { namespaced: false, ..foo() };
    assert_eq!(run("FooSpec", attrs, true).unwrap().scope, Scope::Cluster);
}

#[test]
fn derive_paths_drop_default_and_keep_the_order() {
    assert_eq!(
        derive_paths(&strings(&["B", "Default", "A", "Default", "C"]), false),
        (strings(&["::serde::Serialize", "::serde::Deserialize", "Clone", "Debug", "B", "A", "C"]), true)
    );
    assert_eq!(
        derive_paths(&strings(&[]), true),
        (strings(&["::serde::Serialize", "::serde::Deserialize", "Clone", "Debug", "::schemars::JsonSchema"]), false)
    );
    assert_eq!(
        derive_paths(&strings(&["default"]), false),
        (strings(&["::serde::Serialize", "::serde::Deserialize", "Clone", "Debug", "default"]), false)
    );
}

#[test]
fn printers_are_spelled_for_the_api_version() {
    let columns = strings(&[r#"{"jsonPath":".a"}"#, r#"{"jsonPath":".b"}"#]);
    assert_eq!(printers(&columns, "v1"), r#"[ {"jsonPath":".a"},{"jsonPath":".b"} ]"#);
    assert_eq!(printers(&columns, "v1beta1"), r#"[ {"JSONPath":".a"},{"JSONPath":".b"} ]"#);
    assert_eq!(printers(&columns, "v2"), r#"[ {"jsonPath":".a"},{"jsonPath":".b"} ]"#);
    assert_eq!(printers(&strings(&[]), "v1beta1"), "[  ]");
}

#[test]
fn assemble_uses_the_plural_and_short_names_it_is_given() {
    let cr = assemble("FooSpec", foo(), false, String::from("feet"), String::from("[\"x\"]"));
    assert_eq!(cr.plural, "feet");
    assert_eq!(cr.crd_meta_name, "feet.clux.dev");
    assert_eq!(cr.short_json, "[\"x\"]");
    assert_eq!(cr.name, "foo");
    assert_eq!(cr.struct_name, "Foo");
    assert_eq!(cr.api_version, "clux.dev/v1");
}

#[test]
fn is_v1_tells_the_layout_of_the_definition() {
    assert!(run("FooSpec", foo(), true).unwrap().is_v1());
    let attrs = KubeAttrs { apiextensions: String::from("v1beta1"), ..foo() };
    assert!(!run("FooSpec", attrs, true).unwrap().is_v1());
    let attrs = KubeAttrs { apiextensions: String::from("V1"), ..foo() };
    assert!(!run("FooSpec", attrs, true).unwrap().is_v1());
}

#[test]
fn derive_accepts_every_declaration_with_a_free_name_and_no_derive_but_default() {
    for derives in [vec![], strings(&["Default"]), strings(&["Default", "Default"])] {
        for shortnames in [vec![], strings(&["f"]), strings(&["a\"b", "\u{1}\n\\", "é"])] {
            let attrs = KubeAttrs { derives: derives.clone(), shortnames: shortnames.clone(), ..foo() };
            let cr = run("FooSpec", attrs, true).unwrap();
            assert_eq!(cr.has_default, !derives.is_empty());
            assert_eq!(cr.derive_paths.len(), 5);
        }
    }
}

#[test]
fn derive_writes_every_list_of_short_names() {
    let attrs = KubeAttrs { shortnames: strings(&["a\"b", "tab\there", "", "é√"]), ..foo() };
    let cr = run("FooSpec", attrs, false).unwrap();
    assert_eq!(cr.short_json, "[\"a\\\"b\",\"tab\\there\",\"\",\"é√\"]");
}

#[test]
fn derive_never_answers_with_short_names() {
    let lists = [strings(&[]), strings(&["x"]), strings(&["\u{0}", "\u{7f}", "\u{10ffff}"])];
    for shortnames in lists {
        let attrs = KubeAttrs { shortnames, derives: strings(&["PartialEq", "bad one"]), ..foo() };
        assert_eq!(run("FooSpec", attrs, true), Err(DeriveError::InvalidDerive(1)));
    }
}
