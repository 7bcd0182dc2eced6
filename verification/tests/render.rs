use test_attr::{
    expand, write_each, write_fixture, write_fixtures, write_placeholders, write_separated,
    FixtureRecord, GeneratedFunction, MigrationsDir, Project, ProjectFile, TestFn,
};

fn record(name: &str, contents: &str) -> FixtureRecord {
    FixtureRecord {
        name: name.to_string(),
        path: format!("fixtures/{}.sql", name),
        contents: contents.to_string(),
    }
}

fn tokens(source: &str) -> String {
    source.parse::<proc_macro2::TokenStream>().unwrap().to_string()
}

#[test]
fn each_item_gets_its_end() {
    assert_eq!(write_each(&Vec::new(), ", "), "");
    assert_eq!(write_each(&vec!["a: A".to_string()], ", "), "a: A, ");
    assert_eq!(
        write_each(&vec!["#[a]".to_string(), "#[b]".to_string()], "\n"),
        "#[a]\n#[b]\n"
    );
}

#[test]
fn separator_stands_between_items_only() {
    assert_eq!(write_separated(&Vec::new(), ", "), "");
    assert_eq!(write_separated(&vec!["a: A".to_string()], ", "), "a: A");
    assert_eq!(
        write_separated(&vec!["a: A".to_string(), "b: B".to_string(), "c: C".to_string()], ", "),
        "a: A, b: B, c: C"
    );
    assert_eq!(write_separated(&vec![String::new(), String::new()], "-"), "-");
}

#[test]
fn one_placeholder_for_each_parameter() {
    assert_eq!(write_placeholders(0), "");
    assert_eq!(write_placeholders(1), "_");
    assert_eq!(write_placeholders(2), "_, _");
    assert_eq!(write_placeholders(3), "_, _, _");
}

#[test]
fn fixture_is_written_with_its_path_twice() {
    assert_eq!(
        write_fixture("\"fixtures/users.sql\""),
        "::sqlx::testing::TestFixture { path: \"fixtures/users.sql\", contents: include_str!(\"fixtures/users.sql\"), }"
    );
    assert_eq!(
        record("users", "INSERT").render(),
        "::sqlx::testing::TestFixture { path: \"fixtures/users.sql\", contents: include_str!(\"fixtures/users.sql\"), }"
    );
    assert_eq!(write_fixtures(&Vec::new()), "");
    assert_eq!(
        write_fixtures(&vec![record("a", "A"), record("b", "")]),
        "::sqlx::testing::TestFixture { path: \"fixtures/a.sql\", contents: include_str!(\"fixtures/a.sql\"), }, \
         ::sqlx::testing::TestFixture { path: \"fixtures/b.sql\", contents: include_str!(\"fixtures/b.sql\"), }"
    );
}

#[test]
fn path_is_written_as_a_string_literal() {
    for name in ["users", "a\"b", "a\\b", "line\nfeed\ttab", "nul\0", "nul\u{0}7", "ünï 🙂", "'q'"] {
        let fixture = record(name, "");
        let written = fixture.render();
        let path = format!("fixtures/{}.sql", name);
        let literal = proc_macro2::Literal::string(&path).to_string();
        assert_eq!(written, write_fixture(&literal));
        let parsed = syn::parse_str::<syn::ExprStruct>(&written).unwrap();
        let syn::Expr::Lit(syn::ExprLit { lit: syn::Lit::Str(read), .. }) = &parsed.fields[0].expr
        else {
            panic!("expected a string literal for the path of {:?}", name);
        };
        assert_eq!(read.value(), path);
    }
    assert_eq!(
        record("a\"b\\c", "").render(),
        "::sqlx::testing::TestFixture { path: \"fixtures/a\\\"b\\\\c.sql\", contents: include_str!(\"fixtures/a\\\"b\\\\c.sql\"), }"
    );
}

#[test]
fn signature_keeps_attributes_name_and_return_type() {
    let function = TestFn {
        attrs: vec!["#[ignore]".to_string()],
        name: "it_works".to_string(),
        inputs: vec!["pool: PgPool".to_string()],
        output: "-> R".to_string(),
        body: "{ }".to_string(),
    };
    assert_eq!(
        function.render_signature(),
        "#[::core::prelude::v1::test]\n#[ignore]\nfn it_works() -> R {\n"
    );
}

#[test]
fn simple_entry_point_source() {
    let generated = GeneratedFunction::Simple {
        function: TestFn {
            attrs: vec!["#[ignore]".to_string(), "#[should_panic]".to_string()],
            name: "it_works".to_string(),
            inputs: Vec::new(),
            output: "-> anyhow::Result<()>".to_string(),
            body: "{ Ok(()) }".to_string(),
        },
    };
    assert_eq!(
        generated.render(),
        "#[::core::prelude::v1::test]\n\
         #[ignore]\n\
         #[should_panic]\n\
         fn it_works() -> anyhow::Result<()> {\n    \
             ::sqlx::test_block_on(async { { Ok(()) } })\n\
         }\n"
    );
}

#[test]
fn managed_entry_point_source() {
    let generated = GeneratedFunction::Managed {
        function: TestFn {
            attrs: Vec::new(),
            name: "it_connects".to_string(),
            inputs: vec!["pool: PgPool".to_string(), "n: u8".to_string()],
            output: String::new(),
            body: "{ pool.close().await; }".to_string(),
        },
        migrator: Some("crate :: M".to_string()),
        fixtures: vec![record("users", "INSERT"), record("posts", "INSERT")],
    };
    assert_eq!(
        generated.render(),
        "#[::core::prelude::v1::test]\n\
         fn it_connects()  {\n    \
             async fn inner(pool: PgPool, n: u8)  { { pool.close().await; } }\n    \
             let mut args = ::sqlx::testing::TestArgs::new(concat!(module_path!(), \"::\", stringify!(it_connects)));\n    \
             args.migrator(&crate :: M);\n    \
             args.fixtures(&[::sqlx::testing::TestFixture { path: \"fixtures/users.sql\", contents: include_str!(\"fixtures/users.sql\"), }, \
             ::sqlx::testing::TestFixture { path: \"fixtures/posts.sql\", contents: include_str!(\"fixtures/posts.sql\"), }]);\n    \
             let f: fn(_, _) -> _ = inner;\n    \
             ::sqlx::testing::TestFn::run_test(f, args)\n\
         }\n"
    );
}

#[test]
fn managed_entry_point_without_setup_source() {
    let generated = GeneratedFunction::Managed {
        function: TestFn {
            attrs: Vec::new(),
            name: "t".to_string(),
            inputs: vec!["c: C".to_string()],
            output: "-> R".to_string(),
            body: "{ }".to_string(),
        },
        migrator: None,
        fixtures: Vec::new(),
    };
    assert_eq!(
        generated.render(),
        "#[::core::prelude::v1::test]\n\
         fn t() -> R {\n    \
             async fn inner(c: C) -> R { { } }\n    \
             let mut args = ::sqlx::testing::TestArgs::new(concat!(module_path!(), \"::\", stringify!(t)));\n    \
             args.fixtures(&[]);\n    \
             let f: fn(_) -> _ = inner;\n    \
             ::sqlx::testing::TestFn::run_test(f, args)\n\
         }\n"
    );
}

#[test]
fn managed_entry_point_has_the_expected_tokens() {
    let function = TestFn {
        attrs: Vec::new(),
        name: "t".to_string(),
        inputs: vec!["pool : Pool".to_string()],
        output: String::new(),
        body: "{ }".to_string(),
    };
    let generated =
        expand(r#"migrator = "a::B""#, function.clone(), &Project::new(true)).unwrap();
    assert_eq!(
        tokens(&generated.render()),
        tokens(
            "#[::core::prelude::v1::test] \
             fn t() { \
                 async fn inner(pool: Pool) { { } } \
                 let mut args = ::sqlx::testing::TestArgs::new(concat!(module_path!(), \"::\", stringify!(t))); \
                 args.migrator(&a::B); \
                 args.fixtures(&[]); \
                 let f: fn(_) -> _ = inner; \
                 ::sqlx::testing::TestFn::run_test(f, args) \
             }"
        )
    );

    let project = Project {
        migrate: true,
        files: vec![
            ProjectFile { path: "fixtures/users.sql".to_string(), contents: "U".to_string() },
            ProjectFile { path: "fixtures/posts.sql".to_string(), contents: "P".to_string() },
        ],
        migrations: vec![MigrationsDir {
            path: "./migrations".to_string(),
            migrator: Ok("MIGRATOR".to_string()),
        }],
    };
    let two = TestFn { inputs: vec!["a : A".to_string(), "b : B".to_string()], ..function };
    let generated = expand(r#"fixtures("users", "posts")"#, two, &project).unwrap();
    assert_eq!(
        tokens(&generated.render()),
        tokens(
            "#[::core::prelude::v1::test] \
             fn t() { \
                 async fn inner(a: A, b: B) { { } } \
                 let mut args = ::sqlx::testing::TestArgs::new(concat!(module_path!(), \"::\", stringify!(t))); \
                 args.migrator(&MIGRATOR); \
                 args.fixtures(&[ \
                     ::sqlx::testing::TestFixture { \
                         path: \"fixtures/users.sql\", \
                         contents: include_str!(\"fixtures/users.sql\"), \
                     }, \
                     ::sqlx::testing::TestFixture { \
                         path: \"fixtures/posts.sql\", \
                         contents: include_str!(\"fixtures/posts.sql\"), \
                     } \
                 ]); \
                 let f: fn(_, _) -> _ = inner; \
                 ::sqlx::testing::TestFn::run_test(f, args) \
             }"
        )
    );
}

#[test]
fn simple_entry_point_has_the_expected_tokens() {
    let function = TestFn {
        attrs: vec!["#[ignore]".to_string()],
        name: "t".to_string(),
        inputs: Vec::new(),
        output: "-> R".to_string(),
        body: "{ run() }".to_string(),
    };
    let generated = expand("", function, &Project::new(false)).unwrap();
    assert_eq!(
        tokens(&generated.render()),
        tokens(
            "#[::core::prelude::v1::test] #[ignore] \
             fn t() -> R { ::sqlx::test_block_on(async { { run() } }) }"
        )
    );
}

#[test]
fn generated_source_is_a_function() {
    let project = Project {
        migrate: true,
        files: vec![ProjectFile {
            path: "fixtures/us\"ers.sql".to_string(),
            contents: "INSERT INTO t VALUES ('\\', \"q\");\r\n".to_string(),
        }],
        migrations: vec![MigrationsDir {
            path: "./migrations".to_string(),
            migrator: Ok("::sqlx::migrate::Migrator::DEFAULT".to_string()),
        }],
    };
    let function = TestFn {
        attrs: vec!["#[ignore = \"slow\"]".to_string()],
        name: "it_connects".to_string(),
        inputs: vec!["pool: PgPool".to_string(), "mut n: u8".to_string()],
        output: "-> anyhow::Result<()>".to_string(),
        body: "{ let _ = (pool, n); Ok(()) }".to_string(),
    };
    let generated = expand(r#"fixtures("us\"ers")"#, function, &project).unwrap();
    let item = syn::parse_str::<syn::ItemFn>(&generated.render()).unwrap();
    assert_eq!(item.sig.ident.to_string(), "it_connects");
    assert!(item.sig.inputs.is_empty());
    assert_eq!(item.attrs.len(), 2);
    assert_eq!(item.block.stmts.len(), 6);
    let syn::Stmt::Item(syn::Item::Fn(inner)) = &item.block.stmts[0] else {
        panic!("expected the inner function first");
    };
    assert_eq!(inner.sig.inputs.len(), 2);
    assert!(!inner.sig.inputs.trailing_punct());

    let plain = TestFn {
        attrs: Vec::new(),
        name: "it_works".to_string(),
        inputs: Vec::new(),
        output: String::new(),
        body: "{ assert!(true); }".to_string(),
    };
    let generated = expand("", plain, &project).unwrap();
    let item = syn::parse_str::<syn::ItemFn>(&generated.render()).unwrap();
    assert_eq!(item.sig.ident.to_string(), "it_works");
    assert_eq!(item.attrs.len(), 1);
    assert_eq!(item.block.stmts.len(), 1);
}
