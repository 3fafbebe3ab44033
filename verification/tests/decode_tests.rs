use rustdoc_index::decode::{decode_f, decode_type55_list};
use rustdoc_index::doc::{Crate, ItemType, ParentType, ParseItemTypeError, Type1_55_0, Types, F};
use rustdoc_index::json::Json;
use rustdoc_index::{parse_line, split_records, Error};

fn record_line(body: &str) -> String {
    format!("\"c\":{{\"p\":[],\"t\":[],\"n\":[],\"q\":[],\"d\":[],\"i\":[],\"f\":{}}},", body)
}

fn parse_f_field(body: &str) -> F {
    let (name, krate) = parse_line(&record_line(body)).unwrap();
    assert_eq!(name, "c");
    krate.f
}

#[test]
fn parse_f() {
    let f = parse_f_field("[null]");
    assert!(matches!(&f, F::V1_53_0(v) if v.len() == 1 && v[0].is_none()));
    let f = parse_f_field(r#"[[[]]]"#);
    assert!(matches!(&f, F::V1_53_0(v) if v.len() == 1));
    let f = parse_f_field(r#"[[[], ["osstr", 3]]]"#);
    assert!(matches!(&f, F::V1_53_0(v)
        if matches!(&v[0], Some(Types::WithResponse(args, _)) if args.is_empty())));
    let f = parse_f_field(r#"[[[["usize", 15]]]]"#);
    assert!(matches!(&f, F::V1_53_0(v)
        if matches!(&v[0], Some(Types::OnlyArgs(args))
            if args.len() == 1 && args[0].0 == "usize" && args[0].1 == ItemType::Primitive)));
    let list: Vec<Type1_55_0> = decode_type55_list(&Json::Arr(vec![
        Json::Arr(vec![Json::Str("pathbuf".to_string()), Json::Num(3)]),
        Json::Arr(vec![
            Json::Str("result".to_string()),
            Json::Num(6),
            Json::Arr(vec![Json::Str("pathbuf".to_string())]),
        ]),
    ]))
    .unwrap();
    assert_eq!(list.len(), 2);
    assert_eq!(list[0].name, "pathbuf");
    assert_eq!(list[0].kind, ItemType::Struct);
    assert!(list[0].generics.is_none());
    assert_eq!(list[1].name, "result");
    assert_eq!(list[1].kind, ItemType::Typedef);
    assert_eq!(list[1].generics.as_ref().unwrap(), &vec!["pathbuf".to_string()]);
    let f = parse_f_field(
        r#"[[
                [],
                [["pathbuf", 3], ["result", 6, ["pathbuf"]]]
            ]]"#,
    );
    assert!(matches!(&f, F::V1_55_0(_)));
    let f = parse_f_field(
        r#"[[
                [["utf8path", 3]],
                ["ordering", 4]
            ]]"#,
    );
    assert!(matches!(&f, F::V1_53_0(_)));
}

#[test]
fn kind_string_codec_round_trips() {
    let kinds = [
        ItemType::Module,
        ItemType::ExternCrate,
        ItemType::Import,
        ItemType::Struct,
        ItemType::Enum,
        ItemType::Function,
        ItemType::Typedef,
        ItemType::Static,
        ItemType::Trait,
        ItemType::Impl,
        ItemType::TyMethod,
        ItemType::Method,
        ItemType::StructField,
        ItemType::Variant,
        ItemType::Macro,
        ItemType::Primitive,
        ItemType::AssocType,
        ItemType::Constant,
        ItemType::AssocConst,
        ItemType::Union,
        ItemType::ForeignType,
        ItemType::Keyword,
        ItemType::OpaqueTy,
        ItemType::ProcAttribute,
        ItemType::ProcDerive,
        ItemType::TraitAlias,
        ItemType::Generic,
    ];
    for k in kinds {
        assert_eq!(ItemType::from_str(k.as_str()), Ok(k));
        assert_eq!(ItemType::from_code(k.code()), Some(k));
    }
    assert_eq!(ItemType::from_str("nonsense"), Err(ParseItemTypeError));
    assert_eq!(ItemType::from_str("struct"), Ok(ItemType::Struct));
    assert_eq!(ItemType::as_str(&ItemType::Method), "method");
    assert_eq!(ItemType::from_code(11), Some(ItemType::Method));
    assert_eq!(ItemType::from_code(13), Some(ItemType::Variant));
    assert_eq!(ItemType::from_code(27), None);
    assert_eq!(ParentType::from_code(3), Some(ParentType::Struct));
    assert_eq!(ParentType::from_code(5), None);
}

#[test]
fn catalog_lines_at_crate_root() {
    let krate = Crate {
        p: vec![],
        t: vec![ItemType::Struct, ItemType::Function],
        n: vec!["Alpha".to_string(), "beta".to_string()],
        f: F::V1_53_0(vec![None, None]),
        q: vec![String::new(), String::new()],
        d: vec![String::new(), String::new()],
        i: vec![0, 0],
    };
    let lines = krate.items("mycrate").unwrap();
    assert_eq!(lines, vec!["mycrate::Alpha\tstruct".to_string(), "mycrate::beta\tfn".to_string()]);
}

#[test]
fn catalog_line_through_parent_table() {
    let krate = Crate {
        p: vec![(ParentType::Struct, "Foo".to_string())],
        t: vec![ItemType::Module, ItemType::StructField],
        n: vec!["m".to_string(), "0".to_string()],
        f: F::V1_53_0(vec![None, None]),
        q: vec!["c::m".to_string(), String::new()],
        d: vec![String::new(), String::new()],
        i: vec![0, 1],
    };
    let lines = krate.items("c").unwrap();
    assert_eq!(lines[1], "c::m::Foo::0\tstructfield");
}

#[test]
fn catalog_reads_unequal_arrays_in_lockstep() {
    let krate = Crate {
        p: vec![],
        t: vec![ItemType::Struct, ItemType::Function],
        n: vec!["Alpha".to_string()],
        f: F::V1_53_0(vec![]),
        q: vec![String::new(), String::new()],
        d: vec![],
        i: vec![0, 0],
    };
    let lines = krate.items("c").unwrap();
    assert_eq!(lines, vec!["c::Alpha\tstruct".to_string()]);
}

#[test]
fn catalog_rejects_out_of_range_parent_index() {
    let krate = Crate {
        p: vec![],
        t: vec![ItemType::Struct],
        n: vec!["Alpha".to_string()],
        f: F::V1_53_0(vec![None]),
        q: vec![String::new()],
        d: vec![String::new()],
        i: vec![1],
    };
    match krate.items("c") {
        Err(Error::Decode(name, _)) => assert_eq!(name, "c"),
        other => panic!("expected a decode error, got {:?}", other),
    }
}

#[test]
fn record_without_colon_is_invalid_format() {
    match parse_line("no colon in this line") {
        Err(Error::InvalidFormat(text)) => assert_eq!(text, "no colon in this line"),
        other => panic!("expected InvalidFormat, got {:?}", other),
    }
}

#[test]
fn malformed_record_does_not_abort_siblings() {
    let lines = vec![
        "preamble line to be discarded".to_string(),
        "no colon in this line".to_string(),
        record_line("[null]"),
        "initSearch(searchIndex);".to_string(),
    ];
    let results = split_records(&lines);
    assert_eq!(results.len(), 2);
    assert!(matches!(&results[0], Err(Error::InvalidFormat(_))));
    let (name, krate) = results[1].as_ref().unwrap();
    assert_eq!(name, "c");
    assert_eq!(krate.t.len(), 0);
}

#[test]
fn escaped_record_body_is_unescaped_before_parsing() {
    // one crate per line, embedded as an escaped string literal: the quotes
    // of the JSON body arrive as \" and a trailing continuation backslash
    // ends the line
    let line = "\"esc\":{\\\"p\\\":[],\\\"t\\\":[3],\\\"n\\\":[\\\"A\\\"],\\\"q\\\":[\\\"esc\\\"],\\\"d\\\":[\\\"\\\"],\\\"i\\\":[0],\\\"f\\\":[null]},\\";
    let unescaped_line = line.replace("\\\"", "\"");
    assert_ne!(line, unescaped_line);
    let (name, krate) = parse_line(line).unwrap();
    assert_eq!(name, "esc");
    assert_eq!(krate.t, vec![ItemType::Struct]);
    assert_eq!(krate.n, vec!["A".to_string()]);
    let lines = krate.items("esc").unwrap();
    assert_eq!(lines, vec!["esc::A\tstruct".to_string()]);
}

#[test]
fn unknown_kind_code_fails_the_crate_record() {
    let line = record_line("[null]").replace("\"t\":[]", "\"t\":[99]");
    match parse_line(&line) {
        Err(Error::Decode(name, _)) => assert_eq!(name, "c"),
        other => panic!("expected a decode error, got {:?}", other),
    }
}

#[test]
fn unmatched_signature_shape_fails_the_crate_record() {
    let line = record_line("[true]");
    match parse_line(&line) {
        Err(Error::Decode(name, _)) => assert_eq!(name, "c"),
        other => panic!("expected a decode error, got {:?}", other),
    }
}

#[test]
fn generation_c_signatures_decode() {
    let f = parse_f_field(r#"[[[["vec", 3, [["u8", 15]]]]]]"#);
    match &f {
        F::V1_58_0(v) => {
            assert_eq!(v.len(), 1);
        }
        other => panic!("expected the recursive generation, got {:?}", other),
    }
    let json = Json::Arr(vec![Json::Null]);
    assert!(matches!(decode_f(&json), Some(F::V1_53_0(_))));
}
