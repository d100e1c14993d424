use notes_cli::templating::{
    get_templates, template_name, TemplateFile, Templates, DATE_FORMAT_OPTION, DATE_HELPER_NAME,
    EMPTY_TEMPLATE_NAME, INCLUSION_FAULT, TEMPLATE_EXTENSION, UNREADABLE_PARTIAL,
};
use serde_json::Value;

fn registry(files: Vec<(&str, &str)>) -> Templates {
    let files: Vec<TemplateFile> = files
        .into_iter()
        .map(|(name, source)| TemplateFile { name: name.to_string(), source: source.to_string() })
        .collect();
    get_templates(&files).unwrap()
}

fn object(fields: Vec<(&str, Value)>) -> Value {
    let mut map = serde_json::Map::new();
    for (name, value) in fields {
        map.insert(name.to_string(), value);
    }
    Value::Object(map)
}

fn text(value: &str) -> Value {
    Value::String(value.to_string())
}

fn timestamp(value: &str) -> Value {
    object(vec![("timestamp", text(value))])
}

#[test]
fn can_parse_iso_date() {
    let handlebars = registry(vec![]);

    let data = timestamp("2023-01-01T16:00");
    let t = handlebars.render_template("{{date timestamp}}", &data).unwrap();
    assert_eq!("2023-01-01", t);

    let data = timestamp("2023-01-01T16:00");
    let t = handlebars.render_template("{{date timestamp}}", &data).unwrap();
    assert_eq!("2023-01-01", t);
}

#[test]
fn can_parse_rfc3339_date() {
    let handlebars = registry(vec![]);

    let data = timestamp("2023-01-01T16:00:00+02:00");
    let t = handlebars.render_template("{{date timestamp}}", &data).unwrap();
    assert_eq!("2023-01-01", t);
}

#[test]
fn can_parse_rfc2822_date() {
    let handlebars = registry(vec![]);

    let data = timestamp("Mon, 1 Jan 2023 16:00:00 GMT");
    let t = handlebars.render_template("{{date timestamp}}", &data).unwrap();
    assert_eq!("2023-01-01", t);
}

#[test]
fn can_parse_custom_date() {
    let handlebars = registry(vec![]);

    let data = timestamp("2023-01-01 16:00:00");
    let t = handlebars.render_template("{{date timestamp}}", &data).unwrap();
    assert_eq!("2023-01-01", t);
}

#[test]
fn can_parse_custom2_date() {
    let handlebars = registry(vec![]);

    let data = timestamp("2023-01-01 16:00");
    let t = handlebars.render_template("{{date timestamp}}", &data).unwrap();
    assert_eq!("2023-01-01", t);
}

#[test]
fn can_parse_custom3_date() {
    let handlebars = registry(vec![]);

    let data = timestamp("2023-01-01 16");
    let t = handlebars.render_template("{{date timestamp}}", &data).unwrap();
    assert_eq!("2023-01-01", t);
}

#[test]
fn the_date_helper_takes_an_output_format() {
    let handlebars = registry(vec![]);
    let data = timestamp("2023-01-02 16:00:00");
    let t = handlebars
        .render_template("Date formatted: {{date timestamp fmt=\"[day]/[month]/[year]\"}}", &data)
        .unwrap();
    assert_eq!("Date formatted: 02/01/2023", t);
}

#[test]
fn the_date_helper_fails_the_render_on_an_unparseable_date() {
    let handlebars = registry(vec![]);
    let data = timestamp("not-a-date");
    let error = handlebars.render_template("before {{date timestamp}} after", &data).unwrap_err();
    assert!(error.contains("Could not parse date not-a-date"), "{}", error);
}

#[test]
fn the_date_helper_fails_the_render_without_a_text() {
    let handlebars = registry(vec![]);
    let data = object(vec![("number", Value::Bool(true)), ("when", text("2023-01-02 16:00"))]);
    let error = handlebars.render_template("{{date}}", &data).unwrap_err();
    assert!(error.contains("`date` helper: Couldn't read parameter dt"), "{}", error);
    for source in ["{{date missing}}", "{{date number}}", "{{date 5}}"] {
        let error = handlebars.render_template(source, &data).unwrap_err();
        assert!(
            error.contains("`date` helper: Couldn't convert parameter dt to type `String`"),
            "{}",
            error
        );
    }
    for source in ["{{date when fmt=number}}", "{{date when fmt=7}}", "{{date when fmt=missing}}"] {
        let error = handlebars.render_template(source, &data).unwrap_err();
        assert!(
            error.contains("`date` helper: Couldn't convert hash fmt to type `str`"),
            "{}",
            error
        );
    }
}

#[test]
fn the_date_helper_escapes_what_it_writes_as_the_engine_does() {
    let handlebars = registry(vec![]);
    let data = timestamp("2023-01-02 16:00:00");
    let escaped =
        handlebars.render_template("{{date timestamp fmt=\"[day]&[month]\"}}", &data).unwrap();
    assert_eq!("02&amp;01", escaped);
    let raw =
        handlebars.render_template("{{{date timestamp fmt=\"[day]&[month]\"}}}", &data).unwrap();
    assert_eq!("02&01", raw);
}

#[test]
fn the_registry_always_holds_the_empty_template() {
    let handlebars = registry(vec![]);
    assert_eq!(handlebars.render(EMPTY_TEMPLATE_NAME, &object(vec![])).unwrap(), "");
    assert_eq!(EMPTY_TEMPLATE_NAME, "empty");
}

#[test]
fn the_registry_holds_the_templates_it_was_given() {
    let handlebars = registry(vec![("greet", "Hello {{who}}"), ("bye", "Bye {{who}}")]);
    let data = object(vec![("who", text("Max"))]);
    assert_eq!(handlebars.render("greet", &data).unwrap(), "Hello Max");
    assert_eq!(handlebars.render("bye", &data).unwrap(), "Bye Max");
}

#[test]
fn a_later_template_replaces_an_earlier_one_of_its_name() {
    let handlebars = registry(vec![("greet", "first"), ("greet", "second"), ("empty", "full")]);
    assert_eq!(handlebars.render("greet", &object(vec![])).unwrap(), "second");
    assert_eq!(handlebars.render("empty", &object(vec![])).unwrap(), "full");
}

#[test]
fn templates_can_include_each_other() {
    let handlebars = registry(vec![("inner", "[{{who}}]"), ("outer", "<{{> inner}}>")]);
    let data = object(vec![("who", text("Max"))]);
    assert_eq!(handlebars.render("outer", &data).unwrap(), "<[Max]>");
    assert_eq!(handlebars.render_template("{{> inner}}!", &data).unwrap(), "[Max]!");
}

#[test]
fn rendering_an_unknown_template_fails() {
    let handlebars = registry(vec![]);
    assert!(handlebars.render("nowhere", &object(vec![])).is_err());
}

#[test]
fn rendering_a_malformed_template_text_fails() {
    let handlebars = registry(vec![]);
    assert!(handlebars.render_template("{{#if}}", &object(vec![])).is_err());
    assert!(handlebars.render_template("{{unknown_helper 1}}", &object(vec![])).is_err());
}

#[test]
fn rendering_reads_nested_fields_and_nulls() {
    let handlebars = registry(vec![]);
    let data = object(vec![
        ("meta", object(vec![("who", text("Max"))])),
        ("editor", Value::Null),
    ]);
    assert_eq!(
        handlebars.render_template("{{meta.who}}|{{editor}}|{{meta.nobody}}", &data).unwrap(),
        "Max||"
    );
}

#[test]
fn get_templates_names_the_first_malformed_template() {
    let files = vec![
        TemplateFile { name: "fine".to_string(), source: "ok".to_string() },
        TemplateFile { name: "broken".to_string(), source: "{{#if x}}".to_string() },
        TemplateFile { name: "worse".to_string(), source: "{{/each}}".to_string() },
    ];
    match get_templates(&files) {
        Err(error) => {
            assert_eq!(error.name, "broken");
            assert!(!error.cause.is_empty());
            assert_eq!(
                error.message(),
                format!("Could not register template broken: {}", error.cause)
            );
        }
        Ok(_) => panic!("a malformed template was registered"),
    }
}

#[test]
fn template_name_strips_the_template_extension() {
    assert_eq!(template_name("greet.hbs"), Some("greet".to_string()));
    assert_eq!(template_name("daily.note.hbs"), Some("daily.note".to_string()));
    assert_eq!(template_name("a.hbs"), Some("a".to_string()));
    assert_eq!(template_name("x.hbs.hbs"), Some("x.hbs".to_string()));
}

#[test]
fn template_name_passes_over_other_files() {
    assert_eq!(template_name("greet.txt"), None);
    assert_eq!(template_name("greet"), None);
    assert_eq!(template_name(""), None);
    assert_eq!(template_name("hbs"), None);
    assert_eq!(template_name("greet.hbs~"), None);
    assert_eq!(template_name("greet.HBS"), None);
}

#[test]
fn template_name_passes_over_hidden_and_temporary_files() {
    assert_eq!(template_name(".hbs"), None);
    assert_eq!(template_name(".hidden.hbs"), None);
    assert_eq!(template_name("#draft.hbs"), None);
}

#[test]
fn the_reserved_names_are_fixed() {
    assert_eq!(DATE_HELPER_NAME, "date");
    assert_eq!(DATE_FORMAT_OPTION, "fmt");
    assert_eq!(TEMPLATE_EXTENSION, ".hbs");
}

#[test]
fn templates_that_include_each_other_in_a_circle_are_registered_and_not_rendered() {
    let handlebars = registry(vec![("fine", "ok"), ("a", "{{> b}}"), ("b", "{{> a}}")]);
    let data = object(vec![]);
    assert_eq!(handlebars.render("a", &data), Err(INCLUSION_FAULT.to_string()));
    assert_eq!(handlebars.render("b", &data), Err(INCLUSION_FAULT.to_string()));
    assert_eq!(handlebars.render_template("{{> a}}", &data), Err(INCLUSION_FAULT.to_string()));
    assert_eq!(handlebars.render("fine", &data), Ok("ok".to_string()));
    assert_eq!(handlebars.render(EMPTY_TEMPLATE_NAME, &data), Ok("".to_string()));
    assert_eq!(handlebars.render_template("{{> fine}}!", &data), Ok("ok!".to_string()));
}

#[test]
fn a_longer_circle_is_not_rendered_from_any_of_its_templates() {
    let handlebars = registry(vec![("x", "{{> y}}"), ("y", "{{> z}}"), ("z", "{{> x}}")]);
    for name in ["x", "y", "z"] {
        assert_eq!(handlebars.render(name, &object(vec![])), Err(INCLUSION_FAULT.to_string()));
    }
}

#[test]
fn a_template_that_includes_itself_is_not_rendered() {
    let handlebars = registry(vec![("fine", "ok"), ("self", "again {{> self}}")]);
    assert_eq!(handlebars.render("self", &object(vec![])), Err(INCLUSION_FAULT.to_string()));
    assert_eq!(handlebars.render("fine", &object(vec![])), Ok("ok".to_string()));
}

#[test]
fn a_template_that_reaches_a_circle_is_not_rendered() {
    let handlebars = registry(vec![("top", "{{> a}}"), ("a", "{{> b}}"), ("b", "{{> a}}")]);
    assert_eq!(handlebars.render("top", &object(vec![])), Err(INCLUSION_FAULT.to_string()));
}

#[test]
fn a_circle_is_found_however_the_partial_is_written() {
    for tag in [
        "{{>b}}",
        "{{ > b }}",
        "{{~> b}}",
        "{{~ > b ~}}",
        "{{#> b}}x{{/b}}",
        "{{# > b}}x{{/b}}",
        "{{>\n b x=1}}",
    ] {
        let handlebars = registry(vec![("a", tag), ("b", "{{> a}}")]);
        assert_eq!(
            handlebars.render("a", &object(vec![])),
            Err(INCLUSION_FAULT.to_string()),
            "{}",
            tag
        );
    }
}

#[test]
fn a_template_whose_partials_cannot_be_read_is_registered_and_not_rendered() {
    for source in [
        "{{> (lookup this \"which\")}}",
        "{{> [a b]}}",
        "{{> 'quoted'}}",
        "{{#*inline \"x\"}}{{> x}}{{/inline}}{{> x}}",
        "{{#> fine}}{{#*inline \"x\"}}{{> odd}}{{/inline}}{{/fine}}",
    ] {
        let handlebars = registry(vec![("odd", source), ("uses", "{{> odd}}"), ("fine", "ok")]);
        let data = object(vec![]);
        assert_eq!(handlebars.render("odd", &data), Err(INCLUSION_FAULT.to_string()), "{}", source);
        assert_eq!(handlebars.render("uses", &data), Err(INCLUSION_FAULT.to_string()), "{}", source);
        assert_eq!(handlebars.render("fine", &data), Ok("ok".to_string()), "{}", source);
    }
}

#[test]
fn a_layout_is_given_the_block_and_the_inline_partials_of_its_page() {
    let handlebars = registry(vec![
        ("layout", "<h1>{{> title}}</h1><main>{{> @partial-block}}</main>{{> footer}}"),
        ("footer", "<f>{{who}}</f>"),
        ("page", "{{#> layout}}{{#*inline \"title\"}}About {{who}}{{/inline}}Hello{{/layout}}"),
        ("plain", "{{#> layout}}text{{/layout}}"),
    ]);
    let data = object(vec![("who", text("Max"))]);
    assert_eq!(
        handlebars.render("page", &data),
        Ok("<h1>About Max</h1><main>Hello</main><f>Max</f>".to_string())
    );
    assert_eq!(
        handlebars.render("plain", &data),
        Ok("<h1></h1><main>text</main><f>Max</f>".to_string())
    );
    assert_eq!(
        handlebars.render_template("{{> page}}!", &data),
        Ok("<h1>About Max</h1><main>Hello</main><f>Max</f>!".to_string())
    );
}

#[test]
fn inline_partials_are_rendered_where_they_are_included_after_their_texts() {
    let handlebars = registry(vec![("show", "[{{> item}}|{{> item}}]")]);
    let data = object(vec![("who", text("Max"))]);
    assert_eq!(
        handlebars.render_template("{{#*inline \"item\"}}<{{who}}>{{/inline}}{{> show}}", &data),
        Ok("[<Max>|<Max>]".to_string())
    );
    assert_eq!(
        handlebars.render_template("{{#*inline \"item\"}}x{{/inline}}{{> item}}{{> item}}", &data),
        Ok("xx".to_string())
    );
}

#[test]
fn a_layout_that_reaches_itself_is_not_rendered() {
    let handlebars = registry(vec![
        ("layout", "{{> @partial-block}}{{> page}}"),
        ("page", "{{#> layout}}x{{/layout}}"),
        ("again", "{{#> again}}x{{/again}}"),
        ("within", "{{#> box}}{{> within}}{{/box}}"),
        ("box", "{{> @partial-block}}"),
    ]);
    let data = object(vec![]);
    for name in ["layout", "page", "again", "within"] {
        assert_eq!(handlebars.render(name, &data), Err(INCLUSION_FAULT.to_string()), "{}", name);
    }
    assert_eq!(handlebars.render("box", &data), Ok("".to_string()));
}

#[test]
fn inclusions_that_end_are_registered_and_rendered() {
    let handlebars = registry(vec![
        ("leaf", "[{{who}}]"),
        ("left", "L{{> leaf}}"),
        ("right", "R{{> leaf}}"),
        ("top", "{{> left}}{{> right}}{{> leaf}}"),
        ("block", "{{#> nowhere}}fallback {{> leaf}}{{/nowhere}}"),
    ]);
    let data = object(vec![("who", text("Max"))]);
    assert_eq!(handlebars.render("top", &data).unwrap(), "L[Max]R[Max][Max]");
    assert_eq!(handlebars.render("block", &data).unwrap(), "fallback [Max]");
    assert_eq!(handlebars.render_template("{{> top}}!", &data).unwrap(), "L[Max]R[Max][Max]!");
}

#[test]
fn a_long_chain_of_inclusions_ends() {
    let names: Vec<String> = (0..12).map(|i| format!("t{}", i)).collect();
    let sources: Vec<String> = (0..12)
        .map(|i| if i == 11 { "end".to_string() } else { format!("{}>{{{{> t{}}}}}", i, i + 1) })
        .collect();
    let files: Vec<(&str, &str)> =
        names.iter().zip(sources.iter()).map(|(n, s)| (n.as_str(), s.as_str())).collect();
    let handlebars = registry(files);
    assert_eq!(
        handlebars.render("t0", &object(vec![])).unwrap(),
        "0>1>2>3>4>5>6>7>8>9>10>end"
    );
}

#[test]
fn a_partial_without_a_template_is_left_to_the_engine() {
    let handlebars = registry(vec![("a", "<{{> nowhere}}>")]);
    assert_eq!(handlebars.render("a", &object(vec![])), Ok("<>".to_string()));
}

#[test]
fn a_replaced_template_is_judged_by_its_last_text() {
    let handlebars = registry(vec![("a", "{{> a}}"), ("a", "fine")]);
    assert_eq!(handlebars.render("a", &object(vec![])).unwrap(), "fine");
    let handlebars = registry(vec![("a", "fine"), ("a", "{{> a}}")]);
    assert_eq!(handlebars.render("a", &object(vec![])), Err(INCLUSION_FAULT.to_string()));
}

#[test]
fn a_template_text_whose_partials_cannot_be_read_is_not_rendered() {
    let handlebars = registry(vec![("inner", "in")]);
    let data = object(vec![("which", text("inner"))]);
    for source in [
        "{{> (lookup . \"which\")}}",
        "{{> (lookup this \"which\")}}",
        "{{> 'inner'}}",
        "{{#*inline \"x\"}}{{> x}}{{/inline}}{{> x}}",
    ] {
        assert_eq!(
            handlebars.render_template(source, &data),
            Err(UNREADABLE_PARTIAL.to_string()),
            "{}",
            source
        );
    }
    assert_eq!(handlebars.render_template("{{> inner}}", &data), Ok("in".to_string()));
    assert_eq!(handlebars.render_template("<{{> @partial-block}}>", &data), Ok("<>".to_string()));
}

#[test]
fn a_registry_is_built_from_every_set_of_templates_that_compile() {
    let files = vec![
        TemplateFile { name: "a".to_string(), source: "{{> b}}".to_string() },
        TemplateFile { name: "b".to_string(), source: "{{> a}}".to_string() },
        TemplateFile { name: "layout".to_string(), source: "{{> @partial-block}}".to_string() },
        TemplateFile {
            name: "page".to_string(),
            source: "{{#> layout}}{{#*inline \"t\"}}x{{/inline}}{{/layout}}".to_string(),
        },
    ];
    assert!(get_templates(&files).is_ok());
    assert!(get_templates(&vec![]).is_ok());
}
