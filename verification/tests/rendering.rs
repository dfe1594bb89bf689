use project_init::context::{Context, RenderError};
use rustache::{HashBuilder, Render};
use project_init::template::{classify, name_char, TemplateKind, MAX_DEPTH};

#[test]
fn text_without_tags_is_plain() {
    assert_eq!(classify("hello, world"), TemplateKind::Plain);
    assert_eq!(classify(""), TemplateKind::Plain);
    assert_eq!(classify("fn main() { let x = {}; }"), TemplateKind::Plain);
    assert_eq!(classify("closing }} alone"), TemplateKind::Plain);
    assert_eq!(classify("one { brace {"), TemplateKind::Plain);
    assert_eq!(classify("{{name"), TemplateKind::Plain);
    assert_eq!(classify("{{name}"), TemplateKind::Plain);
    assert_eq!(classify("}} before {{ x"), TemplateKind::Plain);
    assert_eq!(classify("{{"), TemplateKind::Plain);
    assert_eq!(classify("{{}"), TemplateKind::Plain);
}

#[test]
fn well_formed_tags_are_supported() {
    assert_eq!(classify("{{name}}"), TemplateKind::Tagged);
    assert_eq!(classify("{{ name }}"), TemplateKind::Tagged);
    assert_eq!(classify("src/main.{{ext}}"), TemplateKind::Tagged);
    assert_eq!(classify("{{#files}}{{/files}}"), TemplateKind::Tagged);
    assert_eq!(classify("{{^missing}}none{{/missing}}"), TemplateKind::Tagged);
    assert_eq!(classify("{{&raw}} and {{github_username}}"), TemplateKind::Tagged);
    assert_eq!(classify("{{# spaced }}"), TemplateKind::Tagged);
    assert_eq!(classify("{{my-key}}}"), TemplateKind::Tagged);
    assert_eq!(classify("ok {{name}} then {{"), TemplateKind::Tagged);
    assert_eq!(classify("{{a}}{{b"), TemplateKind::Tagged);
}

#[test]
fn malformed_tags_are_unsupported() {
    assert_eq!(classify("{{}}"), TemplateKind::Unsupported);
    assert_eq!(classify("{{ }}"), TemplateKind::Unsupported);
    assert_eq!(classify("{{!comment}}"), TemplateKind::Unsupported);
    assert_eq!(classify("{{>partial}}"), TemplateKind::Unsupported);
    assert_eq!(classify("{{{raw}}}"), TemplateKind::Unsupported);
    assert_eq!(classify("{{name then }}"), TemplateKind::Unsupported);
    assert_eq!(classify("{{ open {{name}}"), TemplateKind::Unsupported);
    assert_eq!(classify("{{a.b}}"), TemplateKind::Unsupported);
    assert_eq!(classify("{{two words}}"), TemplateKind::Unsupported);
    assert_eq!(classify("{{\u{e9}}}"), TemplateKind::Unsupported);
    assert_eq!(classify("ok {{name}} then {{}}"), TemplateKind::Unsupported);
    assert_eq!(classify("{{ #name}}"), TemplateKind::Unsupported);
    assert_eq!(classify("{{\tname}}"), TemplateKind::Unsupported);
}

#[test]
fn name_characters() {
    assert!(name_char('a'));
    assert!(name_char('z'));
    assert!(name_char('A'));
    assert!(name_char('Z'));
    assert!(name_char('0'));
    assert!(name_char('9'));
    assert!(name_char('_'));
    assert!(name_char('-'));
    assert!(!name_char(' '));
    assert!(!name_char('.'));
    assert!(!name_char('{'));
    assert!(!name_char('}'));
    assert!(!name_char('\u{e9}'));
    assert!(!name_char('`'));
    assert!(!name_char('['));
    assert!(!name_char('/'));
    assert!(!name_char(':'));
}

#[test]
fn rendering_plain_text_returns_it_unchanged() {
    let context = Context::new().insert("name", "Ada");
    for text in [
        "",
        "plain",
        "a { b } c",
        "line one\nline two\n",
        "  <b>&\"  ",
        "}} {",
        "{{name",
        "{{ never closed",
        "}} closed before {{name",
    ] {
        assert_eq!(context.render(text), Ok(text.to_string()));
    }
}

#[test]
fn rendering_substitutes_bound_names() {
    let context = Context::new().insert("ext", "rs").insert("project", "demo");
    assert_eq!(context.render("src/main.{{ext}}"), Ok("src/main.rs".to_string()));
    assert_eq!(context.render("{{project}}/{{ project }}"), Ok("demo/demo".to_string()));
    assert_eq!(context.render("{{&project}}"), Ok("demo".to_string()));
}

#[test]
fn rendering_an_unbound_name_gives_nothing() {
    let context = Context::new().insert("ext", "rs");
    assert_eq!(context.render("a{{missing}}b"), Ok("ab".to_string()));
    assert_eq!(context.render("{{#missing}}inside{{/missing}}after"), Ok("after".to_string()));
}

#[test]
fn rendering_a_number() {
    let context = Context::new().insert_number("year", 2024);
    assert_eq!(context.render("(c) {{year}}"), Ok("(c) 2024".to_string()));
    let context = Context::new().insert_number("year", -44);
    assert_eq!(context.render("{{year}}"), Ok("-44".to_string()));
}

#[test]
fn rendering_a_list_writes_its_items_in_order() {
    let files = vec!["a.rs".to_string(), "b.rs".to_string()];
    let context = Context::new().insert_list("files", &files);
    assert_eq!(context.render("{{files}}"), Ok("a.rsb.rs".to_string()));
    let context = Context::new().insert_list("files", &Vec::new());
    assert_eq!(context.render("[{{files}}]"), Ok("[]".to_string()));
}

#[test]
fn a_later_binding_replaces_an_earlier_one() {
    let context = Context::new().insert("key", "first").insert("key", "second");
    assert_eq!(context.render("{{key}}"), Ok("second".to_string()));
    let context = Context::new().insert("key", "text").insert_number("key", 7);
    assert_eq!(context.render("{{key}}"), Ok("7".to_string()));
}

#[test]
fn rendering_escapes_markup_in_values() {
    let context = Context::new().insert("name", "A & B <c>");
    assert_eq!(context.render("{{name}}"), Ok("A &amp; B &lt;c&gt;".to_string()));
    assert_eq!(context.render("{{&name}}"), Ok("A & B <c>".to_string()));
}

#[test]
fn rendering_refuses_templates_outside_the_grammar() {
    let context = Context::new().insert("name", "Ada");
    assert_eq!(context.render("{{}}"), Err(RenderError::Unsupported));
    assert_eq!(context.render("{{!note}}"), Err(RenderError::Unsupported));
    assert_eq!(context.render("{{>partial}}"), Err(RenderError::Unsupported));
    assert_eq!(context.render("{{name }} {{"), Ok("Ada {{".to_string()));
    assert_eq!(context.render("{{ {{name}}"), Err(RenderError::Unsupported));
}

#[test]
fn rendering_reports_what_the_renderer_rejects() {
    let files = vec!["a.rs".to_string()];
    let context = Context::new().insert_list("files", &files);
    assert_eq!(context.render("{{#files}}x{{/files}}"), Err(RenderError::Rejected));
}

#[test]
fn rendering_keeps_text_around_tags() {
    let context = Context::new().insert("name", "Ada").insert_number("year", 1843);
    assert_eq!(
        context.render("Copyright (c) {{year}} {{name}}\n\nAll rights reserved.\n"),
        Ok("Copyright (c) 1843 Ada\n\nAll rights reserved.\n".to_string())
    );
    assert_eq!(context.render("{{name}}}"), Ok("".to_string()));
}

fn renders_or_is_rejected(context: &Context, template: &str) -> bool {
    match classify(template) {
        TemplateKind::Unsupported => {
            assert_eq!(context.render(template), Err(RenderError::Unsupported));
            false
        }
        TemplateKind::Plain => {
            assert_eq!(context.render(template), Ok(template.to_string()));
            false
        }
        TemplateKind::Tagged => match context.render(template) {
            Ok(_) => true,
            Err(reason) => {
                assert_eq!(reason, RenderError::Rejected);
                false
            }
        },
    }
}

fn a_context() -> Context {
    let items = vec!["x".to_string(), "y".to_string()];
    Context::new().insert("a", "text").insert_number("n", 5).insert_list("l", &items)
}

#[test]
fn pairs_of_pieces_render_or_are_rejected() {
    let pieces = [
        "", "a", " ", "\n", "{", "}", "}}", "{{", "\u{e9}", "<&\">", "{{a}}", "{{ a }}", "{{#a}}",
        "{{/a}}", "{{^a}}", "{{&a}}", "{{#l}}", "{{/l}}", "{{l}}", "{{n}}", "{{zz}}", "{{# a }}",
        "{{/ a}}", "{{^zz}}", "{{/zz}}", "{{a-b_c}}",
    ];
    let context = a_context();
    let mut rendered = 0;
    for first in pieces {
        for second in pieces {
            if renders_or_is_rejected(&context, &format!("{}{}", first, second)) {
                rendered += 1;
            }
        }
    }
    assert!(rendered > 200);
}

#[test]
fn nested_sections_render_or_are_rejected() {
    let pieces = ["x", "}", "{{", "\n ", "{{a}}", "{{#a}}", "{{/a}}", "{{^zz}}", "{{/zz}}", "{{#l}}", "{{/l}}"];
    let context = a_context();
    let mut rendered = 0;
    for first in pieces {
        for second in pieces {
            for third in pieces {
                if renders_or_is_rejected(&context, &format!("{}{}{}", first, second, third)) {
                    rendered += 1;
                }
            }
        }
    }
    assert!(rendered > 500);
}

#[test]
fn plain_text_is_what_the_renderer_itself_writes() {
    let context = Context::new().insert("name", "Ada");
    let keys = HashBuilder::new().insert("name", "Ada");
    for text in [
        "",
        "plain",
        "a { b } c",
        "line one\r\nline two\n\n",
        "  leading and trailing  ",
        "\t<b>&\"'\u{e9}\u{4e16}",
        "}} {",
        "{{name",
        "{{ never closed\n",
        "}} closed before {{name",
        "{ { name } }",
    ] {
        assert_eq!(classify(text), TemplateKind::Plain);
        let mut out: Vec<u8> = Vec::new();
        keys.render(text, &mut out).unwrap();
        assert_eq!(String::from_utf8(out).unwrap(), text);
        assert_eq!(context.render(text), Ok(text.to_string()));
    }
}

#[test]
fn sections_side_by_side_are_not_bounded() {
    assert_eq!(MAX_DEPTH, 64);
    let context = Context::new().insert("a", "v");
    let flat = "{{#a}}x{{/a}}".repeat(300);
    assert_eq!(classify(&flat), TemplateKind::Tagged);
    assert_eq!(context.render(&flat), Ok("x".repeat(300)));
    let inverted = "{{^zz}}y{{/zz}}".repeat(300);
    assert_eq!(classify(&inverted), TemplateKind::Tagged);
    assert_eq!(context.render(&inverted), Ok("y".repeat(300)));
    let values = "{{a}}{{&a}}{{/a}}".repeat(200);
    assert_eq!(classify(&values), TemplateKind::Tagged);
    assert_eq!(context.render(&values), Ok("vv".repeat(200)));
    let spaced = "{{# a }}x{{/ a }}".repeat(100);
    assert_eq!(classify(&spaced), TemplateKind::Tagged);
    assert_eq!(context.render(&spaced), Ok("x".repeat(100)));
}

#[test]
fn the_depth_of_sections_is_bounded() {
    let context = Context::new().insert("a", "v");
    let deep = format!("{}x{}", "{{#a}}".repeat(64), "{{/a}}".repeat(64));
    assert_eq!(classify(&deep), TemplateKind::Tagged);
    let too_deep = format!("{}x{}", "{{#a}}".repeat(65), "{{/a}}".repeat(65));
    assert_eq!(classify(&too_deep), TemplateKind::Unsupported);
    assert_eq!(context.render(&too_deep), Err(RenderError::Unsupported));
    let inverted = format!("{}x{}", "{{^a}}".repeat(65), "{{/a}}".repeat(65));
    assert_eq!(classify(&inverted), TemplateKind::Unsupported);
    let mixed = format!("{}{}", "{{#a}}".repeat(32), "{{^b}}".repeat(33));
    assert_eq!(classify(&mixed), TemplateKind::Unsupported);
    let never_closed = "{{#a}}".repeat(65);
    assert_eq!(classify(&never_closed), TemplateKind::Unsupported);
}

#[test]
fn a_closing_tag_closes_the_last_section_of_its_name() {
    // a tag of another name closes nothing, so the sections stay open
    let other_name = "{{#a}}x{{/b}}".repeat(65);
    assert_eq!(classify(&other_name), TemplateKind::Unsupported);
    let other_name = "{{#a}}x{{/b}}".repeat(64);
    assert_eq!(classify(&other_name), TemplateKind::Tagged);
    // a third brace belongs to the name, which then closes nothing
    let third_brace = "{{#a}}x{{/a}}}".repeat(65);
    assert_eq!(classify(&third_brace), TemplateKind::Unsupported);
    let both_third = "{{#a}}}x{{/a}}}".repeat(65);
    assert_eq!(classify(&both_third), TemplateKind::Tagged);
    let spaces_differ = "{{#a }}}x{{/a}}}".repeat(65);
    assert_eq!(classify(&spaces_differ), TemplateKind::Unsupported);
    // a closing tag closes the last section of its name, others stay open
    let crossing = "{{#a}}{{#b}}{{/a}}{{/b}}".repeat(200);
    assert_eq!(classify(&crossing), TemplateKind::Tagged);
    let stray = "{{/a}}{{/b}}".repeat(200);
    assert_eq!(classify(&stray), TemplateKind::Tagged);
    let context = Context::new().insert("a", "v").insert("b", "w");
    assert!(context.render(&crossing).is_ok());
    assert!(context.render(&stray).is_ok());
    assert!(context.render(&"{{#a}}x{{/b}}".repeat(64)).is_ok());
    assert!(context.render(&both_third).is_ok());
}

#[test]
fn sections_within_sections_render() {
    let context = Context::new().insert("a", "v").insert("b", "w");
    let nested = format!("{}x{}", "{{#a}}".repeat(64), "{{/a}}".repeat(64));
    assert_eq!(classify(&nested), TemplateKind::Tagged);
    assert!(context.render(&nested).is_ok());
    let mut alternating = String::new();
    for depth in 0..64 {
        alternating.push_str(if depth % 2 == 0 { "{{#a}}" } else { "{{#b}}" });
    }
    alternating.push_str("{{a}}");
    for depth in (0..64).rev() {
        alternating.push_str(if depth % 2 == 0 { "{{/a}}" } else { "{{/b}}" });
    }
    assert_eq!(classify(&alternating), TemplateKind::Tagged);
    assert!(context.render(&alternating).is_ok());
    let absent = format!("{}x{}", "{{^zz}}".repeat(64), "{{/zz}}".repeat(64));
    assert!(context.render(&absent).is_ok());
}
