use project_init::context::{Context, RenderError};
use project_init::template::{classify, TemplateKind};

fn run(seed: u64, rounds: usize) -> usize {
    let pieces = [
        "a", " ", "\n", "\r\n", "\t", "{", "}", "}}", "{{", "\u{e9}", "\u{4e16}", "<&\">", "{{a}}",
        "{{ a }}", "{{#a}}", "{{/a}}", "{{^a}}", "{{&a}}", "{{#l}}", "{{/l}}", "{{l}}", "{{n}}",
        "{{zz}}", "{{# a }}", "{{/ a}}", "{{^zz}}", "{{/zz}}", "{{a-b_c}}", "{{#n}}", "{{/n}}",
        "{{^l}}", "{{&l}}", "{{&n}}", "{{#zz}}", "{{-}}", "{{_}}", "{{0}}", "{{/  a  }}",
    ];
    let items = vec!["x".to_string(), "<y>".to_string()];
    let context = Context::new()
        .insert("a", "text & more")
        .insert_number("n", -5)
        .insert_list("l", &items)
        .insert("a-b_c", "dash");
    let mut state = seed;
    let mut rendered = 0;
    for _ in 0..rounds {
        let mut template = String::new();
        state = state.wrapping_mul(6364136223846793005).wrapping_add(1442695040888963407);
        let length = 1 + (state >> 33) % 9;
        for _ in 0..length {
            state = state.wrapping_mul(6364136223846793005).wrapping_add(1442695040888963407);
            let index = ((state >> 33) % pieces.len() as u64) as usize;
            template.push_str(pieces[index]);
        }
        match classify(&template) {
            TemplateKind::Unsupported => {
                assert_eq!(context.render(&template), Err(RenderError::Unsupported));
            }
            TemplateKind::Plain => {
                assert_eq!(context.render(&template), Ok(template.clone()));
            }
            TemplateKind::Tagged => match context.render(&template) {
                Ok(_) => rendered += 1,
                Err(reason) => assert_eq!(reason, RenderError::Rejected),
            },
        }
    }
    rendered
}

#[test]
fn random_templates_render_or_are_refused() {
    assert!(run(1, 3000) > 100);
}

#[test]
fn more_random_templates_render_or_are_refused() {
    assert!(run(0x5eed, 3000) > 100);
}
